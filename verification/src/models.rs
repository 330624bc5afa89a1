pub mod provider;
