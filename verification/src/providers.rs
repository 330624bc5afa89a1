pub mod catalog;
pub mod definition;
pub mod registry;
