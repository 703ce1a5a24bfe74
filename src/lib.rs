pub mod document;
pub mod startup;
pub mod store;
