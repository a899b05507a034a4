pub mod types;
pub mod block;
pub mod registry;
pub mod catalog;
pub mod core_catalogue;
