pub mod browser;
pub mod catalog;
pub mod registry;
pub mod session;
