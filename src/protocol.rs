pub mod command;
pub mod response;
pub mod types;
pub mod version;
