pub mod client;
pub mod request;
pub mod types;
