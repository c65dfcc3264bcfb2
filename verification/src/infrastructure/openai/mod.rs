pub mod utils;
pub mod client;
