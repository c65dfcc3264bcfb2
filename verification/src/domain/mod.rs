pub mod config;
pub mod errors;
pub mod output;
pub mod session;
pub mod traits;
