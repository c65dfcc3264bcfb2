pub mod handler;
pub mod handlers;
pub mod metadata;
pub mod tools;
