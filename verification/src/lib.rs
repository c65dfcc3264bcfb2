pub mod adapter;
pub mod application;
pub mod cli;
pub mod codec;
pub mod domain;
pub mod infrastructure;
pub mod text;
