pub mod nano_banana;
pub mod openai_gen;
pub mod shared;
pub mod standard;
