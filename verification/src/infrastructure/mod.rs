pub mod factory;
pub mod google;
pub mod id;
pub mod openai;
