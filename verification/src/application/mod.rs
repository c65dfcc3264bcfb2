pub mod image;
