pub mod output;
pub mod image;
