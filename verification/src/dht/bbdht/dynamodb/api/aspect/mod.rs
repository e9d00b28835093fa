pub mod read;
pub mod write;
