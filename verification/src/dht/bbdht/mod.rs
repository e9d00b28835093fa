pub mod dynamodb;
pub mod error;
