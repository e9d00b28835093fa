pub mod connection;
pub mod fixture;
