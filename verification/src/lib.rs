pub mod agent;
pub mod aspect;
pub mod data_types;
pub mod decimal;
pub mod dht;
pub mod entry;
pub mod fresh;
pub mod ghost_actor;
pub mod log;
pub mod network;
pub mod space;
