pub mod create;
pub mod delete;
pub mod describe;
pub mod exist;
pub mod fixture;
