pub mod create;
pub mod exist;
