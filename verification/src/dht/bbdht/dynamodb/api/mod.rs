pub mod agent;
pub mod aspect;
pub mod fixture;
pub mod item;
pub mod space;
pub mod table;
