pub mod api;
pub mod client;
pub mod request;
pub mod schema;
pub mod store;
