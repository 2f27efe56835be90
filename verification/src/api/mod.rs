pub mod guarantees;
pub mod user_api;
