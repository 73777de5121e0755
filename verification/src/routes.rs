pub mod account;
pub mod auth;
pub mod users;
