pub mod auth;
pub mod roles;
