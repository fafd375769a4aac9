pub mod auth;
pub mod category;
pub mod skill;
pub mod message;
pub mod request;
pub mod review;
pub mod user;
