pub mod category;
pub mod message;
pub mod request;
pub mod review;
pub mod user;
pub mod user_skills;
