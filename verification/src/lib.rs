//! Request handling rules of the SkillXchange backend: who may reach which
//! route, how registration, login and token refresh proceed, and what each
//! endpoint answers for every outcome of its database work.

pub mod middleware;
pub mod http;
pub mod text;
pub mod handlers;
pub mod password;
pub mod clock;
pub mod models;
pub mod laws;
