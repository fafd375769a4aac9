use vstd::prelude::*;

verus! {

/// A user account. `created_at` is in microseconds since the Unix epoch.
pub struct User {
    pub user_id: i32,
    pub username: String,
    pub email: String,
    pub password_hash: String,
    pub role: String,
    pub profile_picture: Option<String>,
    pub bio: Option<String>,
    pub created_at: i64,
}

} // verus!
