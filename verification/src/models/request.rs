use vstd::prelude::*;

verus! {

/// A request from one user to another to share a skill. `created_at` is in
/// microseconds since the Unix epoch.
pub struct Request {
    pub request_id: i32,
    pub sender_id: i32,
    pub receiver_id: i32,
    pub skill_id: i32,
    pub status: String,
    pub cover_letter: String,
    pub created_at: i64,
}

} // verus!
