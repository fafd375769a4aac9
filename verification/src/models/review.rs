use vstd::prelude::*;

verus! {

/// A review one user leaves another for a skill. `created_at` is in
/// microseconds since the Unix epoch.
pub struct Review {
    pub review_id: i32,
    pub sender_id: i32,
    pub receiver_id: i32,
    pub skill_id: i32,
    pub rating: i32,
    pub comment: String,
    pub created_at: i64,
}

} // verus!
