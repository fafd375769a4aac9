use vstd::prelude::*;

verus! {

/// A category of skills. `created_at` is in microseconds since the Unix epoch.
pub struct Category {
    pub category_id: i32,
    pub title: String,
    pub description: String,
    pub created_at: i64,
}

} // verus!
