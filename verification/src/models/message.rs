use vstd::prelude::*;

verus! {

/// A chat message. `created_at` is in microseconds since the Unix epoch.
pub struct Message {
    pub message_id: i32,
    pub sender_id: i32,
    pub receiver_id: i32,
    pub content: String,
    pub created_at: i64,
}

} // verus!
