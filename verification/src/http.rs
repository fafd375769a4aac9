use vstd::prelude::*;

verus! {

/// The status line of an answer.
#[derive(Clone, Copy, Debug, PartialEq, Eq, Structural)]
pub enum Status {
    Success,
    BadRequest,
    Unauthorized,
    Forbidden,
    NotFound,
    InternalServerError,
}

/// The body of an answer: a value sent as JSON, a JSON object `{"message": ..}`,
/// or plain text.
pub enum Body<T> {
    Json(T),
    Message(String),
    Text(String),
}

/// An answer to a request.
pub struct Reply<T> {
    pub status: Status,
    pub body: Body<T>,
}

/// What a handler does next: run a database operation and come back with its
/// outcome, answer the request, or stop the worker with a message (the
/// handler's last resort, where it cannot go on).
pub enum Step<Q, T> {
    Run(Q),
    Respond(Reply<T>),
    Fail(String),
}

/// A failed database operation: whether the row asked for was missing, and
/// the error's text.
pub struct DbError {
    pub row_not_found: bool,
    pub detail: String,
}

/// `r` is a plain-text answer with this status and text.
pub open spec fn is_text<T>(r: Reply<T>, status: Status, text: Seq<char>) -> bool {
    &&& r.status == status
    &&& r.body matches Body::Text(s) && s@ == text
}

/// `r` is a `{"message": ..}` answer with this status and message.
pub open spec fn is_message<T>(r: Reply<T>, status: Status, text: Seq<char>) -> bool {
    &&& r.status == status
    &&& r.body matches Body::Message(s) && s@ == text
}

/// `r` answers 200 with `value` as JSON.
pub open spec fn is_json<T>(r: Reply<T>, value: T) -> bool {
    &&& r.status == Status::Success
    &&& r.body == Body::Json(value)
}

/// `s` answers with plain text.
pub open spec fn responds_text<Q, T>(s: Step<Q, T>, status: Status, text: Seq<char>) -> bool {
    s matches Step::Respond(r) && is_text(r, status, text)
}

/// `s` answers with a `{"message": ..}` object.
pub open spec fn responds_message<Q, T>(s: Step<Q, T>, status: Status, text: Seq<char>) -> bool {
    s matches Step::Respond(r) && is_message(r, status, text)
}

/// `s` stops the worker with this message.
pub open spec fn fails_with<Q, T>(s: Step<Q, T>, text: Seq<char>) -> bool {
    s matches Step::Fail(m) && m@ == text
}

/// A plain-text answer.
pub fn text_reply<T>(status: Status, text: &str) -> (r: Reply<T>)
    ensures
        is_text(r, status, text@),
{
    Reply { status, body: Body::Text(String::from_str(text)) }
}

/// A `{"message": ..}` answer.
pub fn message_reply<T>(status: Status, text: &str) -> (r: Reply<T>)
    ensures
        is_message(r, status, text@),
{
    Reply { status, body: Body::Message(String::from_str(text)) }
}

/// A 200 answer carrying `value` as JSON.
pub fn json_reply<T>(value: T) -> (r: Reply<T>)
    ensures
        is_json(r, value),
{
    Reply { status: Status::Success, body: Body::Json(value) }
}

/// A 500 plain-text answer: `prefix` followed by the database error's text.
pub fn db_failure<T>(prefix: &str, e: &DbError) -> (r: Reply<T>)
    ensures
        is_text(r, Status::InternalServerError, prefix@ + e.detail@),
{
    let text = String::from_str(prefix).concat(e.detail.as_str());
    Reply { status: Status::InternalServerError, body: Body::Text(text) }
}

/// The usual answer to a read or a write that returns rows: 200 with them, or
/// 500 with `prefix` and the error's text.
pub open spec fn json_or_failure<T>(result: Result<T, DbError>, prefix: Seq<char>, r: Reply<T>) -> bool {
    match result {
        Ok(value) => is_json(r, value),
        Err(e) => is_text(r, Status::InternalServerError, prefix + e.detail@),
    }
}

/// Answers 200 with the rows, or 500 with `prefix` and the error's text.
pub fn reply_json_or_failure<T>(result: Result<T, DbError>, prefix: &str) -> (r: Reply<T>)
    ensures
        json_or_failure(result, prefix@, r),
{
    match result {
        Ok(value) => json_reply(value),
        Err(e) => db_failure(prefix, &e),
    }
}

/// The usual answer to a lookup of one row: 200 with it, or 404 with `missing`.
pub open spec fn json_or_not_found<T>(result: Result<T, DbError>, missing: Seq<char>, r: Reply<T>) -> bool {
    match result {
        Ok(value) => is_json(r, value),
        Err(_) => is_text(r, Status::NotFound, missing),
    }
}

/// Answers 200 with the row, or 404 with `missing`.
pub fn reply_json_or_not_found<T>(result: Result<T, DbError>, missing: &str) -> (r: Reply<T>)
    ensures
        json_or_not_found(result, missing@, r),
{
    match result {
        Ok(value) => json_reply(value),
        Err(_) => text_reply(Status::NotFound, missing),
    }
}

/// The usual answer to a write that returns nothing: 200 with `done`, or 500
/// with `prefix` and the error's text.
pub open spec fn done_or_failure<T>(result: Result<(), DbError>, done: Seq<char>, prefix: Seq<char>, r: Reply<T>) -> bool {
    match result {
        Ok(_) => is_text(r, Status::Success, done),
        Err(e) => is_text(r, Status::InternalServerError, prefix + e.detail@),
    }
}

/// Answers 200 with `done`, or 500 with `prefix` and the error's text.
pub fn reply_done_or_failure<T>(result: Result<(), DbError>, done: &str, prefix: &str) -> (r: Reply<T>)
    ensures
        done_or_failure(result, done@, prefix@, r),
{
    match result {
        Ok(_) => text_reply(Status::Success, done),
        Err(e) => db_failure(prefix, &e),
    }
}

/// The worker stops with this message.
pub fn fail<Q, T>(text: &str) -> (s: Step<Q, T>)
    ensures
        fails_with(s, text@),
{
    Step::Fail(String::from_str(text))
}

} // verus!
