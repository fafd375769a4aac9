use vstd::prelude::*;

use crate::http::{
    done_or_failure, json_or_failure, reply_done_or_failure, reply_json_or_failure, responds_text, text_reply,
    DbError, Reply, Status, Step,
};
use crate::models::request::Request;
use crate::text::same_text;

verus! {

/// A new request to another user for a skill.
pub struct CreateRequest {
    pub receiver_id: i32,
    pub skill_id: i32,
    pub cover_letter: String,
}

/// The answer a receiver gives to a request.
pub struct UpdateRequestStatus {
    pub status: String,
}

/// A request as the API shows it. `created_at` is in microseconds since the
/// Unix epoch.
pub struct RequestResponse {
    pub request_id: i32,
    pub sender_id: i32,
    pub receiver_id: i32,
    pub skill_id: i32,
    pub status: String,
    pub cover_letter: String,
    pub created_at: i64,
}

/// The database work of the request endpoints.
pub enum RequestQuery {
    /// The requests this user sent, newest first.
    Sent { user_id: i32 },
    /// The requests this user received, newest first.
    Received { user_id: i32 },
    /// Store a request and read it back.
    Insert { sender_id: i32, receiver_id: i32, skill_id: i32, status: String, cover_letter: String },
    /// The request with this id.
    Find { request_id: i32 },
    /// Set the request's status and read it back.
    SetStatus { request_id: i32, status: String },
    /// Remove the request.
    Delete { request_id: i32 },
}

/// The status a new request starts in.
pub open spec fn pending_status() -> Seq<char> {
    "pending"@
}

/// The statuses a receiver may answer with.
pub open spec fn is_answer_status(status: Seq<char>) -> bool {
    status == "accept"@ || status == "decline"@
}

/// Whether `status` is one a receiver may answer with.
pub fn is_valid_answer(status: &str) -> (r: bool)
    ensures
        r == is_answer_status(status@),
{
    same_text(status, "accept") || same_text(status, "decline")
}

/// The requests the requesting user sent.
pub fn get_sent_requests(user_id: i32) -> (q: RequestQuery)
    ensures
        q == (RequestQuery::Sent { user_id }),
{
    RequestQuery::Sent { user_id }
}

/// Answers the requests the user sent.
pub fn get_sent_requests_reply(listed: Result<Vec<RequestResponse>, DbError>) -> (r: Reply<Vec<RequestResponse>>)
    ensures
        json_or_failure(listed, "Ошибка: "@, r),
{
    reply_json_or_failure(listed, "Ошибка: ")
}

/// The requests the requesting user received.
pub fn get_received_requests(user_id: i32) -> (q: RequestQuery)
    ensures
        q == (RequestQuery::Received { user_id }),
{
    RequestQuery::Received { user_id }
}

/// Answers the requests the user received.
pub fn get_received_requests_reply(listed: Result<Vec<RequestResponse>, DbError>) -> (r: Reply<
    Vec<RequestResponse>,
>)
    ensures
        json_or_failure(listed, "Ошибка: "@, r),
{
    reply_json_or_failure(listed, "Ошибка: ")
}

/// Sending a request: the requesting user is its sender and it starts pending.
pub fn create_request(sender_id: i32, form: CreateRequest) -> (q: RequestQuery)
    ensures
        q matches RequestQuery::Insert { sender_id: s, receiver_id, skill_id, status, cover_letter } && {
            &&& s == sender_id
            &&& receiver_id == form.receiver_id
            &&& skill_id == form.skill_id
            &&& status@ == pending_status()
            &&& cover_letter == form.cover_letter
        },
{
    RequestQuery::Insert {
        sender_id,
        receiver_id: form.receiver_id,
        skill_id: form.skill_id,
        status: String::from_str("pending"),
        cover_letter: form.cover_letter,
    }
}

/// Answers the sending of a request.
pub fn create_request_reply(created: Result<RequestResponse, DbError>) -> (r: Reply<RequestResponse>)
    ensures
        json_or_failure(created, "Ошибка: "@, r),
{
    reply_json_or_failure(created, "Ошибка: ")
}

/// Answering a request, first step: read it.
pub fn update_request_status(request_id: i32) -> (q: RequestQuery)
    ensures
        q == (RequestQuery::Find { request_id }),
{
    RequestQuery::Find { request_id }
}

/// What answering does with the request read: only its receiver may answer,
/// and only with `accept` or `decline`.
pub open spec fn update_request_status_post(
    user_id: i32,
    request_id: i32,
    form: UpdateRequestStatus,
    found: Result<Request, DbError>,
    s: Step<RequestQuery, RequestResponse>,
) -> bool {
    match found {
        Err(_) => responds_text(s, Status::NotFound, "Запрос не найден"@),
        Ok(request) => if request.receiver_id != user_id {
            responds_text(s, Status::Forbidden, "Только получатель может обновить статус запроса"@)
        } else if !is_answer_status(form.status@) {
            responds_text(s, Status::BadRequest, "Недопустимый статус. Используйте 'accept' или 'decline'"@)
        } else {
            s == Step::<RequestQuery, RequestResponse>::Run(RequestQuery::SetStatus { request_id, status: form.status })
        },
    }
}

/// Answering a request, second step.
pub fn update_request_status_after_lookup(
    user_id: i32,
    request_id: i32,
    form: UpdateRequestStatus,
    found: Result<Request, DbError>,
) -> (s: Step<RequestQuery, RequestResponse>)
    ensures
        update_request_status_post(user_id, request_id, form, found, s),
{
    match found {
        Err(_) => Step::Respond(text_reply(Status::NotFound, "Запрос не найден")),
        Ok(request) => {
            if request.receiver_id != user_id {
                return Step::Respond(
                    text_reply(Status::Forbidden, "Только получатель может обновить статус запроса"),
                );
            }
            if !is_valid_answer(form.status.as_str()) {
                return Step::Respond(
                    text_reply(Status::BadRequest, "Недопустимый статус. Используйте 'accept' или 'decline'"),
                );
            }
            Step::Run(RequestQuery::SetStatus { request_id, status: form.status })
        },
    }
}

/// Answers the answering of a request.
pub fn update_request_status_reply(updated: Result<RequestResponse, DbError>) -> (r: Reply<RequestResponse>)
    ensures
        json_or_failure(updated, "Ошибка: "@, r),
{
    reply_json_or_failure(updated, "Ошибка: ")
}

/// Withdrawing a request, first step: read it.
pub fn delete_request(request_id: i32) -> (q: RequestQuery)
    ensures
        q == (RequestQuery::Find { request_id }),
{
    RequestQuery::Find { request_id }
}

/// What withdrawing does with the request read: only its sender may remove it.
pub open spec fn delete_request_post(
    user_id: i32,
    request_id: i32,
    found: Result<Request, DbError>,
    s: Step<RequestQuery, ()>,
) -> bool {
    match found {
        Err(_) => responds_text(s, Status::NotFound, "Запрос не найден"@),
        Ok(request) => if request.sender_id != user_id {
            responds_text(s, Status::Forbidden, "Только отправитель может удалить запрос"@)
        } else {
            s == Step::<RequestQuery, ()>::Run(RequestQuery::Delete { request_id })
        },
    }
}

/// Withdrawing a request, second step.
pub fn delete_request_after_lookup(user_id: i32, request_id: i32, found: Result<Request, DbError>) -> (s: Step<
    RequestQuery,
    (),
>)
    ensures
        delete_request_post(user_id, request_id, found, s),
{
    match found {
        Err(_) => Step::Respond(text_reply(Status::NotFound, "Запрос не найден")),
        Ok(request) => {
            if request.sender_id != user_id {
                return Step::Respond(text_reply(Status::Forbidden, "Только отправитель может удалить запрос"));
            }
            Step::Run(RequestQuery::Delete { request_id })
        },
    }
}

/// Answers the withdrawal of a request.
pub fn delete_request_reply(deleted: Result<(), DbError>) -> (r: Reply<()>)
    ensures
        done_or_failure(deleted, "Запрос удален"@, "Ошибка: "@, r),
{
    reply_done_or_failure(deleted, "Запрос удален", "Ошибка: ")
}

} // verus!
