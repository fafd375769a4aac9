use vstd::prelude::*;

use crate::clock::{is_clock_reading_micros, now_timestamp_micros, twelve_hours_passed, whole_hours};
use crate::http::{
    is_text, json_or_failure, reply_json_or_failure, responds_text, text_reply, DbError, Reply, Status, Step,
};
use crate::models::message::Message;

verus! {

/// A new message to another user.
pub struct CreateMessage {
    pub receiver_id: i32,
    pub content: String,
}

/// New text for a message.
pub struct UpdateMessage {
    pub content: String,
}

/// A message as the API shows it. `created_at` is in microseconds since the
/// Unix epoch.
pub struct MessageResponse {
    pub message_id: i32,
    pub sender_id: i32,
    pub receiver_id: i32,
    pub content: String,
    pub created_at: i64,
    pub is_deleted: bool,
}

/// The database work of the message endpoints.
pub enum MessageQuery {
    /// All messages between the two users, oldest first.
    Chat { user_id: i32, other_user_id: i32 },
    /// Store a message (not deleted) and read it back.
    Insert { sender_id: i32, receiver_id: i32, content: String },
    /// The message with this id.
    Find { message_id: i32 },
    /// Replace the message's text and read it back.
    SetContent { message_id: i32, content: String },
    /// Mark deleted the message with this id sent by this user, and read it back.
    MarkDeleted { message_id: i32, sender_id: i32 },
}

/// The conversation of the requesting user with another user.
pub fn get_chat_messages(user_id: i32, other_user_id: i32) -> (q: MessageQuery)
    ensures
        q == (MessageQuery::Chat { user_id, other_user_id }),
{
    MessageQuery::Chat { user_id, other_user_id }
}

/// Answers the conversation.
pub fn get_chat_messages_reply(listed: Result<Vec<MessageResponse>, DbError>) -> (r: Reply<Vec<MessageResponse>>)
    ensures
        json_or_failure(listed, "Ошибка: "@, r),
{
    reply_json_or_failure(listed, "Ошибка: ")
}

/// Sending a message: the requesting user is its sender.
pub fn create_message(sender_id: i32, form: CreateMessage) -> (q: MessageQuery)
    ensures
        q == (MessageQuery::Insert { sender_id, receiver_id: form.receiver_id, content: form.content }),
{
    MessageQuery::Insert { sender_id, receiver_id: form.receiver_id, content: form.content }
}

/// Answers the sending of a message.
pub fn create_message_reply(created: Result<MessageResponse, DbError>) -> (r: Reply<MessageResponse>)
    ensures
        json_or_failure(created, "Ошибка: "@, r),
{
    reply_json_or_failure(created, "Ошибка: ")
}

/// Editing a message, first step: read it.
pub fn update_message(message_id: i32) -> (q: MessageQuery)
    ensures
        q == (MessageQuery::Find { message_id }),
{
    MessageQuery::Find { message_id }
}

/// What editing does with the message read, at clock reading `now`
/// (microseconds): only its sender may edit it, and only while fewer than
/// twelve whole hours have passed since it was sent.
pub open spec fn message_edit_post(
    user_id: i32,
    message_id: i32,
    form: UpdateMessage,
    message: Message,
    now: int,
    s: Step<MessageQuery, MessageResponse>,
) -> bool {
    if message.sender_id != user_id {
        responds_text(s, Status::Forbidden, "Только отправитель может обновить сообщение"@)
    } else if whole_hours(now - message.created_at) >= 12 {
        responds_text(s, Status::BadRequest, "Нельзя обновить сообщение старше 12 часов"@)
    } else {
        s == Step::<MessageQuery, MessageResponse>::Run(MessageQuery::SetContent { message_id, content: form.content })
    }
}

/// Decides an edit of `message` by `user_id` at clock reading `now`.
pub fn decide_message_edit(user_id: i32, message_id: i32, form: UpdateMessage, message: &Message, now: i64) -> (s: Step<
    MessageQuery,
    MessageResponse,
>)
    ensures
        message_edit_post(user_id, message_id, form, *message, now as int, s),
{
    if message.sender_id != user_id {
        return Step::Respond(text_reply(Status::Forbidden, "Только отправитель может обновить сообщение"));
    }
    if twelve_hours_passed(message.created_at, now) {
        return Step::Respond(text_reply(Status::BadRequest, "Нельзя обновить сообщение старше 12 часов"));
    }
    Step::Run(MessageQuery::SetContent { message_id, content: form.content })
}

/// What editing does with the lookup's outcome: a missing message is
/// answered 404; a found one is decided at a reading of the clock.
pub open spec fn update_message_after_lookup_post(
    user_id: i32,
    message_id: i32,
    form: UpdateMessage,
    found: Result<Message, DbError>,
    s: Step<MessageQuery, MessageResponse>,
) -> bool {
    match found {
        Err(_) => responds_text(s, Status::NotFound, "Сообщение не найдено"@),
        Ok(message) => exists|now: int|
            is_clock_reading_micros(now) && #[trigger] message_edit_post(user_id, message_id, form, message, now, s),
    }
}

/// Editing a message, second step: a missing message is answered 404; else
/// decide at the current time.
pub fn update_message_after_lookup(
    user_id: i32,
    message_id: i32,
    form: UpdateMessage,
    found: Result<Message, DbError>,
) -> (s: Step<MessageQuery, MessageResponse>)
    ensures
        update_message_after_lookup_post(user_id, message_id, form, found, s),
{
    match found {
        Err(_) => Step::Respond(text_reply(Status::NotFound, "Сообщение не найдено")),
        Ok(message) => {
            let now = now_timestamp_micros();
            decide_message_edit(user_id, message_id, form, &message, now)
        },
    }
}

/// Answers the edit of a message.
pub fn update_message_reply(updated: Result<MessageResponse, DbError>) -> (r: Reply<MessageResponse>)
    ensures
        json_or_failure(updated, "Ошибка: "@, r),
{
    reply_json_or_failure(updated, "Ошибка: ")
}

/// Deleting a message: only one the requesting user sent is marked deleted.
pub fn delete_message(user_id: i32, message_id: i32) -> (q: MessageQuery)
    ensures
        q == (MessageQuery::MarkDeleted { message_id, sender_id: user_id }),
{
    MessageQuery::MarkDeleted { message_id, sender_id: user_id }
}

/// Answers the deletion of a message; nothing marked means no such message of
/// this sender.
pub fn delete_message_reply(deleted: Result<(), DbError>) -> (r: Reply<()>)
    ensures
        match deleted {
            Ok(_) => is_text(r, Status::Success, "Сообщение удалено"@),
            Err(_) => is_text(r, Status::NotFound, "Сообщение не найдено или у вас нет прав на его удаление"@),
        },
{
    match deleted {
        Ok(_) => text_reply(Status::Success, "Сообщение удалено"),
        Err(_) => text_reply(Status::NotFound, "Сообщение не найдено или у вас нет прав на его удаление"),
    }
}

} // verus!
