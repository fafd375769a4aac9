use vstd::prelude::*;

use crate::http::{
    done_or_failure, json_or_failure, reply_done_or_failure, reply_json_or_failure, responds_text, text_reply,
    DbError, Reply, Status, Step,
};
use crate::middleware::roles::{acting_role, acts_as_admin, Role};
use crate::models::review::Review;

verus! {

/// A new review of another user's skill.
pub struct CreateReview {
    pub receiver_id: i32,
    pub skill_id: i32,
    pub rating: i32,
    pub comment: String,
}

/// New rating and comment for a review.
pub struct UpdateReview {
    pub rating: i32,
    pub comment: String,
}

/// A review as the API shows it. `created_at` is in microseconds since the
/// Unix epoch.
pub struct ReviewResponse {
    pub review_id: i32,
    pub sender_id: i32,
    pub receiver_id: i32,
    pub skill_id: i32,
    pub rating: i32,
    pub comment: String,
    pub created_at: i64,
}

/// The database work of the review endpoints.
pub enum ReviewQuery {
    /// The reviews this user received, newest first.
    Received { user_id: i32 },
    /// The reviews this user received for this skill, newest first.
    ReceivedForSkill { user_id: i32, skill_id: i32 },
    /// The reviews this user wrote, newest first.
    Sent { user_id: i32 },
    /// Store a review and read it back.
    Insert { sender_id: i32, receiver_id: i32, skill_id: i32, rating: i32, comment: String },
    /// The review with this id.
    Find { review_id: i32 },
    /// Set the review's rating and comment and read it back.
    Update { review_id: i32, rating: i32, comment: String },
    /// Remove the review.
    Delete { review_id: i32 },
}

/// Who may change or remove `review`: its author, or an administrator.
pub open spec fn may_change_review(review: Review, user_id: i32, role: Option<Role>) -> bool {
    review.sender_id == user_id || acting_role(role) == Role::Admin
}

/// The reviews a user received.
pub fn get_user_reviews(user_id: i32) -> (q: ReviewQuery)
    ensures
        q == (ReviewQuery::Received { user_id }),
{
    ReviewQuery::Received { user_id }
}

/// The reviews a user received for one skill.
pub fn get_user_reviews_by_skill(user_id: i32, skill_id: i32) -> (q: ReviewQuery)
    ensures
        q == (ReviewQuery::ReceivedForSkill { user_id, skill_id }),
{
    ReviewQuery::ReceivedForSkill { user_id, skill_id }
}

/// The reviews a user wrote.
pub fn get_sent_reviews(user_id: i32) -> (q: ReviewQuery)
    ensures
        q == (ReviewQuery::Sent { user_id }),
{
    ReviewQuery::Sent { user_id }
}

/// Answers a list of reviews.
pub fn reviews_reply(listed: Result<Vec<ReviewResponse>, DbError>) -> (r: Reply<Vec<ReviewResponse>>)
    ensures
        json_or_failure(listed, "Ошибка: "@, r),
{
    reply_json_or_failure(listed, "Ошибка: ")
}

/// Writing a review: the requesting user is its author.
pub fn create_review(sender_id: i32, form: CreateReview) -> (q: ReviewQuery)
    ensures
        q == (ReviewQuery::Insert {
            sender_id,
            receiver_id: form.receiver_id,
            skill_id: form.skill_id,
            rating: form.rating,
            comment: form.comment,
        }),
{
    ReviewQuery::Insert {
        sender_id,
        receiver_id: form.receiver_id,
        skill_id: form.skill_id,
        rating: form.rating,
        comment: form.comment,
    }
}

/// Answers the writing of a review, or the change of one.
pub fn review_reply(written: Result<ReviewResponse, DbError>) -> (r: Reply<ReviewResponse>)
    ensures
        json_or_failure(written, "Ошибка: "@, r),
{
    reply_json_or_failure(written, "Ошибка: ")
}

/// Changing a review, first step: read it.
pub fn update_review(review_id: i32) -> (q: ReviewQuery)
    ensures
        q == (ReviewQuery::Find { review_id }),
{
    ReviewQuery::Find { review_id }
}

/// What changing does with the review read.
pub open spec fn update_review_post(
    user_id: i32,
    role: Option<Role>,
    review_id: i32,
    form: UpdateReview,
    found: Result<Review, DbError>,
    s: Step<ReviewQuery, ReviewResponse>,
) -> bool {
    match found {
        Err(_) => responds_text(s, Status::NotFound, "Отзыв не найден"@),
        Ok(review) => if !may_change_review(review, user_id, role) {
            responds_text(s, Status::Forbidden, "Только автор отзыва или администратор могут его обновить"@)
        } else {
            s == Step::<ReviewQuery, ReviewResponse>::Run(
                ReviewQuery::Update { review_id, rating: form.rating, comment: form.comment },
            )
        },
    }
}

/// Changing a review, second step: only its author or an administrator may.
pub fn update_review_after_lookup(
    user_id: i32,
    role: Option<Role>,
    review_id: i32,
    form: UpdateReview,
    found: Result<Review, DbError>,
) -> (s: Step<ReviewQuery, ReviewResponse>)
    ensures
        update_review_post(user_id, role, review_id, form, found, s),
{
    match found {
        Err(_) => Step::Respond(text_reply(Status::NotFound, "Отзыв не найден")),
        Ok(review) => {
            if review.sender_id != user_id && !acts_as_admin(role) {
                return Step::Respond(
                    text_reply(Status::Forbidden, "Только автор отзыва или администратор могут его обновить"),
                );
            }
            Step::Run(ReviewQuery::Update { review_id, rating: form.rating, comment: form.comment })
        },
    }
}

/// What removing does with the review read.
pub open spec fn delete_review_post(
    user_id: i32,
    role: Option<Role>,
    review_id: i32,
    found: Result<Review, DbError>,
    s: Step<ReviewQuery, ()>,
) -> bool {
    match found {
        Err(_) => responds_text(s, Status::NotFound, "Отзыв не найден"@),
        Ok(review) => if !may_change_review(review, user_id, role) {
            responds_text(s, Status::Forbidden, "Только автор отзыва или администратор могут его удалить"@)
        } else {
            s == Step::<ReviewQuery, ()>::Run(ReviewQuery::Delete { review_id })
        },
    }
}

/// Removing a review, first step: read it.
pub fn delete_review(review_id: i32) -> (q: ReviewQuery)
    ensures
        q == (ReviewQuery::Find { review_id }),
{
    ReviewQuery::Find { review_id }
}

/// Removing a review, second step: only its author or an administrator may.
pub fn delete_review_after_lookup(user_id: i32, role: Option<Role>, review_id: i32, found: Result<Review, DbError>) -> (s: Step<
    ReviewQuery,
    (),
>)
    ensures
        delete_review_post(user_id, role, review_id, found, s),
{
    match found {
        Err(_) => Step::Respond(text_reply(Status::NotFound, "Отзыв не найден")),
        Ok(review) => {
            if review.sender_id != user_id && !acts_as_admin(role) {
                return Step::Respond(
                    text_reply(Status::Forbidden, "Только автор отзыва или администратор могут его удалить"),
                );
            }
            Step::Run(ReviewQuery::Delete { review_id })
        },
    }
}

/// Answers the removal of a review.
pub fn delete_review_reply(deleted: Result<(), DbError>) -> (r: Reply<()>)
    ensures
        done_or_failure(deleted, "Отзыв удален"@, "Ошибка: "@, r),
{
    reply_done_or_failure(deleted, "Отзыв удален", "Ошибка: ")
}

} // verus!
