use vstd::prelude::*;

use crate::http::{
    json_or_failure, json_or_not_found, done_or_failure, reply_done_or_failure, reply_json_or_failure,
    reply_json_or_not_found, responds_text, text_reply, DbError, Reply, Status, Step,
};
use crate::middleware::roles::{acting_role, acts_as_admin, Role};

verus! {

/// A new category.
pub struct CreateCategory {
    pub title: String,
    pub description: String,
}

/// Changes to a category; a field left out stays as it is.
pub struct UpdateCategory {
    pub title: Option<String>,
    pub description: Option<String>,
}

/// A category as the API shows it. `created_at` is in microseconds since the
/// Unix epoch.
pub struct CategoryResponse {
    pub category_id: i32,
    pub title: String,
    pub description: String,
    pub created_at: i64,
}

/// The database work of the category endpoints.
pub enum CategoryQuery {
    /// All categories not marked deleted, newest first.
    ListActive,
    /// The category with this id, unless marked deleted.
    FindActive { category_id: i32 },
    /// Store a category and read it back.
    Insert { title: String, description: String },
    /// Set the fields given (keeping the others) and read the category back.
    Update { category_id: i32, title: Option<String>, description: Option<String> },
    /// Mark the category deleted.
    MarkDeleted { category_id: i32 },
}

/// Answers the list of categories.
pub fn get_all_categories(listed: Result<Vec<CategoryResponse>, DbError>) -> (r: Reply<Vec<CategoryResponse>>)
    ensures
        json_or_failure(listed, "Ошибка: "@, r),
{
    reply_json_or_failure(listed, "Ошибка: ")
}

/// Answers a lookup of one category.
pub fn get_category_by_id(found: Result<CategoryResponse, DbError>) -> (r: Reply<CategoryResponse>)
    ensures
        json_or_not_found(found, "Категория не найдена"@, r),
{
    reply_json_or_not_found(found, "Категория не найдена")
}

/// Creating a category: only an administrator may.
pub fn create_category(role: Option<Role>, form: CreateCategory) -> (s: Step<CategoryQuery, CategoryResponse>)
    ensures
        if acting_role(role) == Role::Admin {
            s == Step::<CategoryQuery, CategoryResponse>::Run(
                CategoryQuery::Insert { title: form.title, description: form.description },
            )
        } else {
            responds_text(s, Status::Forbidden, "Только администратор может создавать категории"@)
        },
{
    if !acts_as_admin(role) {
        return Step::Respond(text_reply(Status::Forbidden, "Только администратор может создавать категории"));
    }
    Step::Run(CategoryQuery::Insert { title: form.title, description: form.description })
}

/// Answers the creation of a category.
pub fn create_category_reply(created: Result<CategoryResponse, DbError>) -> (r: Reply<CategoryResponse>)
    ensures
        json_or_failure(created, "Ошибка: "@, r),
{
    reply_json_or_failure(created, "Ошибка: ")
}

/// Changing a category: only an administrator may.
pub fn update_category(role: Option<Role>, category_id: i32, form: UpdateCategory) -> (s: Step<
    CategoryQuery,
    CategoryResponse,
>)
    ensures
        if acting_role(role) == Role::Admin {
            s == Step::<CategoryQuery, CategoryResponse>::Run(
                CategoryQuery::Update { category_id, title: form.title, description: form.description },
            )
        } else {
            responds_text(s, Status::Forbidden, "Только администратор может обновлять категории"@)
        },
{
    if !acts_as_admin(role) {
        return Step::Respond(text_reply(Status::Forbidden, "Только администратор может обновлять категории"));
    }
    Step::Run(CategoryQuery::Update { category_id, title: form.title, description: form.description })
}

/// Answers the change of a category; a failed update means no such category.
pub fn update_category_reply(updated: Result<CategoryResponse, DbError>) -> (r: Reply<CategoryResponse>)
    ensures
        json_or_not_found(updated, "Категория не найдена"@, r),
{
    reply_json_or_not_found(updated, "Категория не найдена")
}

/// Deleting a category (it is only marked deleted): only an administrator may.
pub fn delete_category(role: Option<Role>, category_id: i32) -> (s: Step<CategoryQuery, ()>)
    ensures
        if acting_role(role) == Role::Admin {
            s == Step::<CategoryQuery, ()>::Run(CategoryQuery::MarkDeleted { category_id })
        } else {
            responds_text(s, Status::Forbidden, "Только администратор может удалять категории"@)
        },
{
    if !acts_as_admin(role) {
        return Step::Respond(text_reply(Status::Forbidden, "Только администратор может удалять категории"));
    }
    Step::Run(CategoryQuery::MarkDeleted { category_id })
}

/// Answers the deletion of a category.
pub fn delete_category_reply(deleted: Result<(), DbError>) -> (r: Reply<()>)
    ensures
        done_or_failure(deleted, "Категория помечена как удалённая"@, "Ошибка: "@, r),
{
    reply_done_or_failure(deleted, "Категория помечена как удалённая", "Ошибка: ")
}

} // verus!
