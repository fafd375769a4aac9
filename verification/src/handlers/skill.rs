use vstd::prelude::*;

use crate::http::{
    done_or_failure, json_or_failure, json_or_not_found, reply_done_or_failure, reply_json_or_failure,
    reply_json_or_not_found, DbError, Reply,
};

verus! {

/// A new skill.
pub struct CreateSkill {
    pub title: String,
    pub description: String,
    pub category_id: i32,
}

/// Changes to a skill; a field left out stays as it is.
pub struct UpdateSkill {
    pub title: Option<String>,
    pub description: Option<String>,
    pub category_id: Option<i32>,
}

/// A skill as the API shows it. `created_at` is in microseconds since the Unix
/// epoch.
pub struct SkillResponse {
    pub skill_id: i32,
    pub title: String,
    pub description: String,
    pub category_id: i32,
    pub created_at: i64,
}

/// The database work of the skill endpoints.
pub enum SkillQuery {
    /// All skills not marked deleted, newest first.
    ListActive,
    /// The skill with this id, unless marked deleted.
    FindActive { skill_id: i32 },
    /// Store a skill and read it back.
    Insert { title: String, description: String, category_id: i32 },
    /// Set the fields given (keeping the others) of a skill not marked deleted,
    /// and read it back.
    Update { skill_id: i32, title: Option<String>, description: Option<String>, category_id: Option<i32> },
    /// Mark the skill deleted.
    MarkDeleted { skill_id: i32 },
}

/// Answers the list of skills.
pub fn get_all_skills(listed: Result<Vec<SkillResponse>, DbError>) -> (r: Reply<Vec<SkillResponse>>)
    ensures
        json_or_failure(listed, "Ошибка: "@, r),
{
    reply_json_or_failure(listed, "Ошибка: ")
}

/// Answers a lookup of one skill.
pub fn get_skill_by_id(found: Result<SkillResponse, DbError>) -> (r: Reply<SkillResponse>)
    ensures
        json_or_not_found(found, "Навык не найден"@, r),
{
    reply_json_or_not_found(found, "Навык не найден")
}

/// Creating a skill stores the form as given.
pub fn create_skill(form: CreateSkill) -> (q: SkillQuery)
    ensures
        q == (SkillQuery::Insert { title: form.title, description: form.description, category_id: form.category_id }),
{
    SkillQuery::Insert { title: form.title, description: form.description, category_id: form.category_id }
}

/// Answers the creation of a skill.
pub fn create_skill_reply(created: Result<SkillResponse, DbError>) -> (r: Reply<SkillResponse>)
    ensures
        json_or_failure(created, "Ошибка: "@, r),
{
    reply_json_or_failure(created, "Ошибка: ")
}

/// Changing a skill sets the fields the form gives.
pub fn update_skill(skill_id: i32, form: UpdateSkill) -> (q: SkillQuery)
    ensures
        q == (SkillQuery::Update {
            skill_id,
            title: form.title,
            description: form.description,
            category_id: form.category_id,
        }),
{
    SkillQuery::Update { skill_id, title: form.title, description: form.description, category_id: form.category_id }
}

/// Answers the change of a skill; a failed update means no such skill.
pub fn update_skill_reply(updated: Result<SkillResponse, DbError>) -> (r: Reply<SkillResponse>)
    ensures
        json_or_not_found(updated, "Навык не найден"@, r),
{
    reply_json_or_not_found(updated, "Навык не найден")
}

/// Deleting a skill only marks it deleted.
pub fn delete_skill(skill_id: i32) -> (q: SkillQuery)
    ensures
        q == (SkillQuery::MarkDeleted { skill_id }),
{
    SkillQuery::MarkDeleted { skill_id }
}

/// Answers the deletion of a skill.
pub fn delete_skill_reply(deleted: Result<(), DbError>) -> (r: Reply<()>)
    ensures
        done_or_failure(deleted, "Навык помечен как удалённый"@, "Ошибка: "@, r),
{
    reply_done_or_failure(deleted, "Навык помечен как удалённый", "Ошибка: ")
}

} // verus!
