use vstd::prelude::*;

use crate::http::{
    db_failure, done_or_failure, is_json, is_text, json_or_failure, reply_done_or_failure, reply_json_or_failure,
    responds_text, text_reply, DbError, Reply, Status, Step,
};
use crate::middleware::roles::{acting_role, acts_as_admin, Role};
use crate::models::user::User;
use crate::models::user_skills::UserSkills;

verus! {

/// A user as the API shows it (without the password hash). `created_at` is in
/// microseconds since the Unix epoch.
pub struct UserResponse {
    pub user_id: i32,
    pub username: String,
    pub email: String,
    pub role: String,
    pub profile_picture: Option<String>,
    pub bio: Option<String>,
    pub created_at: i64,
}

/// Changes to a profile; a field left out stays as it is.
pub struct UpdateUser {
    pub username: Option<String>,
    pub email: Option<String>,
    pub profile_picture: Option<String>,
    pub bio: Option<String>,
}

/// A skill to add to a profile.
pub struct AddUserSkill {
    pub skill_id: i32,
}

/// The database work of the user endpoints.
pub enum UserQuery {
    /// All users.
    ListAll,
    /// The user with this id.
    Find { user_id: i32 },
    /// The whole account with this id.
    FindAccount { user_id: i32 },
    /// Write these profile fields of the account.
    SaveProfile {
        user_id: i32,
        username: String,
        email: String,
        profile_picture: Option<String>,
        bio: Option<String>,
    },
    /// The users that have this skill.
    WithSkill { skill_id: i32 },
    /// Record that the user has the skill (nothing if already recorded).
    AddSkill(UserSkills),
    /// Forget that the user has the skill.
    RemoveSkill(UserSkills),
}

/// The database work of removing an account, in the order it is done.
#[derive(Clone, Copy, Debug, PartialEq, Eq, Structural)]
pub enum AccountRemoval {
    /// Open a transaction.
    Begin,
    /// Remove the user's refresh tokens.
    DeleteTokens { user_id: i32 },
    /// Remove the user.
    DeleteAccount { user_id: i32 },
    /// Commit the transaction.
    Commit,
}

/// Who may change an account or its skills: its owner, or an administrator.
pub open spec fn may_manage_account(auth_user_id: Option<i32>, role: Option<Role>, user_id: i32) -> bool {
    auth_user_id == Some(user_id) || acting_role(role) == Role::Admin
}

/// Whether the requester may change the account `user_id`.
pub fn can_manage_account(auth_user_id: Option<i32>, role: Option<Role>, user_id: i32) -> (r: bool)
    ensures
        r == may_manage_account(auth_user_id, role, user_id),
{
    let owner = match auth_user_id {
        Some(id) => id == user_id,
        None => false,
    };
    owner || acts_as_admin(role)
}

/// Answers the list of users.
pub fn get_all_users(listed: Result<Vec<UserResponse>, DbError>) -> (r: Reply<Vec<UserResponse>>)
    ensures
        json_or_failure(listed, "Ошибка базы данных: "@, r),
{
    reply_json_or_failure(listed, "Ошибка базы данных: ")
}

/// Answers a lookup of one user: a missing row is 404, any other failure 500.
pub fn get_user_by_id(found: Result<UserResponse, DbError>) -> (r: Reply<UserResponse>)
    ensures
        match found {
            Ok(user) => is_json(r, user),
            Err(e) => if e.row_not_found {
                is_text(r, Status::NotFound, "Пользователь не найден"@)
            } else {
                is_text(r, Status::InternalServerError, "Ошибка: "@ + e.detail@)
            },
        },
{
    match found {
        Ok(user) => crate::http::json_reply(user),
        Err(e) => if e.row_not_found {
            text_reply(Status::NotFound, "Пользователь не найден")
        } else {
            db_failure("Ошибка: ", &e)
        },
    }
}

/// `user` with the changes of `data`: a field given replaces the stored one.
pub open spec fn spec_apply_update(user: User, data: UpdateUser) -> User {
    User {
        username: match data.username {
            Some(name) => name,
            None => user.username,
        },
        email: match data.email {
            Some(email) => email,
            None => user.email,
        },
        profile_picture: match data.profile_picture {
            Some(picture) => Some(picture),
            None => user.profile_picture,
        },
        bio: match data.bio {
            Some(bio) => Some(bio),
            None => user.bio,
        },
        ..user
    }
}

/// Applies the changes of `data` to `user`.
pub fn apply_update(user: User, data: &UpdateUser) -> (updated: User)
    ensures
        updated == spec_apply_update(user, *data),
        match data.username {
            Some(name) => updated.username == name,
            None => updated.username == user.username,
        },
        match data.email {
            Some(email) => updated.email == email,
            None => updated.email == user.email,
        },
        match data.profile_picture {
            Some(picture) => updated.profile_picture == Some(picture),
            None => updated.profile_picture == user.profile_picture,
        },
        match data.bio {
            Some(bio) => updated.bio == Some(bio),
            None => updated.bio == user.bio,
        },
        updated.user_id == user.user_id,
        updated.password_hash == user.password_hash,
        updated.role == user.role,
        updated.created_at == user.created_at,
{
    let mut user = user;
    if let Some(name) = &data.username {
        user.username = name.clone();
    }
    if let Some(email) = &data.email {
        user.email = email.clone();
    }
    if let Some(picture) = &data.profile_picture {
        user.profile_picture = Some(picture.clone());
    }
    if let Some(bio) = &data.bio {
        user.bio = Some(bio.clone());
    }
    user
}

/// Changing a profile, first step: only its owner or an administrator may;
/// then read the account.
pub fn update_user(auth_user_id: Option<i32>, role: Option<Role>, user_id: i32) -> (s: Step<UserQuery, ()>)
    ensures
        if may_manage_account(auth_user_id, role, user_id) {
            s == Step::<UserQuery, ()>::Run(UserQuery::FindAccount { user_id })
        } else {
            responds_text(s, Status::Forbidden, "Доступ запрещен"@)
        },
{
    if !can_manage_account(auth_user_id, role, user_id) {
        return Step::Respond(text_reply(Status::Forbidden, "Доступ запрещен"));
    }
    Step::Run(UserQuery::FindAccount { user_id })
}

/// What changing a profile does with the account read: write back the
/// account with the changes applied.
pub open spec fn update_user_after_lookup_post(data: UpdateUser, found: Result<User, DbError>, s: Step<UserQuery, ()>) -> bool {
    match found {
        Err(_) => responds_text(s, Status::NotFound, "Пользователь не найден"@),
        Ok(user) => {
            let updated = spec_apply_update(user, data);
            s == Step::<UserQuery, ()>::Run(
                UserQuery::SaveProfile {
                    user_id: updated.user_id,
                    username: updated.username,
                    email: updated.email,
                    profile_picture: updated.profile_picture,
                    bio: updated.bio,
                },
            )
        },
    }
}

/// Changing a profile, second step.
pub fn update_user_after_lookup(data: &UpdateUser, found: Result<User, DbError>) -> (s: Step<UserQuery, ()>)
    ensures
        update_user_after_lookup_post(*data, found, s),
{
    match found {
        Err(_) => Step::Respond(text_reply(Status::NotFound, "Пользователь не найден")),
        Ok(user) => {
            let updated = apply_update(user, data);
            Step::Run(
                UserQuery::SaveProfile {
                    user_id: updated.user_id,
                    username: updated.username,
                    email: updated.email,
                    profile_picture: updated.profile_picture,
                    bio: updated.bio,
                },
            )
        },
    }
}

/// Answers the change of a profile.
pub fn update_user_reply(saved: Result<(), DbError>) -> (r: Reply<()>)
    ensures
        done_or_failure(saved, "Пользователь обновлен"@, "Ошибка: "@, r),
{
    reply_done_or_failure(saved, "Пользователь обновлен", "Ошибка: ")
}

/// Removing an account, first step: only its owner or an administrator may;
/// then open a transaction.
pub fn delete_user(auth_user_id: Option<i32>, role: Option<Role>, user_id: i32) -> (s: Step<AccountRemoval, ()>)
    ensures
        if may_manage_account(auth_user_id, role, user_id) {
            s == Step::<AccountRemoval, ()>::Run(AccountRemoval::Begin)
        } else {
            responds_text(s, Status::Forbidden, "Доступ запрещен"@)
        },
{
    if !can_manage_account(auth_user_id, role, user_id) {
        return Step::Respond(text_reply(Status::Forbidden, "Доступ запрещен"));
    }
    Step::Run(AccountRemoval::Begin)
}

/// The work that follows `done` when it succeeded; `None` after the commit.
pub open spec fn removal_next(user_id: i32, done: AccountRemoval) -> Option<AccountRemoval> {
    match done {
        AccountRemoval::Begin => Some(AccountRemoval::DeleteTokens { user_id }),
        AccountRemoval::DeleteTokens { .. } => Some(AccountRemoval::DeleteAccount { user_id }),
        AccountRemoval::DeleteAccount { .. } => Some(AccountRemoval::Commit),
        AccountRemoval::Commit => None,
    }
}

/// The text that opens the answer when `done` failed.
pub open spec fn removal_failure_prefix(done: AccountRemoval) -> Seq<char> {
    match done {
        AccountRemoval::Begin => "Ошибка начала транзакции: "@,
        AccountRemoval::DeleteTokens { .. } => "Ошибка удаления токенов: "@,
        AccountRemoval::DeleteAccount { .. } => "Ошибка удаления пользователя: "@,
        AccountRemoval::Commit => "Ошибка фиксации транзакции: "@,
    }
}

/// What removing an account does after `done` ran with `outcome`: a failure
/// ends it with 500 (the open transaction is dropped, so nothing is kept);
/// a success moves to the next piece of work, and after the commit answers 200.
pub open spec fn delete_user_step_post(
    user_id: i32,
    done: AccountRemoval,
    outcome: Result<(), DbError>,
    s: Step<AccountRemoval, ()>,
) -> bool {
    match outcome {
        Err(e) => responds_text(s, Status::InternalServerError, removal_failure_prefix(done) + e.detail@),
        Ok(_) => match removal_next(user_id, done) {
            Some(next) => s == Step::<AccountRemoval, ()>::Run(next),
            None => responds_text(s, Status::Success, "Пользователь удален"@),
        },
    }
}

/// Removing an account, each later step.
pub fn delete_user_step(user_id: i32, done: AccountRemoval, outcome: Result<(), DbError>) -> (s: Step<
    AccountRemoval,
    (),
>)
    ensures
        delete_user_step_post(user_id, done, outcome, s),
{
    match outcome {
        Err(e) => {
            let prefix = match done {
                AccountRemoval::Begin => "Ошибка начала транзакции: ",
                AccountRemoval::DeleteTokens { .. } => "Ошибка удаления токенов: ",
                AccountRemoval::DeleteAccount { .. } => "Ошибка удаления пользователя: ",
                AccountRemoval::Commit => "Ошибка фиксации транзакции: ",
            };
            Step::Respond(db_failure(prefix, &e))
        },
        Ok(_) => match done {
            AccountRemoval::Begin => Step::Run(AccountRemoval::DeleteTokens { user_id }),
            AccountRemoval::DeleteTokens { .. } => Step::Run(AccountRemoval::DeleteAccount { user_id }),
            AccountRemoval::DeleteAccount { .. } => Step::Run(AccountRemoval::Commit),
            AccountRemoval::Commit => Step::Respond(text_reply(Status::Success, "Пользователь удален")),
        },
    }
}

/// Listing the users with a skill: only a user or an administrator may.
pub fn get_users_by_skill(role: Option<Role>, skill_id: i32) -> (s: Step<UserQuery, Vec<UserResponse>>)
    ensures
        if acting_role(role) == Role::Admin || acting_role(role) == Role::User {
            s == Step::<UserQuery, Vec<UserResponse>>::Run(UserQuery::WithSkill { skill_id })
        } else {
            responds_text(s, Status::Forbidden, "Доступ запрещен"@)
        },
{
    let acting = role.unwrap_or(Role::Guest);
    if acting != Role::Admin && acting != Role::User {
        return Step::Respond(text_reply(Status::Forbidden, "Доступ запрещен"));
    }
    Step::Run(UserQuery::WithSkill { skill_id })
}

/// Answers the list of users with a skill.
pub fn get_users_by_skill_reply(listed: Result<Vec<UserResponse>, DbError>) -> (r: Reply<Vec<UserResponse>>)
    ensures
        json_or_failure(listed, "Ошибка: "@, r),
{
    reply_json_or_failure(listed, "Ошибка: ")
}

/// Adding a skill to a profile: only its owner or an administrator may.
pub fn add_user_skill(auth_user_id: Option<i32>, role: Option<Role>, user_id: i32, skill: AddUserSkill) -> (s: Step<
    UserQuery,
    (),
>)
    ensures
        if may_manage_account(auth_user_id, role, user_id) {
            s == Step::<UserQuery, ()>::Run(UserQuery::AddSkill(UserSkills { user_id, skill_id: skill.skill_id }))
        } else {
            responds_text(s, Status::Forbidden, "Доступ запрещен"@)
        },
{
    if !can_manage_account(auth_user_id, role, user_id) {
        return Step::Respond(text_reply(Status::Forbidden, "Доступ запрещен"));
    }
    Step::Run(UserQuery::AddSkill(UserSkills { user_id, skill_id: skill.skill_id }))
}

/// Answers the adding of a skill.
pub fn add_user_skill_reply(added: Result<(), DbError>) -> (r: Reply<()>)
    ensures
        done_or_failure(added, "Навык добавлен"@, "Ошибка: "@, r),
{
    reply_done_or_failure(added, "Навык добавлен", "Ошибка: ")
}

/// Removing a skill from a profile: only its owner or an administrator may.
pub fn delete_user_skill(auth_user_id: Option<i32>, role: Option<Role>, user_id: i32, skill_id: i32) -> (s: Step<
    UserQuery,
    (),
>)
    ensures
        if may_manage_account(auth_user_id, role, user_id) {
            s == Step::<UserQuery, ()>::Run(UserQuery::RemoveSkill(UserSkills { user_id, skill_id }))
        } else {
            responds_text(s, Status::Forbidden, "Доступ запрещен"@)
        },
{
    if !can_manage_account(auth_user_id, role, user_id) {
        return Step::Respond(text_reply(Status::Forbidden, "Доступ запрещен"));
    }
    Step::Run(UserQuery::RemoveSkill(UserSkills { user_id, skill_id }))
}

/// Answers the removal of a skill.
pub fn delete_user_skill_reply(removed: Result<(), DbError>) -> (r: Reply<()>)
    ensures
        done_or_failure(removed, "Навык удален"@, "Ошибка: "@, r),
{
    reply_done_or_failure(removed, "Навык удален", "Ошибка: ")
}

} // verus!
