use skillxchange::handlers::user::{
    add_user_skill, add_user_skill_reply, apply_update, delete_user, delete_user_skill, delete_user_skill_reply,
    delete_user_step, get_all_users, get_user_by_id, get_users_by_skill, update_user, update_user_after_lookup,
    update_user_reply, AccountRemoval, AddUserSkill, UpdateUser, UserQuery, UserResponse,
};
use skillxchange::http::{Body, DbError, Reply, Status, Step};
use skillxchange::middleware::auth::jwt_validator;
use skillxchange::middleware::roles::{access_granted, RequireRole, Role};
use skillxchange::models::user::User;
use skillxchange::models::user_skills::UserSkills;

fn text_of<T>(r: &Reply<T>) -> String {
    match &r.body {
        Body::Text(s) => s.clone(),
        Body::Message(s) => s.clone(),
        Body::Json(_) => String::new(),
    }
}

fn answered<Q, T>(s: Step<Q, T>) -> Reply<T> {
    match s {
        Step::Respond(r) => r,
        _ => panic!("expected an answer"),
    }
}

fn user_row(id: i32, name: &str, email: &str) -> UserResponse {
    UserResponse {
        user_id: id,
        username: name.to_string(),
        email: email.to_string(),
        role: "user".to_string(),
        profile_picture: None,
        bio: None,
        created_at: 0,
    }
}

fn account(id: i32, name: &str, email: &str) -> User {
    User {
        user_id: id,
        username: name.to_string(),
        email: email.to_string(),
        password_hash: "hash".to_string(),
        role: "user".to_string(),
        profile_picture: None,
        bio: None,
        created_at: 0,
    }
}

#[test]
fn test_get_all_users() {
    let guard = RequireRole::new(Role::User).new_transform(());
    assert!(guard.call::<()>(Some(Role::User)).is_none());
    let reply = get_all_users(Ok(vec![user_row(1, "test_user", "test@test.com")]));
    assert_eq!(reply.status, Status::Success);
    match reply.body {
        Body::Json(body) => {
            assert!(!body.is_empty());
            assert_eq!(body[0].username, "test_user");
        }
        _ => panic!("expected users"),
    }
    let reply = get_all_users(Err(DbError { row_not_found: false, detail: "timeout".to_string() }));
    assert_eq!(text_of(&reply), "Ошибка базы данных: timeout");
}

#[test]
fn test_get_all_users_unauthorized() {
    assert!(jwt_validator(None).is_none());
}

#[test]
fn test_get_user_by_id() {
    let reply = get_user_by_id(Ok(user_row(1, "test_user", "test@test.com")));
    assert_eq!(reply.status, Status::Success);
    assert!(matches!(reply.body, Body::Json(u) if u.username == "test_user"));
    let reply = get_user_by_id(Err(DbError { row_not_found: true, detail: "no rows".to_string() }));
    assert_eq!(reply.status, Status::NotFound);
    assert_eq!(text_of(&reply), "Пользователь не найден");
    let reply = get_user_by_id(Err(DbError { row_not_found: false, detail: "io".to_string() }));
    assert_eq!(reply.status, Status::InternalServerError);
    assert_eq!(text_of(&reply), "Ошибка: io");
}

#[test]
fn test_update_user_success() {
    assert!(matches!(update_user(Some(1), Some(Role::User), 1), Step::Run(UserQuery::FindAccount { user_id: 1 })));
    let data = UpdateUser {
        username: Some("new_name".to_string()),
        email: Some("new@test.com".to_string()),
        profile_picture: None,
        bio: Some("New bio".to_string()),
    };
    match update_user_after_lookup(&data, Ok(account(1, "old_name", "old@test.com"))) {
        Step::Run(UserQuery::SaveProfile { user_id, username, email, profile_picture, bio }) => {
            assert_eq!(user_id, 1);
            assert_eq!(username, "new_name");
            assert_eq!(email, "new@test.com");
            assert_eq!(profile_picture, None);
            assert_eq!(bio.unwrap(), "New bio");
        }
        _ => panic!("expected the profile to be saved"),
    }
    let reply = update_user_reply(Ok(()));
    assert_eq!(reply.status, Status::Success);
    assert_eq!(text_of(&reply), "Пользователь обновлен");
}

#[test]
fn test_update_user_forbidden() {
    let reply = answered(update_user(Some(2), Some(Role::User), 1));
    assert_eq!(reply.status, Status::Forbidden);
    assert_eq!(text_of(&reply), "Доступ запрещен");
    assert!(matches!(update_user(Some(2), Some(Role::Admin), 1), Step::Run(_)));
    assert_eq!(answered(update_user(None, None, 1)).status, Status::Forbidden);
}

#[test]
fn profile_update_rules() {
    let data = UpdateUser { username: None, email: None, profile_picture: Some("p.png".to_string()), bio: None };
    let once = apply_update(account(1, "a", "a@x.io"), &data);
    let twice = apply_update(apply_update(account(1, "a", "a@x.io"), &data), &data);
    assert_eq!(once.profile_picture, twice.profile_picture);
    assert_eq!(once.username, "a");
    assert_eq!(once.password_hash, "hash");
    let none = UpdateUser { username: None, email: None, profile_picture: None, bio: None };
    let same = apply_update(account(1, "a", "a@x.io"), &none);
    assert_eq!(same.username, "a");
    assert_eq!(same.email, "a@x.io");
    assert_eq!(same.bio, None);
    let reply = answered(update_user_after_lookup(&none, Err(DbError { row_not_found: true, detail: String::new() })));
    assert_eq!(reply.status, Status::NotFound);
    assert_eq!(text_of(&reply), "Пользователь не найден");
}

#[test]
fn test_delete_user_success() {
    let mut step = delete_user(Some(1), Some(Role::User), 1);
    let mut ran = Vec::new();
    let reply = loop {
        match step {
            Step::Run(done) => {
                ran.push(done);
                step = delete_user_step(1, done, Ok(()));
            }
            Step::Respond(r) => break r,
            Step::Fail(_) => panic!("nothing should stop"),
        }
    };
    assert_eq!(
        ran,
        vec![
            AccountRemoval::Begin,
            AccountRemoval::DeleteTokens { user_id: 1 },
            AccountRemoval::DeleteAccount { user_id: 1 },
            AccountRemoval::Commit
        ]
    );
    assert_eq!(reply.status, Status::Success);
    assert_eq!(text_of(&reply), "Пользователь удален");
}

#[test]
fn account_removal_failures() {
    let e = || Err(DbError { row_not_found: false, detail: "x".to_string() });
    let cases = [
        (AccountRemoval::Begin, "Ошибка начала транзакции: x"),
        (AccountRemoval::DeleteTokens { user_id: 1 }, "Ошибка удаления токенов: x"),
        (AccountRemoval::DeleteAccount { user_id: 1 }, "Ошибка удаления пользователя: x"),
        (AccountRemoval::Commit, "Ошибка фиксации транзакции: x"),
    ];
    for (done, text) in cases {
        let reply = answered(delete_user_step(1, done, e()));
        assert_eq!(reply.status, Status::InternalServerError);
        assert_eq!(text_of(&reply), text);
    }
    assert_eq!(answered(delete_user(Some(2), None, 1)).status, Status::Forbidden);
}

#[test]
fn test_add_user_skill() {
    match add_user_skill(Some(1), Some(Role::User), 1, AddUserSkill { skill_id: 1 }) {
        Step::Run(UserQuery::AddSkill(link)) => assert_eq!(link, UserSkills { user_id: 1, skill_id: 1 }),
        _ => panic!("the owner may add a skill"),
    }
    let reply = add_user_skill_reply(Ok(()));
    assert_eq!(reply.status, Status::Success);
    assert_eq!(text_of(&reply), "Навык добавлен");
    assert_eq!(answered(add_user_skill(Some(3), Some(Role::User), 1, AddUserSkill { skill_id: 1 })).status, Status::Forbidden);
}

#[test]
fn test_delete_user_skill() {
    match delete_user_skill(Some(1), Some(Role::User), 1, 1) {
        Step::Run(UserQuery::RemoveSkill(link)) => assert_eq!(link, UserSkills { user_id: 1, skill_id: 1 }),
        _ => panic!("the owner may remove a skill"),
    }
    let reply = delete_user_skill_reply(Ok(()));
    assert_eq!(reply.status, Status::Success);
    assert_eq!(text_of(&reply), "Навык удален");
}

#[test]
fn users_by_skill_needs_a_role() {
    assert!(matches!(get_users_by_skill(Some(Role::User), 3), Step::Run(UserQuery::WithSkill { skill_id: 3 })));
    assert!(matches!(get_users_by_skill(Some(Role::Admin), 3), Step::Run(_)));
    let reply = answered(get_users_by_skill(None, 3));
    assert_eq!(reply.status, Status::Forbidden);
    assert_eq!(text_of(&reply), "Доступ запрещен");
}

#[test]
fn role_guard_matrix() {
    assert!(access_granted(Role::Guest, Role::Admin));
    assert!(access_granted(Role::Guest, Role::User));
    assert!(access_granted(Role::User, Role::User));
    assert!(access_granted(Role::User, Role::Admin));
    assert!(!access_granted(Role::User, Role::Guest));
    assert!(access_granted(Role::Admin, Role::Admin));
    assert!(!access_granted(Role::Admin, Role::User));
    let guard = RequireRole::new(Role::User);
    assert_eq!(guard.required_role(), Role::User);
    let guarded = guard.new_transform(42u8);
    assert_eq!(**guarded.service(), 42u8);
    let denied = guarded.call::<()>(Some(Role::Admin)).unwrap();
    assert_eq!(denied.status, Status::Forbidden);
    assert_eq!(text_of(&denied), "Доступ запрещен");
    assert!(guarded.call::<()>(None).is_none());
}
