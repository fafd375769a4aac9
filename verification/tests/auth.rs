use skillxchange::handlers::auth::{
    is_valid_email, login_user, login_user_after_lookup, login_user_after_signing, refresh_token,
    refresh_token_after_lookup, refresh_token_reply, register_user, register_user_after_lookup, register_user_reply,
    issue_tokens, renew_access, AuthQuery, Credentials, ExistingUser, LoginInfo, RegisterInfo, RegisterResponse,
    ACCESS_TOKEN_LIFETIME, REFRESH_TOKEN_LIFETIME,
};
use skillxchange::http::{Body, DbError, Reply, Status, Step};
use skillxchange::middleware::auth::{jwt_validator, role_claim, role_from_claim, TokenClaims};
use skillxchange::middleware::roles::Role;
use skillxchange::clock::{LATEST_TIMESTAMP, expiry};

fn text_of<T>(r: &Reply<T>) -> String {
    match &r.body {
        Body::Text(s) => s.clone(),
        Body::Message(s) => s.clone(),
        Body::Json(_) => String::new(),
    }
}

fn answered<Q, T>(s: Step<Q, T>) -> Reply<T> {
    match s {
        Step::Respond(r) => r,
        _ => panic!("expected an answer"),
    }
}

fn register_form(email: &str) -> RegisterInfo {
    RegisterInfo {
        username: "testuser".to_string(),
        email: email.to_string(),
        password: "password123".to_string(),
        role: "user".to_string(),
    }
}

fn db_error(text: &str) -> DbError {
    DbError { row_not_found: false, detail: text.to_string() }
}

#[test]
fn test_email_validation() {
    assert!(is_valid_email("test@example.com"));
    assert!(is_valid_email("user.name@domain.co.uk"));
    assert!(!is_valid_email("invalid.email"));
    assert!(!is_valid_email("@domain.com"));
    assert!(!is_valid_email("user@.com"));
}

#[test]
fn email_edge_cases() {
    assert!(!is_valid_email(""));
    assert!(!is_valid_email("a@b.c"));
    assert!(is_valid_email("a@b.cd"));
    assert!(!is_valid_email("a@@b.cd"));
    assert!(!is_valid_email("a@b.c1"));
    assert!(is_valid_email("a+tag%x_y-z@sub.domain-x.org"));
    assert!(!is_valid_email("a b@c.de"));
    assert!(!is_valid_email("user@domain"));
    assert!(!is_valid_email("пользователь@mail.ru"));
    assert!(is_valid_email("x@..ab"));
    assert!(!is_valid_email("x@example.com "));
}

#[test]
fn test_register_user_success() {
    let form = register_form("test@example.com");
    match register_user(&form) {
        Step::Run(AuthQuery::FindByNameOrEmail { username, email }) => {
            assert_eq!(username, "testuser");
            assert_eq!(email, "test@example.com");
        }
        _ => panic!("registration should look for an existing account"),
    }
    match register_user_after_lookup(&form, Ok(None)) {
        Step::Run(AuthQuery::InsertUser(account)) => {
            assert_eq!(account.username, "testuser");
            assert_eq!(account.email, "test@example.com");
            assert_eq!(account.role, "user");
            assert!(bcrypt::verify("password123", &account.password_hash).unwrap());
        }
        _ => panic!("registration should store the account"),
    }
    let reply = register_user_reply(Ok(RegisterResponse {
        user_id: 1,
        username: "testuser".to_string(),
        email: "test@example.com".to_string(),
        role: "user".to_string(),
        created_at: 0,
    }));
    assert_eq!(reply.status, Status::Success);
    match reply.body {
        Body::Json(user) => {
            assert_eq!(user.username, "testuser");
            assert_eq!(user.email, "test@example.com");
        }
        _ => panic!("expected the account"),
    }
}

#[test]
fn test_register_user_invalid_email() {
    let reply = answered(register_user(&register_form("invalid.email")));
    assert_eq!(reply.status, Status::BadRequest);
    assert!(matches!(&reply.body, Body::Message(m) if m == "Неверный формат email"));
}

#[test]
fn registration_refuses_taken_name_and_address() {
    let form = register_form("test@example.com");
    let taken_name = ExistingUser { username: "testuser".to_string(), email: "other@example.com".to_string() };
    let reply = answered(register_user_after_lookup(&form, Ok(Some(taken_name))));
    assert_eq!(reply.status, Status::BadRequest);
    assert_eq!(text_of(&reply), "Пользователь с таким именем уже существует");
    let taken_address = ExistingUser { username: "someone".to_string(), email: "test@example.com".to_string() };
    let reply = answered(register_user_after_lookup(&form, Ok(Some(taken_address))));
    assert_eq!(reply.status, Status::BadRequest);
    assert_eq!(text_of(&reply), "Пользователь с таким email уже существует");
    let reply = answered(register_user_after_lookup(&form, Err(db_error("down"))));
    assert_eq!(reply.status, Status::InternalServerError);
    assert_eq!(text_of(&reply), "Ошибка сервера при проверке пользователя");
    let reply = register_user_reply(Err(db_error("duplicate")));
    assert_eq!(reply.status, Status::InternalServerError);
    assert!(matches!(&reply.body, Body::Message(m) if m == "Ошибка при создании пользователя"));
}

fn credentials(password: &str) -> Credentials {
    Credentials {
        user_id: 7,
        password_hash: bcrypt::hash(password, 4).unwrap(),
        role: "user".to_string(),
    }
}

#[test]
fn test_login_user_success() {
    let form = LoginInfo { email: "test@example.com".to_string(), password: "password123".to_string() };
    assert!(matches!(login_user(&form), Step::Run(AuthQuery::FindCredentials { email }) if email == "test@example.com"));
    let issue = match login_user_after_lookup(&form, Ok(credentials("password123"))) {
        Step::Run(AuthQuery::SignTokens(issue)) => issue,
        _ => panic!("a right password should get tokens"),
    };
    assert_eq!(issue.access.sub, 7);
    assert_eq!(issue.refresh.sub, 7);
    assert_eq!(issue.access.role, "user");
    assert_eq!(issue.refresh.exp as i64, issue.refresh_expires_at);
    let (store, reply) = login_user_after_signing(&issue, "access".to_string(), "refresh".to_string());
    assert!(matches!(store, AuthQuery::StoreRefreshToken { user_id: 7, ref token, .. } if token == "refresh"));
    assert_eq!(reply.status, Status::Success);
    match reply.body {
        Body::Json(pair) => {
            assert_eq!(pair.access_token, "access");
            assert_eq!(pair.refresh_token, "refresh");
        }
        _ => panic!("expected both tokens"),
    }
}

#[test]
fn test_login_user_wrong_password() {
    let form = LoginInfo { email: "test@example.com".to_string(), password: "wrongpassword".to_string() };
    let reply = answered(login_user_after_lookup(&form, Ok(credentials("password123"))));
    assert_eq!(reply.status, Status::Unauthorized);
    assert_eq!(text_of(&reply), "Неверный пароль");
}

#[test]
fn login_refuses_unknown_address_and_stops_on_unreadable_hash() {
    let form = LoginInfo { email: "nobody@example.com".to_string(), password: "password123".to_string() };
    let reply = answered(login_user_after_lookup(&form, Err(DbError { row_not_found: true, detail: String::new() })));
    assert_eq!(reply.status, Status::Unauthorized);
    assert_eq!(text_of(&reply), "Пользователь не найден");
    let broken = Credentials { user_id: 1, password_hash: "hash".to_string(), role: "user".to_string() };
    assert!(matches!(login_user_after_lookup(&form, Ok(broken)), Step::Fail(_)));
}

#[test]
fn issued_tokens_expire_on_time() {
    let account = Credentials { user_id: 3, password_hash: String::new(), role: "admin".to_string() };
    match issue_tokens(&account, 1_000, 2_000) {
        Step::Run(AuthQuery::SignTokens(issue)) => {
            assert_eq!(issue.access.exp, 1_180);
            assert_eq!(issue.refresh.exp, 2_000 + 2_592_000);
            assert_eq!(issue.refresh_expires_at, 2_592_000 + 2_000);
            assert_eq!(issue.access.role, "admin");
        }
        _ => panic!("expected tokens"),
    }
    assert!(matches!(issue_tokens(&account, LATEST_TIMESTAMP, 0), Step::Fail(m) if m == "Ошибка при установке времени"));
    assert!(matches!(issue_tokens(&account, 0, LATEST_TIMESTAMP - REFRESH_TOKEN_LIFETIME + 1), Step::Fail(_)));
    assert_eq!(expiry(LATEST_TIMESTAMP - ACCESS_TOKEN_LIFETIME, ACCESS_TOKEN_LIFETIME), Some(LATEST_TIMESTAMP));
}

#[test]
fn test_refresh_token() {
    let claims = TokenClaims { sub: 1, role: "user".to_string(), exp: 4_000_000_000 };
    match refresh_token("rt".to_string(), Some(TokenClaims { sub: 1, role: "user".to_string(), exp: 4_000_000_000 })) {
        Step::Run(AuthQuery::FindRefreshToken { user_id, token }) => {
            assert_eq!(user_id, 1);
            assert_eq!(token, "rt");
        }
        _ => panic!("a decoded token should be looked up"),
    }
    match refresh_token_after_lookup(&claims, Ok(())) {
        Step::Run(AuthQuery::SignAccessToken(access)) => {
            assert_eq!(access.sub, 1);
            assert_eq!(access.role, "user");
        }
        _ => panic!("a stored token should be renewed"),
    }
    let reply = refresh_token_reply("new access".to_string());
    assert_eq!(reply.status, Status::Success);
    assert!(matches!(reply.body, Body::Json(t) if t.access_token == "new access"));
}

#[test]
fn refresh_refuses_bad_tokens() {
    let reply = answered(refresh_token(String::new(), None));
    assert_eq!(reply.status, Status::Unauthorized);
    assert_eq!(text_of(&reply), "Ошибка верификации токена");
    let claims = TokenClaims { sub: 1, role: "user".to_string(), exp: 0 };
    let reply = answered(refresh_token_after_lookup(&claims, Err(db_error("no rows"))));
    assert_eq!(reply.status, Status::Unauthorized);
    assert_eq!(text_of(&reply), "Недействительный refresh-токен");
    match renew_access(&claims, 100) {
        Step::Run(AuthQuery::SignAccessToken(access)) => assert_eq!(access.exp, 280),
        _ => panic!("expected a renewal"),
    }
}

#[test]
fn role_names_round_trip() {
    for role in [Role::Admin, Role::User, Role::Guest] {
        assert_eq!(role_from_claim(&role_claim(role)), role);
    }
    assert_eq!(role_from_claim("superuser"), Role::Guest);
    assert_eq!(role_from_claim("Admin"), Role::Guest);
}

#[test]
fn validator_reads_identity() {
    let identity = jwt_validator(Some(TokenClaims { sub: 5, role: "admin".to_string(), exp: 99 })).unwrap();
    assert_eq!(identity.user_id, 5);
    assert_eq!(identity.role, Role::Admin);
    assert_eq!(identity.expires, 99);
    assert!(jwt_validator(None).is_none());
}
