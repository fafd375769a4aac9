use vstd::prelude::*;

use crate::clock::{expiry, is_clock_reading, now_timestamp, spec_expiry};
use crate::http::{
    fail, fails_with, is_json, is_message, json_reply, message_reply, responds_message,
    responds_text, text_reply, DbError, Reply, Status, Step,
};
use crate::middleware::auth::TokenClaims;
use crate::password::{bcrypt_verify_outcome, hash_password, verify_password};
use crate::text::{find_first, find_last};

verus! {

pub open spec fn is_ascii_letter(c: char) -> bool {
    ('a' <= c && c <= 'z') || ('A' <= c && c <= 'Z')
}

pub open spec fn is_ascii_digit(c: char) -> bool {
    '0' <= c && c <= '9'
}

/// A character of the part before `@`: `[a-zA-Z0-9._%+-]`.
pub open spec fn is_local_char(c: char) -> bool {
    is_ascii_letter(c) || is_ascii_digit(c) || c == '.' || c == '_' || c == '%' || c == '+' || c == '-'
}

/// A character of the domain before its last dot: `[a-zA-Z0-9.-]`.
pub open spec fn is_domain_char(c: char) -> bool {
    is_ascii_letter(c) || is_ascii_digit(c) || c == '.' || c == '-'
}

/// `s` reads as `local@domain.tld` with the `@` at `at` and the dot before the
/// top-level domain at `dot`: the pattern
/// `^[a-zA-Z0-9._%+-]+@[a-zA-Z0-9.-]+\.[a-zA-Z]{2,}$`.
pub open spec fn email_parts(s: Seq<char>, at: int, dot: int) -> bool {
    &&& 0 < at
    &&& at + 1 < dot
    &&& dot + 2 < s.len()
    &&& s[at] == '@'
    &&& s[dot] == '.'
    &&& forall|i: int| 0 <= i < at ==> is_local_char(#[trigger] s[i])
    &&& forall|i: int| at < i < dot ==> is_domain_char(#[trigger] s[i])
    &&& forall|i: int| dot < i < s.len() ==> is_ascii_letter(#[trigger] s[i])
}

/// `s` is an e-mail address of the accepted shape.
pub open spec fn spec_is_valid_email(s: Seq<char>) -> bool {
    exists|at: int, dot: int| email_parts(s, at, dot)
}

/// Which characters a stretch of an address may hold.
enum CharClass {
    Local,
    Domain,
    Letter,
}

spec fn in_class(class: CharClass, c: char) -> bool {
    match class {
        CharClass::Local => is_local_char(c),
        CharClass::Domain => is_domain_char(c),
        CharClass::Letter => is_ascii_letter(c),
    }
}

fn char_in_class(class: &CharClass, c: char) -> (r: bool)
    ensures
        r == in_class(*class, c),
{
    let letter = ('a' <= c && c <= 'z') || ('A' <= c && c <= 'Z');
    let digit = '0' <= c && c <= '9';
    match class {
        CharClass::Local => letter || digit || c == '.' || c == '_' || c == '%' || c == '+' || c == '-',
        CharClass::Domain => letter || digit || c == '.' || c == '-',
        CharClass::Letter => letter,
    }
}

/// Whether every character of `s` at positions `lo..hi` is in `class`.
fn all_in_class(s: &str, lo: usize, hi: usize, class: CharClass) -> (r: bool)
    requires
        lo <= hi <= s@.len(),
    ensures
        r == forall|i: int| lo <= i < hi ==> in_class(class, #[trigger] s@[i]),
{
    let mut i = lo;
    while i < hi
        invariant
            lo <= i <= hi <= s@.len(),
            forall|j: int| lo <= j < i ==> in_class(class, #[trigger] s@[j]),
        decreases hi - i,
    {
        if !char_in_class(&class, s.get_char(i)) {
            return false;
        }
        i = i + 1;
    }
    true
}

/// Whether `email` has the shape `local@domain.tld` that registration accepts.
pub fn is_valid_email(email: &str) -> (valid: bool)
    ensures
        valid == spec_is_valid_email(email@),
{
    let s = Ghost(email@);
    let n = email.unicode_len();
    let at = match find_first(email, '@') {
        Some(i) => i,
        None => {
            assert forall|a: int, d: int| !email_parts(s@, a, d) by {
                if email_parts(s@, a, d) {
                    assert(s@[a] == '@');
                }
            }
            return false;
        }
    };
    let dot = match find_last(email, '.') {
        Some(i) => i,
        None => {
            assert forall|a: int, d: int| !email_parts(s@, a, d) by {
                if email_parts(s@, a, d) {
                    assert(s@[d] == '.');
                }
            }
            return false;
        }
    };
    // Any split that fits the pattern uses the first `@` and the last `.`.
    assert forall|a: int, d: int| email_parts(s@, a, d) implies a == at && d == dot by {
        if a < at {
            assert(s@[a] == '@');
        }
        if at < a {
            assert(is_local_char(s@[at as int]));
        }
        if d < dot {
            assert(is_ascii_letter(s@[dot as int]));
        }
        if dot < d {
            assert(s@[d] == '.');
        }
    }
    if at == 0 || at + 1 >= dot || n - dot <= 2 {
        return false;
    }
    let local_ok = all_in_class(email, 0, at, CharClass::Local);
    let domain_ok = all_in_class(email, at + 1, dot, CharClass::Domain);
    let tld_ok = all_in_class(email, dot + 1, n, CharClass::Letter);
    let valid = local_ok && domain_ok && tld_ok;
    if valid {
        assert(email_parts(s@, at as int, dot as int));
    }
    valid
}

/// A registration form.
pub struct RegisterInfo {
    pub username: String,
    pub email: String,
    pub password: String,
    pub role: String,
}

/// The account registration created.
pub struct RegisterResponse {
    pub user_id: i32,
    pub username: String,
    pub email: String,
    pub role: String,
    pub created_at: i64,
}

/// A login form.
pub struct LoginInfo {
    pub email: String,
    pub password: String,
}

/// An account that already holds a username or e-mail address.
pub struct ExistingUser {
    pub username: String,
    pub email: String,
}

/// An account to be stored.
pub struct NewUser {
    pub username: String,
    pub email: String,
    pub password_hash: String,
    pub role: String,
}

/// What login reads of an account.
pub struct Credentials {
    pub user_id: i32,
    pub password_hash: String,
    pub role: String,
}

/// The tokens login issues: claims to sign with the access secret and with the
/// refresh secret, and the second at which the refresh token expires.
pub struct TokenIssue {
    pub access: TokenClaims,
    pub refresh: TokenClaims,
    pub refresh_expires_at: i64,
}

/// The answer to a successful login.
pub struct TokenPair {
    pub access_token: String,
    pub refresh_token: String,
}

/// The answer to a successful token refresh.
pub struct AccessToken {
    pub access_token: String,
}

/// The work that registration, login and token refresh hand to their caller.
pub enum AuthQuery {
    /// Look for an account with this username or this e-mail address.
    FindByNameOrEmail { username: String, email: String },
    /// Store the account and read it back.
    InsertUser(NewUser),
    /// Read the account with this e-mail address.
    FindCredentials { email: String },
    /// Sign the access claims with the access secret and the refresh claims
    /// with the refresh secret.
    SignTokens(TokenIssue),
    /// Store a refresh token of a user.
    StoreRefreshToken { user_id: i32, token: String, expires_at: i64 },
    /// Look for this user's refresh token that has not yet expired.
    FindRefreshToken { user_id: i32, token: String },
    /// Sign these claims with the access secret.
    SignAccessToken(TokenClaims),
}

/// Seconds an access token lasts: three minutes.
pub const ACCESS_TOKEN_LIFETIME: i64 = 180i64;

/// Seconds a refresh token lasts: thirty days.
pub const REFRESH_TOKEN_LIFETIME: i64 = 2_592_000i64;

/// What the first step of registration does with `form`.
pub open spec fn register_user_post(form: RegisterInfo, s: Step<AuthQuery, RegisterResponse>) -> bool {
    if spec_is_valid_email(form.email@) {
        s == Step::<AuthQuery, RegisterResponse>::Run(
            AuthQuery::FindByNameOrEmail { username: form.username, email: form.email },
        )
    } else {
        responds_message(s, Status::BadRequest, "Неверный формат email"@)
    }
}

/// Registration, first step: check the address, then look for an account
/// that already holds the username or the address.
pub fn register_user(form: &RegisterInfo) -> (s: Step<AuthQuery, RegisterResponse>)
    ensures
        register_user_post(*form, s),
{
    if !is_valid_email(form.email.as_str()) {
        return Step::Respond(message_reply(Status::BadRequest, "Неверный формат email"));
    }
    Step::Run(AuthQuery::FindByNameOrEmail { username: form.username.clone(), email: form.email.clone() })
}

/// What registration does once it knows whether the username or address is
/// taken. Where the password hash could not be made it answers 500; a stored
/// account always carries a hash that verifies the registering password.
pub open spec fn register_user_after_lookup_post(
    form: RegisterInfo,
    lookup: Result<Option<ExistingUser>, DbError>,
    s: Step<AuthQuery, RegisterResponse>,
) -> bool {
    match lookup {
        Ok(Some(existing)) => if existing.username@ == form.username@ {
            responds_message(s, Status::BadRequest, "Пользователь с таким именем уже существует"@)
        } else {
            responds_message(s, Status::BadRequest, "Пользователь с таким email уже существует"@)
        },
        Ok(None) => {
            ||| responds_message(s, Status::InternalServerError, "Ошибка при создании пользователя"@)
            ||| s matches Step::Run(AuthQuery::InsertUser(account)) && {
                &&& account.username == form.username
                &&& account.email == form.email
                &&& account.role == form.role
                &&& bcrypt_verify_outcome(form.password@, account.password_hash@) == Some(true)
            }
        },
        Err(_) => responds_message(s, Status::InternalServerError, "Ошибка сервера при проверке пользователя"@),
    }
}

/// Registration, second step: refuse a taken username or address, else hash
/// the password and store the account.
pub fn register_user_after_lookup(form: &RegisterInfo, lookup: Result<Option<ExistingUser>, DbError>) -> (s: Step<
    AuthQuery,
    RegisterResponse,
>)
    ensures
        register_user_after_lookup_post(*form, lookup, s),
{
    match lookup {
        Ok(Some(existing)) => {
            if existing.username == form.username {
                Step::Respond(message_reply(Status::BadRequest, "Пользователь с таким именем уже существует"))
            } else {
                Step::Respond(message_reply(Status::BadRequest, "Пользователь с таким email уже существует"))
            }
        },
        Ok(None) => match hash_password(form.password.as_str()) {
            Some(password_hash) => Step::Run(
                AuthQuery::InsertUser(
                    NewUser {
                        username: form.username.clone(),
                        email: form.email.clone(),
                        password_hash,
                        role: form.role.clone(),
                    },
                ),
            ),
            None => Step::Respond(message_reply(Status::InternalServerError, "Ошибка при создании пользователя")),
        },
        Err(_) => Step::Respond(
            message_reply(Status::InternalServerError, "Ошибка сервера при проверке пользователя"),
        ),
    }
}

/// Registration, last step: answer with the stored account.
pub fn register_user_reply(inserted: Result<RegisterResponse, DbError>) -> (r: Reply<RegisterResponse>)
    ensures
        match inserted {
            Ok(account) => is_json(r, account),
            Err(_) => is_message(r, Status::InternalServerError, "Ошибка при создании пользователя"@),
        },
{
    match inserted {
        Ok(account) => json_reply(account),
        Err(_) => message_reply(Status::InternalServerError, "Ошибка при создании пользователя"),
    }
}

/// Login, first step: read the account with the given address.
pub fn login_user(form: &LoginInfo) -> (s: Step<AuthQuery, TokenPair>)
    ensures
        s == Step::<AuthQuery, TokenPair>::Run(AuthQuery::FindCredentials { email: form.email }),
{
    Step::Run(AuthQuery::FindCredentials { email: form.email.clone() })
}

/// `s` signs tokens for a user with this id and role name: an access token
/// that expires `ACCESS_TOKEN_LIFETIME` seconds after `access_now` and a
/// refresh token that expires `REFRESH_TOKEN_LIFETIME` seconds after
/// `refresh_now`; or, where such a second is past the range of dates, stops.
pub open spec fn issues_tokens<T>(
    s: Step<AuthQuery, T>,
    user_id: i32,
    role: Seq<char>,
    access_now: int,
    refresh_now: int,
) -> bool {
    match (spec_expiry(access_now, ACCESS_TOKEN_LIFETIME as int), spec_expiry(refresh_now, REFRESH_TOKEN_LIFETIME as int)) {
        (Some(access_exp), Some(refresh_exp)) => s matches Step::Run(AuthQuery::SignTokens(issue)) && {
            &&& issue.access.sub == user_id
            &&& issue.access.role@ == role
            &&& issue.access.exp == access_exp as u64
            &&& issue.refresh.sub == user_id
            &&& issue.refresh.role@ == role
            &&& issue.refresh.exp == refresh_exp as u64
            &&& issue.refresh_expires_at == refresh_exp
        },
        _ => fails_with(s, "Ошибка при установке времени"@),
    }
}

/// Login's tokens for the account `account`, read at the clock readings
/// `access_now` and `refresh_now` (seconds).
pub fn issue_tokens(account: &Credentials, access_now: i64, refresh_now: i64) -> (s: Step<AuthQuery, TokenPair>)
    ensures
        issues_tokens(s, account.user_id, account.role@, access_now as int, refresh_now as int),
{
    let access_exp = match expiry(access_now, ACCESS_TOKEN_LIFETIME) {
        Some(t) => t,
        None => return fail("Ошибка при установке времени"),
    };
    let refresh_exp = match expiry(refresh_now, REFRESH_TOKEN_LIFETIME) {
        Some(t) => t,
        None => return fail("Ошибка при установке времени"),
    };
    Step::Run(
        AuthQuery::SignTokens(
            TokenIssue {
                access: TokenClaims { sub: account.user_id, role: account.role.clone(), exp: access_exp as u64 },
                refresh: TokenClaims { sub: account.user_id, role: account.role.clone(), exp: refresh_exp as u64 },
                refresh_expires_at: refresh_exp,
            },
        ),
    )
}

/// What login does with the account it read: an unknown address or a wrong
/// password is answered 401; a right one gets tokens; a stored hash bcrypt
/// cannot read stops the worker.
pub open spec fn login_user_after_lookup_post(
    form: LoginInfo,
    lookup: Result<Credentials, DbError>,
    s: Step<AuthQuery, TokenPair>,
) -> bool {
    match lookup {
        Err(_) => responds_text(s, Status::Unauthorized, "Пользователь не найден"@),
        Ok(account) => match bcrypt_verify_outcome(form.password@, account.password_hash@) {
            None => fails_with(s, "bcrypt could not read the stored password hash"@),
            Some(false) => responds_text(s, Status::Unauthorized, "Неверный пароль"@),
            Some(true) => exists|access_now: int, refresh_now: int|
                is_clock_reading(access_now) && is_clock_reading(refresh_now)
                    && #[trigger] issues_tokens(s, account.user_id, account.role@, access_now, refresh_now),
        },
    }
}

/// Login, second step: check the password against the stored hash and, if it
/// matches, issue tokens stamped with the current time.
pub fn login_user_after_lookup(form: &LoginInfo, lookup: Result<Credentials, DbError>) -> (s: Step<AuthQuery, TokenPair>)
    ensures
        login_user_after_lookup_post(*form, lookup, s),
{
    match lookup {
        Err(_) => Step::Respond(text_reply(Status::Unauthorized, "Пользователь не найден")),
        Ok(account) => match verify_password(form.password.as_str(), account.password_hash.as_str()) {
            None => fail("bcrypt could not read the stored password hash"),
            Some(false) => Step::Respond(text_reply(Status::Unauthorized, "Неверный пароль")),
            Some(true) => {
                let access_now = now_timestamp();
                let refresh_now = now_timestamp();
                issue_tokens(&account, access_now, refresh_now)
            },
        },
    }
}

/// Login, third step, once the claims are signed: store the refresh token,
/// then answer with both tokens.
pub fn login_user_after_signing(issue: &TokenIssue, access_token: String, refresh_token: String) -> (r: (
    AuthQuery,
    Reply<TokenPair>,
))
    ensures
        r.0 == (AuthQuery::StoreRefreshToken {
            user_id: issue.refresh.sub,
            token: refresh_token,
            expires_at: issue.refresh_expires_at,
        }),
        is_json(r.1, TokenPair { access_token, refresh_token }),
{
    let store = AuthQuery::StoreRefreshToken {
        user_id: issue.refresh.sub,
        token: refresh_token.clone(),
        expires_at: issue.refresh_expires_at,
    };
    (store, json_reply(TokenPair { access_token, refresh_token }))
}

/// Token refresh, first step: a refresh token that did not decode (with the
/// refresh secret and the default validation) is refused; else look for it
/// among the user's stored refresh tokens.
pub fn refresh_token(token: String, decoded: Option<TokenClaims>) -> (s: Step<AuthQuery, AccessToken>)
    ensures
        match decoded {
            None => responds_text(s, Status::Unauthorized, "Ошибка верификации токена"@),
            Some(claims) => s == Step::<AuthQuery, AccessToken>::Run(
                AuthQuery::FindRefreshToken { user_id: claims.sub, token },
            ),
        },
{
    match decoded {
        None => Step::Respond(text_reply(Status::Unauthorized, "Ошибка верификации токена")),
        Some(claims) => Step::Run(AuthQuery::FindRefreshToken { user_id: claims.sub, token }),
    }
}

/// `s` signs an access token for the holder of `claims`, expiring
/// `ACCESS_TOKEN_LIFETIME` seconds after `now`, or stops past the range of dates.
pub open spec fn renews_access<T>(s: Step<AuthQuery, T>, claims: TokenClaims, now: int) -> bool {
    match spec_expiry(now, ACCESS_TOKEN_LIFETIME as int) {
        Some(exp) => s matches Step::Run(AuthQuery::SignAccessToken(access)) && {
            &&& access.sub == claims.sub
            &&& access.role == claims.role
            &&& access.exp == exp as u64
        },
        None => fails_with(s, "Ошибка при установке времени"@),
    }
}

/// A fresh access token for the holder of `claims`, read at clock reading `now`.
pub fn renew_access(claims: &TokenClaims, now: i64) -> (s: Step<AuthQuery, AccessToken>)
    ensures
        renews_access(s, *claims, now as int),
{
    match expiry(now, ACCESS_TOKEN_LIFETIME) {
        Some(exp) => Step::Run(
            AuthQuery::SignAccessToken(TokenClaims { sub: claims.sub, role: claims.role.clone(), exp: exp as u64 }),
        ),
        None => fail("Ошибка при установке времени"),
    }
}

/// What token refresh does once it knows whether the token is stored: the
/// new access token counts from a reading of the clock.
pub open spec fn refresh_token_after_lookup_post(
    claims: TokenClaims,
    found: Result<(), DbError>,
    s: Step<AuthQuery, AccessToken>,
) -> bool {
    match found {
        Err(_) => responds_text(s, Status::Unauthorized, "Недействительный refresh-токен"@),
        Ok(_) => exists|now: int| is_clock_reading(now) && #[trigger] renews_access(s, claims, now),
    }
}

/// Token refresh, second step: a token that is not stored (or has expired
/// there) is refused; else sign a new access token with the same identity.
pub fn refresh_token_after_lookup(claims: &TokenClaims, found: Result<(), DbError>) -> (s: Step<AuthQuery, AccessToken>)
    ensures
        refresh_token_after_lookup_post(*claims, found, s),
{
    match found {
        Err(_) => Step::Respond(text_reply(Status::Unauthorized, "Недействительный refresh-токен")),
        Ok(_) => {
            let now = now_timestamp();
            renew_access(claims, now)
        },
    }
}

/// Token refresh, last step: answer with the signed access token.
pub fn refresh_token_reply(access_token: String) -> (r: Reply<AccessToken>)
    ensures
        is_json(r, AccessToken { access_token }),
{
    json_reply(AccessToken { access_token })
}

} // verus!
