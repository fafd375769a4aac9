use vstd::prelude::*;

use crate::clock::{
    clock_reading_micros_range, clock_reading_range, is_clock_reading, is_clock_reading_micros, whole_hours,
};
use crate::handlers::auth::{
    issues_tokens, login_user_after_lookup_post, refresh_token_after_lookup_post, register_user_after_lookup_post,
    renews_access, AuthQuery, AccessToken,
    Credentials, ExistingUser, LoginInfo, RegisterInfo, RegisterResponse, TokenPair, ACCESS_TOKEN_LIFETIME,
    REFRESH_TOKEN_LIFETIME,
};
use crate::handlers::message::{
    message_edit_post, update_message_after_lookup_post, MessageQuery, MessageResponse, UpdateMessage,
};
use crate::handlers::request::{
    is_answer_status, update_request_status_post, RequestQuery, RequestResponse, UpdateRequestStatus,
};
use crate::handlers::review::{delete_review_post, update_review_post, ReviewQuery, ReviewResponse, UpdateReview};
use crate::handlers::user::{
    delete_user_step_post, removal_next, spec_apply_update, update_user_after_lookup_post, AccountRemoval,
    UpdateUser, UserQuery,
};
use crate::http::{responds_text, DbError, Status, Step};
use crate::password::bcrypt_verify_outcome;
use crate::middleware::auth::{
    role_claim_round_trip, spec_identity, spec_role_claim, spec_role_from_claim, Identity, TokenClaims,
};
use crate::middleware::roles::{acting_role, Role};
use crate::models::message::Message;
use crate::models::request::Request;
use crate::models::review::Review;
use crate::models::user::User;

verus! {

/// The account registration stores lets the same password log in: login
/// neither refuses the password nor stops on the stored hash, it issues tokens.
pub proof fn registered_password_logs_in(
    form: RegisterInfo,
    registered: Step<AuthQuery, RegisterResponse>,
    login: LoginInfo,
    account: Credentials,
    answered: Step<AuthQuery, TokenPair>,
)
    requires
        register_user_after_lookup_post(form, Ok(None::<ExistingUser>), registered),
        registered matches Step::Run(AuthQuery::InsertUser(stored)) && stored.password_hash == account.password_hash,
        login.password@ == form.password@,
        login_user_after_lookup_post(login, Ok(account), answered),
    ensures
        exists|access_now: int, refresh_now: int|
            issues_tokens(answered, account.user_id, account.role@, access_now, refresh_now),
{
}

/// The access token login issues identifies the account's user and role and
/// expires three minutes after it was issued; the refresh token carries the
/// same user and role and expires thirty days after it was issued.
pub proof fn login_tokens_identify_account<T>(
    s: Step<AuthQuery, T>,
    account: Credentials,
    access_now: int,
    refresh_now: int,
)
    requires
        issues_tokens(s, account.user_id, account.role@, access_now, refresh_now),
        s matches Step::Run(_),
    ensures
        s matches Step::Run(AuthQuery::SignTokens(issue)) && {
            &&& spec_identity(issue.access) == (Identity {
                user_id: account.user_id,
                role: spec_role_from_claim(account.role@),
                expires: issue.access.exp,
            })
            &&& spec_identity(issue.refresh).user_id == account.user_id
            &&& spec_identity(issue.refresh).role == spec_role_from_claim(account.role@)
            &&& issue.access.exp == (access_now + ACCESS_TOKEN_LIFETIME) as u64
            &&& issue.refresh_expires_at == refresh_now + REFRESH_TOKEN_LIFETIME
        },
{
}

/// A refreshed access token acts for the same user in the same role as the
/// refresh token it was made from.
pub proof fn refresh_keeps_identity<T>(s: Step<AuthQuery, T>, claims: TokenClaims, now: int)
    requires
        renews_access(s, claims, now),
        s matches Step::Run(_),
    ensures
        s matches Step::Run(AuthQuery::SignAccessToken(access)) && {
            &&& spec_identity(access).user_id == spec_identity(claims).user_id
            &&& spec_identity(access).role == spec_identity(claims).role
            &&& access.exp == (now + ACCESS_TOKEN_LIFETIME) as u64
        },
{
}

/// A token whose role was written for `role` admits its bearer as that role,
/// with the token's user id and expiry.
pub proof fn token_role_reads_back(claims: TokenClaims, role: Role)
    requires
        claims.role@ == spec_role_claim(role),
    ensures
        spec_identity(claims) == (Identity { user_id: claims.sub, role, expires: claims.exp }),
{
    role_claim_round_trip(role);
}

/// A request's status is only ever set by its receiver, and only to `accept`
/// or `decline`.
pub proof fn only_receiver_settles_request(
    user_id: i32,
    request_id: i32,
    form: UpdateRequestStatus,
    found: Result<Request, DbError>,
    s: Step<RequestQuery, RequestResponse>,
)
    requires
        update_request_status_post(user_id, request_id, form, found, s),
        s matches Step::Run(_),
    ensures
        found matches Ok(request) && request.receiver_id == user_id,
        s matches Step::Run(RequestQuery::SetStatus { request_id: id, status }) && id == request_id
            && is_answer_status(status@) && status == form.status,
{
}

/// A message is only ever edited by its sender, and only while fewer than
/// twelve whole hours have passed since it was sent.
pub proof fn only_sender_edits_recent_message(
    user_id: i32,
    message_id: i32,
    form: UpdateMessage,
    message: Message,
    now: int,
    s: Step<MessageQuery, MessageResponse>,
)
    requires
        message_edit_post(user_id, message_id, form, message, now, s),
        s matches Step::Run(_),
    ensures
        message.sender_id == user_id,
        whole_hours(now - message.created_at) < 12,
{
}

/// A review is only ever changed or removed by its author or an administrator.
pub proof fn only_author_or_admin_changes_review(
    user_id: i32,
    role: Option<Role>,
    review_id: i32,
    form: UpdateReview,
    found: Result<Review, DbError>,
    updated: Step<ReviewQuery, ReviewResponse>,
    removed: Step<ReviewQuery, ()>,
)
    requires
        update_review_post(user_id, role, review_id, form, found, updated),
        delete_review_post(user_id, role, review_id, found, removed),
    ensures
        ((updated matches Step::Run(_)) || (removed matches Step::Run(_))) ==> (found matches Ok(review) && (
        review.sender_id == user_id || acting_role(role) == Role::Admin)),
{
}

/// Applying the same profile changes twice is applying them once.
pub proof fn profile_update_idempotent(user: User, data: UpdateUser)
    ensures
        spec_apply_update(spec_apply_update(user, data), data) == spec_apply_update(user, data),
{
}

/// Changes that give no field leave the account as it is.
pub proof fn empty_profile_update_changes_nothing(user: User)
    ensures
        spec_apply_update(user, UpdateUser { username: None, email: None, profile_picture: None, bio: None })
            == user,
{
}

/// A profile change never touches the account's id, password hash, role or
/// creation time.
pub proof fn profile_update_keeps_account_fields(user: User, data: UpdateUser)
    ensures
        spec_apply_update(user, data).user_id == user.user_id,
        spec_apply_update(user, data).password_hash == user.password_hash,
        spec_apply_update(user, data).role == user.role,
        spec_apply_update(user, data).created_at == user.created_at,
{
}

/// Removing an account deletes its refresh tokens, then the account, then
/// commits; the transaction is committed only right after the account was
/// deleted.
pub proof fn account_removal_order(
    user_id: i32,
    done: AccountRemoval,
    outcome: Result<(), DbError>,
    s: Step<AccountRemoval, ()>,
)
    requires
        delete_user_step_post(user_id, done, outcome, s),
    ensures
        removal_next(user_id, AccountRemoval::Begin) == Some(AccountRemoval::DeleteTokens { user_id }),
        removal_next(user_id, AccountRemoval::DeleteTokens { user_id }) == Some(
            AccountRemoval::DeleteAccount { user_id },
        ),
        removal_next(user_id, AccountRemoval::DeleteAccount { user_id }) == Some(AccountRemoval::Commit),
        s == Step::<AccountRemoval, ()>::Run(AccountRemoval::Commit) ==> outcome is Ok
            && done matches AccountRemoval::DeleteAccount { .. },
        s == Step::<AccountRemoval, ()>::Run(AccountRemoval::DeleteAccount { user_id }) ==> outcome is Ok
            && done matches AccountRemoval::DeleteTokens { .. },
        outcome is Err ==> !(s matches Step::Run(_)),
{
}

/// Login, given the right password, signs an access token that expires
/// `ACCESS_TOKEN_LIFETIME` seconds after a reading of the clock taken at login,
/// and a refresh token that expires `REFRESH_TOKEN_LIFETIME` seconds after one:
/// both expire after the moment they are issued.
pub proof fn login_tokens_count_from_clock(form: LoginInfo, account: Credentials, s: Step<AuthQuery, TokenPair>)
    requires
        login_user_after_lookup_post(form, Ok(account), s),
        s matches Step::Run(_),
    ensures
        bcrypt_verify_outcome(form.password@, account.password_hash@) == Some(true),
        s matches Step::Run(AuthQuery::SignTokens(issue)) && exists|access_now: int, refresh_now: int| {
            &&& is_clock_reading(access_now)
            &&& is_clock_reading(refresh_now)
            &&& issue.access.exp == access_now + ACCESS_TOKEN_LIFETIME
            &&& issue.refresh.exp == refresh_now + REFRESH_TOKEN_LIFETIME
            &&& issue.access.exp > access_now
            &&& issue.refresh.exp > refresh_now
            &&& issue.access.sub == account.user_id
            &&& issue.refresh.sub == account.user_id
        },
{
    let (a, r) = choose|a: int, r: int|
        is_clock_reading(a) && is_clock_reading(r) && #[trigger] issues_tokens(s, account.user_id, account.role@, a, r);
    clock_reading_range(a);
    clock_reading_range(r);
    assert(issues_tokens(s, account.user_id, account.role@, a, r));
}

/// A renewed access token expires `ACCESS_TOKEN_LIFETIME` seconds after a
/// reading of the clock taken at refresh, so after the moment it is issued,
/// and acts for the refresh token's user and role.
pub proof fn renewed_token_counts_from_clock(claims: TokenClaims, s: Step<AuthQuery, AccessToken>)
    requires
        refresh_token_after_lookup_post(claims, Ok(()), s),
        s matches Step::Run(_),
    ensures
        s matches Step::Run(AuthQuery::SignAccessToken(access)) && exists|now: int| {
            &&& is_clock_reading(now)
            &&& access.exp == now + ACCESS_TOKEN_LIFETIME
            &&& access.exp > now
            &&& access.sub == claims.sub
            &&& access.role == claims.role
        },
{
    let now = choose|now: int| is_clock_reading(now) && #[trigger] renews_access(s, claims, now);
    clock_reading_range(now);
}

/// Editing a found message of the requester writes the new text only when a
/// reading of the clock shows fewer than twelve whole hours since the message
/// was sent, and refuses with 400 only when a reading shows twelve or more.
pub proof fn message_edit_follows_clock(
    user_id: i32,
    message_id: i32,
    form: UpdateMessage,
    message: Message,
    s: Step<MessageQuery, MessageResponse>,
)
    requires
        update_message_after_lookup_post(user_id, message_id, form, Ok(message), s),
        message.sender_id == user_id,
    ensures
        s matches Step::Run(_) ==> exists|now: int| {
            &&& is_clock_reading_micros(now)
            &&& whole_hours(now - message.created_at) < 12
            &&& s == Step::<MessageQuery, MessageResponse>::Run(
                MessageQuery::SetContent { message_id, content: form.content },
            )
        },
        !(s matches Step::Run(_)) ==> exists|now: int| {
            &&& is_clock_reading_micros(now)
            &&& whole_hours(now - message.created_at) >= 12
            &&& responds_text(s, Status::BadRequest, "Нельзя обновить сообщение старше 12 часов"@)
        },
{
    let now = choose|now: int|
        is_clock_reading_micros(now) && #[trigger] message_edit_post(user_id, message_id, form, message, now, s);
    clock_reading_micros_range(now);
}

/// Changing a profile writes back every field the change gives in place of the
/// stored one, keeps every field it leaves out, and keeps the account's id.
pub proof fn profile_change_replaces_given_fields(data: UpdateUser, user: User, s: Step<UserQuery, ()>)
    requires
        update_user_after_lookup_post(data, Ok(user), s),
    ensures
        s matches Step::Run(UserQuery::SaveProfile { user_id, username, email, profile_picture, bio }) && {
            &&& user_id == user.user_id
            &&& (data.username matches Some(n) ==> username == n)
            &&& (data.username is None ==> username == user.username)
            &&& (data.email matches Some(e) ==> email == e)
            &&& (data.email is None ==> email == user.email)
            &&& (data.profile_picture matches Some(p) ==> profile_picture == Some(p))
            &&& (data.profile_picture is None ==> profile_picture == user.profile_picture)
            &&& (data.bio matches Some(b) ==> bio == Some(b))
            &&& (data.bio is None ==> bio == user.bio)
        },
{
}

} // verus!
