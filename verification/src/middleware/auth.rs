use vstd::prelude::*;

use crate::middleware::roles::Role;
use crate::text::same_text;

verus! {

/// The claims a token carries: the user's id, the role's name and the second
/// at which the token expires.
#[derive(Clone, Debug)]
pub struct TokenClaims {
    pub sub: i32,
    pub role: String,
    pub exp: u64,
}

/// Who a request acts for, as read from a valid access token.
#[derive(Clone, Copy, Debug, PartialEq, Eq, Structural)]
pub struct Identity {
    pub user_id: i32,
    pub role: Role,
    pub expires: u64,
}

/// The role a token's role name stands for: `"admin"`, `"user"`, anything else
/// a guest.
pub open spec fn spec_role_from_claim(name: Seq<char>) -> Role {
    if name == "admin"@ {
        Role::Admin
    } else if name == "user"@ {
        Role::User
    } else {
        Role::Guest
    }
}

/// The name under which a role is written into a token.
pub open spec fn spec_role_claim(role: Role) -> Seq<char> {
    match role {
        Role::Admin => "admin"@,
        Role::User => "user"@,
        Role::Guest => "guest"@,
    }
}

/// Reads a token's role name.
pub fn role_from_claim(name: &str) -> (role: Role)
    ensures
        role == spec_role_from_claim(name@),
{
    if same_text(name, "admin") {
        Role::Admin
    } else if same_text(name, "user") {
        Role::User
    } else {
        Role::Guest
    }
}

/// Writes a role's name for a token.
pub fn role_claim(role: Role) -> (name: String)
    ensures
        name@ == spec_role_claim(role),
{
    match role {
        Role::Admin => String::from_str("admin"),
        Role::User => String::from_str("user"),
        Role::Guest => String::from_str("guest"),
    }
}

/// A role written into a token reads back as the same role.
pub proof fn role_claim_round_trip(role: Role)
    ensures
        spec_role_from_claim(spec_role_claim(role)) == role,
{
    reveal_strlit("admin");
    reveal_strlit("user");
    reveal_strlit("guest");
    assert("user"@[0] != "admin"@[0]);
    assert("guest"@[0] != "admin"@[0]);
    assert("guest"@[0] != "user"@[0]);
}

/// The identity an access token gives a request.
pub open spec fn spec_identity(claims: TokenClaims) -> Identity {
    Identity { user_id: claims.sub, role: spec_role_from_claim(claims.role@), expires: claims.exp }
}

/// Admits a request whose bearer token decoded (with the access secret and the
/// default validation: signature and expiry) to `decoded`, and gives the
/// identity it then acts under; a token that did not decode is refused (`None`).
pub fn jwt_validator(decoded: Option<TokenClaims>) -> (identity: Option<Identity>)
    ensures
        match decoded {
            Some(claims) => identity == Some(spec_identity(claims)),
            None => identity is None,
        },
{
    match decoded {
        Some(claims) => Some(
            Identity { user_id: claims.sub, role: role_from_claim(claims.role.as_str()), expires: claims.exp },
        ),
        None => None,
    }
}

} // verus!
