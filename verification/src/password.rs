use vstd::prelude::*;

verus! {

/// What `bcrypt::verify(password, hash)` gives back for these characters:
/// `Some(matches)`, or `None` where it reports an error (a hash it cannot read).
pub uninterp spec fn bcrypt_verify_outcome(password: Seq<char>, hash: Seq<char>) -> Option<bool>;

/// Calls `bcrypt::verify`, which re-hashes `password` with the cost and salt
/// read from `hash` and compares. Claimed: the answer is the one named by
/// `bcrypt_verify_outcome`, an error being `None`.
#[verifier::external_body]
pub(crate) fn verify_password(password: &str, hash: &str) -> (r: Option<bool>)
    ensures
        r == bcrypt_verify_outcome(password@, hash@),
{
    match bcrypt::verify(password, hash) {
        Ok(matches) => Some(matches),
        Err(_) => None,
    }
}

/// Calls `bcrypt::hash` at `bcrypt::DEFAULT_COST` with a salt drawn from the
/// system's randomness; `None` where it reports an error. Claimed: a hash it
/// gives back verifies the same password (`bcrypt::verify` reads back the cost
/// and salt it wrote and recomputes the same digest). Which hash comes back is
/// left unsaid: it depends on the random salt.
#[verifier::external_body]
pub(crate) fn hash_password(password: &str) -> (r: Option<String>)
    ensures
        r matches Some(h) ==> bcrypt_verify_outcome(password@, h@) == Some(true),
{
    match bcrypt::hash(password, bcrypt::DEFAULT_COST) {
        Ok(h) => Some(h),
        Err(_) => None,
    }
}

} // verus!
