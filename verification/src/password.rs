//! One-way password storage with bcrypt.

use vstd::prelude::*;

verus! {

/// The bcrypt work factor of every stored hash.
pub const HASH_COST: u32 = 12;

#[verifier::external_type_specification]
#[verifier::external_body]
pub struct ExBcryptError(bcrypt::BcryptError);

/// The answer of `bcrypt::verify` for a password and a stored hash; `None`
/// where it reports an error (a text that is no bcrypt hash).
pub uninterp spec fn bcrypt_verdict(password: Seq<char>, hash: Seq<char>) -> Option<bool>;

/// The ten decimal digits.
pub open spec fn decimal_digits() -> Seq<char> {
    seq!['0', '1', '2', '3', '4', '5', '6', '7', '8', '9']
}

/// The first seven characters of a hash made at `cost`: the version `2b` and
/// the cost in two digits, each behind a dollar sign, and a third dollar sign.
pub open spec fn hash_prefix(cost: u32) -> Seq<char> {
    seq![
        '$',
        '2',
        'b',
        '$',
        decimal_digits()[cost as int / 10],
        decimal_digits()[cost as int % 10],
        '$',
    ]
}

/// A text of the shape that the hasher gives at `cost`.
pub open spec fn hash_shaped(hash: Seq<char>, cost: u32) -> bool {
    hash.len() == 60 && hash.subrange(0, 7) == hash_prefix(cost)
}

/// Calls `bcrypt::hash`, which salts from the system's randomness.
///
/// Trusted: whatever the salt, the text that comes out is 60 ASCII
/// characters that begin with the version `2b` and the cost, and
/// `bcrypt::verify` accepts the same password against it: it reads cost and
/// salt back from the text and hashes again.
#[verifier::external_body]
fn bcrypt_hash(password: &str, cost: u32) -> (r: Result<String, bcrypt::BcryptError>)
    ensures
        r matches Ok(hash) ==> hash_shaped(hash@, cost) && bcrypt_verdict(password@, hash@) == Some(
            true,
        ),
{
    bcrypt::hash(password, cost)
}

/// Calls `bcrypt::verify`.
///
/// Trusted: the answer is a function of the password and the hash alone.
#[verifier::external_body]
fn bcrypt_verify(password: &str, hash: &str) -> (r: Result<bool, bcrypt::BcryptError>)
    ensures
        match r {
            Ok(same) => bcrypt_verdict(password@, hash@) == Some(same),
            Err(_) => bcrypt_verdict(password@, hash@) is None,
        },
{
    bcrypt::verify(password, hash)
}

/// Whether the stored hash is one of the password.
pub open spec fn hash_accepts(password: Seq<char>, hash: Seq<char>) -> bool {
    bcrypt_verdict(password, hash) == Some(true)
}

/// Hashes a password at [`HASH_COST`] with a fresh salt; `None` where the
/// hasher fails.
///
/// Two calls on one password give different hashes; each hash that comes out
/// names the cost and accepts the password.
pub fn hash_password(password: &str) -> (hashed: Option<String>)
    ensures
        hashed matches Some(hash) ==> hash_shaped(hash@, HASH_COST) && hash_accepts(
            password@,
            hash@,
        ),
{
    match bcrypt_hash(password, HASH_COST) {
        Ok(hash) => Some(hash),
        Err(_) => None,
    }
}

/// Whether the stored hash is one of the password. A stored text that is no
/// bcrypt hash accepts nothing.
pub fn password_matches(password: &str, hash: &str) -> (same: bool)
    ensures
        same == hash_accepts(password@, hash@),
{
    match bcrypt_verify(password, hash) {
        Ok(same) => same,
        Err(_) => false,
    }
}

} // verus!
