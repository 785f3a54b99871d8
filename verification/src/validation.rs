//! Field-level checks that run before any hashing or storage.

use vstd::prelude::*;
use vstd::string::*;
use validator::ValidateEmail;

verus! {

/// The least number of characters in a password.
pub const MIN_PASSWORD_CHARS: usize = 8;

/// Whether `validator`'s e-mail check accepts the address.
pub uninterp spec fn email_grammar(email: Seq<char>) -> bool;

/// A password is long enough when it has at least
/// [`MIN_PASSWORD_CHARS`] characters.
pub open spec fn password_long_enough(password: Seq<char>) -> bool {
    password.len() >= MIN_PASSWORD_CHARS
}

/// Calls `validator::ValidateEmail::validate_email` on the address.
///
/// Trusted: the answer is a function of the address alone (two fixed regular
/// expressions, two length limits and an IDNA conversion), and an address
/// without `@` is never accepted.
#[verifier::external_body]
fn validator_accepts_email(email: &str) -> (ok: bool)
    ensures
        ok == email_grammar(email@),
        ok ==> email@.contains('@'),
{
    email.validate_email()
}

/// Whether the address follows the e-mail grammar.
pub fn is_valid_email(email: &str) -> (ok: bool)
    ensures
        ok == email_grammar(email@),
        ok ==> email@.contains('@'),
{
    validator_accepts_email(email)
}

/// Whether the password has the least length, counted in characters.
pub fn is_valid_password(password: &str) -> (ok: bool)
    ensures
        ok == password_long_enough(password@),
{
    password.unicode_len() >= MIN_PASSWORD_CHARS
}

} // verus!
