//! Identity records and the requests that create and use them.

use vstd::prelude::*;
use vstd::arithmetic::power::pow;

verus! {

/// An identity record as durable storage holds it.
///
/// `id` is the record's UUID as a 128-bit number; `created_at` and
/// `updated_at` are microseconds since the Unix epoch. Storage assigns all
/// three when the record is written.
#[derive(Debug, PartialEq, Eq)]
pub struct User {
    pub id: u128,
    pub email: String,
    pub password_hash: String,
    pub created_at: i64,
    pub updated_at: i64,
}

/// What a [`User`] is to the contracts.
pub struct UserView {
    pub id: u128,
    pub email: Seq<char>,
    pub password_hash: Seq<char>,
    pub created_at: i64,
    pub updated_at: i64,
}

impl View for User {
    type V = UserView;

    open spec fn view(&self) -> UserView {
        UserView {
            id: self.id,
            email: self.email@,
            password_hash: self.password_hash@,
            created_at: self.created_at,
            updated_at: self.updated_at,
        }
    }
}

impl Clone for User {
    fn clone(&self) -> (copy: Self)
        ensures
            copy == *self,
    {
        User {
            id: self.id,
            email: self.email.clone(),
            password_hash: self.password_hash.clone(),
            created_at: self.created_at,
            updated_at: self.updated_at,
        }
    }
}

/// A registration request.
#[derive(Debug, PartialEq, Eq)]
pub struct CreateUser {
    pub email: String,
    pub password: String,
}

/// A login request.
#[derive(Debug, PartialEq, Eq)]
pub struct LoginUser {
    pub email: String,
    pub password: String,
}

/// The sixteen lower-case hexadecimal digits.
pub open spec fn hex_digits() -> Seq<char> {
    seq!['0', '1', '2', '3', '4', '5', '6', '7', '8', '9', 'a', 'b', 'c', 'd', 'e', 'f']
}

/// The number of hyphens that stand before position `i` of a hyphenated UUID.
pub open spec fn hyphens_before(i: int) -> int {
    if i > 23 {
        4
    } else if i > 18 {
        3
    } else if i > 13 {
        2
    } else if i > 8 {
        1
    } else {
        0
    }
}

/// The character at position `i` of the hyphenated form of `id`: a hyphen at
/// 8, 13, 18 and 23, elsewhere the next hexadecimal digit, most significant
/// first.
pub open spec fn hyphenated_char(id: u128, i: int) -> char {
    if i == 8 || i == 13 || i == 18 || i == 23 {
        '-'
    } else {
        let place = 31 - (i - hyphens_before(i));
        hex_digits()[(id as int / pow(16, place as nat)) % 16]
    }
}

/// The canonical text of a UUID: 32 lower-case hexadecimal digits in groups of
/// 8, 4, 4, 4 and 12.
pub open spec fn hyphenated(id: u128) -> Seq<char> {
    Seq::new(36, |i: int| hyphenated_char(id, i))
}

/// Formats the number with `uuid::Uuid::from_u128` and the `Display` of
/// `uuid::Uuid`.
///
/// Trusted: `from_u128` takes the number big-endian, and `Display` writes the
/// hyphenated lower-case form.
#[verifier::external_body]
fn uuid_text(id: u128) -> (text: String)
    ensures
        text@ == hyphenated(id),
{
    uuid::Uuid::from_u128(id).to_string()
}

impl User {
    /// The record's id in its canonical text: the subject of its tokens.
    pub fn id_text(&self) -> (text: String)
        ensures
            text@ == hyphenated(self.id),
    {
        uuid_text(self.id)
    }
}

} // verus!
