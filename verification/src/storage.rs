//! What passes between the credential store and durable storage.
//!
//! Storage is the caller's: it writes and reads the records and reports what
//! happened in the types of this module. The model at the end says what an
//! honest storage answers; the laws of the crate are stated over it.

use vstd::prelude::*;
use crate::user::{User, UserView};

verus! {

/// The record to write for an accepted registration. Storage adds the id and
/// the timestamps.
#[derive(Debug, PartialEq, Eq)]
pub struct NewUser {
    pub email: String,
    pub password_hash: String,
}

/// Storage's answer to the request to write a new record.
#[derive(Debug, PartialEq, Eq)]
pub enum InsertReply {
    /// The record was written; this is the record as stored.
    Inserted(User),
    /// A record with this e-mail address exists; nothing was written.
    DuplicateEmail,
    /// Any other failure; nothing was written.
    Failed,
}

/// Storage's answer to the request to find the record of an e-mail address.
#[derive(Debug, PartialEq, Eq)]
pub enum LookupReply {
    /// The record of the address.
    Found(User),
    /// No record has the address.
    Missing,
    /// The lookup failed.
    Failed,
}

/// What an [`InsertReply`] is to the contracts.
pub enum InsertReplyView {
    Inserted(UserView),
    DuplicateEmail,
    Failed,
}

/// What a [`LookupReply`] is to the contracts.
pub enum LookupReplyView {
    Found(UserView),
    Missing,
    Failed,
}

impl View for InsertReply {
    type V = InsertReplyView;

    open spec fn view(&self) -> InsertReplyView {
        match *self {
            InsertReply::Inserted(user) => InsertReplyView::Inserted(user@),
            InsertReply::DuplicateEmail => InsertReplyView::DuplicateEmail,
            InsertReply::Failed => InsertReplyView::Failed,
        }
    }
}

impl View for LookupReply {
    type V = LookupReplyView;

    open spec fn view(&self) -> LookupReplyView {
        match *self {
            LookupReply::Found(user) => LookupReplyView::Found(user@),
            LookupReply::Missing => LookupReplyView::Missing,
            LookupReply::Failed => LookupReplyView::Failed,
        }
    }
}

/// The records that storage holds, each under its e-mail address. Addresses
/// are compared letter for letter.
pub type Records = Map<Seq<char>, UserView>;

/// Every record stands under its own address.
pub open spec fn records_wf(records: Records) -> bool {
    forall|email: Seq<char>| #[trigger]
        records.contains_key(email) ==> records[email].email == email
}

/// An honest answer to the request to write `email` with `password_hash` into
/// `before`, and the records `after` it: a new address is written once, with
/// the fields as requested, and an address that exists is refused; a refusal
/// or a failure writes nothing.
pub open spec fn honest_insert(
    before: Records,
    email: Seq<char>,
    password_hash: Seq<char>,
    reply: InsertReplyView,
    after: Records,
) -> bool {
    match reply {
        InsertReplyView::Inserted(user) => {
            &&& !before.contains_key(email)
            &&& user.email == email
            &&& user.password_hash == password_hash
            &&& after == before.insert(email, user)
        },
        InsertReplyView::DuplicateEmail => before.contains_key(email) && after == before,
        InsertReplyView::Failed => after == before,
    }
}

/// An honest answer to the request to find `email` in `records`.
pub open spec fn honest_lookup(records: Records, email: Seq<char>, reply: LookupReplyView) -> bool {
    match reply {
        LookupReplyView::Found(user) => records.contains_key(email) && records[email] == user,
        LookupReplyView::Missing => !records.contains_key(email),
        LookupReplyView::Failed => true,
    }
}

} // verus!
