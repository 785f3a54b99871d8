//! What holds of the service as a whole, stated over the verdicts of its
//! operations and the model of honest storage.

use vstd::prelude::*;
use crate::auth::{
    issued_claims, outward, payload_of, token_verdict, ClaimsView, DecodedView, TOKEN_TTL_SECS,
};
use crate::credentials::{authenticate_outcome, create_checked, register_outcome, NewUserView};
use crate::errors::{AuthError, TokenError};
use crate::password::hash_accepts;
use crate::storage::{
    honest_insert, honest_lookup, records_wf, InsertReplyView, LookupReplyView, Records,
};
use crate::user::{hyphenated, UserView};
use crate::validation::email_grammar;

verus! {

/// Whoever registered can log in. Take a request that passes the check and
/// the row made for it, whose hash accepts the password as every hash of
/// [`crate::user::User::create`] does. If an honest storage writes the row and
/// then answers the lookup of the address, the login with the same password
/// gives the very record that the registration gave, under the same address.
pub proof fn law_register_then_authenticate(
    before: Records,
    after: Records,
    email: Seq<char>,
    password: Seq<char>,
    row: NewUserView,
    inserted: InsertReplyView,
    found: LookupReplyView,
)
    requires
        create_checked(email, password) is Ok,
        row.email == email,
        hash_accepts(password, row.password_hash),
        honest_insert(before, row.email, row.password_hash, inserted, after),
        register_outcome(row, inserted) is Ok,
        honest_lookup(after, email, found),
        !(found is Failed),
    ensures
        authenticate_outcome(email, password, found) == register_outcome(row, inserted),
        authenticate_outcome(email, password, found) matches Ok(user) && user.email == email,
{
}

/// A wrong password is turned down with the general failure. For a registered
/// address in honest storage that answers the lookup, a password that the
/// stored hash does not accept gives `Unauthorized` and nothing more telling.
pub proof fn law_wrong_password_is_unauthorized(
    records: Records,
    email: Seq<char>,
    password: Seq<char>,
    found: LookupReplyView,
)
    requires
        records_wf(records),
        email_grammar(email),
        records.contains_key(email),
        !hash_accepts(password, records[email].password_hash),
        honest_lookup(records, email, found),
        !(found is Failed),
    ensures
        authenticate_outcome(email, password, found) == Err::<UserView, AuthError>(
            AuthError::Unauthorized,
        ),
{
}

/// An address that is not registered cannot be told from a wrong password.
/// Against honest storage that answers both lookups, the login with an
/// unknown address and the login with a known address and a password that its
/// hash does not accept fail alike.
pub proof fn law_unknown_address_is_indistinguishable(
    records: Records,
    unknown: Seq<char>,
    any_password: Seq<char>,
    found_unknown: LookupReplyView,
    known: Seq<char>,
    wrong_password: Seq<char>,
    found_known: LookupReplyView,
)
    requires
        records_wf(records),
        email_grammar(unknown),
        email_grammar(known),
        !records.contains_key(unknown),
        records.contains_key(known),
        !hash_accepts(wrong_password, records[known].password_hash),
        honest_lookup(records, unknown, found_unknown),
        honest_lookup(records, known, found_known),
        !(found_unknown is Failed),
        !(found_known is Failed),
    ensures
        authenticate_outcome(unknown, any_password, found_unknown) == authenticate_outcome(
            known,
            wrong_password,
            found_known,
        ),
        authenticate_outcome(unknown, any_password, found_unknown) == Err::<UserView, AuthError>(
            AuthError::Unauthorized,
        ),
{
}

/// An address registers once. After a registration that went through, a
/// second one for the same address fails whatever its password: with
/// `Conflict` where storage answers, and the records stay as the first
/// registration left them, with its record under the address.
pub proof fn law_second_registration_conflicts(
    before: Records,
    between: Records,
    after: Records,
    first_row: NewUserView,
    first: InsertReplyView,
    second_row: NewUserView,
    second: InsertReplyView,
)
    requires
        second_row.email == first_row.email,
        honest_insert(before, first_row.email, first_row.password_hash, first, between),
        register_outcome(first_row, first) is Ok,
        honest_insert(between, second_row.email, second_row.password_hash, second, after),
    ensures
        register_outcome(second_row, second) is Err,
        !(second is Failed) ==> register_outcome(second_row, second) == Err::<UserView, AuthError>(
            AuthError::Conflict,
        ),
        after == between,
        after.contains_key(first_row.email),
        Ok::<UserView, AuthError>(after[first_row.email]) == register_outcome(first_row, first),
{
}

/// One record for each address, always: honest storage keeps every record
/// under its own address through every request to write.
pub proof fn law_one_record_per_address(
    before: Records,
    after: Records,
    email: Seq<char>,
    password_hash: Seq<char>,
    reply: InsertReplyView,
)
    requires
        records_wf(before),
        honest_insert(before, email, password_hash, reply, after),
    ensures
        records_wf(after),
{
}

/// A fresh token validates. What a token issued for the user `id` at
/// `issued_at` decodes to under the issuing secret, validation accepts at
/// every time up to the expiry, the time of issue among them, and the claims
/// that come out carry the user's id as subject.
pub proof fn law_issued_token_validates(
    decoded: DecodedView,
    id: u128,
    issued_at: usize,
    now: usize,
)
    requires
        issued_claims(id, issued_at) matches Some(claims) && decoded == payload_of(claims),
        now <= issued_at + TOKEN_TTL_SECS,
    ensures
        token_verdict(decoded, now) == Ok::<ClaimsView, TokenError>(issued_claims(id, issued_at)->0),
        token_verdict(decoded, now) matches Ok(claims) && claims.sub == hyphenated(id),
{
}

/// A token expires after 24 hours. What a token issued at `issued_at`
/// decodes to under the issuing secret, validation turns down as `Expired`
/// at every time past the expiry.
pub proof fn law_token_expires(decoded: DecodedView, id: u128, issued_at: usize, now: usize)
    requires
        issued_claims(id, issued_at) matches Some(claims) && decoded == payload_of(claims),
        now > issued_at + TOKEN_TTL_SECS,
    ensures
        token_verdict(decoded, now) == Err::<ClaimsView, TokenError>(TokenError::Expired),
{
}

/// A signature that does not belong to the secret is decisive: the token
/// fails as `InvalidSignature` at every time, and towards the outside as
/// `Unauthorized`, as every failure of validation does.
pub proof fn law_bad_signature_is_rejected(now: usize, decoded: DecodedView)
    ensures
        token_verdict(DecodedView::BadSignature, now) == Err::<ClaimsView, TokenError>(
            TokenError::InvalidSignature,
        ),
        token_verdict(decoded, now) is Err ==> outward(token_verdict(decoded, now)) == Err::<
            ClaimsView,
            AuthError,
        >(AuthError::Unauthorized),
{
}

} // verus!
