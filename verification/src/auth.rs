//! The token service: signed, time-limited session tokens.

use vstd::prelude::*;
use crate::clock::current_time;
use crate::credentials::authenticate_outcome;
use crate::errors::{AuthError, TokenError};
use crate::storage::{LookupReply, LookupReplyView};
use crate::user::{hyphenated, LoginUser, User, UserView};

verus! {

/// How long a token is good for, in seconds: 24 hours.
pub const TOKEN_TTL_SECS: usize = 24 * 60 * 60;

/// The payload of a token.
#[derive(Debug, PartialEq, Eq)]
pub struct Claims {
    /// The user's id in its canonical text.
    pub sub: String,
    /// Expiry, in seconds since the Unix epoch.
    pub exp: usize,
    /// Time of issue, in seconds since the Unix epoch.
    pub iat: usize,
}

/// What [`Claims`] are to the contracts.
pub struct ClaimsView {
    pub sub: Seq<char>,
    pub exp: usize,
    pub iat: usize,
}

impl View for Claims {
    type V = ClaimsView;

    open spec fn view(&self) -> ClaimsView {
        ClaimsView { sub: self.sub@, exp: self.exp, iat: self.iat }
    }
}

/// The answer to a login: a fresh token and the record it was issued for.
#[derive(Debug, PartialEq, Eq)]
pub struct AuthResponse {
    pub token: String,
    pub user: User,
}

/// What an [`AuthResponse`] is to the contracts.
pub struct AuthResponseView {
    pub token: Seq<char>,
    pub user: UserView,
}

impl View for AuthResponse {
    type V = AuthResponseView;

    open spec fn view(&self) -> AuthResponseView {
        AuthResponseView { token: self.token@, user: self.user@ }
    }
}

/// What the signature check and the JSON reader make of a token, before any
/// rule of this service is applied.
#[derive(Debug, PartialEq, Eq)]
pub enum Decoded {
    /// The signature is good; the three claims are given as far as the payload
    /// holds them in the right type.
    Payload { sub: Option<String>, exp: Option<u64>, iat: Option<u64> },
    /// The signature does not belong to the secret.
    BadSignature,
    /// The token was turned down for any other reason.
    Rejected,
}

/// What a [`Decoded`] is to the contracts.
pub enum DecodedView {
    Payload { sub: Option<Seq<char>>, exp: Option<u64>, iat: Option<u64> },
    BadSignature,
    Rejected,
}

impl View for Decoded {
    type V = DecodedView;

    open spec fn view(&self) -> DecodedView {
        match *self {
            Decoded::Payload { sub, exp, iat } => DecodedView::Payload {
                sub: match sub {
                    Some(text) => Some(text@),
                    None => None,
                },
                exp,
                iat,
            },
            Decoded::BadSignature => DecodedView::BadSignature,
            Decoded::Rejected => DecodedView::Rejected,
        }
    }
}

#[verifier::external_type_specification]
#[verifier::external_body]
pub struct ExJwtError(jsonwebtoken::errors::Error);

/// The token that `jsonwebtoken::encode` makes of the three claims under the
/// secret, with the default header; `None` where it reports an error.
pub uninterp spec fn jwt_encoded(secret: Seq<char>, sub: Seq<char>, exp: u64, iat: u64) -> Option<
    Seq<char>,
>;

/// What `jsonwebtoken::decode` makes of a token under the secret, with the
/// default validation less the comparison of `exp` with the clock.
pub uninterp spec fn jwt_decoded(secret: Seq<char>, token: Seq<char>) -> DecodedView;

/// Calls `jsonwebtoken::encode` with `Header::default()` (HS256), a JSON
/// object of the three claims and `EncodingKey::from_secret`.
///
/// Trusted: the token is a function of the secret and the claims alone, and
/// `decode` under the same secret accepts it and reads the same three claims
/// from it: `decode` signs header and payload again and compares, and the
/// payload is the JSON text of the object.
#[verifier::external_body]
fn jwt_encode(secret: &str, sub: &str, exp: u64, iat: u64) -> (r: Result<
    String,
    jsonwebtoken::errors::Error,
>)
    ensures
        match r {
            Ok(token) => jwt_encoded(secret@, sub@, exp, iat) == Some(token@),
            Err(_) => jwt_encoded(secret@, sub@, exp, iat) is None,
        },
        r matches Ok(token) ==> jwt_decoded(secret@, token@) == (DecodedView::Payload {
            sub: Some(sub@),
            exp: Some(exp),
            iat: Some(iat),
        }),
{
    let mut claims = serde_json::Map::new();
    claims.insert("sub".to_string(), serde_json::Value::from(sub));
    claims.insert("exp".to_string(), serde_json::Value::from(exp));
    claims.insert("iat".to_string(), serde_json::Value::from(iat));
    let key = jsonwebtoken::EncodingKey::from_secret(secret.as_bytes());
    jsonwebtoken::encode(&jsonwebtoken::Header::default(), &claims, &key)
}

/// Calls `jsonwebtoken::decode` with `DecodingKey::from_secret` and
/// `Validation::default()` whose `validate_exp` is switched off, and hands out
/// the claims `sub`, `exp` and `iat` where the payload holds a string and two
/// unsigned integers under these names.
///
/// Trusted: with `validate_exp` off `decode` reads no clock, so the outcome
/// is a function of the secret and the token alone.
#[verifier::external_body]
fn jwt_decode(secret: &str, token: &str) -> (decoded: Decoded)
    ensures
        decoded@ == jwt_decoded(secret@, token@),
{
    let mut checks = jsonwebtoken::Validation::default();
    checks.validate_exp = false;
    let key = jsonwebtoken::DecodingKey::from_secret(secret.as_bytes());
    match jsonwebtoken::decode::<serde_json::Value>(token, &key, &checks) {
        Ok(data) => Decoded::Payload {
            sub: data.claims.get("sub").and_then(serde_json::Value::as_str).map(String::from),
            exp: data.claims.get("exp").and_then(serde_json::Value::as_u64),
            iat: data.claims.get("iat").and_then(serde_json::Value::as_u64),
        },
        Err(e) if matches!(e.kind(), jsonwebtoken::errors::ErrorKind::InvalidSignature) => Decoded::BadSignature,
        Err(_) => Decoded::Rejected,
    }
}

/// The claims of a token issued for the user `id` at `now`; `None` where the
/// expiry time cannot be counted.
pub open spec fn issued_claims(id: u128, now: usize) -> Option<ClaimsView> {
    if now + TOKEN_TTL_SECS <= usize::MAX {
        Some(ClaimsView { sub: hyphenated(id), exp: (now + TOKEN_TTL_SECS) as usize, iat: now })
    } else {
        None
    }
}

/// The token that carries the claims under the secret.
pub open spec fn signed(secret: Seq<char>, claims: ClaimsView) -> Result<Seq<char>, AuthError> {
    match jwt_encoded(secret, claims.sub, claims.exp as u64, claims.iat as u64) {
        Some(token) => Ok(token),
        None => Err(AuthError::Signing),
    }
}

/// The token issued under the secret for the user `id` at `now`.
pub open spec fn token_for(secret: Seq<char>, id: u128, now: usize) -> Result<
    Seq<char>,
    AuthError,
> {
    match issued_claims(id, now) {
        Some(claims) => signed(secret, claims),
        None => Err(AuthError::Signing),
    }
}

/// The payload that a token with these claims decodes to.
pub open spec fn payload_of(claims: ClaimsView) -> DecodedView {
    DecodedView::Payload {
        sub: Some(claims.sub),
        exp: Some(claims.exp as u64),
        iat: Some(claims.iat as u64),
    }
}

/// What validation at `now` makes of a decoded token: a bad signature first,
/// then a payload without the three claims, then the expiry time. A token is
/// good up to and including the second of its expiry.
pub open spec fn token_verdict(decoded: DecodedView, now: usize) -> Result<
    ClaimsView,
    TokenError,
> {
    match decoded {
        DecodedView::BadSignature => Err(TokenError::InvalidSignature),
        DecodedView::Rejected => Err(TokenError::Malformed),
        DecodedView::Payload { sub: Some(sub), exp: Some(exp), iat: Some(iat) } => {
            if exp > usize::MAX || iat > usize::MAX {
                Err(TokenError::Malformed)
            } else if exp < now {
                Err(TokenError::Expired)
            } else {
                Ok(ClaimsView { sub, exp: exp as usize, iat: iat as usize })
            }
        },
        DecodedView::Payload { .. } => Err(TokenError::Malformed),
    }
}

/// The outcome of a login at `now`, given storage's answer to the lookup: the
/// credentials are checked, then a token is issued for the record.
pub open spec fn login_outcome(
    secret: Seq<char>,
    email: Seq<char>,
    password: Seq<char>,
    reply: LookupReplyView,
    now: usize,
) -> Result<AuthResponseView, AuthError> {
    match authenticate_outcome(email, password, reply) {
        Ok(user) => match token_for(secret, user.id, now) {
            Ok(token) => Ok(AuthResponseView { token, user }),
            Err(e) => Err(e),
        },
        Err(e) => Err(e),
    }
}

/// A validation outcome as shown at an outward boundary: every failure is
/// `Unauthorized`.
pub open spec fn outward(verdict: Result<ClaimsView, TokenError>) -> Result<ClaimsView, AuthError> {
    match verdict {
        Ok(claims) => Ok(claims),
        Err(_) => Err(AuthError::Unauthorized),
    }
}

/// A result with a login answer, as the contracts see it.
pub open spec fn response_result_view(r: Result<AuthResponse, AuthError>) -> Result<
    AuthResponseView,
    AuthError,
> {
    match r {
        Ok(response) => Ok(response@),
        Err(e) => Err(e),
    }
}

/// A result with claims and an outward failure, as the contracts see it.
pub open spec fn verified_result_view(r: Result<Claims, AuthError>) -> Result<
    ClaimsView,
    AuthError,
> {
    match r {
        Ok(claims) => Ok(claims@),
        Err(e) => Err(e),
    }
}

/// A result with a token, as the contracts see it.
pub open spec fn token_result_view(r: Result<String, AuthError>) -> Result<Seq<char>, AuthError> {
    match r {
        Ok(token) => Ok(token@),
        Err(e) => Err(e),
    }
}

/// A result with claims, as the contracts see it.
pub open spec fn claims_result_view(r: Result<Claims, TokenError>) -> Result<
    ClaimsView,
    TokenError,
> {
    match r {
        Ok(claims) => Ok(claims@),
        Err(e) => Err(e),
    }
}

/// Issues and validates tokens under one signing secret, fixed when the
/// service is made.
pub struct AuthService {
    secret: String,
}

impl AuthService {
    /// The signing secret.
    pub closed spec fn secret(&self) -> Seq<char> {
        self.secret@
    }

    /// A service that signs and checks with `secret`.
    pub fn new(secret: &str) -> (service: Self)
        ensures
            service.secret() == secret@,
    {
        AuthService { secret: secret.to_owned() }
    }

    /// The claims of a token for `user` issued at `now`: the user's id as
    /// subject, `now` as time of issue, and expiry 24 hours later.
    pub fn claims_for(user: &User, now: usize) -> (claims: Option<Claims>)
        ensures
            match claims {
                Some(c) => issued_claims(user.id, now) == Some(c@),
                None => issued_claims(user.id, now) is None,
            },
    {
        match now.checked_add(TOKEN_TTL_SECS) {
            Some(exp) => Some(Claims { sub: user.id_text(), exp, iat: now }),
            None => None,
        }
    }

    /// Signs the claims with the service's secret.
    ///
    /// The token is the signer's for these claims, and validation under the
    /// same secret reads the same claims from it.
    pub fn sign(&self, claims: &Claims) -> (r: Result<String, AuthError>)
        ensures
            token_result_view(r) == signed(self.secret(), claims@),
            r matches Ok(token) ==> jwt_decoded(self.secret(), token@) == payload_of(claims@),
    {
        match jwt_encode(
            self.secret.as_str(),
            claims.sub.as_str(),
            claims.exp as u64,
            claims.iat as u64,
        ) {
            Ok(token) => Ok(token),
            Err(_) => Err(AuthError::Signing),
        }
    }

    /// Issues a token for `user` at the time `now`.
    ///
    /// Fails with `Signing` where the expiry time cannot be counted or the
    /// signer reports an error. A token that comes out validates under this
    /// service up to its expiry with the user's id as subject, and is expired
    /// from the next second on.
    pub fn generate_token_at(&self, user: &User, now: usize) -> (r: Result<String, AuthError>)
        ensures
            token_result_view(r) == token_for(self.secret(), user.id, now),
            r matches Ok(token) ==> issued_claims(user.id, now) is Some && jwt_decoded(
                self.secret(),
                token@,
            ) == payload_of(issued_claims(user.id, now)->0),
    {
        match Self::claims_for(user, now) {
            Some(claims) => self.sign(&claims),
            None => Err(AuthError::Signing),
        }
    }

    /// Issues a token for `user` at the current time.
    ///
    /// Whatever the clock reads, the outcome is that of
    /// [`AuthService::generate_token_at`] at some time.
    pub fn generate_token(&self, user: &User) -> (r: Result<String, AuthError>)
        ensures
            exists|now: usize| #[trigger]
                token_for(self.secret(), user.id, now) == token_result_view(r) && (r matches Ok(
                    token,
                ) ==> issued_claims(user.id, now) is Some && jwt_decoded(self.secret(), token@)
                    == payload_of(issued_claims(user.id, now)->0)),
    {
        let now = current_time();
        self.generate_token_at(user, now)
    }

    /// Applies the service's rules to a decoded token at the time `now`.
    pub fn check_claims(decoded: Decoded, now: usize) -> (r: Result<Claims, TokenError>)
        ensures
            claims_result_view(r) == token_verdict(decoded@, now),
    {
        match decoded {
            Decoded::BadSignature => Err(TokenError::InvalidSignature),
            Decoded::Rejected => Err(TokenError::Malformed),
            Decoded::Payload { sub: Some(sub), exp: Some(exp), iat: Some(iat) } => {
                if exp > usize::MAX as u64 || iat > usize::MAX as u64 {
                    Err(TokenError::Malformed)
                } else if exp < now as u64 {
                    Err(TokenError::Expired)
                } else {
                    Ok(Claims { sub, exp: exp as usize, iat: iat as usize })
                }
            },
            Decoded::Payload { .. } => Err(TokenError::Malformed),
        }
    }

    /// Validates a token at the time `now`: the signature under the service's
    /// secret, the three claims, and the expiry time.
    pub fn validate_token_at(&self, token: &str, now: usize) -> (r: Result<Claims, TokenError>)
        ensures
            claims_result_view(r) == token_verdict(jwt_decoded(self.secret(), token@), now),
    {
        Self::check_claims(jwt_decode(self.secret.as_str(), token), now)
    }

    /// Validates a token at the current time.
    ///
    /// Whatever the clock reads, the outcome is that of
    /// [`AuthService::validate_token_at`] at some time.
    pub fn validate_token(&self, token: &str) -> (r: Result<Claims, TokenError>)
        ensures
            exists|now: usize| #[trigger]
                token_verdict(jwt_decoded(self.secret(), token@), now) == claims_result_view(r),
    {
        let now = current_time();
        self.validate_token_at(token, now)
    }

    /// A login at the time `now`, given storage's answer to the lookup of the
    /// request's address: the credentials are checked as in
    /// [`User::authenticate`], then a token is issued for the record.
    pub fn login_at(&self, login: &LoginUser, reply: LookupReply, now: usize) -> (r: Result<
        AuthResponse,
        AuthError,
    >)
        ensures
            response_result_view(r) == login_outcome(
                self.secret(),
                login.email@,
                login.password@,
                reply@,
                now,
            ),
            r matches Ok(response) ==> issued_claims(response.user.id, now) is Some && jwt_decoded(
                self.secret(),
                response.token@,
            ) == payload_of(issued_claims(response.user.id, now)->0),
    {
        match User::authenticate(login, reply) {
            Ok(user) => match self.generate_token_at(&user, now) {
                Ok(token) => Ok(AuthResponse { token, user }),
                Err(e) => Err(e),
            },
            Err(e) => Err(e),
        }
    }

    /// A login at the current time.
    ///
    /// Whatever the clock reads, the outcome is that of
    /// [`AuthService::login_at`] at some time.
    pub fn login(&self, login: &LoginUser, reply: LookupReply) -> (r: Result<
        AuthResponse,
        AuthError,
    >)
        ensures
            exists|now: usize| #[trigger]
                login_outcome(self.secret(), login.email@, login.password@, reply@, now)
                    == response_result_view(r),
    {
        let now = current_time();
        self.login_at(login, reply, now)
    }

    /// Validates a token at the time `now` for an outward boundary: the
    /// claims, or `Unauthorized` whatever the reason.
    pub fn verify_at(&self, token: &str, now: usize) -> (r: Result<Claims, AuthError>)
        ensures
            verified_result_view(r) == outward(
                token_verdict(jwt_decoded(self.secret(), token@), now),
            ),
    {
        match self.validate_token_at(token, now) {
            Ok(claims) => Ok(claims),
            Err(e) => Err(e.outward()),
        }
    }

    /// Validates a token at the current time for an outward boundary.
    ///
    /// Whatever the clock reads, the outcome is that of
    /// [`AuthService::verify_at`] at some time.
    pub fn verify(&self, token: &str) -> (r: Result<Claims, AuthError>)
        ensures
            exists|now: usize| #[trigger]
                outward(token_verdict(jwt_decoded(self.secret(), token@), now))
                    == verified_result_view(r),
    {
        let now = current_time();
        self.verify_at(token, now)
    }
}

} // verus!
