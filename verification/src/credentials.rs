//! The credential store: registration and login, up to the storage calls.
//!
//! A registration runs in two steps with the write between them:
//! [`User::create`] checks the request and hashes the password, the caller has
//! the row written, and [`User::inserted`] turns storage's answer into the
//! outcome. A login is one lookup by the caller and then
//! [`User::authenticate`].

use vstd::prelude::*;
use crate::errors::{AuthError, Field};
use crate::password::{hash_accepts, hash_password, hash_shaped, password_matches, HASH_COST};
use crate::storage::{InsertReply, InsertReplyView, LookupReply, LookupReplyView, NewUser};
use crate::user::{CreateUser, LoginUser, User, UserView};
use crate::validation::{email_grammar, is_valid_email, is_valid_password, password_long_enough};

verus! {

/// What a [`NewUser`] is to the contracts.
pub struct NewUserView {
    pub email: Seq<char>,
    pub password_hash: Seq<char>,
}

impl View for NewUser {
    type V = NewUserView;

    open spec fn view(&self) -> NewUserView {
        NewUserView { email: self.email@, password_hash: self.password_hash@ }
    }
}

/// The check of a registration request: the address first, then the password.
pub open spec fn create_checked(email: Seq<char>, password: Seq<char>) -> Result<(), AuthError> {
    if !email_grammar(email) {
        Err(AuthError::Validation(Field::Email))
    } else if !password_long_enough(password) {
        Err(AuthError::Validation(Field::Password))
    } else {
        Ok(())
    }
}

/// The check of a login request: the address alone.
pub open spec fn login_checked(email: Seq<char>) -> Result<(), AuthError> {
    if !email_grammar(email) {
        Err(AuthError::Validation(Field::Email))
    } else {
        Ok(())
    }
}

/// The row of a registration whose password was hashed, or the failure of the
/// hasher.
pub open spec fn row_with_hash(email: Seq<char>, hashed: Option<Seq<char>>) -> Result<
    NewUserView,
    AuthError,
> {
    match hashed {
        Some(hash) => Ok(NewUserView { email, password_hash: hash }),
        None => Err(AuthError::Store),
    }
}

/// The outcome of a registration, given the row that was to be written and
/// storage's answer. A record that does not carry the row's address and hash
/// is a failure of storage.
pub open spec fn register_outcome(row: NewUserView, reply: InsertReplyView) -> Result<
    UserView,
    AuthError,
> {
    match reply {
        InsertReplyView::Inserted(user) => {
            if user.email == row.email && user.password_hash == row.password_hash {
                Ok(user)
            } else {
                Err(AuthError::Store)
            }
        },
        InsertReplyView::DuplicateEmail => Err(AuthError::Conflict),
        InsertReplyView::Failed => Err(AuthError::Store),
    }
}

/// The outcome of a login, given storage's answer to the lookup of the
/// address. An unknown address and a wrong password give the same failure.
pub open spec fn authenticate_outcome(
    email: Seq<char>,
    password: Seq<char>,
    reply: LookupReplyView,
) -> Result<UserView, AuthError> {
    if !email_grammar(email) {
        Err(AuthError::Validation(Field::Email))
    } else {
        match reply {
            LookupReplyView::Failed => Err(AuthError::Store),
            LookupReplyView::Missing => Err(AuthError::Unauthorized),
            LookupReplyView::Found(user) => {
                if user.email != email {
                    Err(AuthError::Store)
                } else if hash_accepts(password, user.password_hash) {
                    Ok(user)
                } else {
                    Err(AuthError::Unauthorized)
                }
            },
        }
    }
}

/// A result with a row, as the contracts see it.
pub open spec fn row_result_view(r: Result<NewUser, AuthError>) -> Result<NewUserView, AuthError> {
    match r {
        Ok(row) => Ok(row@),
        Err(e) => Err(e),
    }
}

/// A result with a record, as the contracts see it.
pub open spec fn user_result_view(r: Result<User, AuthError>) -> Result<UserView, AuthError> {
    match r {
        Ok(user) => Ok(user@),
        Err(e) => Err(e),
    }
}

/// A hasher's answer, as the contracts see it.
pub open spec fn hashed_view(hashed: Option<String>) -> Option<Seq<char>> {
    match hashed {
        Some(hash) => Some(hash@),
        None => None,
    }
}

impl CreateUser {
    /// Checks the request: the address must follow the e-mail grammar and the
    /// password must have at least 8 characters.
    pub fn validate(&self) -> (r: Result<(), AuthError>)
        ensures
            r == create_checked(self.email@, self.password@),
    {
        if !is_valid_email(self.email.as_str()) {
            Err(AuthError::Validation(Field::Email))
        } else if !is_valid_password(self.password.as_str()) {
            Err(AuthError::Validation(Field::Password))
        } else {
            Ok(())
        }
    }
}

impl LoginUser {
    /// Checks the request: the address must follow the e-mail grammar.
    pub fn validate(&self) -> (r: Result<(), AuthError>)
        ensures
            r == login_checked(self.email@),
    {
        if !is_valid_email(self.email.as_str()) {
            Err(AuthError::Validation(Field::Email))
        } else {
            Ok(())
        }
    }
}

impl NewUser {
    /// The row for an address and the hasher's answer; a hasher that failed
    /// is a `Store` failure.
    pub fn with_hash(email: String, hashed: Option<String>) -> (r: Result<NewUser, AuthError>)
        ensures
            row_result_view(r) == row_with_hash(email@, hashed_view(hashed)),
    {
        match hashed {
            Some(password_hash) => Ok(NewUser { email, password_hash }),
            None => Err(AuthError::Store),
        }
    }
}

impl User {
    /// First step of a registration: checks the request and hashes the
    /// password, and gives the row that storage is to write.
    ///
    /// A request that fails the check is turned down before anything is
    /// hashed. For one that passes, the row carries the address and a hash
    /// at [`HASH_COST`] that accepts the password, unless the hasher fails.
    pub fn create(new_user: CreateUser) -> (r: Result<NewUser, AuthError>)
        ensures
            create_checked(new_user.email@, new_user.password@) matches Err(e) ==> r is Err
                && r->Err_0 == e,
            create_checked(new_user.email@, new_user.password@) is Ok ==> match r {
                Ok(row) => {
                    &&& row.email@ == new_user.email@
                    &&& hash_shaped(row.password_hash@, HASH_COST)
                    &&& hash_accepts(new_user.password@, row.password_hash@)
                },
                Err(e) => e == AuthError::Store,
            },
    {
        match new_user.validate() {
            Err(e) => Err(e),
            Ok(()) => {
                let hashed = hash_password(new_user.password.as_str());
                NewUser::with_hash(new_user.email, hashed)
            },
        }
    }

    /// Second step of a registration: the outcome, given the row and
    /// storage's answer to the request to write it.
    pub fn inserted(row: &NewUser, reply: InsertReply) -> (r: Result<User, AuthError>)
        ensures
            user_result_view(r) == register_outcome(row@, reply@),
    {
        match reply {
            InsertReply::Inserted(user) => {
                if user.email == row.email && user.password_hash == row.password_hash {
                    Ok(user)
                } else {
                    Err(AuthError::Store)
                }
            },
            InsertReply::DuplicateEmail => Err(AuthError::Conflict),
            InsertReply::Failed => Err(AuthError::Store),
        }
    }

    /// A login, given storage's answer to the lookup of the request's
    /// address: the record, where there is one and its hash accepts the
    /// password.
    pub fn authenticate(login: &LoginUser, reply: LookupReply) -> (r: Result<User, AuthError>)
        ensures
            user_result_view(r) == authenticate_outcome(login.email@, login.password@, reply@),
    {
        match login.validate() {
            Err(e) => Err(e),
            Ok(()) => match reply {
                LookupReply::Failed => Err(AuthError::Store),
                LookupReply::Missing => Err(AuthError::Unauthorized),
                LookupReply::Found(user) => {
                    if user.email != login.email {
                        Err(AuthError::Store)
                    } else if password_matches(
                        login.password.as_str(),
                        user.password_hash.as_str(),
                    ) {
                        Ok(user)
                    } else {
                        Err(AuthError::Unauthorized)
                    }
                },
            },
        }
    }
}

} // verus!
