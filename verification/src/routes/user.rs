//! Users: creating one, logging one in, and resolving a session.

use crate::ids::{fresh_id, is_random_uuid, Id};
use crate::management::{AuthorizedUser, User};
use crate::routes::{Response, ServerError};
use crate::utils::{get_authorized_user, resolved};
use rand::Rng;
use vstd::prelude::*;

verus! {

/// What a newly created user is told: who they are and the password that
/// was made for them.
#[derive(Debug, Clone, PartialEq, Eq)]
pub struct UserCreation {
    pub user_id: Id,
    pub password: String,
}

/// What a user presents to log in.
#[derive(Debug, Clone, PartialEq, Eq)]
pub struct UserLogin {
    pub user_id: Id,
    pub password: String,
}

/// What a login request leads to.
#[derive(Debug, Clone, Copy, PartialEq, Eq, Structural)]
pub enum Login {
    /// The password does not match: this is the answer, and no session is opened.
    Refused(Response),
    /// The password matches: open a session for this user.
    OpenSession { user_id: Id },
}

/// The length of a generated password.
pub const PASSWORD_LENGTH: usize = 32;

/// A digit or an unaccented Latin letter.
pub open spec fn is_alphanumeric(c: char) -> bool {
    ||| '0' <= c <= '9'
    ||| 'a' <= c <= 'z'
    ||| 'A' <= c <= 'Z'
}

/// A text of [`PASSWORD_LENGTH`] digits and letters.
pub open spec fn is_generated_password(text: Seq<char>) -> bool {
    &&& text.len() == PASSWORD_LENGTH
    &&& forall|i: int| 0 <= i < text.len() ==> is_alphanumeric(#[trigger] text[i])
}

/// Samples `rand::distr::Alphanumeric` from `rand::rng()`, `length` times.
///
/// Trusted: the characters are drawn at random, so nothing is claimed of
/// them but what holds of every draw: there are `length` of them, each one
/// of the 62 digits and letters that the distribution picks from.
#[verifier::external_body]
fn random_alphanumeric(length: usize) -> (text: String)
    ensures
        text@.len() == length,
        forall|i: int| 0 <= i < text@.len() ==> is_alphanumeric(#[trigger] text@[i]),
{
    rand::rng().sample_iter(&rand::distr::Alphanumeric).take(length).map(char::from).collect()
}

/// The record of a new user: unprivileged, active, known only by
/// identifier and password hash.
pub open spec fn is_new_user(user: User, id: Id, password_hash: String) -> bool {
    &&& user.id == id
    &&& user.name is None
    &&& user.email is None
    &&& user.password == password_hash
    &&& !user.deactivated
    &&& user.email_setting is None
    &&& !user.admin
}

/// Makes up the identity of a new user: a fresh identifier and a random
/// password.
pub fn new_credentials() -> (credentials: UserCreation)
    ensures
        is_random_uuid(credentials.user_id),
        is_generated_password(credentials.password@),
{
    UserCreation { user_id: fresh_id(), password: random_alphanumeric(PASSWORD_LENGTH) }
}

/// Builds the record of a new, unprivileged user.
///
/// `password_hash` is what hashing the password of `credentials` came to,
/// `None` where it failed; without a hash there is no user (`BadClientData`).
pub fn user_create(credentials: &UserCreation, password_hash: Option<String>) -> (r: Result<
    User,
    ServerError,
>)
    ensures
        match r {
            Ok(user) => password_hash is Some && is_new_user(
                user,
                credentials.user_id,
                password_hash->0,
            ),
            Err(e) => password_hash is None && e == ServerError::BadClientData,
        },
{
    match password_hash {
        None => Err(ServerError::BadClientData),
        Some(password) => Ok(
            User {
                id: credentials.user_id,
                name: None,
                email: None,
                password,
                deactivated: false,
                email_setting: None,
                admin: false,
            },
        ),
    }
}

/// What a login request leads to, given the record that the store holds
/// for the user (`None` where it holds none) and whether the presented
/// password matches the record's hash.
pub open spec fn login_of(request: UserLogin, record: Option<&User>, password_matches: bool) -> Result<
    Login,
    ServerError,
> {
    match record {
        Some(user) if user.id == request.user_id => if password_matches {
            Ok(Login::OpenSession { user_id: user.id })
        } else {
            Ok(Login::Refused(Response { success: false }))
        },
        _ => Err(ServerError::BadClientData),
    }
}

/// Decides a login request.
///
/// A user that the store does not know is the client's mistake
/// (`BadClientData`). A wrong password is no error: the request is
/// answered, without success and without a session.
pub fn user_login(request: &UserLogin, record: Option<&User>, password_matches: bool) -> (r: Result<
    Login,
    ServerError,
>)
    ensures
        r == login_of(*request, record, password_matches),
{
    match record {
        None => Err(ServerError::BadClientData),
        Some(user) => {
            if user.id != request.user_id {
                Err(ServerError::BadClientData)
            } else if password_matches {
                Ok(Login::OpenSession { user_id: user.id })
            } else {
                Ok(Login::Refused(Response { success: false }))
            }
        },
    }
}

/// Resolves the session of a request to the user behind it.
pub fn fetch_user(identity: Option<&str>, record: Option<User>) -> (r: Result<
    AuthorizedUser,
    ServerError,
>)
    ensures
        r == resolved(identity, record),
{
    get_authorized_user(identity, record)
}

} // verus!
