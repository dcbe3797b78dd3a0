//! The authorization guard: from a session to the user behind it.

use crate::ids::{parse_id, parsed_uuid, Id};
use crate::management::{AuthorizedUser, User};
use crate::routes::ServerError;
use vstd::prelude::*;

verus! {

/// The user that a session names: the identifier spelled by the session's
/// identity, `Unauthorized` where there is no identity or it spells none.
pub open spec fn session_user(identity: Option<&str>) -> Result<Id, ServerError> {
    match identity {
        None => Err(ServerError::Unauthorized),
        Some(text) => match parsed_uuid(text@) {
            Some(id) => Ok(id),
            None => Err(ServerError::Unauthorized),
        },
    }
}

/// What a session resolves to, given the record that the store holds for
/// the user it names (`None` where it holds none). A record of another user
/// is no answer to the lookup and resolves nothing.
pub open spec fn resolved(identity: Option<&str>, record: Option<User>) -> Result<
    AuthorizedUser,
    ServerError,
> {
    match session_user(identity) {
        Err(e) => Err(e),
        Ok(id) => match record {
            Some(user) if user.id == id => Ok(AuthorizedUser::spec_of(&user)),
            _ => Err(ServerError::Unauthorized),
        },
    }
}

/// Reads the user identifier out of a session's identity.
pub fn session_user_id(identity: Option<&str>) -> (r: Result<Id, ServerError>)
    ensures
        r == session_user(identity),
{
    match identity {
        None => Err(ServerError::Unauthorized),
        Some(text) => match parse_id(text) {
            Some(id) => Ok(id),
            None => Err(ServerError::Unauthorized),
        },
    }
}

/// Resolves a session to a user and privilege level.
///
/// `record` is what the store returned when asked for the user that
/// [`session_user_id`] read out of the identity.
pub fn get_authorized_user(identity: Option<&str>, record: Option<User>) -> (r: Result<
    AuthorizedUser,
    ServerError,
>)
    ensures
        r == resolved(identity, record),
{
    let id: Id = match session_user_id(identity) {
        Ok(id) => id,
        Err(e) => {
            return Err(e);
        },
    };
    match record {
        Some(user) => {
            if user.id == id {
                Ok(AuthorizedUser::of(&user))
            } else {
                Err(ServerError::Unauthorized)
            }
        },
        None => Err(ServerError::Unauthorized),
    }
}

/// A session never resolves to anything but the user it names, and the
/// privilege it carries is the one that user's record grants.
pub proof fn resolution_is_faithful(identity: Option<&str>, record: Option<User>)
    ensures
        match resolved(identity, record) {
            Ok(user) => {
                &&& session_user(identity) == Ok::<Id, ServerError>(user.id)
                &&& record is Some
                &&& record->0.id == user.id
                &&& user.spec_is_admin() == record->0.admin
            },
            Err(e) => e == ServerError::Unauthorized,
        },
{
}

} // verus!
