//! Users and the privilege a session resolves to.

use crate::ids::Id;
use vstd::prelude::*;

verus! {

/// What a resolved session may do beyond touching its own runs.
#[derive(Debug, Clone, Copy, PartialEq, Eq, Structural)]
pub enum Privilege {
    Member,
    Administrator,
}

/// A user's stored record.
#[derive(Debug, Clone, PartialEq, Eq)]
pub struct User {
    pub id: Id,
    pub name: Option<String>,
    pub email: Option<String>,
    /// The stored password hash, never the password.
    pub password: String,
    pub deactivated: bool,
    pub email_setting: Option<i32>,
    pub admin: bool,
}

impl User {
    /// The privilege level that the record grants.
    pub open spec fn spec_privilege(&self) -> Privilege {
        if self.admin {
            Privilege::Administrator
        } else {
            Privilege::Member
        }
    }

    #[verifier::when_used_as_spec(spec_privilege)]
    pub fn privilege(&self) -> (p: Privilege)
        ensures
            p == self.spec_privilege(),
    {
        if self.admin {
            Privilege::Administrator
        } else {
            Privilege::Member
        }
    }
}

/// A session that has been resolved to a user: the only source of privilege
/// for every operation of the library.
#[derive(Debug, Clone, Copy, PartialEq, Eq, Structural)]
pub struct AuthorizedUser {
    pub id: Id,
    pub privilege: Privilege,
}

impl AuthorizedUser {
    pub open spec fn spec_is_admin(&self) -> bool {
        self.privilege == Privilege::Administrator
    }

    /// Whether the session belongs to an administrator.
    #[verifier::when_used_as_spec(spec_is_admin)]
    pub fn is_admin(&self) -> (b: bool)
        ensures
            b == self.spec_is_admin(),
    {
        match self.privilege {
            Privilege::Administrator => true,
            Privilege::Member => false,
        }
    }

    /// What a resolved session amounts to for a stored record.
    pub open spec fn spec_of(user: &User) -> AuthorizedUser {
        AuthorizedUser { id: user.id, privilege: user.spec_privilege() }
    }

    /// The capability set of a stored record.
    pub fn of(user: &User) -> (a: AuthorizedUser)
        ensures
            a == Self::spec_of(user),
    {
        AuthorizedUser { id: user.id, privilege: user.privilege() }
    }
}

} // verus!
