//! Identity claims and the permissions built from them.
//!
//! Three levels of checks are distinguished: authentication (is the subject
//! who they claim to be), authorisation to enter a handler, and authorisation
//! to access a resource. The `Permissions` value carries what those checks
//! need: the validated claimed identity and whether the session is elevated.

use vstd::prelude::*;
use vstd::string::StringExecFns;
use crate::types::{uuid_parse_ok, Identifier};

verus! {

/// The role a subject may hold.
#[derive(Debug, Clone, PartialEq, Eq, Structural)]
pub enum Role {
    Developer,
    Admin,
    User,
}

/// Claims reflect identity and ownership — not permissions and not state.
#[derive(Debug, Clone)]
pub struct Claims {
    /// The subject: the claimed user identifier, as a string.
    pub sub: String,
    pub email: Option<String>,
    /// Expiry, in seconds since the epoch.
    pub exp: usize,
}

/// A rejected payload: each offending field with what is wrong about it.
#[derive(Debug)]
pub struct ValidationError {
    pub errors: Vec<(String, String)>,
}

/// What the permission checks work from: the validated claimed identity, if
/// any, and whether the session is elevated.
#[derive(Debug)]
pub struct Permissions {
    claimed_id: Option<Identifier>,
    is_elevated: bool,
}

impl Permissions {
    /// The validated claimed identity, if the subject presented one.
    pub closed spec fn spec_claimed(&self) -> Option<Seq<char>> {
        match self.claimed_id {
            Some(id) => Some(id@),
            None => None,
        }
    }

    /// Whether the session is elevated.
    pub closed spec fn spec_elevated(&self) -> bool {
        self.is_elevated
    }

    /// Build the permissions for a request. No claims make an anonymous,
    /// unelevated set; claims whose subject validates as an identifier make an
    /// authenticated one; claims whose subject does not validate are refused,
    /// naming the offending field.
    pub fn new(claims: Option<&Claims>) -> (r: Result<Permissions, ValidationError>)
        ensures
            r is Ok <==> (claims matches Some(c) ==> uuid_parse_ok(c.sub@)),
            claims is None ==> (r matches Ok(p) && p.spec_claimed() is None
                && !p.spec_elevated()),
            claims matches Some(c) ==> (uuid_parse_ok(c.sub@) ==> (r matches Ok(p)
                && p.spec_claimed() == Some(c.sub@) && p.spec_elevated())),
            r matches Err(e) ==> e.errors@.len() == 1 && e.errors@[0].0@ == "sub"@
                && e.errors@[0].1@ == "invalid user sub"@,
    {
        match claims {
            None => Ok(Permissions { claimed_id: None, is_elevated: false }),
            Some(c) => {
                match Identifier::parse(c.sub.clone()) {
                    Ok(id) => Ok(Permissions { claimed_id: Some(id), is_elevated: true }),
                    Err(_) => {
                        let mut errors: Vec<(String, String)> = Vec::new();
                        errors.push(
                            (String::from_str("sub"), String::from_str("invalid user sub")),
                        );
                        Err(ValidationError { errors })
                    },
                }
            },
        }
    }

    /// Whether the claimed identity is exactly this one.
    pub fn is_same_user(&self, required_id: &Identifier) -> (r: bool)
        ensures
            r == (self.spec_claimed() == Some(required_id@)),
    {
        match &self.claimed_id {
            Some(id) => id == required_id,
            None => false,
        }
    }

    /// Whether the subject presented a valid identity.
    pub fn is_authenticated(&self) -> (r: bool)
        ensures
            r == (self.spec_claimed() is Some),
    {
        self.claimed_id.is_some()
    }

    /// Whether the subject is anonymous.
    pub fn is_unauthenticated(&self) -> (r: bool)
        ensures
            r == (self.spec_claimed() is None),
    {
        self.claimed_id.is_none()
    }

    /// Whether the session is elevated.
    pub fn is_elevated(&self) -> (r: bool)
        ensures
            r == self.spec_elevated(),
    {
        self.is_elevated
    }

    /// Whether the claimed user is the developer. The developer identifier is
    /// drawn fresh on every call, so the one guarantee that holds of every
    /// draw is that an anonymous subject is never the developer.
    pub fn is_developer(&self) -> (r: bool)
        ensures
            r ==> self.spec_claimed() is Some,
    {
        let developer_id = Identifier::new();
        self.is_same_user(&developer_id)
    }
}

} // verus!
