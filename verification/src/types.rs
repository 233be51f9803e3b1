//! Identifiers and request payloads.
//!
//! An identifier is stored as a string but validated as a UUID, so it can
//! cross layers that are permissive about types without losing its shape.

use vstd::prelude::*;

verus! {

/// Whether `uuid::Uuid::parse_str` accepts this string. The exact grammar
/// (hyphenated, simple, braced and URN forms) belongs to the uuid crate; the
/// answer is a function of the characters alone.
pub uninterp spec fn uuid_parse_ok(s: Seq<char>) -> bool;

/// Relies on uuid::Uuid::parse_str: whether a string parses as a UUID depends
/// on the characters alone.
#[verifier::external_body]
fn parses_as_uuid(s: &str) -> (r: bool)
    ensures
        r == uuid_parse_ok(s@),
{
    uuid::Uuid::parse_str(s).is_ok()
}

/// Relies on uuid::Uuid::new_v4 and uuid's Display form: whatever the random
/// bits, a freshly generated UUID renders as the 36-character hyphenated
/// form, which uuid::Uuid::parse_str accepts.
#[verifier::external_body]
fn fresh_uuid_string() -> (r: String)
    ensures
        uuid_parse_ok(r@),
        r@.len() == 36,
{
    uuid::Uuid::new_v4().to_string()
}

/// The string did not parse as a UUID.
#[derive(Debug, Clone, Copy, PartialEq, Eq, Structural)]
pub struct InvalidIdentifier;

/// An identifier, stored as a string but validated as a UUID.
#[derive(Debug)]
pub struct Identifier(String);

impl View for Identifier {
    type V = Seq<char>;

    closed spec fn view(&self) -> Seq<char> {
        self.0@
    }
}

impl Identifier {
    /// Every identifier the library builds parses as a UUID.
    pub open spec fn wf(&self) -> bool {
        uuid_parse_ok(self@)
    }

    /// A fresh random identifier, in the hyphenated form.
    pub fn new() -> (r: Identifier)
        ensures
            r.wf(),
            r@.len() == 36,
    {
        Identifier(fresh_uuid_string())
    }

    /// Validate a string and take ownership of it as an identifier.
    pub fn parse(s: String) -> (r: Result<Identifier, InvalidIdentifier>)
        ensures
            r is Ok <==> uuid_parse_ok(s@),
            r matches Ok(id) ==> id@ == s@ && id.wf(),
    {
        if parses_as_uuid(s.as_str()) {
            Ok(Identifier(s))
        } else {
            Err(InvalidIdentifier)
        }
    }

    /// The identifier's characters.
    pub fn as_str(&self) -> (r: &str)
        ensures
            r@ == self@,
    {
        self.0.as_str()
    }
}

impl Clone for Identifier {
    fn clone(&self) -> (r: Identifier)
        ensures
            r@ == self@,
    {
        Identifier(self.0.clone())
    }
}

impl PartialEq for Identifier {
    fn eq(&self, other: &Identifier) -> (r: bool) {
        self.0 == other.0
    }
}

impl vstd::std_specs::cmp::PartialEqSpecImpl for Identifier {
    open spec fn obeys_eq_spec() -> bool {
        true
    }

    open spec fn eq_spec(&self, other: &Identifier) -> bool {
        self@ == other@
    }
}

impl Eq for Identifier {

}

/// Payload for creating a user.
#[derive(Debug)]
pub struct CreateUser {
    pub email: String,
}

/// Payload for creating a profile owned by a user.
#[derive(Debug)]
pub struct CreateProfile {
    pub display_name: String,
    pub user_id: Identifier,
}

} // verus!
