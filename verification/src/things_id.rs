//! Identifiers of Things 3 entities (tasks, projects, areas).

use vstd::prelude::*;

verus! {

/// The identifier of a task, project or area, kept as its text.
#[derive(Debug, PartialEq, Eq, Hash)]
pub struct ThingsId(String);

/// A lowercase hexadecimal digit.
pub open spec fn is_lower_hex_digit(c: char) -> bool {
    ('0' <= c && c <= '9') || ('a' <= c && c <= 'f')
}

/// The hyphenated lowercase text of a version-4 UUID: 36 characters, hyphens
/// at 8, 13, 18 and 23, hexadecimal digits elsewhere, the version digit `4`
/// at 14, and a variant digit among `8`, `9`, `a`, `b` at 19.
pub open spec fn is_v4_uuid_text(s: Seq<char>) -> bool {
    &&& s.len() == 36
    &&& forall|i: int|
        0 <= i < 36 ==> if i == 8 || i == 13 || i == 18 || i == 23 {
            s[i] == '-'
        } else {
            is_lower_hex_digit(#[trigger] s[i])
        }
    &&& s[14] == '4'
    &&& (s[19] == '8' || s[19] == '9' || s[19] == 'a' || s[19] == 'b')
}

impl View for ThingsId {
    type V = Seq<char>;

    closed spec fn view(&self) -> Seq<char> {
        self.0@
    }
}

impl Clone for ThingsId {
    fn clone(&self) -> (r: Self)
        ensures
            r == *self,
    {
        ThingsId(self.0.clone())
    }
}

impl ThingsId {
    /// Wraps the given text as an identifier.
    pub fn new(id: String) -> (r: ThingsId)
        ensures
            r@ == id@,
    {
        ThingsId(id)
    }

    /// A fresh random identifier (the text of a version-4 UUID).
    pub fn new_v4() -> (r: ThingsId)
        ensures
            is_v4_uuid_text(r@),
    {
        ThingsId(random_uuid_text())
    }

    /// The identifier's text.
    pub fn as_str(&self) -> (r: &str)
        ensures
            r@ == self@,
    {
        self.0.as_str()
    }

    /// Whether two identifiers have the same text.
    pub fn same_as(&self, other: &ThingsId) -> (b: bool)
        ensures
            b == (self@ == other@),
    {
        self.0 == other.0
    }
}

/// Calls `uuid::Uuid::new_v4()` and renders it with `to_string()`. The bits
/// are random and not claimed; what the uuid source shows of every outcome is
/// claimed: `new_v4` forces the version nibble to 4 and the variant bits to
/// `10`, and `Display` writes the hyphenated lowercase form of 36 characters.
#[verifier::external_body]
fn random_uuid_text() -> (r: String)
    ensures
        is_v4_uuid_text(r@),
{
    uuid::Uuid::new_v4().to_string()
}

/// Calls `uuid::Uuid::new_v4()` and returns its 128 bits via `as_u128()`. The
/// value is random, so nothing is claimed of it.
#[verifier::external_body]
pub(crate) fn random_uuid_bits() -> (r: u128) {
    uuid::Uuid::new_v4().as_u128()
}

} // verus!
