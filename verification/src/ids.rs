//! Identity types for speakers and groups.

use vstd::prelude::*;
use vstd::std_specs::cmp::PartialEqSpecImpl;
use crate::viewed::ViewEq;
use crate::text::{chars_of, has_prefix, slice_chars, starts_with, string_of};

verus! {

/// The `uuid:` prefix that UPnP device descriptions put before a speaker UUID.
pub open spec fn uuid_prefix() -> Seq<char> {
    seq!['u', 'u', 'i', 'd', ':']
}

/// A speaker identifier in normal form: `raw` without a leading `uuid:`.
pub open spec fn normalize_speaker_id(raw: Seq<char>) -> Seq<char> {
    if has_prefix(raw, uuid_prefix()) {
        raw.skip(5)
    } else {
        raw
    }
}

/// Unique identifier for a Sonos speaker.
///
/// Typically the UUID from the UPnP device description, normalized to strip
/// the "uuid:" prefix if present.
#[derive(Debug, Hash)]
pub struct SpeakerId(String);

impl View for SpeakerId {
    type V = Seq<char>;

    closed spec fn view(&self) -> Seq<char> {
        self.0@
    }
}

impl ViewEq for SpeakerId {
    fn view_eq(&self, other: &Self) -> (r: bool) {
        self.0 == other.0
    }

    fn view_clone(&self) -> (r: Self) {
        SpeakerId(self.0.clone())
    }
}

impl SpeakerId {
    /// Creates a new SpeakerId, stripping a leading "uuid:".
    pub fn new(id: &str) -> (r: SpeakerId)
        ensures
            r@ == normalize_speaker_id(id@),
    {
        let v = chars_of(id);
        let prefix: Vec<char> = vec!['u', 'u', 'i', 'd', ':'];
        assert(prefix@ =~= uuid_prefix());
        if starts_with(&v, &prefix) {
            let rest = slice_chars(&v, 5, v.len());
            assert(rest@ =~= id@.skip(5));
            SpeakerId(string_of(&rest))
        } else {
            SpeakerId(string_of(&v))
        }
    }

    /// The identifier as a string slice.
    pub fn as_str(&self) -> (r: &str)
        ensures
            r@ == self@,
    {
        self.0.as_str()
    }

    /// The identifier as it is displayed.
    pub fn to_display_string(&self) -> (r: String)
        ensures
            r@ == self@,
    {
        self.0.clone()
    }

    /// Whether two identifiers are the same.
    pub fn same(&self, other: &SpeakerId) -> (r: bool)
        ensures
            r == (self@ == other@),
    {
        self.0 == other.0
    }

    /// A copy of this identifier.
    pub fn copy(&self) -> (r: SpeakerId)
        ensures
            r@ == self@,
    {
        SpeakerId(self.0.clone())
    }
}

impl Clone for SpeakerId {
    fn clone(&self) -> (r: Self)
        ensures
            r@ == self@,
    {
        SpeakerId(self.0.clone())
    }
}

impl PartialEq for SpeakerId {
    fn eq(&self, other: &Self) -> (r: bool) {
        self.0 == other.0
    }
}

impl PartialEqSpecImpl for SpeakerId {
    open spec fn obeys_eq_spec() -> bool {
        true
    }

    open spec fn eq_spec(&self, other: &SpeakerId) -> bool {
        self@ == other@
    }
}

impl Eq for SpeakerId {
}

impl SpeakerId {
    /// Creates a SpeakerId from an owned string.
    pub fn from_string(s: String) -> (r: SpeakerId)
        ensures
            r@ == normalize_speaker_id(s@),
    {
        SpeakerId::new(s.as_str())
    }
}

/// Unique identifier for a zone group, typically "RINCON_xxxxx:n".
#[derive(Debug, Hash)]
pub struct GroupId(String);

impl View for GroupId {
    type V = Seq<char>;

    closed spec fn view(&self) -> Seq<char> {
        self.0@
    }
}

impl ViewEq for GroupId {
    fn view_eq(&self, other: &Self) -> (r: bool) {
        self.0 == other.0
    }

    fn view_clone(&self) -> (r: Self) {
        GroupId(self.0.clone())
    }
}

impl GroupId {
    /// Creates a new GroupId holding `id` unchanged.
    pub fn new(id: &str) -> (r: GroupId)
        ensures
            r@ == id@,
    {
        let v = chars_of(id);
        GroupId(string_of(&v))
    }

    /// The identifier as a string slice.
    pub fn as_str(&self) -> (r: &str)
        ensures
            r@ == self@,
    {
        self.0.as_str()
    }

    /// The identifier as it is displayed.
    pub fn to_display_string(&self) -> (r: String)
        ensures
            r@ == self@,
    {
        self.0.clone()
    }

    /// Whether two identifiers are the same.
    pub fn same(&self, other: &GroupId) -> (r: bool)
        ensures
            r == (self@ == other@),
    {
        self.0 == other.0
    }

    /// A copy of this identifier.
    pub fn copy(&self) -> (r: GroupId)
        ensures
            r@ == self@,
    {
        GroupId(self.0.clone())
    }

    /// Creates a GroupId from an owned string.
    pub fn from_string(s: String) -> (r: GroupId)
        ensures
            r@ == s@,
    {
        GroupId(s)
    }
}

impl Clone for GroupId {
    fn clone(&self) -> (r: Self)
        ensures
            r@ == self@,
    {
        GroupId(self.0.clone())
    }
}

impl PartialEq for GroupId {
    fn eq(&self, other: &Self) -> (r: bool) {
        self.0 == other.0
    }
}

impl PartialEqSpecImpl for GroupId {
    open spec fn obeys_eq_spec() -> bool {
        true
    }

    open spec fn eq_spec(&self, other: &GroupId) -> bool {
        self@ == other@
    }
}

impl Eq for GroupId {
}

} // verus!
