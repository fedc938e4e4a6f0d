//! The MPD protocol version announced by the welcome banner.
use vstd::prelude::*;

use core::cmp::Ordering;

use crate::text::{decimal, push_char, u64_decimal};

verus! {

/// MPD protocol version `<major>.<minor>.<patch>`, ordered component by
/// component.
#[derive(Debug, Clone, Copy, PartialEq, Eq, Ord, Hash, Structural)]
pub struct MpdVersion {
    pub major: u32,
    pub minor: u32,
    pub patch: u32,
}

/// The dotted text of a version.
pub open spec fn version_text(v: MpdVersion) -> Seq<char> {
    decimal(v.major as nat) + seq!['.'] + decimal(v.minor as nat) + seq!['.'] + decimal(
        v.patch as nat,
    )
}

/// `a` comes strictly before `b`: lexicographic on (major, minor, patch).
pub open spec fn version_before(a: MpdVersion, b: MpdVersion) -> bool {
    a.major < b.major || (a.major == b.major && (a.minor < b.minor || (a.minor == b.minor
        && a.patch < b.patch)))
}

impl MpdVersion {
    pub fn new(major: u32, minor: u32, patch: u32) -> (v: MpdVersion)
        ensures
            v.major == major,
            v.minor == minor,
            v.patch == patch,
    {
        MpdVersion { major, minor, patch }
    }

    /// The dotted triple `major.minor.patch` (`0.23.5`).
    pub fn to_string(&self) -> (s: String)
        ensures
            s@ == version_text(*self),
    {
        let mut s = u64_decimal(self.major as u64);
        push_char(&mut s, '.');
        let minor = u64_decimal(self.minor as u64);
        s.append(minor.as_str());
        push_char(&mut s, '.');
        let patch = u64_decimal(self.patch as u64);
        s.append(patch.as_str());
        s
    }

    /// `self < other` in version order.
    pub fn is_before(&self, other: &MpdVersion) -> (r: bool)
        ensures
            r == version_before(*self, *other),
    {
        self.major < other.major || (self.major == other.major && (self.minor < other.minor || (
        self.minor == other.minor && self.patch < other.patch)))
    }
}

impl PartialOrd for MpdVersion {
    fn partial_cmp(&self, other: &MpdVersion) -> (r: Option<Ordering>) {
        if self.is_before(other) {
            Some(Ordering::Less)
        } else if other.is_before(self) {
            Some(Ordering::Greater)
        } else {
            Some(Ordering::Equal)
        }
    }
}

impl vstd::std_specs::cmp::PartialOrdSpecImpl for MpdVersion {
    open spec fn obeys_partial_cmp_spec() -> bool {
        true
    }

    open spec fn partial_cmp_spec(&self, other: &MpdVersion) -> Option<Ordering> {
        if version_before(*self, *other) {
            Some(Ordering::Less)
        } else if version_before(*other, *self) {
            Some(Ordering::Greater)
        } else {
            Some(Ordering::Equal)
        }
    }
}

/// Version order is a strict total order: exactly one of `a < b`, `a == b`,
/// `b < a` holds, and it is transitive.
pub proof fn version_order_is_total(a: MpdVersion, b: MpdVersion, c: MpdVersion)
    ensures
        version_before(a, b) || a == b || version_before(b, a),
        !(version_before(a, b) && version_before(b, a)),
        !version_before(a, a),
        version_before(a, b) && version_before(b, c) ==> version_before(a, c),
{
}

}
