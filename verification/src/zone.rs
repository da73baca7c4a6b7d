//! The zone an invocation runs in.

use vstd::prelude::*;
use vstd::string::*;
use crate::text::{eq_ignore_ascii_case, fold};

verus! {

/// How much care an invocation asks for.
#[derive(Clone, Copy, Debug, PartialEq, Eq, Hash, Structural)]
pub enum Zone {
    Critical,
    Elevated,
    Standard,
    Local,
}

impl Zone {
    /// The zone's name, in small letters.
    pub open spec fn spec_name(self) -> Seq<char> {
        match self {
            Zone::Critical => "critical"@,
            Zone::Elevated => "elevated"@,
            Zone::Standard => "standard"@,
            Zone::Local => "local"@,
        }
    }

    /// The zone that a string names: the one whose name the string reads
    /// once its ASCII capitals are folded.
    pub open spec fn spec_parse(s: Seq<char>) -> Option<Zone> {
        let t = fold(s);
        if t == Zone::Critical.spec_name() {
            Some(Zone::Critical)
        } else if t == Zone::Elevated.spec_name() {
            Some(Zone::Elevated)
        } else if t == Zone::Standard.spec_name() {
            Some(Zone::Standard)
        } else if t == Zone::Local.spec_name() {
            Some(Zone::Local)
        } else {
            None
        }
    }

    /// The zone's name, in small letters.
    pub fn name(&self) -> (r: &'static str)
        ensures
            r@ == self.spec_name(),
    {
        match self {
            Zone::Critical => "critical",
            Zone::Elevated => "elevated",
            Zone::Standard => "standard",
            Zone::Local => "local",
        }
    }

    /// Parses a zone name, whatever the case of its letters.
    pub fn parse(s: &str) -> (r: Option<Zone>)
        ensures
            r == Zone::spec_parse(s@),
    {
        proof {
            lemma_zone_names();
        }
        if eq_ignore_ascii_case(s, "critical") {
            Some(Zone::Critical)
        } else if eq_ignore_ascii_case(s, "elevated") {
            Some(Zone::Elevated)
        } else if eq_ignore_ascii_case(s, "standard") {
            Some(Zone::Standard)
        } else if eq_ignore_ascii_case(s, "local") {
            Some(Zone::Local)
        } else {
            None
        }
    }

    /// Parses a zone name; a string that names no zone gives the standard
    /// zone. The flag says whether the string named a zone.
    pub fn parse_or_standard(s: &str) -> (r: (Zone, bool))
        ensures
            r.1 == Zone::spec_parse(s@).is_some(),
            r.0 == match Zone::spec_parse(s@) {
                Some(z) => z,
                None => Zone::Standard,
            },
    {
        match Zone::parse(s) {
            Some(z) => (z, true),
            None => (Zone::Standard, false),
        }
    }
}

/// The names are written in small letters, and no two zones share one.
pub proof fn lemma_zone_names()
    ensures
        forall|z: Zone| fold(#[trigger] z.spec_name()) == z.spec_name(),
        forall|a: Zone, b: Zone| a.spec_name() == b.spec_name() ==> a == b,
        forall|z: Zone| Zone::spec_parse(#[trigger] z.spec_name()) == Some(z),
{
    reveal_strlit("critical");
    reveal_strlit("elevated");
    reveal_strlit("standard");
    reveal_strlit("local");
    assert forall|z: Zone| fold(#[trigger] z.spec_name()) == z.spec_name() by {
        assert(fold(z.spec_name()) =~= z.spec_name());
    }
    assert forall|a: Zone, b: Zone| a.spec_name() == b.spec_name() implies a == b by {
        assert(a.spec_name().len() == b.spec_name().len());
        assert(a.spec_name()[0] == b.spec_name()[0]);
    }
}

} // verus!
