//! The scheduling algorithms a connection can be configured with, and the
//! names they are configured by.

use core::str::FromStr;
use vstd::prelude::*;
use vstd::string::StringSliceAdditionalSpecFns;

use crate::error::Error;

verus! {

/// Available multipath scheduling algorithm.
#[derive(Debug, Clone, Copy, PartialEq, Eq, Structural)]
pub enum MultipathAlgorithm {
    /// The scheduler sends packets over the path with the lowest smoothed RTT
    /// among all available paths.
    MinRtt,
    /// The scheduler sends all packets redundantly on all available paths.
    Redundant,
}

/// An ASCII upper-case letter is mapped to its lower-case form; every other
/// character is left as it is.
pub open spec fn ascii_lower(c: char) -> char {
    if 'A' <= c && c <= 'Z' {
        ((c as u32) + 32) as char
    } else {
        c
    }
}

/// Two strings match when they have the same length and agree character by
/// character once ASCII letters are folded to lower case.
pub open spec fn eq_ignore_ascii_case(a: Seq<char>, b: Seq<char>) -> bool {
    &&& a.len() == b.len()
    &&& forall|i: int| 0 <= i < a.len() ==> ascii_lower(#[trigger] a[i]) == ascii_lower(b[i])
}

/// The lower-case form of an ASCII byte.
fn lower_byte(b: u8) -> (r: u8)
    requires
        b < 128,
    ensures
        r == ascii_lower(b as char) as u8,
        r < 128,
{
    if b >= 65 && b <= 90 {
        b + 32
    } else {
        b
    }
}

/// Whether `s` is `name` up to the case of ASCII letters.
fn matches_name(s: &str, name: &str) -> (r: bool)
    requires
        name.is_ascii(),
    ensures
        r == eq_ignore_ascii_case(s@, name@),
{
    if !s.is_ascii() {
        // A character outside ASCII is not changed by folding, and no
        // character of `name` is folded to it.
        return false;
    }
    let s_bytes = s.as_bytes();
    let name_bytes = name.as_bytes();
    let n = s_bytes.len();
    if n != name_bytes.len() {
        return false;
    }
    let mut i: usize = 0;
    while i < n
        invariant
            i <= n,
            n == s@.len(),
            n == name@.len(),
            s.is_ascii(),
            name.is_ascii(),
            s_bytes@ == s.spec_bytes(),
            name_bytes@ == name.spec_bytes(),
            forall|j: int| 0 <= j < n ==> #[trigger] s@[j] as u8 == s.spec_bytes()[j],
            forall|j: int| 0 <= j < n ==> #[trigger] name@[j] as u8 == name.spec_bytes()[j],
            forall|j: int| 0 <= j < i ==> ascii_lower(#[trigger] s@[j]) == ascii_lower(name@[j]),
        decreases n - i,
    {
        let a = s_bytes[i];
        let b = name_bytes[i];
        if lower_byte(a) != lower_byte(b) {
            return false;
        }
        i += 1;
    }
    true
}

impl MultipathAlgorithm {
    /// The algorithm that a configured name stands for, if any: `minrtt` and
    /// `redundant`, in any mix of upper and lower case.
    pub open spec fn parse_spec(s: Seq<char>) -> Option<MultipathAlgorithm> {
        if eq_ignore_ascii_case(s, "minrtt"@) {
            Some(MultipathAlgorithm::MinRtt)
        } else if eq_ignore_ascii_case(s, "redundant"@) {
            Some(MultipathAlgorithm::Redundant)
        } else {
            None
        }
    }

    /// The name of the algorithm, as `parse_spec` reads it.
    pub open spec fn name_spec(self) -> Seq<char> {
        match self {
            MultipathAlgorithm::MinRtt => "minrtt"@,
            MultipathAlgorithm::Redundant => "redundant"@,
        }
    }

    /// The canonical, lower-case name of the algorithm.
    pub fn name(&self) -> (r: &'static str)
        ensures
            r@ == self.name_spec(),
    {
        match self {
            MultipathAlgorithm::MinRtt => "minrtt",
            MultipathAlgorithm::Redundant => "redundant",
        }
    }
}

impl FromStr for MultipathAlgorithm {
    type Err = Error;

    /// Reads an algorithm name without regard to case. Every string gives
    /// either an algorithm or `InvalidConfig`.
    fn from_str(algor: &str) -> (r: Result<MultipathAlgorithm, Error>)
        ensures
            match MultipathAlgorithm::parse_spec(algor@) {
                Some(a) => r == Ok::<MultipathAlgorithm, Error>(a),
                None => r matches Err(Error::InvalidConfig(token)) && token@ == "unknown"@,
            },
    {
        proof {
            reveal_strlit("minrtt");
            reveal_strlit("redundant");
        }
        if matches_name(algor, "minrtt") {
            Ok(MultipathAlgorithm::MinRtt)
        } else if matches_name(algor, "redundant") {
            Ok(MultipathAlgorithm::Redundant)
        } else {
            Err(Error::InvalidConfig("unknown".to_owned()))
        }
    }
}

/// Matching without regard to case is symmetric and transitive.
pub proof fn lemma_eq_ignore_ascii_case_equivalence(a: Seq<char>, b: Seq<char>, c: Seq<char>)
    ensures
        eq_ignore_ascii_case(a, a),
        eq_ignore_ascii_case(a, b) ==> eq_ignore_ascii_case(b, a),
        eq_ignore_ascii_case(a, b) && eq_ignore_ascii_case(b, c) ==> eq_ignore_ascii_case(a, c),
{
}

/// Parsing is insensitive to case: two names that differ only in the case of
/// ASCII letters are read alike, as the same algorithm or as no algorithm.
pub proof fn lemma_parse_ignores_case(a: Seq<char>, b: Seq<char>)
    requires
        eq_ignore_ascii_case(a, b),
    ensures
        MultipathAlgorithm::parse_spec(a) == MultipathAlgorithm::parse_spec(b),
{
    lemma_eq_ignore_ascii_case_equivalence(a, b, "minrtt"@);
    lemma_eq_ignore_ascii_case_equivalence(b, a, "minrtt"@);
    lemma_eq_ignore_ascii_case_equivalence(a, b, "redundant"@);
    lemma_eq_ignore_ascii_case_equivalence(b, a, "redundant"@);
}

/// Parsing the name of an algorithm gives that algorithm back.
pub proof fn lemma_parse_name_round_trip(algor: MultipathAlgorithm)
    ensures
        MultipathAlgorithm::parse_spec(algor.name_spec()) == Some(algor),
{
    reveal_strlit("minrtt");
    reveal_strlit("redundant");
}

/// Whether the loss detector has to expect the same stream data on more than
/// one path, which is the case exactly for the redundant algorithm.
pub fn reinjection_required(algor: MultipathAlgorithm) -> (r: bool)
    ensures
        r == (algor == MultipathAlgorithm::Redundant),
{
    match algor {
        MultipathAlgorithm::MinRtt => false,
        MultipathAlgorithm::Redundant => true,
    }
}

} // verus!
