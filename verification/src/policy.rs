//! Per-process filtering policy: whether a process, and its children,
//! should have events generated for them by the kernel instrumentation.
//!
//! A decision is encoded into a single byte so that the kernel side can
//! read it atomically: bit 0 is `interesting`, bit 1 is
//! `children_interesting`, giving the raw values 0 through 3.

use vstd::prelude::*;

verus! {

/// Whether events of a process (and of its children) are wanted.
#[derive(Clone, Copy, Debug, PartialEq, Eq, Structural)]
pub struct PolicyDecision {
    pub interesting: bool,
    pub children_interesting: bool,
}

impl PolicyDecision {
    /// The byte the kernel instrumentation reads: bit 0 is `interesting`,
    /// bit 1 is `children_interesting`.
    pub open spec fn as_raw_spec(&self) -> u8 {
        match (self.children_interesting, self.interesting) {
            (false, false) => 0u8,
            (false, true) => 1u8,
            (true, false) => 2u8,
            (true, true) => 3u8,
        }
    }

    /// The decision a raw policy byte stands for: bit 0 is `interesting`,
    /// bit 1 is `children_interesting`; higher bits carry no meaning.
    pub open spec fn from_raw_spec(raw: u8) -> PolicyDecision {
        PolicyDecision {
            interesting: raw % 2 == 1,
            children_interesting: (raw / 2) % 2 == 1,
        }
    }

    /// The decision used when nothing is known of a process: monitor it
    /// and its children.
    pub open spec fn default_spec() -> PolicyDecision {
        PolicyDecision { interesting: true, children_interesting: true }
    }

    /// Convert the decision to the byte the kernel-shared table holds.
    pub fn as_raw(&self) -> (raw: u8)
        ensures
            raw == self.as_raw_spec(),
    {
        match (self.children_interesting, self.interesting) {
            (false, false) => 0,
            (false, true) => 1,
            (true, false) => 2,
            (true, true) => 3,
        }
    }

    /// Decode a raw policy byte read back from the kernel-shared table.
    pub fn from_raw(raw: u8) -> (d: PolicyDecision)
        ensures
            d == PolicyDecision::from_raw_spec(raw),
    {
        PolicyDecision { interesting: raw % 2 == 1, children_interesting: (raw / 2) % 2 == 1 }
    }
}

impl Default for PolicyDecision {
    /// The default decision is to monitor the process and its children.
    fn default() -> (d: Self)
        ensures
            d == PolicyDecision::default_spec(),
    {
        PolicyDecision { interesting: true, children_interesting: true }
    }
}

/// Encoding and decoding a decision round-trips, and the four decisions
/// encode exactly to the bytes 0, 1, 2 and 3.
pub proof fn lemma_policy_raw_round_trip(d: PolicyDecision)
    ensures
        PolicyDecision::from_raw_spec(d.as_raw_spec()) == d,
        0 <= d.as_raw_spec() <= 3,
{
}

} // verus!
