//! Model of the kernel-shared interest table: process id to raw policy
//! byte. Userspace is the sole writer; the kernel instrumentation reads
//! one byte keyed by the current pid before emitting any event, so a
//! lookup is one hop and never walks the process tree.

use vstd::prelude::*;
use std::collections::HashMap;
use crate::policy::PolicyDecision;

verus! {

broadcast use vstd::std_specs::hash::group_hash_axioms;

/// The per-process policy table, keyed by pid, holding the raw encoding
/// of each process's current [`PolicyDecision`]. It stands for the
/// kernel map named "map_interest"; binding to that map, and mirroring
/// every write into it, is the runtime's I/O.
pub struct InterestMap {
    name: String,
    table: HashMap<i32, u8>,
}

impl View for InterestMap {
    type V = Map<i32, u8>;

    closed spec fn view(&self) -> Map<i32, u8> {
        self.table@
    }
}

impl InterestMap {
    /// The name of the kernel table the instance stands for.
    pub closed spec fn table_name(&self) -> Seq<char> {
        self.name@
    }

    /// An empty table, as after binding to a freshly created kernel map.
    pub fn new() -> (r: Self)
        ensures
            r@ == Map::<i32, u8>::empty(),
            r.table_name() == "map_interest"@,
    {
        InterestMap { name: "map_interest".to_owned(), table: HashMap::new() }
    }

    /// Record the policy decision for a process; an entry already present
    /// for that pid is overwritten (last write wins).
    pub fn set(&mut self, pid: i32, decision: PolicyDecision)
        ensures
            final(self)@ == old(self)@.insert(pid, decision.as_raw_spec()),
            final(self).table_name() == old(self).table_name(),
    {
        let raw = decision.as_raw();
        self.table.insert(pid, raw);
    }

    /// The raw policy byte recorded for a process, if any.
    pub fn get_raw(&self, pid: i32) -> (r: Option<u8>)
        ensures
            match r {
                Some(raw) => self@.contains_key(pid) && raw == self@[pid],
                None => !self@.contains_key(pid),
            },
    {
        match self.table.get(&pid) {
            Some(raw) => Some(*raw),
            None => None,
        }
    }

    /// The decision recorded for a process, decoded, if any.
    pub fn get(&self, pid: i32) -> (r: Option<PolicyDecision>)
        ensures
            match r {
                Some(d) => self@.contains_key(pid) && d == PolicyDecision::from_raw_spec(
                    self@[pid],
                ),
                None => !self@.contains_key(pid),
            },
    {
        match self.get_raw(pid) {
            Some(raw) => Some(PolicyDecision::from_raw(raw)),
            None => None,
        }
    }

    /// Remove every entry present at call time; removing from an empty
    /// table succeeds and leaves it empty. Used at (re)attachment so no
    /// stale policy from a previous run persists.
    pub fn clear(&mut self)
        ensures
            final(self)@ == Map::<i32, u8>::empty(),
            forall|pid: i32| old(self)@.contains_key(pid) ==> !final(self)@.contains_key(pid),
            final(self).table_name() == old(self).table_name(),
    {
        self.table.clear();
    }
}

/// Once a process's decision is recorded, reading its entry gives back
/// exactly the byte that decision encodes to, whatever the table held
/// before.
pub proof fn lemma_set_then_get(m: Map<i32, u8>, pid: i32, d: PolicyDecision)
    ensures
        m.insert(pid, d.as_raw_spec()).contains_key(pid),
        m.insert(pid, d.as_raw_spec())[pid] == d.as_raw_spec(),
        PolicyDecision::from_raw_spec(m.insert(pid, d.as_raw_spec())[pid]) == d,
{
    crate::policy::lemma_policy_raw_round_trip(d);
}

} // verus!
