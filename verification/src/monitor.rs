//! The process-interest propagation policy: for every new process, a
//! [`PolicyDecision`] is computed from its image and its parent's last
//! decision, then written into the interest table keyed by the new pid —
//! unconditionally, so the kernel reader never walks ancestry.

use vstd::prelude::*;
use crate::image::Image;
use crate::interest::InterestMap;
use crate::policy::PolicyDecision;
use crate::rules::{rule_lookup, RuleMap};

verus! {

/// The decision recorded for a parent process, decoded from the
/// interest table, if the table holds one.
pub open spec fn parent_decision_of(table: Map<i32, u8>, ppid: i32) -> Option<PolicyDecision> {
    if table.contains_key(ppid) {
        Some(PolicyDecision::from_raw_spec(table[ppid]))
    } else {
        None
    }
}

/// The decision the propagation policy assigns to a process, by
/// precedence:
/// 1. a whitelist match turns monitoring off; if the entry applies to
///    children their monitoring is turned off too, else the children
///    keep the parent's children bit (explicit exclusion wins);
/// 2. else a target match turns monitoring on, and the children bit is
///    the entry's "applies to children" bit;
/// 3. else both fields are inherited from the parent's decision, or from
///    the default `{true, true}` when no parent decision is on record.
pub open spec fn policy_for(
    whitelist: Seq<(Seq<u8>, bool)>,
    target: Seq<(Seq<u8>, bool)>,
    image: Seq<u8>,
    parent: Option<PolicyDecision>,
) -> PolicyDecision {
    let inherited = match parent {
        Some(d) => d,
        None => PolicyDecision::default_spec(),
    };
    match rule_lookup(whitelist, image) {
        Some(wc) => PolicyDecision {
            interesting: false,
            children_interesting: if wc {
                false
            } else {
                inherited.children_interesting
            },
        },
        None => match rule_lookup(target, image) {
            Some(tc) => PolicyDecision { interesting: true, children_interesting: tc },
            None => inherited,
        },
    }
}

/// Compute the decision for a process from its image, the two rule
/// tables, and its parent's decision if one is on record.
pub fn compute_policy(
    whitelist: &RuleMap,
    target: &RuleMap,
    image: &Image,
    parent: Option<PolicyDecision>,
) -> (d: PolicyDecision)
    requires
        whitelist.wf(),
        target.wf(),
        image.wf(),
    ensures
        d == policy_for(whitelist.rules(), target.rules(), image@, parent),
{
    let inherited = match parent {
        Some(d) => d,
        None => PolicyDecision::default(),
    };
    match whitelist.lookup(image) {
        Some(wc) => PolicyDecision {
            interesting: false,
            children_interesting: if wc {
                false
            } else {
                inherited.children_interesting
            },
        },
        None => match target.lookup(image) {
            Some(tc) => PolicyDecision { interesting: true, children_interesting: tc },
            None => inherited,
        },
    }
}

/// React to a new process: compute its decision from its image and its
/// parent's recorded decision, and write it into the interest table
/// keyed by the new pid — even when it equals the parent's, so interest
/// stays a one-hop lookup for the kernel reader.
pub fn observe_new_process(
    interest: &mut InterestMap,
    whitelist: &RuleMap,
    target: &RuleMap,
    pid: i32,
    ppid: i32,
    image: &Image,
)
    requires
        whitelist.wf(),
        target.wf(),
        image.wf(),
    ensures
        final(interest)@ == old(interest)@.insert(
            pid,
            policy_for(
                whitelist.rules(),
                target.rules(),
                image@,
                parent_decision_of(old(interest)@, ppid),
            ).as_raw_spec(),
        ),
{
    let parent = interest.get(ppid);
    let decision = compute_policy(whitelist, target, image, parent);
    interest.set(pid, decision);
}

/// Whitelist precedence: a process whose image matches a whitelist
/// entry is not monitored, even when a target entry matches it too.
pub proof fn lemma_whitelist_precedence(
    whitelist: Seq<(Seq<u8>, bool)>,
    target: Seq<(Seq<u8>, bool)>,
    image: Seq<u8>,
    parent: Option<PolicyDecision>,
)
    requires
        rule_lookup(whitelist, image) is Some,
        rule_lookup(target, image) is Some,
    ensures
        !policy_for(whitelist, target, image, parent).interesting,
{
}

/// Inheritance: a process whose image matches no rule takes both fields
/// of its parent's decision unchanged.
pub proof fn lemma_inheritance(
    whitelist: Seq<(Seq<u8>, bool)>,
    target: Seq<(Seq<u8>, bool)>,
    image: Seq<u8>,
    parent: PolicyDecision,
)
    requires
        rule_lookup(whitelist, image) is None,
        rule_lookup(target, image) is None,
    ensures
        policy_for(whitelist, target, image, Some(parent)) == parent,
{
}

} // verus!
