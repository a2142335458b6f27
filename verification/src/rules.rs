//! Model of the kernel-shared rule tables: process image to an
//! "applies to children" bit. Two instances of the same shape exist,
//! distinguished only by the kernel table they bind to: the whitelist
//! (processes explicitly excluded from monitoring) and the target list
//! (processes explicitly included).

use vstd::prelude::*;
use crate::image::Image;

verus! {

/// A configured target or whitelist entry.
pub struct Rule {
    /// The process image the rule applies to.
    pub image: Image,
    /// Whether the rule also applies to the process's children.
    pub with_children: bool,
}

/// A rule table keyed by process image. Entries are kept in insertion
/// order; a later entry for the same image overrides an earlier one, as
/// an upsert into the shared table does.
pub struct RuleMap {
    name: String,
    entries: Vec<(Image, bool)>,
}

/// The "applies to children" bit a rule list gives for an image key:
/// that of the last entry whose image holds the same bytes, if any.
pub open spec fn rule_lookup(rules: Seq<(Seq<u8>, bool)>, key: Seq<u8>) -> Option<bool>
    decreases rules.len(),
{
    if rules.len() == 0 {
        None
    } else if rules.last().0 == key {
        Some(rules.last().1)
    } else {
        rule_lookup(rules.drop_last(), key)
    }
}

/// The key/bit pairs a list of configured rules stands for.
pub open spec fn rules_of(rs: Seq<Rule>) -> Seq<(Seq<u8>, bool)> {
    rs.map(|i: int, r: Rule| (r.image@, r.with_children))
}

impl RuleMap {
    /// The key/bit pairs the table holds, in insertion order.
    pub closed spec fn rules(&self) -> Seq<(Seq<u8>, bool)> {
        self.entries@.map(|i: int, e: (Image, bool)| (e.0@, e.1))
    }

    /// The name of the kernel table the instance binds to.
    pub closed spec fn table_name(&self) -> Seq<char> {
        self.name@
    }

    /// Every stored image key is a valid buffer.
    pub closed spec fn wf(&self) -> bool {
        forall|i: int| 0 <= i < self.entries@.len() ==> (#[trigger] self.entries@[i]).0.wf()
    }

    /// The table bound to the kernel's "whitelist" map, empty at first.
    pub fn whitelist() -> (r: Self)
        ensures
            r.wf(),
            r.rules() == Seq::<(Seq<u8>, bool)>::empty(),
            r.table_name() == "whitelist"@,
    {
        let r = RuleMap { name: "whitelist".to_owned(), entries: Vec::new() };
        proof {
            assert(r.rules() =~= Seq::<(Seq<u8>, bool)>::empty());
        }
        r
    }

    /// The table bound to the kernel's "target" map, empty at first.
    pub fn target() -> (r: Self)
        ensures
            r.wf(),
            r.rules() == Seq::<(Seq<u8>, bool)>::empty(),
            r.table_name() == "target"@,
    {
        let r = RuleMap { name: "target".to_owned(), entries: Vec::new() };
        proof {
            assert(r.rules() =~= Seq::<(Seq<u8>, bool)>::empty());
        }
        r
    }

    /// The "applies to children" bit recorded for an image, if any entry
    /// matches its bytes.
    pub fn lookup(&self, image: &Image) -> (r: Option<bool>)
        requires
            self.wf(),
            image.wf(),
        ensures
            r == rule_lookup(self.rules(), image@),
    {
        let mut i: usize = self.entries.len();
        proof {
            assert(self.rules().take(i as int) =~= self.rules());
        }
        while i > 0
            invariant
                self.wf(),
                image.wf(),
                i <= self.entries@.len(),
                rule_lookup(self.rules(), image@) == rule_lookup(
                    self.rules().take(i as int),
                    image@,
                ),
            decreases i,
        {
            i -= 1;
            if self.entries[i].0.same_key(image) {
                proof {
                    assert(self.rules().take(i + 1).last() == self.rules()[i as int]);
                }
                return Some(self.entries[i].1);
            }
            proof {
                assert(self.rules().take(i + 1).last() == self.rules()[i as int]);
                assert(self.rules().take(i + 1).drop_last() =~= self.rules().take(i as int));
            }
        }
        None
    }

    /// Remove every entry present at call time; clearing an empty table
    /// succeeds and leaves it empty.
    pub fn clear(&mut self)
        ensures
            final(self).wf(),
            final(self).rules() == Seq::<(Seq<u8>, bool)>::empty(),
            final(self).table_name() == old(self).table_name(),
            forall|key: Seq<u8>| rule_lookup(final(self).rules(), key) is None,
    {
        self.entries.clear();
        proof {
            assert(self.rules() =~= Seq::<(Seq<u8>, bool)>::empty());
        }
    }

    /// Append a list of configured rules. Entries already present are
    /// kept: a full replacement is an explicit `clear` followed by
    /// `install`, and a rule that repeats an image overrides the earlier
    /// bit, as an upsert into the shared table does.
    pub fn install(&mut self, rules: &Vec<Rule>)
        requires
            old(self).wf(),
            forall|i: int| 0 <= i < rules@.len() ==> (#[trigger] rules@[i]).image.wf(),
        ensures
            final(self).wf(),
            final(self).rules() == old(self).rules() + rules_of(rules@),
            final(self).table_name() == old(self).table_name(),
    {
        let n = rules.len();
        let mut i: usize = 0;
        proof {
            assert(self.rules() =~= old(self).rules() + rules_of(rules@.take(0)));
        }
        while i < n
            invariant
                self.wf(),
                n == rules@.len(),
                i <= n,
                forall|j: int| 0 <= j < rules@.len() ==> (#[trigger] rules@[j]).image.wf(),
                self.rules() == old(self).rules() + rules_of(rules@.take(i as int)),
                self.table_name() == old(self).table_name(),
            decreases n - i,
        {
            let ghost pre = self.rules();
            let image = rules[i].image.clone();
            let value = rules[i].with_children;
            self.entries.push((image, value));
            proof {
                assert(self.rules().len() == pre.len() + 1);
                assert forall|k: int| 0 <= k < pre.len() implies self.rules()[k] == pre[k] by {
                }
                assert(self.rules()[pre.len() as int] == (rules@[i as int].image@,
                rules@[i as int].with_children));
                assert(self.rules() =~= pre.push(
                    (rules@[i as int].image@, rules@[i as int].with_children),
                ));
                assert(rules_of(rules@.take(i + 1)) =~= rules_of(rules@.take(i as int)).push(
                    (rules@[i as int].image@, rules@[i as int].with_children),
                ));
                assert(self.rules() =~= old(self).rules() + rules_of(rules@.take(i + 1)));
            }
            i += 1;
        }
        proof {
            assert(rules@.take(n as int) =~= rules@);
        }
    }
}

} // verus!
