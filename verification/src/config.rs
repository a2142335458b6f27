//! Module configuration: a named bag of typed values, read as an
//! immutable snapshot, and a latest-value cell whose replacement every
//! module observes on its next processing iteration.

use vstd::prelude::*;

verus! {

use vstd::string::StrSliceExecFns;

/// A typed configuration value.
#[derive(Clone, Copy, Debug, PartialEq, Eq, Structural)]
pub enum ConfigValue {
    Bool(bool),
    Int(u64),
}

/// Why a module refused a configuration snapshot.
#[derive(Debug)]
pub enum ConfigError {
    /// A field the module insists on is absent.
    Missing { key: String },
    /// A field is present but holds a value of the wrong type.
    WrongType { key: String },
}

/// The value a configuration gives for a key: that of the last entry
/// with that name, if any.
pub open spec fn config_lookup(
    entries: Seq<(Seq<char>, ConfigValue)>,
    key: Seq<char>,
) -> Option<ConfigValue>
    decreases entries.len(),
{
    if entries.len() == 0 {
        None
    } else if entries.last().0 == key {
        Some(entries.last().1)
    } else {
        config_lookup(entries.drop_last(), key)
    }
}

/// A read-only snapshot of one module's configuration. A new snapshot
/// never mutates an old one in place: it replaces it wholesale.
pub struct ModuleConfig {
    entries: Vec<(String, ConfigValue)>,
}

impl ModuleConfig {
    /// The name/value pairs the snapshot holds, in insertion order; a
    /// later pair for the same name overrides an earlier one.
    pub closed spec fn pairs(&self) -> Seq<(Seq<char>, ConfigValue)> {
        self.entries@.map(|i: int, e: (String, ConfigValue)| (e.0@, e.1))
    }

    /// An empty snapshot.
    pub fn new() -> (r: Self)
        ensures
            r.pairs() == Seq::<(Seq<char>, ConfigValue)>::empty(),
    {
        let r = ModuleConfig { entries: Vec::new() };
        proof {
            assert(r.pairs() =~= Seq::<(Seq<char>, ConfigValue)>::empty());
        }
        r
    }

    /// Add one name/value pair, overriding an earlier value under the
    /// same name.
    pub fn set(&mut self, key: &str, value: ConfigValue)
        ensures
            final(self).pairs() == old(self).pairs().push((key@, value)),
    {
        self.entries.push((key.to_owned(), value));
        proof {
            assert(self.pairs() =~= old(self).pairs().push((key@, value)));
        }
    }

    /// The value recorded under a key, if any. An absent key is not by
    /// itself an error: each module decides its own defaults.
    pub fn required(&self, key: &str) -> (r: Option<ConfigValue>)
        ensures
            r == config_lookup(self.pairs(), key@),
    {
        let mut i: usize = self.entries.len();
        proof {
            assert(self.pairs().take(i as int) =~= self.pairs());
        }
        while i > 0
            invariant
                i <= self.entries@.len(),
                config_lookup(self.pairs(), key@) == config_lookup(
                    self.pairs().take(i as int),
                    key@,
                ),
            decreases i,
        {
            i -= 1;
            if str_eq(self.entries[i].0.as_str(), key) {
                proof {
                    assert(self.pairs().take(i + 1).last() == self.pairs()[i as int]);
                }
                return Some(self.entries[i].1);
            }
            proof {
                assert(self.pairs().take(i + 1).last() == self.pairs()[i as int]);
                assert(self.pairs().take(i + 1).drop_last() =~= self.pairs().take(i as int));
            }
        }
        None
    }
}

impl Clone for ModuleConfig {
    /// A cloned snapshot holds the same pairs.
    fn clone(&self) -> (r: Self)
        ensures
            r.pairs() == self.pairs(),
    {
        let mut entries: Vec<(String, ConfigValue)> = Vec::new();
        let n = self.entries.len();
        let mut i: usize = 0;
        while i < n
            invariant
                i <= n,
                n == self.entries@.len(),
                entries@.len() == i,
                forall|j: int|
                    0 <= j < i ==> (#[trigger] entries@[j]).0@ == self.entries@[j].0@
                        && entries@[j].1 == self.entries@[j].1,
            decreases n - i,
        {
            let key = self.entries[i].0.clone();
            let value = self.entries[i].1;
            entries.push((key, value));
            i += 1;
        }
        let r = ModuleConfig { entries };
        proof {
            assert(r.pairs() =~= self.pairs());
        }
        r
    }
}

/// The shared latest-value cell: readers always observe either the old
/// or the new complete snapshot, never a partial one, and each
/// replacement advances an epoch a reader can compare against the one
/// it last saw.
pub struct ConfigCell {
    current: ModuleConfig,
    epoch: u64,
}

impl ConfigCell {
    /// The pairs of the snapshot the cell currently holds.
    pub closed spec fn snapshot(&self) -> Seq<(Seq<char>, ConfigValue)> {
        self.current.pairs()
    }

    /// How many times the snapshot has been replaced.
    pub closed spec fn epoch_spec(&self) -> u64 {
        self.epoch
    }

    /// A cell holding an initial snapshot.
    pub fn new(initial: ModuleConfig) -> (r: Self)
        ensures
            r.snapshot() == initial.pairs(),
            r.epoch_spec() == 0,
    {
        ConfigCell { current: initial, epoch: 0 }
    }

    /// Replace the snapshot wholesale. Every reader that compares its
    /// last seen epoch afterwards observes the change and reads exactly
    /// the new pairs.
    pub fn replace(&mut self, next: ModuleConfig)
        requires
            old(self).epoch_spec() < u64::MAX,
        ensures
            final(self).snapshot() == next.pairs(),
            final(self).epoch_spec() == old(self).epoch_spec() + 1,
    {
        self.current = next;
        self.epoch = self.epoch + 1;
    }

    /// The current epoch, to remember as "last seen".
    pub fn epoch(&self) -> (r: u64)
        ensures
            r == self.epoch_spec(),
    {
        self.epoch
    }

    /// Whether the snapshot has been replaced since the given epoch was
    /// seen.
    pub fn changed(&self, seen: u64) -> (r: bool)
        ensures
            r == (seen != self.epoch_spec()),
    {
        seen != self.epoch
    }

    /// Borrow the current snapshot.
    pub fn read(&self) -> (r: &ModuleConfig)
        ensures
            r.pairs() == self.snapshot(),
    {
        &self.current
    }
}

/// Whether two strings hold the same characters.
pub fn str_eq(a: &str, b: &str) -> (r: bool)
    ensures
        r == (a@ == b@),
{
    let na = a.unicode_len();
    let nb = b.unicode_len();
    if na != nb {
        return false;
    }
    let mut i: usize = 0;
    while i < na
        invariant
            na == a@.len(),
            nb == b@.len(),
            na == nb,
            i <= na,
            forall|j: int| 0 <= j < i ==> a@[j] == b@[j],
        decreases na - i,
    {
        if a.get_char(i) != b.get_char(i) {
            return false;
        }
        i += 1;
    }
    proof {
        assert(a@ =~= b@);
    }
    true
}

} // verus!
