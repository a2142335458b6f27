//! The per-module façade: a module's identity, its bus handles, its
//! view of the live-reloading configuration, and the channel through
//! which its internal failures are reported — separately from the event
//! stream, so they never masquerade as telemetry.

use vstd::prelude::*;
use crate::bus::{BusError, ModuleReceiver, ModuleSender};
use crate::config::{ConfigCell, ConfigError, ConfigValue, ModuleConfig};

verus! {

/// A module's name and semantic version, as registered with the daemon.
#[derive(Clone, Copy, Debug, PartialEq, Eq, Structural)]
pub struct Version {
    pub major: u32,
    pub minor: u32,
    pub patch: u32,
}

impl Version {
    /// A version from its three components.
    pub fn new(major: u32, minor: u32, patch: u32) -> (r: Version)
        ensures
            r == (Version { major, minor, patch }),
    {
        Version { major, minor, patch }
    }
}

/// What registers a pluggable module with the daemon: its name and
/// version. The daemon pairs it with the module's task entry point and
/// supplies a [`ModuleContext`] and a shutdown signal at start.
pub struct PulsarModule {
    pub name: String,
    pub version: Version,
}

impl PulsarModule {
    /// A module descriptor from a name and a version.
    pub fn new(name: &str, version: Version) -> (r: PulsarModule)
        ensures
            r.name@ == name@,
            r.version == version,
    {
        PulsarModule { name: name.to_owned(), version }
    }
}

/// Why a module's task ended abnormally. Fatal to that module alone:
/// it is reported to the daemon and does not crash other modules.
#[derive(Debug)]
pub enum ModuleError {
    /// The module refused its configuration.
    Config(ConfigError),
    /// The bus refused a publish.
    Bus(BusError),
    /// Any other failure, described by text.
    Failed { reason: String },
}

/// The error-reporting channel: module failures travel here, not
/// through the event stream.
pub struct ErrorReporter {
    reports: Vec<(String, String)>,
}

impl ErrorReporter {
    /// The (module, description) reports received so far, oldest first.
    pub closed spec fn reports(&self) -> Seq<(Seq<char>, Seq<char>)> {
        self.reports@.map(|i: int, e: (String, String)| (e.0@, e.1@))
    }

    /// An empty channel.
    pub fn new() -> (r: Self)
        ensures
            r.reports() == Seq::<(Seq<char>, Seq<char>)>::empty(),
    {
        let r = ErrorReporter { reports: Vec::new() };
        proof {
            assert(r.reports() =~= Seq::<(Seq<char>, Seq<char>)>::empty());
        }
        r
    }

    /// How many failures have been reported.
    pub fn count(&self) -> (r: usize)
        ensures
            r == self.reports().len(),
    {
        self.reports.len()
    }

    /// Borrow one report: the failing module's name and a description.
    pub fn get(&self, i: usize) -> (r: &(String, String))
        requires
            i < self.reports().len(),
        ensures
            r.0@ == self.reports()[i as int].0,
            r.1@ == self.reports()[i as int].1,
    {
        &self.reports[i]
    }

    /// Record one module failure; nothing already reported is lost.
    pub fn report(&mut self, module_name: &str, description: &str)
        ensures
            final(self).reports() == old(self).reports().push((module_name@, description@)),
    {
        self.reports.push((module_name.to_owned(), description.to_owned()));
        proof {
            assert(self.reports() =~= old(self).reports().push((module_name@, description@)));
        }
    }
}

/// Entry point to everything a module task may use: its identity, its
/// bus subscription, and its snapshot of the configuration together
/// with the epoch at which it was taken.
pub struct ModuleContext {
    module_name: String,
    receiver: ModuleReceiver,
    config: ModuleConfig,
    config_epoch: u64,
}

impl ModuleContext {
    /// The name of the module the context was built for.
    pub closed spec fn name(&self) -> Seq<char> {
        self.module_name@
    }

    /// The pairs of the configuration snapshot the module last took.
    pub closed spec fn config_pairs(&self) -> Seq<(Seq<char>, ConfigValue)> {
        self.config.pairs()
    }

    /// The epoch of that snapshot.
    pub closed spec fn config_epoch_spec(&self) -> u64 {
        self.config_epoch
    }

    /// The bus subscription slot the module reads from.
    pub closed spec fn receiver_id(&self) -> int {
        self.receiver.id()
    }

    /// A context from the module's name, its bus subscription, and the
    /// configuration cell as it stands.
    pub fn new(module_name: &str, receiver: ModuleReceiver, cell: &ConfigCell) -> (r: Self)
        ensures
            r.name() == module_name@,
            r.receiver_id() == receiver.id(),
            r.config_pairs() == cell.snapshot(),
            r.config_epoch_spec() == cell.epoch_spec(),
    {
        let config = cell.read().clone();
        let config_epoch = cell.epoch();
        ModuleContext { module_name: module_name.to_owned(), receiver, config, config_epoch }
    }

    /// A producer handle bound to this module's identity.
    pub fn get_sender(&self) -> (r: ModuleSender)
        ensures
            r.name() == self.name(),
    {
        ModuleSender::new(self.module_name.as_str())
    }

    /// Borrow the module's current configuration snapshot.
    pub fn config(&self) -> (r: &ModuleConfig)
        ensures
            r.pairs() == self.config_pairs(),
    {
        &self.config
    }

    /// Borrow the consumer handle the module reads bus events through.
    pub fn get_receiver(&self) -> (r: &ModuleReceiver)
        ensures
            r.id() == self.receiver_id(),
    {
        &self.receiver
    }

    /// Pull the latest snapshot from the configuration cell. Reports
    /// whether the cell was replaced since the epoch last seen; if it
    /// was, the context afterwards holds exactly the cell's current
    /// pairs, without the module's task restarting.
    pub fn config_update(&mut self, cell: &ConfigCell) -> (changed: bool)
        ensures
            changed == (old(self).config_epoch_spec() != cell.epoch_spec()),
            changed ==> final(self).config_pairs() == cell.snapshot() && final(self).config_epoch_spec() == cell.epoch_spec(),
            !changed ==> final(self).config_pairs() == old(self).config_pairs() && final(self).config_epoch_spec() == old(self).config_epoch_spec(),
            final(self).name() == old(self).name(),
            final(self).receiver_id() == old(self).receiver_id(),
    {
        let changed = cell.changed(self.config_epoch);
        if changed {
            self.config = cell.read().clone();
            self.config_epoch = cell.epoch();
        }
        changed
    }
}

} // verus!
