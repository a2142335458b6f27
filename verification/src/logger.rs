//! The example consumer module: it subscribes to the bus, reacts only
//! to events flagged as threats, and follows configuration reloads
//! without restarting. Its task loop races shutdown, configuration
//! change and the next bus event; the decisions of each arm live here,
//! the racing itself is the runtime's.

use vstd::prelude::*;
use crate::bus::Event;
use crate::config::{config_lookup, ConfigError, ConfigValue, ModuleConfig};
use crate::context::{PulsarModule, Version};

verus! {

/// The logger's registration: its name and version, to be paired with
/// its task entry point by the daemon.
pub fn module() -> (r: PulsarModule)
    ensures
        r.name@ == "logger"@,
        r.version == (Version { major: 0, minor: 0, patch: 1 }),
{
    PulsarModule::new("logger", Version::new(0, 0, 1))
}

/// The logger's typed configuration: whether it writes to the console.
#[derive(Clone, Copy, Debug, PartialEq, Eq, Structural)]
pub struct Config {
    pub console: bool,
}

impl Config {
    /// Parse the logger's configuration from a snapshot: the "console"
    /// field defaults to on when absent, and a value of another type is
    /// refused with the offending key.
    pub fn try_from_config(config: &ModuleConfig) -> (r: Result<Config, ConfigError>)
        ensures
            match config_lookup(config.pairs(), "console"@) {
                Some(ConfigValue::Bool(b)) => r == Ok::<Config, ConfigError>(
                    Config { console: b },
                ),
                Some(ConfigValue::Int(_)) => r matches Err(ConfigError::WrongType { key })
                    && key@ == "console"@,
                None => r == Ok::<Config, ConfigError>(Config { console: true }),
            },
    {
        match config.required("console") {
            Some(ConfigValue::Bool(b)) => Ok(Config { console: b }),
            Some(ConfigValue::Int(_)) => Err(
                ConfigError::WrongType { key: "console".to_owned() },
            ),
            None => Ok(Config { console: true }),
        }
    }
}

/// The logger's derived state, rebuilt from each configuration
/// snapshot.
pub struct Logger {
    console: bool,
}

impl Logger {
    /// Whether the logger writes to the console sink.
    pub closed spec fn console_spec(&self) -> bool {
        self.console
    }

    /// Build the logger's state from its parsed configuration.
    pub fn from_config(config: Config) -> (r: Logger)
        ensures
            r.console_spec() == config.console,
    {
        Logger { console: config.console }
    }

    /// The decision of the event arm of the race: an event is written
    /// out exactly when it is flagged as a threat and the console sink
    /// is on. The writing itself is I/O and stays with the runtime.
    pub fn process(&self, event: &Event) -> (emit: bool)
        ensures
            emit == (event@.header.is_threat && self.console_spec()),
    {
        event.header.is_threat && self.console
    }

    /// The decision of the configuration arm of the race: rebuild the
    /// derived state from the new snapshot, without restarting; a
    /// refused snapshot leaves the state as it was and surfaces the
    /// error upward.
    pub fn on_config_update(&mut self, config: &ModuleConfig) -> (r: Result<(), ConfigError>)
        ensures
            match config_lookup(config.pairs(), "console"@) {
                Some(ConfigValue::Bool(b)) => r is Ok && final(self).console_spec() == b,
                Some(ConfigValue::Int(_)) => (r matches Err(ConfigError::WrongType { key })
                    && key@ == "console"@) && final(self).console_spec() == old(
                    self,
                ).console_spec(),
                None => r is Ok && final(self).console_spec(),
            },
    {
        match Config::try_from_config(config) {
            Ok(parsed) => {
                self.console = parsed.console;
                Ok(())
            },
            Err(e) => Err(e),
        }
    }
}

} // verus!
