use pulsar_core::bus::{Bus, Event, EventHeader, OverflowPolicy, Payload};
use pulsar_core::config::{ConfigCell, ConfigError, ConfigValue, ModuleConfig};
use pulsar_core::context::{ErrorReporter, ModuleContext, Version};
use pulsar_core::logger::{module, Config, Logger};
use pulsar_core::shutdown::ShutdownSignal;

fn threat_event(source: &str) -> Event {
    Event {
        header: EventHeader { source: source.to_string(), is_threat: true },
        payload: Payload::Alert { message: "suspicious".to_string() },
    }
}

#[test]
fn every_signal_subscribed_before_send_is_notified_exactly_once() {
    let (mut sender, first) = ShutdownSignal::new();
    let second = sender.subscribe();
    let third = sender.subscribe();
    sender.send_signal();
    assert!(sender.try_recv(&first).is_some());
    assert!(sender.try_recv(&second).is_some());
    assert!(sender.try_recv(&third).is_some());
    assert!(sender.try_recv(&first).is_none());
    assert!(sender.try_recv(&second).is_none());
}

#[test]
fn nothing_is_observed_before_the_signal_is_sent() {
    let (mut sender, first) = ShutdownSignal::new();
    assert!(sender.try_recv(&first).is_none());
}

#[test]
fn subscriber_after_send_is_not_notified_by_that_signal() {
    let (mut sender, _first) = ShutdownSignal::new();
    sender.send_signal();
    let late = sender.subscribe();
    assert!(sender.try_recv(&late).is_none());
}

#[test]
fn sending_twice_changes_nothing() {
    let (mut sender, first) = ShutdownSignal::new();
    sender.send_signal();
    sender.send_signal();
    assert!(sender.try_recv(&first).is_some());
    assert!(sender.try_recv(&first).is_none());
}

#[test]
fn logger_module_descriptor() {
    let descriptor = module();
    assert_eq!(descriptor.name, "logger");
    assert_eq!(descriptor.version, Version { major: 0, minor: 0, patch: 1 });
}

#[test]
fn logger_config_defaults_to_console_on() {
    let cfg = ModuleConfig::new();
    let parsed = Config::try_from_config(&cfg).unwrap();
    assert!(parsed.console);
}

#[test]
fn logger_config_reads_the_console_flag() {
    let mut cfg = ModuleConfig::new();
    cfg.set("console", ConfigValue::Bool(false));
    let parsed = Config::try_from_config(&cfg).unwrap();
    assert!(!parsed.console);
}

#[test]
fn logger_config_refuses_a_mistyped_console_flag() {
    let mut cfg = ModuleConfig::new();
    cfg.set("console", ConfigValue::Int(1));
    match Config::try_from_config(&cfg) {
        Err(ConfigError::WrongType { key }) => assert_eq!(key, "console"),
        other => panic!("expected a wrong-type error, got {:?}", other),
    }
}

#[test]
fn later_config_value_overrides_earlier() {
    let mut cfg = ModuleConfig::new();
    cfg.set("console", ConfigValue::Bool(false));
    cfg.set("console", ConfigValue::Bool(true));
    assert_eq!(cfg.required("console"), Some(ConfigValue::Bool(true)));
    assert_eq!(cfg.required("file"), None);
}

#[test]
fn logger_emits_threats_only_when_console_is_on() {
    let on = Logger::from_config(Config { console: true });
    let off = Logger::from_config(Config { console: false });
    let event = threat_event("monitor");
    assert!(on.process(&event));
    assert!(!off.process(&event));
    let benign = Event {
        header: EventHeader { source: "monitor".to_string(), is_threat: false },
        payload: Payload::ProcessExited { pid: 1 },
    };
    assert!(!on.process(&benign));
}

#[test]
fn config_reload_is_observed_without_restart_or_message_loss() {
    let mut bus = Bus::new(8, OverflowPolicy::Backpressure);
    let receiver = bus.subscribe("logger");
    let producer = pulsar_core::bus::ModuleSender::new("monitor");

    let mut initial = ModuleConfig::new();
    initial.set("console", ConfigValue::Bool(true));
    let mut cell = ConfigCell::new(initial);

    let mut ctx = ModuleContext::new("logger", receiver, &cell);
    let mut logger = Logger::from_config(Config::try_from_config(ctx.config()).unwrap());
    assert!(!ctx.config_update(&cell));

    // An event is in flight when the configuration is replaced.
    bus.publish(&producer, Payload::Alert { message: "first".to_string() }, true).unwrap();

    let mut next = ModuleConfig::new();
    next.set("console", ConfigValue::Bool(false));
    cell.replace(next);

    // Next iteration: the module observes the change, rebuilds its
    // state, and the in-flight event is still delivered.
    assert!(ctx.config_update(&cell));
    logger.on_config_update(ctx.config()).unwrap();
    let event = bus.try_recv(ctx.get_receiver()).unwrap();
    assert!(event.header.is_threat);
    assert!(!logger.process(&event));
}

#[test]
fn module_failures_travel_on_the_error_channel() {
    let mut reporter = ErrorReporter::new();
    assert_eq!(reporter.count(), 0);
    reporter.report("logger", "configuration refused");
    assert_eq!(reporter.count(), 1);
    let (module_name, description) = reporter.get(0);
    assert_eq!(module_name, "logger");
    assert_eq!(description, "configuration refused");
}
