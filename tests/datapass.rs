use tauri_plugin_datapass::commands::{same_text, CommandKind, Payload, Registry, Response};
use tauri_plugin_datapass::models::{greet, ping};
use tauri_plugin_datapass::{Datapass, DatapassExt, Error, PingRequest};

fn payload(fields: &[(&str, &str)]) -> Payload {
    let mut p = Payload::new();
    for (k, v) in fields {
        p = p.with(k.to_string(), v.to_string());
    }
    p
}

#[test]
fn ping_greets_ada() {
    let d = Datapass::new();
    let r = d.ping(PingRequest { name: "Ada".to_string() }).unwrap();
    assert_eq!(r.message, "Hello, Ada! You've been greeted from Rust!");
}

#[test]
fn dispatch_ping_greets_ada() {
    let mut d = Datapass::new();
    match d.dispatch("ping", &payload(&[("name", "Ada")])) {
        Ok(Response::Pong(p)) => assert_eq!(p.message, "Hello, Ada! You've been greeted from Rust!"),
        other => panic!("unexpected {:?}", other),
    }
}

#[test]
fn ping_embeds_name_verbatim_and_leaves_state() {
    let mut d = Datapass::new();
    d.set_data("kept".to_string()).unwrap();
    for name in ["", "Ada", "Grace Hopper", "naïve ✓", "a!b, c"] {
        let m = d.ping(PingRequest { name: name.to_string() }).unwrap().message;
        assert!(m.starts_with("Hello, "));
        assert!(m.ends_with("! You've been greeted from Rust!"));
        assert_eq!(&m["Hello, ".len()..m.len() - "! You've been greeted from Rust!".len()], name);
        assert_eq!(m, ping(PingRequest { name: name.to_string() }).message);
    }
    assert_eq!(d.get_data().unwrap(), "kept");
}

#[test]
fn greet_formats_template() {
    assert_eq!(greet("World"), "Hello, World! You've been greeted from Rust!");
    assert_eq!(greet(""), "Hello, ! You've been greeted from Rust!");
}

#[test]
fn get_after_set_returns_value() {
    let mut d = Datapass::new();
    for v in ["x", "", "longer value with spaces", "ünïcödé"] {
        d.set_data(v.to_string()).unwrap();
        assert_eq!(d.get_data().unwrap(), v);
    }
}

#[test]
fn get_twice_is_same() {
    let mut d = Datapass::new();
    d.set_data("same".to_string()).unwrap();
    let a = d.get_data().unwrap();
    let b = d.get_data().unwrap();
    assert_eq!(a, b);
    assert_eq!(a, "same");
}

#[test]
fn initial_get_is_empty() {
    let d = Datapass::new();
    assert_eq!(d.get_data().unwrap(), "");
    let mut d2 = Datapass::new();
    match d2.dispatch("get_data", &Payload::new()) {
        Ok(Response::Data(v)) => assert_eq!(v, ""),
        other => panic!("unexpected {:?}", other),
    }
}

#[test]
fn many_writes_leave_one_whole_value() {
    let mut d = Datapass::new();
    let values: Vec<String> = (0..8).map(|i| format!("value-{}", i)).collect();
    for v in &values {
        d.dispatch("set_data", &payload(&[("value", v)])).unwrap();
    }
    let got = d.get_data().unwrap();
    assert!(values.contains(&got));
    assert_eq!(got, "value-7");
}

#[test]
fn unknown_command_is_routing_error() {
    let mut d = Datapass::new();
    d.set_data("before".to_string()).unwrap();
    match d.dispatch("delete_data", &payload(&[("value", "x")])) {
        Err(Error::UnknownCommand(c)) => assert_eq!(c, "delete_data"),
        other => panic!("unexpected {:?}", other),
    }
    assert_eq!(d.get_data().unwrap(), "before");
}

#[test]
fn missing_value_is_payload_error() {
    let mut d = Datapass::new();
    d.set_data("before".to_string()).unwrap();
    match d.dispatch("set_data", &payload(&[("data", "x")])) {
        Err(Error::MalformedPayload { command, field }) => {
            assert_eq!(command, "set_data");
            assert_eq!(field, "value");
        }
        other => panic!("unexpected {:?}", other),
    }
    assert_eq!(d.get_data().unwrap(), "before");
}

#[test]
fn missing_name_is_payload_error() {
    let mut d = Datapass::new();
    match d.dispatch("ping", &Payload::new()) {
        Err(e @ Error::MalformedPayload { .. }) => {
            assert_eq!(e.message(), "invalid payload for command `ping`: missing field `name`")
        }
        other => panic!("unexpected {:?}", other),
    }
}

#[test]
fn dispatch_set_then_get() {
    let mut d = Datapass::new();
    match d.dispatch("set_data", &payload(&[("other", "o"), ("value", "v1"), ("value", "v2")])) {
        Ok(Response::Done) => {}
        other => panic!("unexpected {:?}", other),
    }
    match d.dispatch("get_data", &Payload::new()) {
        Ok(Response::Data(v)) => assert_eq!(v, "v1"),
        other => panic!("unexpected {:?}", other),
    }
}

#[test]
fn poisoned_cell_refuses_access() {
    let mut d = Datapass::new();
    d.set_data("kept".to_string()).unwrap();
    d.poison();
    assert!(matches!(d.get_data(), Err(Error::LockPoisoned)));
    assert!(matches!(d.set_data("new".to_string()), Err(Error::LockPoisoned)));
    assert!(matches!(d.dispatch("get_data", &Payload::new()), Err(Error::LockPoisoned)));
    assert!(d.ping(PingRequest { name: "Ada".to_string() }).is_ok());
    assert_eq!(Error::LockPoisoned.message(), "Mutex lock poisoned");
}

#[test]
fn error_messages() {
    assert_eq!(Error::Io("disk gone".to_string()).message(), "disk gone");
    assert_eq!(Error::PluginError("boom".to_string()).message(), "boom");
    assert_eq!(Error::UnknownCommand("x".to_string()).message(), "unknown command `x`");
    assert_eq!(
        Error::MalformedPayload { command: "set_data".to_string(), field: "value".to_string() }.message(),
        "invalid payload for command `set_data`: missing field `value`"
    );
    assert_eq!(Error::DuplicateCommand("ping".to_string()).message(), "command `ping` is registered twice");
}

#[test]
fn registry_refuses_duplicates() {
    let mut r = Registry::new();
    assert!(r.register(CommandKind::Ping).is_ok());
    assert!(r.register(CommandKind::GetData).is_ok());
    match r.register(CommandKind::Ping) {
        Err(Error::DuplicateCommand(c)) => assert_eq!(c, "ping"),
        other => panic!("unexpected {:?}", other),
    }
    assert!(r.contains(CommandKind::Ping));
    assert!(!r.contains(CommandKind::SetData));
    assert!(matches!(r.resolve("set_data"), Err(Error::UnknownCommand(_))));
    assert!(matches!(r.resolve("get_data"), Ok(CommandKind::GetData)));
}

#[test]
fn standard_registry_and_names() {
    let r = Registry::standard();
    for k in [CommandKind::Ping, CommandKind::SetData, CommandKind::GetData] {
        assert!(r.contains(k));
        assert_eq!(CommandKind::from_name(k.name()), Some(k));
    }
    assert_eq!(CommandKind::from_name("Ping"), None);
    assert_eq!(CommandKind::from_name(""), None);
}

#[test]
fn payload_lookup_takes_first() {
    let p = payload(&[("a", "1"), ("b", "2"), ("a", "3")]);
    assert_eq!(p.get("a"), Some("1".to_string()));
    assert_eq!(p.get("b"), Some("2".to_string()));
    assert_eq!(p.get("c"), None);
    assert_eq!(Payload::new().get("a"), None);
}

#[test]
fn responses_as_payloads() {
    let p = Response::Data("v".to_string()).into_payload();
    assert_eq!(p.fields, vec![("value".to_string(), "v".to_string())]);
    assert!(Response::Done.into_payload().fields.is_empty());
    let m = Response::Pong(ping(PingRequest { name: "Ada".to_string() })).into_payload();
    assert_eq!(m.get("message"), Some("Hello, Ada! You've been greeted from Rust!".to_string()));
}

#[test]
fn text_comparison() {
    assert!(same_text("abc", "abc"));
    assert!(same_text("", ""));
    assert!(!same_text("abc", "abd"));
    assert!(!same_text("ab", "abc"));
    assert!(same_text("ünï", "ünï"));
}

#[test]
fn extension_hands_out_plugin() {
    let mut d = Datapass::new();
    d.set_data("via ext".to_string()).unwrap();
    assert_eq!(d.datapass().get_data().unwrap(), "via ext");
}
