use adboost::models::{ADBLocalCommand, LocalSocketSpec, RemoteSocketSpec};
use adboost::server::forward::{
    forward_command, parse_forward, parse_killforward, ForwardRegistry, ForwardRequest,
};
use adboost::server::forward_handle::{release, release_all};

#[test]
fn parse_forward_tcp_pair() {
    let r = parse_forward("tcp:5555;tcp:5556").expect("valid forward");
    assert_eq!(
        r,
        ForwardRequest {
            norebind: false,
            local_is_zero: false,
            local: LocalSocketSpec::Tcp(5555),
            remote: RemoteSocketSpec::Tcp(5556),
        }
    );
}

#[test]
fn parse_forward_norebind_flag() {
    let r = parse_forward("norebind:tcp:7000;tcp:8000").expect("valid");
    assert!(r.norebind, "norebind: prefix must set the flag");
    assert_eq!(r.local, LocalSocketSpec::Tcp(7000));
    assert_eq!(r.remote, RemoteSocketSpec::Tcp(8000));
}

#[test]
fn parse_forward_local_zero_is_flagged() {
    let r = parse_forward("tcp:0;tcp:9000").expect("valid");
    assert!(r.local_is_zero, "tcp:0 local must flag auto-assign");
    assert_eq!(r.local, LocalSocketSpec::Tcp(0));
}

#[test]
fn parse_forward_vsock_remote() {
    let r = parse_forward("tcp:8885;vsock:2:46668").expect("valid vsock forward");
    assert_eq!(r.local, LocalSocketSpec::Tcp(8885));
    assert_eq!(r.remote, RemoteSocketSpec::Vsock { cid: 2, port: 46668 });
}

#[test]
fn parse_forward_rejects_non_tcp_local() {
    assert!(
        parse_forward("localabstract:foo;tcp:9000").is_err(),
        "localabstract not supported as local"
    );
    assert!(parse_forward("vsock:2:5555;tcp:9000").is_err(), "vsock not supported as local");
}

#[test]
fn parse_forward_rejects_unsupported_remote() {
    assert!(
        parse_forward("tcp:1;localabstract:bar").is_err(),
        "localabstract not yet supported as remote"
    );
}

#[test]
fn parse_forward_rejects_missing_semicolon() {
    let err = parse_forward("tcp:5555").expect_err("no ';' separator");
    assert!(err.starts_with("bad forward:"), "got: {err}");
}

#[test]
fn parse_killforward_extracts_local_spec() {
    assert_eq!(parse_killforward("tcp:5555").expect("valid"), LocalSocketSpec::Tcp(5555));
    assert!(parse_killforward("localabstract:x").is_err());
}

#[test]
fn registry_insert_contains_remove() {
    let mut reg = ForwardRegistry::default();
    assert!(!reg.contains(5555));
    reg.insert(5555, RemoteSocketSpec::Tcp(5556), "serialX".to_string(), 1);
    assert!(reg.contains(5555), "rule must be present after insert");
    assert!(reg.remove(5555).is_some(), "remove returns true when present");
    assert!(!reg.contains(5555), "rule gone after remove");
    assert!(reg.remove(5555).is_none(), "remove returns false when absent");
}

#[test]
fn registry_list_is_sorted_and_formatted() {
    let mut reg = ForwardRegistry::default();
    reg.insert(9000, RemoteSocketSpec::Tcp(1), "B".to_string(), 1);
    reg.insert(8000, RemoteSocketSpec::Tcp(2), "A".to_string(), 2);
    assert_eq!(reg.list(), "A tcp:8000 tcp:2\nB tcp:9000 tcp:1\n");
}

#[test]
fn registry_list_with_vsock_remote() {
    let mut reg = ForwardRegistry::default();
    reg.insert(8885, RemoteSocketSpec::Vsock { cid: 2, port: 46668 }, "dev1".to_string(), 1);
    assert_eq!(reg.list(), "dev1 tcp:8885 vsock:2:46668\n");
}

#[test]
fn registry_remove_by_serial_only_drops_that_serial() {
    let mut reg = ForwardRegistry::default();
    reg.insert(8000, RemoteSocketSpec::Tcp(1), "serialA".to_string(), 1);
    reg.insert(8001, RemoteSocketSpec::Tcp(2), "serialA".to_string(), 2);
    reg.insert(9000, RemoteSocketSpec::Tcp(3), "serialB".to_string(), 3);
    let removed = reg.remove_by_serial("serialA");
    assert_eq!(removed.len(), 2, "both serialA rules must be removed");
    assert!(!reg.contains(8000), "serialA rule gone");
    assert!(!reg.contains(8001), "serialA rule gone");
    assert!(reg.contains(9000), "serialB rule must survive");
    assert_eq!(reg.remove_by_serial("serialA").len(), 0, "second removal finds nothing");
    assert_eq!(reg.remove_by_serial("unknown").len(), 0, "unknown serial removes nothing");
}

#[test]
fn registry_remove_all_clears() {
    let mut reg = ForwardRegistry::default();
    reg.insert(1, RemoteSocketSpec::Tcp(2), "s".to_string(), 1);
    reg.insert(3, RemoteSocketSpec::Tcp(4), "s".to_string(), 2);
    reg.remove_all();
    assert!(reg.list().is_empty(), "remove_all must clear the registry");
}

fn registry_with(rules: &[(u16, &str)]) -> ForwardRegistry {
    let mut reg = ForwardRegistry::default();
    for (i, (port, serial)) in rules.iter().enumerate() {
        reg.insert(*port, RemoteSocketSpec::Tcp(1), (*serial).to_string(), i as u64);
    }
    reg
}

#[test]
fn release_drops_only_that_serial_forward_and_its_reverse() {
    let mut reg = registry_with(&[(8000, "serialA"), (8001, "serialA"), (9000, "serialB")]);
    let released = release(&mut reg, "serialA");
    assert_eq!(released.listeners.len(), 2, "both serialA forward rules released");
    assert!(!reg.contains(8000) && !reg.contains(8001));
    assert!(reg.contains(9000), "serialB forward must survive");
    assert_eq!(
        released.reverse,
        ["serialA"],
        "reverse released for exactly the disconnected serial"
    );
}

#[test]
fn release_all_clears_forwards_and_fans_reverse_over_serials() {
    let mut reg = registry_with(&[(8000, "serialA"), (8001, "serialA"), (9000, "serialB")]);
    let released = release_all(&mut reg);
    assert!(reg.list().is_empty(), "release_all clears every forward rule");
    assert_eq!(
        released.reverse,
        ["serialA", "serialB"],
        "reverse released once per distinct serial that had a forward rule"
    );
    assert_eq!(released.listeners, [0, 1, 2]);
}

#[test]
fn a_replaced_listener_is_handed_back() {
    let mut reg = ForwardRegistry::new();
    assert_eq!(reg.insert(1, RemoteSocketSpec::Tcp(2), "a".to_string(), 10), None);
    assert_eq!(reg.insert(1, RemoteSocketSpec::Tcp(3), "b".to_string(), 11), Some(10));
    assert_eq!(reg.list(), "b tcp:1 tcp:3\n");
    assert_eq!(reg.remove(1), Some(11));
}

#[test]
fn serials_of_rules_are_distinct_and_sorted() {
    let reg = registry_with(&[(3, "z"), (2, "a"), (1, "z")]);
    assert_eq!(reg.serials(), ["a", "z"]);
}

#[test]
fn the_service_of_a_rule_is_its_device_end() {
    assert_eq!(forward_command(&RemoteSocketSpec::Tcp(80)), ADBLocalCommand::TcpConnect(80));
    assert_eq!(
        forward_command(&RemoteSocketSpec::Vsock { cid: 2, port: 9 }),
        ADBLocalCommand::Raw("vsock:2:9".to_string())
    );
}

#[test]
fn ends_read_back_from_their_text() {
    for spec in [LocalSocketSpec::Tcp(0), LocalSocketSpec::Tcp(65535)] {
        assert_eq!(LocalSocketSpec::parse(&spec.to_text()), Some(spec));
    }
    for spec in [
        RemoteSocketSpec::Tcp(7),
        RemoteSocketSpec::Vsock { cid: 4294967295, port: 0 },
    ] {
        assert_eq!(RemoteSocketSpec::parse(&spec.to_text()), Some(spec));
    }
    assert_eq!(LocalSocketSpec::parse("tcp:65536"), None);
    assert_eq!(RemoteSocketSpec::parse("vsock:2"), None);
    assert_eq!(LocalSocketSpec::Tcp(9).tcp_port(), 9);
}
