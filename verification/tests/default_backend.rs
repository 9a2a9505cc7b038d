use adboost::models::{ADBLocalCommand, DeviceFeatureSet};
use adboost::server::backend::{DeviceEntry, TransportKind};
use adboost::server::table::Table;
use adboost::server::default_backend::{
    check_local_service, connect_failed, disconnected_since, enumerate_usb,
    is_retryable_open_error, merge_device_sets, reopen_after, resolve_tcp_target, retry_within,
    service_string, tcp_candidates, DefaultDeviceBackend, Lookup, OpenError, Retry,
    ServiceRoute, TransferFault, DEFAULT_ADB_TCP_PORT, OPEN_RETRY_BUDGET_MS,
};

/// Resolves a candidate as the socket layer does for numeric addresses.
fn numeric(candidate: &str) -> Option<String> {
    let (host, port) = candidate.rsplit_once(':')?;
    let octets: Vec<&str> = host.split('.').collect();
    if octets.len() != 4 || octets.iter().any(|o| o.parse::<u8>().is_err()) {
        return None;
    }
    let port: u16 = port.parse().ok()?;
    Some(format!("{host}:{port}"))
}

fn resolve(addr: &str) -> Result<String, String> {
    let (direct, with_port) = tcp_candidates(addr);
    resolve_tcp_target(addr, numeric(&direct), numeric(&with_port))
}

#[test]
fn resolve_tcp_target_appends_default_port_when_missing() {
    let serial = resolve("127.0.0.1").unwrap();
    assert!(serial.ends_with(&format!(":{DEFAULT_ADB_TCP_PORT}")));
    assert_eq!(serial, "127.0.0.1:5555");
}

#[test]
fn resolve_tcp_target_keeps_explicit_port() {
    let serial = resolve("127.0.0.1:8885").unwrap();
    assert!(serial.ends_with(":8885"));
    assert_eq!(serial, "127.0.0.1:8885");
}

#[test]
fn resolve_tcp_target_rejects_garbage() {
    assert!(resolve("not a host:::").is_err());
    assert_eq!(
        resolve("not a host:::"),
        Err("could not resolve address 'not a host:::'".to_string())
    );
}

#[test]
fn merge_device_sets_appends_tcp_serials_to_usb() {
    let usb = vec![DeviceEntry::new("USBSERIAL01")];
    let tcp_entries =
        vec![DeviceEntry::new("10.0.0.5:5555"), DeviceEntry::new("10.0.0.6:5555")];
    let merged = merge_device_sets(usb, tcp_entries);
    let serials: Vec<&str> = merged.iter().map(|d| d.serial.as_str()).collect();
    assert!(serials.contains(&"USBSERIAL01"), "USB kept: {serials:?}");
    assert!(serials.contains(&"10.0.0.5:5555"), "TCP #1 added: {serials:?}");
    assert!(serials.contains(&"10.0.0.6:5555"), "TCP #2 added: {serials:?}");
    assert_eq!(merged.len(), 3, "no entry dropped or duplicated");
}

#[test]
fn tcp_conn_is_none_for_unregistered_serial() {
    let backend = DefaultDeviceBackend::new();
    assert!(
        backend.tcp_conn("USBSERIAL01", true).is_none(),
        "USB-style serial must not resolve to a TCP connection"
    );
    assert!(
        backend.tcp_conn("10.0.0.5:5555", true).is_none(),
        "an un-connected TCP serial must not resolve to a TCP connection"
    );
}

#[test]
fn open_local_service_no_longer_reports_tcp_not_yet_supported() {
    let mut backend = DefaultDeviceBackend::new();
    let cmd = ADBLocalCommand::ShellCommand(String::new(), vec![]);
    let route = backend.open_local_service("10.0.0.5:5555", &cmd, false).unwrap();
    assert_eq!(route, ServiceRoute { over: None, service: "shell:".to_string() });
    assert!(backend.tcp_conn("10.0.0.5:5555", true).is_none());
    assert_eq!(backend.get_or_open("10.0.0.5:5555", false), Lookup::Open);
}

#[test]
fn disconnect_empty_addr_reports_count_and_clears() {
    let mut backend = DefaultDeviceBackend::new();
    let (result, gone) = backend.disconnect("", resolve(""));
    let msg = result.unwrap();
    assert!(msg.contains("disconnected everything"), "got: {msg}");
    assert!(msg.contains("0 device"), "got: {msg}");
    assert!(gone.is_empty());
}

#[test]
fn disconnect_unknown_addr_fails() {
    let mut backend = DefaultDeviceBackend::new();
    let err = backend.disconnect("127.0.0.1:5555", resolve("127.0.0.1:5555")).0.unwrap_err();
    assert!(err.contains("no such device"), "got: {err}");
}

#[test]
fn device_capabilities_reports_none_for_unconnectable_serial() {
    let backend = DefaultDeviceBackend::new();
    assert!(
        backend.known_features("USBSERIAL01", true, true).is_none(),
        "an unconnectable device must report unknown (None) capabilities"
    );
}

/// Drives an operation as the policy decides, with a clock that only sleeping moves.
fn drive(
    budget_ms: u64,
    poll_ms: u64,
    mut op: impl FnMut() -> Result<u32, OpenError>,
    is_retryable: impl Fn(&OpenError) -> bool,
) -> (Result<u32, OpenError>, u64) {
    let mut elapsed: u64 = 0;
    loop {
        match op() {
            Ok(v) => return (Ok(v), elapsed),
            Err(e) => match retry_within(budget_ms, elapsed, is_retryable(&e)) {
                Retry::Again => elapsed += poll_ms,
                Retry::GiveUp => return (Err(e), elapsed),
            },
        }
    }
}

#[test]
fn retry_within_succeeds_after_n_transient_failures() {
    let mut attempts = 0;
    let (result, _) = drive(
        5000,
        1,
        || {
            attempts += 1;
            if attempts <= 2 {
                Err(OpenError::DeviceNotFound("absent".to_string()))
            } else {
                Ok(42)
            }
        },
        |_| true,
    );
    assert_eq!(
        result.ok(),
        Some(42),
        "retry_within must succeed once the op stops failing within budget"
    );
    assert_eq!(attempts, 3, "must have retried exactly until the third (successful) attempt");
}

#[test]
fn retry_within_gives_up_within_budget_when_always_failing() {
    let (result, elapsed) =
        drive(50, 5, || Err(OpenError::DeviceNotFound("gone".to_string())), |_| true);
    assert!(
        result.is_err(),
        "a permanently-failing op must surface the last error after the budget"
    );
    assert!(elapsed < 2000, "must fail fast within ~budget, not hang (elapsed {elapsed} ms)");
}

#[test]
fn retry_within_returns_immediately_on_non_retryable_error() {
    let mut attempts = 0;
    let (result, _) = drive(
        60000,
        1,
        || {
            attempts += 1;
            Err(OpenError::DeviceBusy)
        },
        |_| false,
    );
    assert!(result.is_err(), "a non-retryable error must propagate");
    assert_eq!(
        attempts, 1,
        "a non-retryable error must be returned on the first attempt (no retry)"
    );
}

#[test]
fn is_retryable_open_error_is_the_reopen_window_family() {
    assert!(
        is_retryable_open_error(&OpenError::DeviceNotFound("absent".to_string())),
        "DeviceNotFound (device momentarily not enumerated) must be retryable"
    );
    assert!(
        is_retryable_open_error(&OpenError::UsbTransfer(TransferFault::Disconnected)),
        "Disconnected (NoDevice, re-enumeration gap) must be retryable"
    );
    assert!(
        is_retryable_open_error(&OpenError::UsbTransfer(TransferFault::Stall)),
        "Stall (re-enumerated endpoint stalls until a fresh connect) must be retryable"
    );
    assert!(
        is_retryable_open_error(&OpenError::UsbTransfer(TransferFault::Unknown(0xe000_02ed))),
        "NotResponding (0xe00002ed) lands in Unknown(_) and must be retryable"
    );
    assert!(
        is_retryable_open_error(&OpenError::UsbTransfer(TransferFault::Unknown(0xe000_02d8))),
        "NotReady (0xe00002d8) is covered by the Unknown(_) family"
    );
    assert!(
        is_retryable_open_error(&OpenError::RequestFailed(
            "CNXN failed after 8 attempts (stale CLSE or transient transfer error)".to_string()
        )),
        "an exhausted handshake is the signal to open anew"
    );
    assert!(
        !is_retryable_open_error(&OpenError::UsbTransfer(TransferFault::InvalidArgument)),
        "InvalidArgument (programming error / unsupported request) must NOT be retried"
    );
    assert!(
        !is_retryable_open_error(&OpenError::UsbTransfer(TransferFault::Fault)),
        "Fault (hardware issue / protocol violation) must NOT be retried"
    );
    assert!(
        !is_retryable_open_error(&OpenError::DeviceBusy),
        "DeviceBusy (another process holds the single USB claim) must NOT be retried"
    );
    assert!(!is_retryable_open_error(&OpenError::UsbTransfer(TransferFault::Cancelled)));
    assert!(!is_retryable_open_error(&OpenError::Other("x".to_string())));
}

#[test]
fn retry_within_redrives_cnxn_exhaustion_by_reopening() {
    let mut attempts = 0;
    let (result, _) = drive(
        5000,
        1,
        || {
            attempts += 1;
            if attempts == 1 {
                Err(OpenError::RequestFailed(
                    "CNXN failed after 8 attempts (stale CLSE or transient transfer error)"
                        .to_string(),
                ))
            } else {
                Ok(7)
            }
        },
        is_retryable_open_error,
    );
    assert_eq!(result.ok(), Some(7));
    assert_eq!(
        attempts, 2,
        "exactly one reopen: first attempt exhausts CNXN, second (fresh transport) succeeds"
    );
}

#[test]
fn a_restarted_device_is_opened_anew() {
    let mut backend = DefaultDeviceBackend::new();
    let features = DeviceFeatureSet::default();
    assert_eq!(backend.publish("dev", 1, features, false), 1);
    assert_eq!(backend.get_or_open("dev", true), Lookup::Use(1));
    // The connection died: it is dropped, and the device opened anew.
    assert_eq!(reopen_after(false, 0), Retry::Again);
    backend.drop_conn("dev");
    assert_eq!(backend.get_or_open("dev", true), Lookup::Open);
    assert_eq!(backend.publish("dev", 2, features, false), 2);
    assert_eq!(backend.get_or_open("dev", true), Lookup::Use(2));
}

#[test]
fn a_device_that_is_not_there_is_given_up() {
    let mut backend = DefaultDeviceBackend::new();
    assert_eq!(backend.get_or_open("ghost", true), Lookup::Open);
    assert_eq!(backend.usb_conn("ghost"), None);
    assert_eq!(
        retry_within(OPEN_RETRY_BUDGET_MS, OPEN_RETRY_BUDGET_MS, true),
        Retry::GiveUp,
        "the attempts on a device that is not there end"
    );
}

#[test]
fn a_living_connection_is_not_reopened() {
    assert_eq!(reopen_after(true, 0), Retry::GiveUp);
    assert_eq!(reopen_after(false, OPEN_RETRY_BUDGET_MS - 1), Retry::Again);
    assert_eq!(reopen_after(false, OPEN_RETRY_BUDGET_MS), Retry::GiveUp);
}

#[test]
fn a_dead_connection_is_dropped_on_lookup() {
    let mut backend = DefaultDeviceBackend::new();
    backend.publish("dev", 5, DeviceFeatureSet::default(), false);
    assert_eq!(backend.get_or_open("dev", false), Lookup::Open);
    assert_eq!(backend.usb_conn("dev"), None);
}

#[test]
fn the_first_published_connection_wins_while_it_lives() {
    let mut backend = DefaultDeviceBackend::new();
    let f = DeviceFeatureSet::default();
    assert_eq!(backend.publish("dev", 1, f, false), 1);
    assert_eq!(backend.publish("dev", 2, f, true), 1);
    assert_eq!(backend.publish("dev", 3, f, false), 3);
    assert_eq!(backend.usb_conn("dev"), Some(3));
}

#[test]
fn connecting_and_disconnecting() {
    let mut backend = DefaultDeviceBackend::new();
    let f = DeviceFeatureSet { shell_v2: false, stat_v2: true, delayed_ack: false };
    assert_eq!(backend.connect_status("10.0.0.1:5555"), None);
    assert_eq!(
        backend.connect("10.0.0.1:5555", 4, f),
        (true, "connected to 10.0.0.1:5555".to_string())
    );
    assert_eq!(
        backend.connect("10.0.0.1:5555", 5, f),
        (false, "already connected to 10.0.0.1:5555".to_string())
    );
    assert_eq!(
        backend.connect_status("10.0.0.1:5555"),
        Some("already connected to 10.0.0.1:5555".to_string())
    );
    let entries = backend.tcp_device_entries();
    assert_eq!(entries.len(), 1);
    assert_eq!(entries[0].kind, Some(TransportKind::Local));
    assert_eq!(entries[0].capabilities, Some(f));
    assert_eq!(backend.known_features("10.0.0.1:5555", true, false), Some(f));
    assert_eq!(backend.known_features("10.0.0.1:5555", false, false), None);
    assert_eq!(
        backend.disconnect("10.0.0.1", resolve("10.0.0.1")),
        (Ok("disconnected 10.0.0.1:5555".to_string()), vec!["10.0.0.1:5555".to_string()])
    );
    assert_eq!(
        backend.disconnect("x", resolve("x")),
        (Err("could not resolve address 'x'".to_string()), vec![])
    );
    assert!(backend.tcp_conn("10.0.0.1:5555", true).is_none());
    assert_eq!(
        connect_failed("10.0.0.1:5555", "refused"),
        "failed to connect to 10.0.0.1:5555: refused"
    );
}

#[test]
fn disconnecting_everything_names_what_is_gone() {
    let mut backend = DefaultDeviceBackend::new();
    let f = DeviceFeatureSet::default();
    backend.connect("a:1", 1, f);
    backend.connect("b:2", 2, f);
    let (result, gone) = backend.disconnect("", resolve(""));
    assert_eq!(result, Ok("disconnected everything (2 device(s))".to_string()));
    assert_eq!(gone, ["a:1", "b:2"]);
    assert!(backend.tcp_device_entries().is_empty());
}

#[test]
fn shutdown_hands_every_connection_back() {
    let mut backend = DefaultDeviceBackend::new();
    let f = DeviceFeatureSet::default();
    backend.connect("a:1", 7, f);
    backend.publish("u", 8, f, false);
    assert_eq!(backend.shutdown(), [8, 7]);
    assert!(backend.shutdown().is_empty());
}

#[test]
fn a_known_connection_decides_whether_a_transport_lives() {
    let backend = DefaultDeviceBackend::new();
    assert!(!backend.transport_alive(Some(false), Some(true), true));
    assert!(backend.transport_alive(None, Some(true), false));
    assert!(backend.transport_alive(None, None, true));
    assert!(!backend.transport_alive(None, None, false));
}

#[test]
fn devices_without_a_serial_are_not_listed() {
    let found = enumerate_usb(&vec![Some("a".to_string()), None, Some("b".to_string())]);
    let serials: Vec<&str> = found.iter().map(|d| d.serial.as_str()).collect();
    assert_eq!(serials, ["a", "b"]);
    assert!(found.iter().all(|d| d.kind == Some(TransportKind::Usb)));
}

#[test]
fn what_left_since_the_last_look() {
    let before = vec!["a".to_string(), "b".to_string(), "c".to_string()];
    let now = vec!["b".to_string(), "d".to_string()];
    assert_eq!(disconnected_since(&before, &now), ["a", "c"]);
    assert!(disconnected_since(&now, &now).is_empty());
}

#[test]
fn services_that_are_not_bridged_are_named() {
    let err = check_local_service(&ADBLocalCommand::TcpIp(5555)).unwrap_err();
    assert!(err.starts_with("DefaultDeviceBackend: unsupported local service: "), "got: {err}");
    assert_eq!(service_string(&ADBLocalCommand::Raw("sync:".to_string())), "sync:");
    assert_eq!(service_string(&ADBLocalCommand::TcpConnect(80)), "tcp:80");
}

#[test]
fn a_service_goes_over_the_living_tcp_connection() {
    let mut backend = DefaultDeviceBackend::new();
    backend.connect("10.0.0.1:5555", 7, DeviceFeatureSet::default());
    let cmd = ADBLocalCommand::TcpConnect(80);
    let service = "tcp:80".to_string();
    assert_eq!(
        backend.open_local_service("10.0.0.1:5555", &cmd, true),
        Ok(ServiceRoute { over: Some(7), service: service.clone() })
    );
    assert_eq!(
        backend.open_local_service("10.0.0.1:5555", &cmd, false),
        Ok(ServiceRoute { over: None, service })
    );
    assert_eq!(backend.registered_conn("10.0.0.1:5555"), Some(7));
    assert_eq!(backend.tcp_conn("10.0.0.1:5555", true), Some(7));
    assert_eq!(backend.tcp_conn("10.0.0.1:5555", false), None);
    let refused = backend.open_local_service("10.0.0.1:5555", &ADBLocalCommand::TcpIp(1), true);
    assert!(refused.unwrap_err().starts_with("DefaultDeviceBackend: unsupported local service"));
}

#[test]
fn the_key_is_kept() {
    assert_eq!(DefaultDeviceBackend::new().private_key(), None);
    let mut backend = DefaultDeviceBackend::with_private_key("/k".to_string());
    assert_eq!(backend.shutdown(), Vec::<u64>::new());
    assert_eq!(backend.private_key(), Some("/k".to_string()));
}

#[test]
fn one_engine_for_the_rules_of_a_device() {
    let mut backend = DefaultDeviceBackend::new();
    assert_eq!(backend.reverse_engine("a"), None);
    assert_eq!(backend.keep_reverse_engine("a", 1), 1);
    assert_eq!(backend.keep_reverse_engine("a", 2), 1);
    assert_eq!(backend.keep_reverse_engine("b", 3), 3);
    assert_eq!(backend.release_reverse("a"), Some(1));
    assert_eq!(backend.reverse_engine("a"), None);
    assert_eq!(backend.reverse_engine("b"), Some(3));
    assert_eq!(backend.release_reverse("a"), None);
    backend.shutdown();
    assert_eq!(backend.reverse_engine("b"), None);
}

#[test]
fn a_table_keeps_one_row_for_a_device() {
    let mut table: Table<u8> = Table::new();
    table.insert("a", 1);
    table.insert("b", 2);
    assert_eq!((table.get("a"), table.get("b"), table.get("c")), (Some(1), Some(2), None));
    table.remove("a");
    table.insert("a", 3);
    assert_eq!(table.serials(), ["b", "a"]);
    assert_eq!((table.len(), table.row(1)), (2, ("a", 3)));
    table.clear();
    assert_eq!(table.len(), 0);
}

#[test]
fn an_opened_device_is_listed_with_its_features() {
    let mut backend = DefaultDeviceBackend::new();
    let f = DeviceFeatureSet { shell_v2: true, stat_v2: true, delayed_ack: false };
    backend.publish("usb1", 3, f, false);
    backend.connect("10.0.0.1:5555", 4, f);
    let serials = vec![Some("usb1".to_string()), None, Some("usb2".to_string())];
    let listed: Vec<(String, Option<DeviceFeatureSet>)> = backend
        .enumerate_all(&serials, &vec![3, 4])
        .into_iter()
        .map(|d| (d.serial, d.capabilities))
        .collect();
    assert_eq!(
        listed,
        vec![
            ("usb1".to_string(), Some(f)),
            ("usb2".to_string(), None),
            ("10.0.0.1:5555".to_string(), Some(f)),
        ]
    );
    let dead = backend.usb_device_entries(&serials, &vec![4]);
    assert_eq!(dead.len(), 2);
    assert_eq!(dead[0].capabilities, None, "the connection no longer lives");
}
