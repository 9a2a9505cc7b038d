use std::sync::{Arc, Mutex};

use adboost::models::{LocalSocketSpec, RemoteSocketSpec};
use adboost::server::backend::LifecycleEvent;
use adboost::server::forward::ForwardRequest;
use adboost::server::frontend::AdbServerFrontend;
use adboost::server::on_disconnect::{DisconnectAction, OnDisconnect};

/// A frontend with a rule on port 7000 for the device.
fn fixture(serial: &str, policy: OnDisconnect) -> AdbServerFrontend {
    let mut f = AdbServerFrontend::builder().on_disconnect(policy).build();
    let request = ForwardRequest {
        norebind: false,
        local_is_zero: false,
        local: LocalSocketSpec::Tcp(7000),
        remote: RemoteSocketSpec::Tcp(7001),
    };
    f.finish_forward_add(serial, &request, 7000, 99);
    f
}

/// Whether the frontend lists the rule on port 7000.
fn has_rule(f: &mut AdbServerFrontend) -> bool {
    let step = f.handle_client(
        None,
        Some("host:list-forward"),
        None,
        adboost::server::frontend::Learned::NotAsked,
    );
    match step {
        Some(adboost::server::step::Step::Reply(r)) => {
            String::from_utf8(r).unwrap().contains("tcp:7000")
        }
        other => panic!("unexpected step {other:?}"),
    }
}

#[test]
fn default_is_release_all() {
    assert!(
        matches!(OnDisconnect::default(), OnDisconnect::ReleaseAll),
        "default disconnect policy must be ReleaseAll (align with standard adb)"
    );
}

#[test]
fn debug_does_not_leak_closure() {
    assert_eq!(OnDisconnect::Notify.debug_label(), "Notify(<fn>)");
    assert_eq!(OnDisconnect::ReleaseAll.debug_label(), "ReleaseAll");
    assert_eq!(OnDisconnect::Retain.debug_label(), "Retain");
}

#[test]
fn notify_callback_receives_serial() {
    let seen: Arc<Mutex<Vec<String>>> = Arc::new(Mutex::new(Vec::new()));
    let seen_cl = Arc::clone(&seen);
    let callback = move |serial: &str| {
        seen_cl.lock().expect("test lock").push(serial.to_owned());
    };
    let mut f = fixture("YTGUSCNFMFAIK7ZP", OnDisconnect::Notify);
    let event = LifecycleEvent::Disconnected("YTGUSCNFMFAIK7ZP".to_string());
    if let DisconnectAction::Notify(serial) = f.handle_disconnect(&event) {
        callback(&serial);
    }
    assert_eq!(
        seen.lock().expect("test lock").as_slice(),
        ["YTGUSCNFMFAIK7ZP"],
        "Notify must invoke the callback with the disconnected serial"
    );
}

#[test]
fn release_all_policy_drops_forward_and_reverse_on_disconnect() {
    let mut f = fixture("YTGUSCNFMFAIK7ZP", OnDisconnect::ReleaseAll);
    assert!(has_rule(&mut f), "precondition: forward rule present");
    let event = LifecycleEvent::Disconnected("YTGUSCNFMFAIK7ZP".to_string());
    let action = f.handle_disconnect(&event);
    assert!(!has_rule(&mut f), "forward rule must be released on disconnect");
    match action {
        DisconnectAction::Release(released) => {
            assert_eq!(released.listeners, [99]);
            assert_eq!(
                released.reverse,
                ["YTGUSCNFMFAIK7ZP"],
                "reverse rules must be released for the disconnected serial"
            );
        }
        other => panic!("unexpected action {other:?}"),
    }
}

#[test]
fn notify_policy_invokes_callback_and_releases_nothing() {
    let mut f = fixture("DEV1", OnDisconnect::Notify);
    let action = f.handle_disconnect(&LifecycleEvent::Disconnected("DEV1".to_string()));
    assert_eq!(
        action,
        DisconnectAction::Notify("DEV1".to_string()),
        "Notify must invoke the callback with the disconnected serial"
    );
    assert!(has_rule(&mut f), "Notify must NOT release the forward rule itself");
}

#[test]
fn retain_policy_releases_nothing() {
    let mut f = fixture("DEV2", OnDisconnect::Retain);
    assert!(!OnDisconnect::Retain.watches());
    let action = f.handle_disconnect(&LifecycleEvent::Disconnected("DEV2".to_string()));
    assert_eq!(action, DisconnectAction::Keep, "Retain must not release reverse rules");
    assert!(has_rule(&mut f), "Retain must keep the forward rule");
}

#[test]
fn handle_disconnects_ignores_transport_reset_but_still_releases_on_disconnected() {
    let mut f = fixture("RESETDEV", OnDisconnect::ReleaseAll);
    assert!(has_rule(&mut f), "precondition");
    let action = f.handle_disconnect(&LifecycleEvent::TransportReset("RESETDEV".to_string()));
    assert_eq!(action, DisconnectAction::Keep, "the TransportReset released nothing");
    assert!(has_rule(&mut f));
    let action = f.handle_disconnect(&LifecycleEvent::Disconnected("RESETDEV".to_string()));
    assert!(
        !has_rule(&mut f),
        "Disconnected after a TransportReset must still release (loop did not terminate early)"
    );
    match action {
        DisconnectAction::Release(released) => assert_eq!(released.reverse, ["RESETDEV"]),
        other => panic!("unexpected action {other:?}"),
    }
}

#[test]
fn other_devices_keep_their_rules() {
    let mut f = fixture("A", OnDisconnect::ReleaseAll);
    f.handle_disconnect(&LifecycleEvent::Disconnected("B".to_string()));
    assert!(has_rule(&mut f));
    let released = f.release("A");
    assert_eq!(released.listeners, [99]);
    assert!(!has_rule(&mut f));
    let released = f.release("A");
    assert!(released.listeners.is_empty());
}

#[test]
fn everything_can_be_released() {
    let mut f = fixture("A", OnDisconnect::Retain);
    let released = f.release_all();
    assert_eq!(released.listeners, [99]);
    assert_eq!(released.reverse, ["A"]);
    assert!(!has_rule(&mut f));
}
