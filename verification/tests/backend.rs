use adboost::models::DeviceFeatureSet;
use adboost::server::backend::{
    collect_serials, find_device, transport_alive, unsupported_reason, BackendCapabilities,
    DeviceEntry, DeviceState, OptionalCall, TransportKind,
};

#[test]
fn device_state_wire_strings_match_aosp() {
    assert_eq!(DeviceState::Device.as_wire(), "device");
    assert_eq!(DeviceState::Offline.as_wire(), "offline");
    assert_eq!(DeviceState::Unauthorized.as_wire(), "unauthorized");
}

#[test]
fn device_entry_new_defaults_to_device_state_no_extras() {
    let e = DeviceEntry::new("ABC123");
    assert_eq!(e.serial, "ABC123");
    assert_eq!(e.state, DeviceState::Device);
    assert!(e.product.is_none() && e.model.is_none() && e.device.is_none());
    assert!(
        e.capabilities.is_none(),
        "a freshly-listed device has unknown (None) capabilities until handshaked"
    );
    assert!(
        e.kind.is_none(),
        "an untagged entry defaults to kind: None (matches any -d/-e request)"
    );
}

#[test]
fn device_entry_with_capabilities_sets_some() {
    let caps = DeviceFeatureSet::default();
    let e = DeviceEntry::new("ABC123").with_capabilities(caps.clone());
    assert_eq!(e.capabilities, Some(caps));
}

#[test]
fn device_entry_with_kind_sets_some() {
    assert_eq!(
        DeviceEntry::new("ABC123").with_kind(TransportKind::Usb).kind,
        Some(TransportKind::Usb)
    );
    assert_eq!(
        DeviceEntry::new("ABC123").with_kind(TransportKind::Local).kind,
        Some(TransportKind::Local)
    );
}

#[test]
fn backend_capabilities_default_is_all_false() {
    let caps = BackendCapabilities::default();
    assert!(!caps.sync, "sync must default to false (honest banner)");
    assert!(!caps.shell_v2, "shell_v2 must default to false (honest banner)");
    assert!(!caps.reverse, "reverse must default to false (honest banner)");
}

#[test]
fn transport_alive_default_impl_falls_back_to_presence() {
    let devices = vec![DeviceEntry::new("present")];
    assert!(transport_alive(&devices, "present"), "listed serial is alive");
    assert!(
        !transport_alive(&devices, "absent"),
        "unlisted serial is not alive (default presence fallback)"
    );
}

#[test]
fn refusals_name_the_call() {
    assert_eq!(unsupported_reason(OptionalCall::Sync), "sync not supported by this backend");
    assert_eq!(unsupported_reason(OptionalCall::ShellV2), "shell_v2 not supported by this backend");
    assert_eq!(unsupported_reason(OptionalCall::Reverse), "reverse not supported by this backend");
    assert_eq!(unsupported_reason(OptionalCall::Connect), "connect not supported by this backend");
    assert_eq!(
        unsupported_reason(OptionalCall::Disconnect),
        "disconnect not supported by this backend"
    );
}

#[test]
fn a_device_is_found_by_its_serial() {
    let devices = vec![
        DeviceEntry::new("a").with_kind(TransportKind::Usb),
        DeviceEntry::new("b").with_kind(TransportKind::Local),
    ];
    assert_eq!(find_device(&devices, "b").map(|d| d.kind), Some(Some(TransportKind::Local)));
    assert!(find_device(&devices, "c").is_none());
    assert_eq!(collect_serials(&devices), vec!["a".to_string(), "b".to_string()]);
}
