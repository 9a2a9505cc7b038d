use adboost::models::DeviceFeatureSet;
use adboost::server::backend::BackendCapabilities;
use adboost::server::capabilities::{KillPolicy, ServerCapabilities};

#[test]
fn default_is_honest_minimal_and_excludes_shell_v2() {
    let caps = ServerCapabilities::default();
    assert_eq!(caps.features_csv(), "cmd,stat_v2,fixed_push_mkdir,apex");
    assert!(
        !caps.features_csv().contains("shell_v2"),
        "default must NOT advertise shell_v2 (would desync the v1 shell bridge)"
    );
    assert!(
        !caps.features_csv().contains("sync_v2"),
        "default must NOT advertise the sync_v2 family"
    );
    assert_eq!(caps.version_hex(), "0029");
    assert_eq!(caps.kill_policy(), KillPolicy::Reject);
}

#[test]
fn with_shell_v2_appends_once() {
    let caps = ServerCapabilities::default().with_shell_v2().with_shell_v2();
    let csv = caps.features_csv();
    assert!(csv.ends_with(",shell_v2"));
    assert_eq!(
        csv.matches("shell_v2").count(),
        1,
        "with_shell_v2 must be idempotent (no duplicate token)"
    );
}

#[test]
fn negotiated_with_adds_only_backend_supported_features() {
    let caps = ServerCapabilities::default().negotiated_with(BackendCapabilities {
        sync: true,
        shell_v2: true,
        ..Default::default()
    });
    let csv = caps.features_csv();
    assert!(csv.contains("sync_v2"), "sync backend must advertise sync_v2");
    assert!(csv.contains("shell_v2"), "shell_v2 backend must advertise shell_v2");
    assert_eq!(csv.matches("sync_v2").count(), 1, "no duplicate sync_v2");
    assert_eq!(csv.matches("shell_v2").count(), 1, "no duplicate shell_v2");
}

#[test]
fn negotiated_with_default_backend_stays_honest_minimal() {
    let caps = ServerCapabilities::default().negotiated_with(BackendCapabilities::default());
    assert_eq!(
        caps.features_csv(),
        "cmd,stat_v2,fixed_push_mkdir,apex",
        "all-false backend caps must leave the honest-minimal default untouched"
    );
}

#[test]
fn negotiated_with_only_sync_does_not_add_shell_v2() {
    let caps = ServerCapabilities::default().negotiated_with(BackendCapabilities {
        sync: true,
        shell_v2: false,
        ..Default::default()
    });
    let csv = caps.features_csv();
    assert!(csv.contains("sync_v2"), "sync backend advertises sync_v2");
    assert!(!csv.contains("shell_v2"), "a sync-only backend must NOT advertise shell_v2");
}

#[test]
fn builders_set_version_and_kill_policy() {
    let caps =
        ServerCapabilities::default().with_version_hex("0041").with_kill_policy(KillPolicy::Shutdown);
    assert_eq!(caps.version_hex(), "0041");
    assert_eq!(caps.kill_policy(), KillPolicy::Shutdown);
}

#[test]
fn features_are_told_apart_by_whole_names() {
    let caps = ServerCapabilities::default();
    assert!(caps.has_feature("cmd"));
    assert!(!caps.has_feature("cm"));
    assert!(!caps.has_feature("stat"));
    assert!(caps.with_feature("x").has_feature("x"));
}

#[test]
fn a_device_takes_away_what_it_lacks() {
    let caps = ServerCapabilities::default().with_shell_v2().with_feature("sync_v2");
    let stripped = DeviceFeatureSet { shell_v2: false, stat_v2: false, delayed_ack: true };
    let full = DeviceFeatureSet { shell_v2: true, stat_v2: true, delayed_ack: true };
    assert!(caps.device_has_feature("shell_v2", Some(&full)));
    assert!(!caps.device_has_feature("shell_v2", Some(&stripped)));
    assert!(!caps.device_has_feature("shell_v2", None));
    assert!(caps.device_has_feature("cmd", None));
    let left = caps.intersected_with_device(Some(&stripped));
    assert!(left.contains(&"cmd".to_string()) && left.contains(&"apex".to_string()));
    assert!(!left.contains(&"shell_v2".to_string()) && !left.contains(&"sync_v2".to_string()));
}
