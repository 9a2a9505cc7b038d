use adboost::models::{ADBLocalCommand, DeviceFeatureSet};
use adboost::protocol::{encode_framed, request_length, request_text};
use adboost::server::backend::{
    unsupported_reason, BackendCapabilities, DeviceEntry, LifecycleEvent, OptionalCall,
    TransportKind,
};
use adboost::server::capabilities::{KillPolicy, ServerCapabilities};
use adboost::server::frontend::{
    bind_failed_reply, open_failed_reply, AdbServerFrontend, Learned, SocketAddress,
};
use adboost::server::listing::{format_devices, track_frame};
use adboost::server::on_disconnect::OnDisconnect;
use adboost::server::request::ReverseRequest;
use adboost::server::service::{is_control_service, is_host_serial_sub, split_host_serial};
use adboost::server::step::{done_reply, reject_reply, reply_or_overflow, status_reply, Step};
use adboost::server::transport::{
    ambiguous_msg, kind_matches, no_devices_msg, parse_transport_kind,
};
use adboost::server::wait_for::{
    device_wait_step, disconnect_wait_step, Wait, WaitEvent, WaitStep, DISCONNECT_FALLBACK_MS,
    MAX_WAIT_MS,
};

/// A server over a scripted backend.
struct Server {
    frontend: AdbServerFrontend,
    devices: Vec<DeviceEntry>,
    next_port: u16,
}

impl Server {
    fn new(devices: Vec<DeviceEntry>) -> Self {
        Server { frontend: AdbServerFrontend::builder().build(), devices, next_port: 40000 }
    }

    fn with_caps(caps: ServerCapabilities, devices: Vec<DeviceEntry>) -> Self {
        let frontend = AdbServerFrontend::builder().capabilities(caps).build();
        Server { frontend, devices, next_port: 40000 }
    }

    fn features(&self, serial: &str) -> Option<DeviceFeatureSet> {
        self.devices.iter().find(|d| d.serial == serial).and_then(|d| d.capabilities)
    }

    /// What the scripted backend says to a connect request.
    fn connect(&self, addr: &str) -> Result<String, String> {
        if addr == "10.0.0.1:5555" {
            Ok(format!("connected to {addr}"))
        } else {
            Err(format!("failed to connect to {addr}: refused"))
        }
    }

    /// What the scripted backend says to a disconnect request.
    fn disconnect(&self, addr: &str) -> Result<String, String> {
        if addr.is_empty() {
            Ok("disconnected everything (0 device(s))".to_string())
        } else if addr == "10.0.0.1:5555" {
            Ok(format!("disconnected {addr}"))
        } else {
            Err(format!("no such device {addr}"))
        }
    }

    /// What the scripted backend says to a reverse request.
    fn reverse(&self, request: &ReverseRequest) -> Vec<u8> {
        match request {
            ReverseRequest::List => status_reply(Ok("(reverse) tcp:5201 tcp:5201\n".to_string())),
            ReverseRequest::KillAll => done_reply(Ok(())),
            _ => done_reply(Err(unsupported_reason(OptionalCall::Reverse))),
        }
    }

    fn wait(&self, wait: Wait) -> Vec<u8> {
        let step = match &wait {
            Wait::Refused(reply) => return reply.clone(),
            Wait::Device(want) => device_wait_step(*want, &self.devices, 0),
            Wait::Disconnect { want, pinned } => {
                let alive = match pinned {
                    Some(s) => self.devices.iter().any(|d| d.serial == *s),
                    None => self.devices.iter().any(|d| kind_matches(*want, d.kind)),
                };
                disconnect_wait_step(*want, pinned, &self.devices, &WaitEvent::Alive(alive))
            }
        };
        match step {
            WaitStep::Done(reply) => reply,
            WaitStep::Continue => panic!("the wait goes on"),
        }
    }

    /// Carries out steps until there is a reply; the device that was selected, and the
    /// bytes that the client gets.
    fn client(&mut self, selected: Option<&str>, request: &str) -> (Option<String>, Vec<u8>) {
        let framed = encode_framed(request).unwrap();
        let prefix = [framed[0], framed[1], framed[2], framed[3]];
        let len = request_length(&prefix).unwrap();
        assert_eq!(len, framed.len() - 4);
        let text = request_text(framed[4..].to_vec()).unwrap();
        let mut step = self
            .frontend
            .handle_client(selected, Some(text.as_str()), None, Learned::NotAsked)
            .unwrap();
        if step == Step::NeedDevices {
            step = self
                .frontend
                .handle_client(selected, Some(text.as_str()), Some(&self.devices), Learned::NotAsked)
                .unwrap();
        }
        if step == Step::NeedCapabilities {
            let learned = Learned::Answer(self.features(selected.unwrap()));
            step = self
                .frontend
                .handle_client(selected, Some(text.as_str()), None, learned)
                .unwrap();
        }
        match step {
            Step::Reply(r) | Step::Shutdown(r) => (None, r),
            Step::Track { reply, .. } => (None, reply),
            Step::Select { serial, reply } => (Some(serial), reply),
            Step::Wait(w) => (None, self.wait(w)),
            Step::Connect(addr) => (None, status_reply(self.connect(&addr))),
            Step::Disconnect(addr) => (None, status_reply(self.disconnect(&addr))),
            Step::DeviceFeatures(serial) => {
                (None, self.frontend.device_features_reply(self.features(&serial).as_ref()))
            }
            Step::Bind { serial, request } => {
                let port = if request.local_is_zero {
                    self.next_port += 1;
                    self.next_port
                } else {
                    request.local.tcp_port()
                };
                let task = u64::from(port);
                let (_, reply) = self.frontend.finish_forward_add(&serial, &request, port, task);
                (None, reply)
            }
            Step::Stop { reply, .. } => (None, reply),
            Step::Reverse(r) => (None, self.reverse(&r)),
            Step::Reject(reason) => (None, reject_reply(&reason, &None)),
            Step::Open(_) => (None, open_failed_reply("no device")),
            Step::NeedDevices | Step::NeedCapabilities => panic!("asked twice"),
        }
    }

    fn round_trip(&mut self, request: &str) -> Vec<u8> {
        self.client(None, request).1
    }

    fn body(&mut self, request: &str) -> String {
        String::from_utf8(self.round_trip(request)).unwrap()
    }

    fn post_transport(&mut self, serial: &str, post: &str) -> Vec<u8> {
        let (selected, okay) = self.client(None, &format!("host:transport:{serial}"));
        assert_eq!(okay, b"OKAY");
        self.client(selected.as_deref(), post).1
    }
}

fn usb_dev(serial: &str) -> DeviceEntry {
    DeviceEntry::new(serial).with_kind(TransportKind::Usb)
}

fn local_dev(serial: &str) -> DeviceEntry {
    DeviceEntry::new(serial).with_kind(TransportKind::Local)
}

#[test]
fn host_version_replies_okay_plus_version() {
    assert_eq!(Server::new(vec![]).round_trip("host:version"), b"OKAY00040029");
}

#[test]
fn host_features_is_honest_minimal() {
    let body = Server::new(vec![]).body("host:features");
    assert!(body.starts_with("OKAY"));
    assert!(body.contains("cmd,stat_v2,fixed_push_mkdir,apex"));
    assert!(!body.contains("shell_v2"), "default must not advertise shell_v2");
}

#[test]
fn host_devices_lists_serials_and_state() {
    let body = Server::new(vec![DeviceEntry::new("serialB"), DeviceEntry::new("serialA")])
        .body("host:devices");
    assert!(body.starts_with("OKAY"));
    assert!(body.contains("serialB\tdevice"));
    assert!(body.contains("serialA\tdevice"));
}

#[test]
fn host_devices_l_includes_transport_id_in_sorted_order() {
    let body = Server::new(vec![DeviceEntry::new("zzz"), DeviceEntry::new("aaa")])
        .body("host:devices-l");
    assert!(body.contains("aaa\tdevice"));
    assert!(body.contains("transport_id:1"));
    assert!(body.contains("transport_id:2"));
    assert!(body.contains("zzz\tdevice transport_id:2"));
    assert!(body.contains("aaa\tdevice transport_id:1"));
}

#[test]
fn transport_any_with_no_devices_fails() {
    let body = Server::new(vec![]).body("host:transport-any");
    assert!(body.starts_with("FAIL"));
    assert!(body.contains("no devices/emulators found"), "got: {body}");
}

#[test]
fn transport_by_unknown_serial_fails() {
    let body = Server::new(vec![DeviceEntry::new("known")]).body("host:transport:nope");
    assert!(body.starts_with("FAIL"));
    assert!(body.contains("device not found"));
}

#[test]
fn tport_any_with_single_device_replies_okay_plus_8byte_id() {
    let (selected, resp) =
        Server::new(vec![DeviceEntry::new("solo")]).client(None, "host:tport:any");
    assert_eq!(selected.as_deref(), Some("solo"));
    assert_eq!(resp.len(), 12);
    assert_eq!(&resp[..4], b"OKAY");
    assert_eq!(&resp[4..], &1u64.to_le_bytes(), "single device -> id 1");
}

#[test]
fn tport_any_with_multiple_devices_fails_more_than_one() {
    let body = Server::new(vec![DeviceEntry::new("devA"), DeviceEntry::new("devB")])
        .body("host:tport:any");
    assert!(body.starts_with("FAIL"), "got: {body}");
    assert!(body.contains("more than one device/emulator"), "got: {body}");
}

#[test]
fn tport_any_with_no_devices_fails_no_devices() {
    let body = Server::new(vec![]).body("host:tport:any");
    assert!(body.starts_with("FAIL"), "got: {body}");
    assert!(body.contains("no devices/emulators found"), "got: {body}");
}

#[test]
fn tport_by_unknown_serial_fails_device_not_found() {
    let body = Server::new(vec![DeviceEntry::new("known")]).body("host:tport:serial:nope");
    assert!(body.starts_with("FAIL"), "got: {body}");
    assert!(body.contains("device not found"), "got: {body}");
}

#[test]
fn tport_by_unknown_id_fails_no_device_for_transport_id() {
    let body = Server::new(vec![DeviceEntry::new("solo")]).body("host:tport:id:9");
    assert!(body.starts_with("FAIL"), "got: {body}");
    assert!(body.contains("no device for transport id"), "got: {body}");
}

#[test]
fn tport_by_invalid_id_fails_invalid_transport_id() {
    let body = Server::new(vec![DeviceEntry::new("solo")]).body("host:tport:id:notanumber");
    assert!(body.starts_with("FAIL"), "got: {body}");
    assert!(body.contains("invalid transport id"), "got: {body}");
}

#[test]
fn transport_usb_selects_the_single_usb_device() {
    let resp = Server::new(vec![usb_dev("usb1")]).client(None, "host:transport-usb");
    assert_eq!(resp, (Some("usb1".to_string()), b"OKAY".to_vec()));
}

#[test]
fn transport_local_selects_the_single_local_device() {
    let resp = Server::new(vec![local_dev("10.0.0.5:5555")]).client(None, "host:transport-local");
    assert_eq!(resp, (Some("10.0.0.5:5555".to_string()), b"OKAY".to_vec()));
}

#[test]
fn transport_usb_in_mixed_topology_picks_usb_not_tcp() {
    let mut f = Server::new(vec![usb_dev("usb1"), local_dev("10.0.0.5:5555")]);
    let (selected, resp) = f.client(None, "host:transport-usb");
    assert_eq!(resp, b"OKAY", "transport-usb selects the USB device");
    assert_eq!(selected.as_deref(), Some("usb1"));
    let (selected, resp) = f.client(None, "host:transport-local");
    assert_eq!(resp, b"OKAY", "transport-local selects the TCP device");
    assert_eq!(selected.as_deref(), Some("10.0.0.5:5555"));
}

#[test]
fn transport_usb_with_two_usb_devices_fails_more_than_one_usb_device() {
    let body = Server::new(vec![usb_dev("usb1"), usb_dev("usb2")]).body("host:transport-usb");
    assert!(body.starts_with("FAIL"), "got: {body}");
    assert!(body.contains("more than one USB device"), "got: {body}");
}

#[test]
fn transport_local_with_two_local_devices_fails_more_than_one_emulator() {
    let body = Server::new(vec![local_dev("10.0.0.5:5555"), local_dev("10.0.0.6:5555")])
        .body("host:transport-local");
    assert!(body.starts_with("FAIL"), "got: {body}");
    assert!(body.contains("more than one emulator"), "got: {body}");
}

#[test]
fn transport_usb_with_only_a_tcp_device_fails_no_devices_found() {
    let body = Server::new(vec![local_dev("10.0.0.5:5555")]).body("host:transport-usb");
    assert!(body.starts_with("FAIL"), "got: {body}");
    assert!(body.contains("no devices found"), "got: {body}");
}

#[test]
fn transport_local_with_only_a_usb_device_fails_no_emulators_found() {
    let body = Server::new(vec![usb_dev("usb1")]).body("host:transport-local");
    assert!(body.starts_with("FAIL"), "got: {body}");
    assert!(body.contains("no emulators found"), "got: {body}");
}

#[test]
fn host_usb_features_resolves_and_answers_features() {
    let body = Server::new(vec![usb_dev("usb1")]).body("host-usb:features");
    assert!(body.starts_with("OKAY"), "got: {body}");
    assert!(body.contains("cmd,stat_v2,fixed_push_mkdir,apex"), "got: {body}");
}

#[test]
fn host_local_get_state_resolves_local_device() {
    let resp = Server::new(vec![local_dev("10.0.0.5:5555")]).round_trip("host-local:get-state");
    assert_eq!(resp, b"OKAY0006device", "got: {:?}", String::from_utf8_lossy(&resp));
}

#[test]
fn host_usb_features_with_no_usb_device_fails_no_devices_found() {
    let body = Server::new(vec![local_dev("10.0.0.5:5555")]).body("host-usb:features");
    assert!(body.starts_with("FAIL"), "got: {body}");
    assert!(body.contains("no devices found"), "got: {body}");
}

#[test]
fn transport_usb_untagged_backend_degrades_to_transport_any() {
    let resp = Server::new(vec![DeviceEntry::new("solo")]).round_trip("host:transport-usb");
    assert_eq!(resp, b"OKAY");
}

#[test]
fn transport_usb_untagged_multi_device_is_ambiguous_with_usb_wording() {
    let body = Server::new(vec![DeviceEntry::new("a"), DeviceEntry::new("b")])
        .body("host:transport-usb");
    assert!(body.starts_with("FAIL"), "got: {body}");
    assert!(body.contains("more than one USB device"), "got: {body}");
}

#[test]
fn tport_usb_selects_single_usb_device_okay_plus_id() {
    let resp = Server::new(vec![usb_dev("usb1")]).round_trip("host:tport:usb");
    assert_eq!(&resp[..4], b"OKAY");
    assert_eq!(&resp[4..], &1u64.to_le_bytes(), "single device -> id 1");
}

#[test]
fn tport_local_selects_single_local_device_okay_plus_id() {
    let resp = Server::new(vec![local_dev("10.0.0.5:5555")]).round_trip("host:tport:local");
    assert_eq!(&resp[..4], b"OKAY");
    assert_eq!(&resp[4..], &1u64.to_le_bytes(), "single device -> id 1");
}

#[test]
fn tport_usb_in_mixed_topology_picks_usb_local_picks_tcp() {
    let mut f = Server::new(vec![usb_dev("usb1"), local_dev("10.0.0.5:5555")]);
    let resp = f.round_trip("host:tport:usb");
    assert_eq!(&resp[..4], b"OKAY", "tport:usb selects the USB device");
    assert_eq!(&resp[4..], &2u64.to_le_bytes(), "usb1 -> id 2");
    let resp = f.round_trip("host:tport:local");
    assert_eq!(&resp[..4], b"OKAY", "tport:local selects the TCP device");
    assert_eq!(&resp[4..], &1u64.to_le_bytes(), "10.0.0.5:5555 -> id 1");
}

#[test]
fn tport_usb_with_two_usb_devices_fails_more_than_one_usb_device() {
    let body = Server::new(vec![usb_dev("usb1"), usb_dev("usb2")]).body("host:tport:usb");
    assert!(body.starts_with("FAIL"), "got: {body}");
    assert!(body.contains("more than one USB device"), "got: {body}");
}

#[test]
fn tport_usb_with_only_a_tcp_device_fails_no_devices_found() {
    let body = Server::new(vec![local_dev("10.0.0.5:5555")]).body("host:tport:usb");
    assert!(body.starts_with("FAIL"), "got: {body}");
    assert!(body.contains("no devices found"), "got: {body}");
}

#[test]
fn tport_local_with_only_a_usb_device_fails_no_emulators_found() {
    let body = Server::new(vec![usb_dev("usb1")]).body("host:tport:local");
    assert!(body.starts_with("FAIL"), "got: {body}");
    assert!(body.contains("no emulators found"), "got: {body}");
}

#[test]
fn tport_usb_untagged_single_device_replies_okay_plus_id() {
    let resp = Server::new(vec![DeviceEntry::new("solo")]).round_trip("host:tport:usb");
    assert_eq!(&resp[..4], b"OKAY");
    assert_eq!(&resp[4..], &1u64.to_le_bytes(), "single device -> id 1");
}

#[test]
fn host_features_after_transport_select_is_answered_not_rejected() {
    let rest =
        Server::new(vec![DeviceEntry::new("solo")]).post_transport("solo", "host:features");
    let body = String::from_utf8(rest).unwrap();
    assert!(
        body.starts_with("OKAY"),
        "post-transport host:features must be answered, got: {body}"
    );
    assert!(body.contains("cmd"), "features must list the server's caps: {body}");
}

#[test]
fn host_serial_get_state_reports_device_or_offline() {
    let mut f = Server::new(vec![DeviceEntry::new("dev1")]);
    assert_eq!(f.round_trip("host-serial:dev1:get-state"), b"OKAY0006device");
    assert_eq!(f.round_trip("host-serial:ghost:get-state"), b"OKAY0007offline");
}

#[test]
fn split_host_serial_handles_tcp_ip_serial_with_colon() {
    let serial = "172.20.1.45:5555";
    for sub in [
        "features",
        "get-state",
        "get-serialno",
        "transport",
        "tport",
        "list-forward",
        "killforward-all",
        "forward:tcp:0;tcp:7777",
        "killforward:tcp:7777",
    ] {
        let rest = format!("{serial}:{sub}");
        assert_eq!(
            split_host_serial(&rest),
            Some((serial, sub)),
            "tcp/ip serial+sub must split on the known-sub anchor: {rest}"
        );
    }
}

#[test]
fn split_host_serial_handles_usb_serial_without_colon() {
    for sub in ["get-state", "features", "forward:tcp:0;tcp:7777"] {
        let rest = format!("dev1:{sub}");
        assert_eq!(
            split_host_serial(&rest),
            Some(("dev1", sub)),
            "usb serial must not regress: {rest}"
        );
    }
}

#[test]
fn split_host_serial_unknown_sub_falls_back_to_first_colon() {
    assert_eq!(
        split_host_serial("dev1:bogus"),
        Some(("dev1", "bogus")),
        "unknown sub falls back to first-colon split"
    );
    assert_eq!(split_host_serial("dev1"), None);
}

#[test]
fn parse_transport_kind_maps_tokens() {
    assert_eq!(parse_transport_kind("usb"), Some(TransportKind::Usb));
    assert_eq!(parse_transport_kind("local"), Some(TransportKind::Local));
    assert_eq!(parse_transport_kind("any"), None);
    assert_eq!(parse_transport_kind(""), None);
}

#[test]
fn kind_matches_treats_none_as_wildcard_on_both_sides() {
    let usb = TransportKind::Usb;
    let local = TransportKind::Local;
    assert!(kind_matches(None, Some(usb)));
    assert!(kind_matches(None, Some(local)));
    assert!(kind_matches(None, None));
    assert!(kind_matches(Some(usb), None));
    assert!(kind_matches(Some(local), None));
    assert!(kind_matches(Some(usb), Some(usb)));
    assert!(!kind_matches(Some(usb), Some(local)));
    assert!(!kind_matches(Some(local), Some(usb)));
}

#[test]
fn error_wording_matches_aosp_per_kind() {
    assert_eq!(no_devices_msg(None), "no devices/emulators found");
    assert_eq!(no_devices_msg(Some(TransportKind::Usb)), "no devices found");
    assert_eq!(no_devices_msg(Some(TransportKind::Local)), "no emulators found");
    assert_eq!(ambiguous_msg(None), "more than one device/emulator");
    assert_eq!(ambiguous_msg(Some(TransportKind::Usb)), "more than one USB device");
    assert_eq!(ambiguous_msg(Some(TransportKind::Local)), "more than one emulator");
}

#[test]
fn host_serial_features_with_tcp_ip_serial_routes_correctly() {
    let body = Server::new(vec![DeviceEntry::new("172.20.1.45:5555")])
        .body("host-serial:172.20.1.45:5555:features");
    assert!(body.starts_with("OKAY"), "got: {body}");
    assert!(
        body.contains("cmd,stat_v2,fixed_push_mkdir,apex"),
        "features payload missing, got: {body}"
    );
}

#[test]
fn host_serial_features_is_per_device() {
    let caps = ServerCapabilities::default().with_shell_v2().with_feature("sync_v2");
    let full = DeviceEntry::new("full:5555").with_capabilities(DeviceFeatureSet {
        shell_v2: true,
        stat_v2: true,
        ..DeviceFeatureSet::default()
    });
    let stripped = DeviceEntry::new("stripped:6665").with_capabilities(DeviceFeatureSet {
        shell_v2: false,
        stat_v2: false,
        ..DeviceFeatureSet::default()
    });
    let mut f = Server::with_caps(caps, vec![full, stripped]);
    let full_body = f.body("host-serial:full:5555:features");
    assert!(
        full_body.contains("shell_v2"),
        "full device must still be offered shell_v2: {full_body}"
    );
    assert!(
        full_body.contains("sync_v2"),
        "full device must still be offered sync_v2: {full_body}"
    );
    let stripped_body = f.body("host-serial:stripped:6665:features");
    assert!(
        !stripped_body.contains("shell_v2"),
        "feature-less device must NOT be offered shell_v2 (the bug): {stripped_body}"
    );
    assert!(
        !stripped_body.contains("sync_v2"),
        "feature-less device must NOT be offered sync_v2: {stripped_body}"
    );
    assert!(
        stripped_body.contains("cmd") && stripped_body.contains("apex"),
        "always-safe defaults must remain for the stripped device: {stripped_body}"
    );
}

#[test]
fn host_serial_get_state_with_tcp_ip_serial_routes_correctly() {
    let resp = Server::new(vec![DeviceEntry::new("172.20.1.45:5555")])
        .round_trip("host-serial:172.20.1.45:5555:get-state");
    assert_eq!(resp, b"OKAY0006device");
}

#[test]
fn host_serial_forward_with_tcp_ip_serial_routes_correctly() {
    let body = Server::new(vec![DeviceEntry::new("172.20.1.45:5555")])
        .body("host-serial:172.20.1.45:5555:forward:tcp:0;tcp:7777");
    assert!(body.starts_with("OKAY"), "got: {body}");
}

#[test]
fn host_kill_default_policy_rejects() {
    let body = Server::new(vec![]).body("host:kill");
    assert!(body.starts_with("FAIL"));
    assert!(body.contains("kill not permitted"));
}

#[test]
fn unknown_service_fails() {
    let body = Server::new(vec![]).body("host:bogus");
    assert!(body.starts_with("FAIL"));
}

#[test]
fn host_connect_success_replies_okay_plus_status() {
    let body = Server::new(vec![]).body("host:connect:10.0.0.1:5555");
    assert!(body.starts_with("OKAY"), "got: {body}");
    assert!(body.contains("connected to 10.0.0.1:5555"), "got: {body}");
}

#[test]
fn host_connect_failure_replies_fail() {
    let body = Server::new(vec![]).body("host:connect:1.2.3.4:5555");
    assert!(body.starts_with("FAIL"), "got: {body}");
    assert!(body.contains("failed to connect"), "got: {body}");
}

#[test]
fn host_disconnect_known_device_replies_okay_plus_status() {
    let body = Server::new(vec![]).body("host:disconnect:10.0.0.1:5555");
    assert!(body.starts_with("OKAY"), "got: {body}");
    assert!(body.contains("disconnected 10.0.0.1:5555"), "got: {body}");
}

#[test]
fn host_disconnect_all_empty_addr_replies_okay() {
    let body = Server::new(vec![]).body("host:disconnect:");
    assert!(body.starts_with("OKAY"), "got: {body}");
    assert!(body.contains("disconnected everything"), "got: {body}");
}

#[test]
fn host_disconnect_unknown_device_fails() {
    let body = Server::new(vec![]).body("host:disconnect:9.9.9.9:5555");
    assert!(body.starts_with("FAIL"), "got: {body}");
    assert!(body.contains("no such device"), "got: {body}");
}

#[test]
fn host_reconnect_offline_replies_okay() {
    assert_eq!(Server::new(vec![]).round_trip("host:reconnect-offline"), b"OKAY");
}

#[test]
fn host_wait_for_device_returns_okay_when_present() {
    let resp = Server::new(vec![DeviceEntry::new("solo")]).round_trip("host:wait-for-any-device");
    assert_eq!(resp, b"OKAYOKAY");
}

#[test]
fn host_wait_for_usb_device_token_is_accepted() {
    let resp = Server::new(vec![DeviceEntry::new("solo")]).round_trip("host:wait-for-usb-device");
    assert_eq!(resp, b"OKAYOKAY");
}

#[test]
fn host_wait_for_local_device_with_only_usb_times_out_quickly() {
    assert!(!kind_matches(Some(TransportKind::Local), Some(TransportKind::Usb)));
    let devices = vec![usb_dev("usb1")];
    let want = Some(TransportKind::Local);
    assert_eq!(device_wait_step(want, &devices, MAX_WAIT_MS - 1), WaitStep::Continue);
    match device_wait_step(want, &devices, MAX_WAIT_MS) {
        WaitStep::Done(r) => assert_eq!(r, b"FAIL0012wait-for timed out"),
        WaitStep::Continue => panic!("the wait must end"),
    }
}

#[test]
fn host_wait_for_non_device_state_fails_fast() {
    let body = Server::new(vec![DeviceEntry::new("solo")]).body("host:wait-for-usb-recovery");
    assert!(body.starts_with("FAIL"), "got: {body}");
    assert!(body.contains("not supported"), "got: {body}");
}

#[test]
fn host_wait_for_bare_state_form_is_accepted() {
    let resp = Server::new(vec![DeviceEntry::new("solo")]).round_trip("host:wait-for-device");
    assert_eq!(resp, b"OKAYOKAY");
}

#[test]
fn host_wait_for_unknown_state_fails() {
    let body = Server::new(vec![DeviceEntry::new("solo")]).body("host:wait-for-any-bogus");
    assert!(body.starts_with("FAIL"), "got: {body}");
    assert!(body.contains("not supported"), "got: {body}");
}

#[test]
fn host_transport_id_routes_to_dispatch_host_serial() {
    let resp = Server::new(vec![DeviceEntry::new("aaa"), DeviceEntry::new("zzz")])
        .round_trip("host-transport-id:1:get-state");
    assert_eq!(resp, b"OKAY0006device");
}

#[test]
fn host_transport_id_invalid_id_fails() {
    let body = Server::new(vec![DeviceEntry::new("aaa")]).body("host-transport-id:x:get-state");
    assert!(body.starts_with("FAIL"), "got: {body}");
    assert!(body.contains("invalid transport id"), "got: {body}");
}

#[test]
fn host_transport_id_out_of_range_fails() {
    let body = Server::new(vec![DeviceEntry::new("aaa")]).body("host-transport-id:9:get-state");
    assert!(body.starts_with("FAIL"), "got: {body}");
    assert!(body.contains("no device for transport id"), "got: {body}");
}

#[test]
fn host_wait_for_disconnect_with_no_devices_returns_okay_immediately() {
    assert_eq!(Server::new(vec![]).round_trip("host:wait-for-any-disconnect"), b"OKAYOKAY");
}

#[test]
fn is_host_serial_sub_recognizes_wait_for_family() {
    assert!(is_host_serial_sub("wait-for-any-disconnect"));
    assert!(is_host_serial_sub("wait-for-usb-device"));
    let serial = "172.20.1.45:5555";
    let rest = format!("{serial}:wait-for-any-disconnect");
    assert_eq!(
        split_host_serial(&rest),
        Some((serial, "wait-for-any-disconnect")),
        "tcp/ip serial + wait-for sub must split on the known-sub anchor"
    );
}

#[test]
fn format_devices_short_and_long() {
    let mut d = DeviceEntry::new("s1");
    d.product = Some("prod".to_string());
    d.model = Some("mod".to_string());
    d.device = Some("dev".to_string());
    let devices = vec![d];
    assert_eq!(format_devices(&devices, false), "s1\tdevice");
    assert_eq!(
        format_devices(&devices, true),
        "s1\tdevice product:prod model:mod device:dev transport_id:1"
    );
}

#[test]
fn forward_no_device_fails() {
    let body = Server::new(vec![]).body("host:forward:tcp:0;tcp:5555");
    assert!(body.starts_with("FAIL"), "got: {body}");
    assert!(body.contains("no devices/emulators found"), "got: {body}");
}

/// The port in a reply to a forward request.
fn told_port(resp: &[u8]) -> u16 {
    assert_eq!(&resp[..8], b"OKAYOKAY", "forward success is two bare OKAYs");
    let len = usize::from_str_radix(std::str::from_utf8(&resp[8..12]).unwrap(), 16).unwrap();
    std::str::from_utf8(&resp[12..12 + len]).unwrap().parse().expect("decimal port")
}

#[test]
fn forward_auto_assign_replies_two_okays_plus_port_and_lists() {
    let mut f = Server::new(vec![DeviceEntry::new("solo")]);
    let resolved = told_port(&f.round_trip("host:forward:tcp:0;tcp:5555"));
    assert_ne!(resolved, 0, "tcp:0 must resolve to a real OS-assigned port");
    let listing = f.round_trip("host:list-forward");
    assert_eq!(&listing[..4], b"OKAY");
    let body = String::from_utf8(listing[8..].to_vec()).unwrap();
    assert!(
        body.contains(&format!("solo tcp:{resolved} tcp:5555")),
        "list-forward body must contain the rule, got: {body}"
    );
}

#[test]
fn killforward_unknown_rule_fails() {
    let body = Server::new(vec![DeviceEntry::new("solo")]).body("host:killforward:tcp:9999");
    assert!(body.starts_with("FAIL"), "got: {body}");
    assert!(body.contains("not found"), "got: {body}");
}

#[test]
fn killforward_all_always_okays_twice() {
    let resp = Server::new(vec![DeviceEntry::new("solo")]).round_trip("host:killforward-all");
    assert_eq!(resp, b"OKAYOKAY", "killforward-all success is two OKAYs");
}

#[test]
fn forward_norebind_conflict_fails() {
    let mut f = Server::new(vec![DeviceEntry::new("solo")]);
    let resolved = told_port(&f.round_trip("host:forward:tcp:0;tcp:5555"));
    let body = f.body(&format!("host:forward:norebind:tcp:{resolved};tcp:6000"));
    assert!(body.starts_with("FAIL"), "got: {body}");
    assert!(body.contains("cannot rebind existing socket"), "got: {body}");
}

#[test]
fn forward_via_host_serial_form() {
    let resp = Server::new(vec![DeviceEntry::new("dev1")])
        .round_trip("host-serial:dev1:forward:tcp:0;tcp:7777");
    assert_eq!(&resp[..8], b"OKAYOKAY", "host-serial forward replies two OKAYs");
}

#[test]
fn forward_via_host_serial_unknown_device_fails() {
    let body = Server::new(vec![DeviceEntry::new("dev1")])
        .body("host-serial:ghost:forward:tcp:0;tcp:7777");
    assert!(body.starts_with("FAIL"), "got: {body}");
    assert!(body.contains("device not found"), "got: {body}");
}

fn frontend_with_caps(caps: ServerCapabilities) -> AdbServerFrontend {
    AdbServerFrontend::builder().capabilities(caps).build()
}

fn full_device_caps() -> DeviceFeatureSet {
    DeviceFeatureSet { shell_v2: true, stat_v2: true, ..DeviceFeatureSet::default() }
}

#[test]
fn map_local_service_shell_v1_and_tcp_always_ok() {
    let f = frontend_with_caps(ServerCapabilities::default());
    let dev = full_device_caps();
    assert!(matches!(
        f.map_local_service("shell:ls", Some(&dev)).unwrap(),
        ADBLocalCommand::ShellCommand(c, args) if c == "ls" && args.is_empty()
    ));
    assert!(matches!(
        f.map_local_service("tcp:5555", Some(&dev)).unwrap(),
        ADBLocalCommand::TcpConnect(5555)
    ));
    assert!(f.map_local_service("tcp:notaport", Some(&dev)).is_err());
}

#[test]
fn map_local_service_sync_gated_on_sync_v2_feature() {
    let dev = full_device_caps();
    let f = frontend_with_caps(ServerCapabilities::default());
    assert!(
        f.map_local_service("sync:", Some(&dev)).is_err(),
        "sync: must FAIL when sync_v2 is not advertised (honest banner)"
    );
    let f = frontend_with_caps(ServerCapabilities::default().with_feature("sync_v2"));
    assert!(matches!(
        f.map_local_service("sync:", Some(&dev)).unwrap(),
        ADBLocalCommand::Raw(s) if s == "sync:"
    ));
}

#[test]
fn map_local_service_shell_v2_gated_on_shell_v2_feature() {
    let dev = full_device_caps();
    let f = frontend_with_caps(ServerCapabilities::default());
    assert!(
        f.map_local_service("shell,v2,raw:ls", Some(&dev)).is_err(),
        "shell,v2 must FAIL when shell_v2 is not advertised"
    );
    let f = frontend_with_caps(ServerCapabilities::default().with_shell_v2());
    assert!(matches!(
        f.map_local_service("shell,v2,TERM=xterm,raw:ls", Some(&dev)).unwrap(),
        ADBLocalCommand::Raw(s) if s == "shell,v2,TERM=xterm,raw:ls"
    ));
}

#[test]
fn map_local_service_shell_v2_denied_for_feature_less_device() {
    let f = frontend_with_caps(ServerCapabilities::default().with_shell_v2());
    let stripped =
        DeviceFeatureSet { shell_v2: false, stat_v2: false, ..DeviceFeatureSet::default() };
    assert!(
        f.map_local_service("shell,v2,raw:ls", Some(&stripped)).is_err(),
        "shell,v2 must FAIL for a device whose banner lacks shell_v2 (would CLSE)"
    );
    assert!(
        f.map_local_service("sync:", Some(&stripped)).is_err(),
        "sync: must FAIL for a device whose banner lacks sync-v2 (stat_v2)"
    );
    assert!(matches!(
        f.map_local_service("shell:ls", Some(&stripped)).unwrap(),
        ADBLocalCommand::ShellCommand(c, _) if c == "ls"
    ));
}

#[test]
fn map_local_service_shell_v2_denied_for_unknown_device_caps() {
    let f = frontend_with_caps(
        ServerCapabilities::default().with_shell_v2().with_feature("sync_v2"),
    );
    assert!(
        f.map_local_service("shell,v2,raw:ls", None).is_err(),
        "unknown device caps must deny shell,v2 (conservative)"
    );
    assert!(f.map_local_service("sync:", None).is_err(), "unknown device caps must deny sync:");
}

#[test]
fn map_local_service_control_services_bridged_verbatim() {
    let f = frontend_with_caps(ServerCapabilities::default());
    for svc in [
        "tcpip:5555",
        "usb:",
        "root:",
        "unroot:",
        "reboot:",
        "reboot:bootloader",
        "remount:",
        "enable-verity:",
        "disable-verity:",
    ] {
        match f.map_local_service(svc, None) {
            Ok(ADBLocalCommand::Raw(s)) => assert_eq!(s, svc, "forwarded verbatim"),
            Ok(_) => panic!("control service {svc} must map to Raw (got another command)"),
            Err(e) => panic!("control service {svc} must be accepted, got FAIL: {e}"),
        }
    }
}

#[test]
fn is_control_service_matches_only_known_control_verbs() {
    for svc in [
        "tcpip:5555",
        "tcpip:0",
        "usb:",
        "root:",
        "unroot:",
        "reboot:",
        "reboot:recovery",
        "remount:",
        "enable-verity:",
        "disable-verity:",
    ] {
        assert!(is_control_service(svc), "{svc} should be a control service");
    }
    for svc in ["shell:ls", "sync:", "tcp:5555", "usbfoo:", "rebooting:", "tcpipx"] {
        assert!(!is_control_service(svc), "{svc} should NOT be a control service");
    }
}

#[test]
fn map_local_service_jdwp_and_localabstract_unsupported() {
    let f = frontend_with_caps(
        ServerCapabilities::default().with_feature("sync_v2").with_shell_v2(),
    );
    assert!(f.map_local_service("jdwp:1234", None).is_err());
    assert!(f.map_local_service("localabstract:foo", None).is_err());
}

#[test]
fn reverse_forward_routes_to_backend_and_okays() {
    let resp = Server::new(vec![DeviceEntry::new("dev1")])
        .post_transport("dev1", "reverse:forward:tcp:5201;tcp:5201");
    let body = String::from_utf8(resp).unwrap();
    assert!(body.starts_with("FAIL"), "got: {body}");
    assert!(body.contains("reverse not supported"), "got: {body}");
}

#[test]
fn reverse_list_forward_frames_backend_body() {
    let resp = Server::new(vec![DeviceEntry::new("dev1")])
        .post_transport("dev1", "reverse:list-forward");
    assert_eq!(&resp[..4], b"OKAY", "list-forward is OKAY + framed body");
    let body = String::from_utf8(resp[8..].to_vec()).unwrap();
    assert!(body.contains("(reverse) tcp:5201 tcp:5201"), "got: {body}");
}

#[test]
fn reverse_killforward_all_okays() {
    let resp = Server::new(vec![DeviceEntry::new("dev1")])
        .post_transport("dev1", "reverse:killforward-all");
    assert_eq!(resp, b"OKAYOKAY", "killforward-all success is two OKAYs");
}

/// The wait that a pinned request for a disconnect leads to.
fn disconnect_wait(serial: &str) -> Option<String> {
    let mut f = Server::new(vec![DeviceEntry::new(serial)]);
    let request = format!("host-serial:{serial}:wait-for-any-disconnect");
    let mut step =
        f.frontend.handle_client(None, Some(request.as_str()), None, Learned::NotAsked).unwrap();
    if step == Step::NeedDevices {
        step = f
            .frontend
            .handle_client(None, Some(request.as_str()), Some(&f.devices), Learned::NotAsked)
            .unwrap();
    }
    match step {
        Step::Wait(Wait::Disconnect { pinned, .. }) => pinned,
        _ => panic!("not a wait for a disconnect"),
    }
}

#[test]
fn wait_for_disconnect_entry_check_dead_returns_two_okays_immediately() {
    let pinned = disconnect_wait("DEADDEV");
    assert_eq!(
        disconnect_wait_step(None, &pinned, &vec![], &WaitEvent::Alive(false)),
        WaitStep::Done(b"OKAYOKAY".to_vec()),
        "a transport already dead on entry returns two OKAYs at once"
    );
}

#[test]
fn wait_for_disconnect_unblocks_on_transport_reset_event() {
    let pinned = disconnect_wait("LIVEDEV");
    assert_eq!(disconnect_wait_step(None, &pinned, &vec![], &WaitEvent::Alive(true)), WaitStep::Continue);
    let other = WaitEvent::Lifecycle(LifecycleEvent::TransportReset("OTHER".to_string()));
    assert_eq!(disconnect_wait_step(None, &pinned, &vec![], &other), WaitStep::Continue);
    let reset = WaitEvent::Lifecycle(LifecycleEvent::TransportReset("LIVEDEV".to_string()));
    assert_eq!(
        disconnect_wait_step(None, &pinned, &vec![], &reset),
        WaitStep::Done(b"OKAYOKAY".to_vec()),
        "a TransportReset for the pinned serial satisfies wait-for-disconnect"
    );
}

#[test]
fn wait_for_disconnect_unblocks_on_disconnected_event() {
    let pinned = disconnect_wait("UNPLUG");
    assert_eq!(disconnect_wait_step(None, &pinned, &vec![], &WaitEvent::Alive(true)), WaitStep::Continue);
    let gone = WaitEvent::Lifecycle(LifecycleEvent::Disconnected("UNPLUG".to_string()));
    assert_eq!(disconnect_wait_step(None, &pinned, &vec![], &gone), WaitStep::Done(b"OKAYOKAY".to_vec()));
}

#[test]
fn wait_for_disconnect_fallback_fires_at_10s_with_two_okays() {
    assert_eq!(DISCONNECT_FALLBACK_MS, 10_000);
    let pinned = disconnect_wait("STUCK");
    assert_eq!(disconnect_wait_step(None, &pinned, &vec![], &WaitEvent::Alive(true)), WaitStep::Continue);
    assert_eq!(
        disconnect_wait_step(None, &pinned, &vec![], &WaitEvent::Deadline),
        WaitStep::Done(b"OKAYOKAY".to_vec()),
        "the bounded fallback returns two OKAYs (assume disconnected), not a FAIL"
    );
    assert_eq!(
        disconnect_wait_step(None, &pinned, &vec![], &WaitEvent::StreamClosed),
        WaitStep::Done(b"OKAYOKAY".to_vec())
    );
}

#[test]
fn a_wait_for_a_kind_ignores_the_other_kind() {
    let devices = vec![usb_dev("u"), local_dev("1.2.3.4:5555"), DeviceEntry::new("x")];
    let done = WaitStep::Done(b"OKAYOKAY".to_vec());
    let wait = |want, serial: &str| {
        let event = WaitEvent::Lifecycle(LifecycleEvent::TransportReset(serial.to_string()));
        disconnect_wait_step(want, &None, &devices, &event)
    };
    let usb = Some(TransportKind::Usb);
    assert_eq!(wait(usb, "u"), done);
    assert_eq!(wait(usb, "1.2.3.4:5555"), WaitStep::Continue);
    assert_eq!(wait(usb, "x"), done, "a device of unknown kind is of every kind");
    assert_eq!(wait(usb, "new"), done);
    assert_eq!(wait(Some(TransportKind::Local), "u"), WaitStep::Continue);
    assert_eq!(wait(None, "1.2.3.4:5555"), done);
}

#[test]
fn host_devices_lists_registered_devices() {
    let body = Server::new(vec![usb_dev("SIMUSB1")]).body("host:devices");
    assert!(
        body.contains("SIMUSB1") && body.contains("device"),
        "host:devices must list the registered serial in the `device` state; got {body:?}"
    );
}

#[test]
fn transport_usb_selects_usb_kind_device() {
    let (selected, resp) = Server::new(vec![usb_dev("USBDEV"), local_dev("LOCALDEV")])
        .client(None, "host:transport-usb");
    assert_eq!(
        resp, b"OKAY",
        "host:transport-usb must uniquely select the USB-kind device (adb -d) and OKAY"
    );
    assert_eq!(selected.as_deref(), Some("USBDEV"));
}

#[test]
fn transport_local_selects_local_kind_device() {
    let (selected, resp) = Server::new(vec![usb_dev("USBDEV"), local_dev("LOCALDEV")])
        .client(None, "host:transport-local");
    assert_eq!(
        resp, b"OKAY",
        "host:transport-local must uniquely select the Local-kind device (adb -e) and OKAY"
    );
    assert_eq!(selected.as_deref(), Some("LOCALDEV"));
}

#[test]
fn host_features_are_per_device_honest() {
    let caps = ServerCapabilities::default().with_shell_v2();
    let full = usb_dev("FULLDEV").with_capabilities(full_device_caps());
    let bare = usb_dev("BAREDEV").with_capabilities(DeviceFeatureSet {
        shell_v2: false,
        stat_v2: false,
        delayed_ack: false,
    });
    let mut f = Server::with_caps(caps, vec![full, bare]);
    let full_body = f.body("host-serial:FULLDEV:features");
    assert!(
        full_body.contains("shell_v2"),
        "an Android-16 device must be offered shell_v2; got {full_body:?}"
    );
    let bare_body = f.body("host-serial:BAREDEV:features");
    assert!(
        !bare_body.contains("shell_v2"),
        "a feature-less device must NOT be offered shell_v2; got {bare_body:?}"
    );
    let told = String::from_utf8(f.post_transport("FULLDEV", "host:features")).unwrap();
    assert!(told.contains("shell_v2"), "got: {told}");
    let told = String::from_utf8(f.post_transport("BAREDEV", "host:features")).unwrap();
    assert!(!told.contains("shell_v2"), "got: {told}");
}

#[test]
fn a_client_that_hangs_up_gets_no_answer() {
    let mut f = AdbServerFrontend::builder().build();
    assert_eq!(f.handle_client(None, None, None, Learned::NotAsked), None);
    assert_eq!(f.handle_client(Some("dev"), None, None, Learned::NotAsked), None);
}

#[test]
fn a_server_advertises_what_its_backend_can_bridge() {
    let mut f = AdbServerFrontend::builder().build();
    f.negotiate(BackendCapabilities { sync: true, shell_v2: false, reverse: true });
    assert_eq!(f.capabilities().features_csv(), "cmd,stat_v2,fixed_push_mkdir,apex,sync_v2");
    assert_eq!(f.on_disconnect(), OnDisconnect::ReleaseAll);
}

#[test]
fn the_version_is_told_after_a_choice_too() {
    let resp = Server::new(vec![DeviceEntry::new("d")]).post_transport("d", "host:version");
    assert_eq!(resp, b"OKAY00040029");
}

#[test]
fn rules_are_served_after_a_choice_too() {
    let mut f = Server::new(vec![DeviceEntry::new("d"), DeviceEntry::new("e")]);
    let port = told_port(&f.post_transport("d", "host:forward:tcp:0;tcp:5555"));
    let listing = String::from_utf8(f.post_transport("e", "host:list-forward")).unwrap();
    assert!(listing.contains(&format!("d tcp:{port} tcp:5555")), "got: {listing}");
    assert_eq!(f.post_transport("e", "host:killforward-all"), b"OKAYOKAY");
    assert_eq!(f.round_trip("host:list-forward"), b"OKAY0000");
}

#[test]
fn the_kill_policy_decides() {
    let caps = ServerCapabilities::default().with_kill_policy(KillPolicy::Shutdown);
    let mut f = AdbServerFrontend::builder().capabilities(caps).build();
    let step = f.handle_client(None, Some("host:kill"), None, Learned::NotAsked);
    assert!(matches!(step, Some(Step::Shutdown(_))));
}

#[test]
fn a_bare_state_is_that_of_the_only_device() {
    let resp = Server::new(vec![DeviceEntry::new("d")]).round_trip("host:get-state");
    assert_eq!(resp, b"OKAY0006device");
    let body =
        Server::new(vec![DeviceEntry::new("d"), DeviceEntry::new("e")]).body("host:get-state");
    assert!(body.contains("more than one device/emulator"), "got: {body}");
}

#[test]
fn streams_of_device_lists_are_long_or_short() {
    let mut f = AdbServerFrontend::builder().build();
    let step = f.handle_client(None, Some("host:track-devices-l"), None, Learned::NotAsked);
    assert_eq!(step, Some(Step::Track { long: true, reply: b"OKAY".to_vec() }));
    let step = f.handle_client(None, Some("host:track-devices"), None, Learned::NotAsked);
    assert_eq!(step, Some(Step::Track { long: false, reply: b"OKAY".to_vec() }));
}

#[test]
fn a_streamed_list_is_the_replied_one() {
    let mut f = Server::new(vec![usb_dev("b"), local_dev("a:1")]);
    let replied = f.round_trip("host:devices-l");
    assert_eq!(track_frame(&f.devices, true).unwrap(), replied[4..].to_vec());
    let replied = f.round_trip("host:devices");
    assert_eq!(track_frame(&f.devices, false).unwrap(), replied[4..].to_vec());
}

#[test]
fn replies_that_are_too_long_fail() {
    let long = "x".repeat(0x10000);
    assert_eq!(reply_or_overflow(None), b"FAIL000freply too large");
    assert_eq!(status_reply(Ok(long)), b"FAIL000freply too large");
    let edge = "y".repeat(0xffff);
    assert_eq!(status_reply(Ok(edge)).len(), 8 + 0xffff);
}

#[test]
fn failures_of_the_backend_are_told() {
    assert_eq!(bind_failed_reply("in use"), b"FAIL001ccannot bind listener: in use");
    assert_eq!(open_failed_reply("gone"), b"FAIL0019open session failed: gone");
    assert_eq!(reject_reply("no", &Some("because".to_string())), b"FAIL0007because");
    assert_eq!(reject_reply("no", &None), b"FAIL0002no");
}

#[test]
fn a_server_listens_on_the_loopback_unless_told_otherwise() {
    let f = AdbServerFrontend::builder().build();
    assert_eq!(f.addr(), SocketAddress::V4 { ip: [127, 0, 0, 1], port: 5037 });
    let addr = SocketAddress::V6 { ip: [0; 16], port: 6000, flowinfo: 1, scope_id: 2 };
    let f = AdbServerFrontend::builder().addr(addr).capabilities(ServerCapabilities::default());
    assert_eq!(f.build().addr(), addr);
}
