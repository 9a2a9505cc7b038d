use adboost::selftest::judge::mismatch;
use adboost::selftest::parity::{
    adb_args, case_official_adb_ambiguous_shell, case_official_adb_connect_routing,
    case_official_adb_get_state, case_official_adb_shell,
    case_official_adb_shell_through_tcp_device, case_track_devices_family, lists_differ,
    official_adb_ambiguous_shell_request, official_adb_shell_request, reply_text,
    snapshot_has_serial, stream_accepted, tcp_device_shell_request, track_request, AdbRequest,
    AdbRun, TrackEvent, TrackState, TrackStep,
};
use adboost::selftest::report::Outcome;

fn s(t: &str) -> String {
    t.to_string()
}

fn exited(success: bool, stdout: &str, stderr: &str) -> AdbRun {
    let run = AdbRun::exited(
        success,
        s("exit status: 1"),
        &stdout.as_bytes().to_vec(),
        &stderr.as_bytes().to_vec(),
    );
    let expected = AdbRun::Exited {
        success,
        status: s("exit status: 1"),
        stdout: s(stdout),
        stderr: s(stderr),
    };
    assert_eq!(run, expected);
    run
}

fn failed(reason: &str) -> Outcome {
    Outcome::Failed(s(reason))
}

#[test]
fn arguments_of_the_client() {
    assert_eq!(adb_args(1, &AdbRequest::Version), ["version"]);
    assert_eq!(
        adb_args(5037, &AdbRequest::ShellEcho { serial: Some(s("d")), text: s("m") }),
        ["-P", "5037", "-s", "d", "shell", "echo", "m"]
    );
    assert_eq!(
        adb_args(5037, &AdbRequest::ShellEcho { serial: None, text: s("m") }),
        ["-P", "5037", "shell", "echo", "m"]
    );
    assert_eq!(adb_args(1, &AdbRequest::GetState), ["-P", "1", "get-state"]);
    assert_eq!(adb_args(1, &AdbRequest::Connect(s("h:1"))), ["-P", "1", "connect", "h:1"]);
    assert_eq!(
        adb_args(1, &AdbRequest::Disconnect(s("h:1"))),
        ["-P", "1", "disconnect", "h:1"]
    );
    assert_eq!(
        adb_args(1, &AdbRequest::Forward { serial: s("d"), remote: s("tcp:5555") }),
        ["-P", "1", "-s", "d", "forward", "tcp:0", "tcp:5555"]
    );
    assert_eq!(adb_args(1, &AdbRequest::ForwardList), ["-P", "1", "forward", "--list"]);
}

#[test]
fn an_echo_with_the_client() {
    assert_eq!(
        case_official_adb_shell(&exited(true, "adboost_parity_marker_d31f\n", "")),
        Outcome::Passed
    );
    assert_eq!(
        case_official_adb_shell(&exited(true, "x\n", "")),
        failed(
            "official adb shell echo returned \"x\", expected \"adboost_parity_marker_d31f\""
        )
    );
    assert_eq!(
        case_official_adb_shell(&exited(false, "", "bad\n")),
        failed("official adb against adboost server exited exit status: 1: bad")
    );
    assert_eq!(
        case_official_adb_shell(&AdbRun::NotInvoked(s("e"))),
        failed("could not invoke adb: e")
    );
}

#[test]
fn a_shell_on_one_of_several() {
    assert!(matches!(
        case_official_adb_ambiguous_shell(&exited(true, "", "")),
        Outcome::Failed(_)
    ));
    assert_eq!(
        case_official_adb_ambiguous_shell(&exited(
            false,
            "",
            "error: more than one device/emulator"
        )),
        Outcome::Passed
    );
    match case_official_adb_ambiguous_shell(&exited(false, "", "device not found\n")) {
        Outcome::Failed(r) => assert!(r.starts_with("REGRESSION") && r.ends_with("not found")),
        other => panic!("unexpected outcome {other:?}"),
    }
    match case_official_adb_ambiguous_shell(&exited(false, "", "other")) {
        Outcome::Failed(r) => assert!(r.contains("unexpected wording") && r.ends_with(": other")),
        other => panic!("unexpected outcome {other:?}"),
    }
}

#[test]
fn requests_of_the_client_are_known() {
    for words in ["connected to x", "failed to connect", "cannot connect", "could not resolve"] {
        assert_eq!(
            case_official_adb_connect_routing(&exited(true, words, "")),
            Outcome::Passed
        );
        assert_eq!(
            case_official_adb_connect_routing(&exited(false, "", words)),
            Outcome::Passed
        );
    }
    match case_official_adb_connect_routing(&exited(false, "", "unknown host service ")) {
        Outcome::Failed(r) => assert!(r.starts_with("REGRESSION"), "got: {r}"),
        other => panic!("unexpected outcome {other:?}"),
    }
    assert_eq!(
        case_official_adb_connect_routing(&exited(false, " x", "y ")),
        failed("`adb connect` produced unexpected output (no connect-machinery wording): xy")
    );
    assert_eq!(case_official_adb_get_state(&exited(false, "", "anything")), Outcome::Passed);
    assert!(matches!(
        case_official_adb_get_state(&exited(false, "unknown host service", "")),
        Outcome::Failed(_)
    ));
}

#[test]
fn a_shell_on_a_device_over_tcp() {
    let case = case_official_adb_shell_through_tcp_device;
    assert_eq!(
        case(&exited(true, "adboost_tcpip_through_server_marker\n", "")),
        Outcome::Passed
    );
    assert_eq!(
        case(&exited(true, "x", "")),
        failed(
            "shell through TCP/IP device returned \"x\", expected \
             \"adboost_tcpip_through_server_marker\""
        )
    );
    match case(&exited(false, "", "not yet supported")) {
        Outcome::Failed(r) => assert!(r.starts_with("REGRESSION"), "got: {r}"),
        other => panic!("unexpected outcome {other:?}"),
    }
    assert_eq!(
        case(&exited(false, "a ", "b ")),
        failed("shell through TCP/IP device exited exit status: 1: a b")
    );
}

#[test]
fn a_serial_is_not_mistaken_for_another() {
    assert!(snapshot_has_serial("abc\tdevice\nab\tdevice\n", "ab"));
    assert!(!snapshot_has_serial("abc\tdevice\n", "ab"));
    assert!(!snapshot_has_serial("xab\tdevice\n", "ab"));
    assert!(!snapshot_has_serial("", "ab"));
}

#[test]
fn device_streams_agree_with_replies() {
    let long = "d\tdevice transport_id:1";
    let short = "d\tdevice";
    let mut state = TrackState::OpenLong;
    let events = [
        TrackEvent::Opened(Ok(())),
        TrackEvent::Listed(Ok(s(long))),
        TrackEvent::Replied(Ok((s("OKAY"), s(long)))),
        TrackEvent::Opened(Ok(())),
        TrackEvent::Listed(Ok(s(short))),
    ];
    for event in events {
        match case_track_devices_family(state, event, "d") {
            TrackStep::Next(next) => state = next,
            TrackStep::Done(o) => panic!("ended early: {o:?}"),
        }
    }
    assert_eq!(
        case_track_devices_family(state, TrackEvent::Replied(Ok((s("OKAY"), s(short)))), "d"),
        TrackStep::Done(Outcome::Passed)
    );
}

#[test]
fn device_streams_that_differ_fail() {
    let end = |state, event| match case_track_devices_family(state, event, "d") {
        TrackStep::Done(Outcome::Failed(r)) => r,
        other => panic!("unexpected step {other:?}"),
    };
    assert!(end(TrackState::OpenLong, TrackEvent::Opened(Err(s("e")))).starts_with("REGRESSION"));
    assert_eq!(
        end(TrackState::ReadLong, TrackEvent::Listed(Err(s("e")))),
        "track-devices-l first snapshot: e"
    );
    assert_eq!(
        end(TrackState::ReadLong, TrackEvent::Listed(Ok(s("x\ty")))),
        "track-devices-l snapshot lacks a line for d: \"x\\ty\""
    );
    assert_eq!(
        end(TrackState::ReadLong, TrackEvent::Listed(Ok(s("d\tdevice")))),
        "track-devices-l snapshot is not the LONG format (no transport_id): \"d\\tdevice\""
    );
    assert_eq!(
        end(TrackState::AskLong(s("a")), TrackEvent::Replied(Ok((s("FAIL"), s("a"))))),
        "track-devices-l first snapshot must byte-equal host:devices-l (status FAIL): \
         streamed=\"a\" one-shot=\"a\""
    );
    assert_eq!(
        end(TrackState::AskShort(s("a")), TrackEvent::Replied(Ok((s("OKAY"), s("b"))))),
        "track-devices snapshot must byte-equal host:devices (status OKAY): streamed=\"a\" \
         one-shot=\"b\""
    );
    assert_eq!(
        end(TrackState::OpenShort, TrackEvent::Opened(Err(s("e")))),
        "host:track-devices: e"
    );
    assert_eq!(
        end(TrackState::AskShort(s("a")), TrackEvent::Replied(Err(s("e")))),
        "host:devices: e"
    );
    assert_eq!(
        end(TrackState::OpenShort, TrackEvent::Listed(Ok(s("x")))),
        "unexpected event"
    );
}

#[test]
fn reports_are_put_together() {
    assert_eq!(mismatch("a ", "b", "c"), "a b, expected c");
    assert_eq!(lists_differ("h (", "OKAY", "x", "y"), "h (OKAY): streamed=x one-shot=y");
    assert_eq!(stream_accepted("host:track-devices", "OKAY", ""), Ok(()));
    assert_eq!(
        stream_accepted("host:track-devices", "FAIL", "no"),
        Err(s("host:track-devices replied FAIL: no"))
    );
}

#[test]
fn replies_are_read_as_text() {
    assert_eq!(reply_text(&b"OKAY".to_vec()), "OKAY");
    assert_eq!(reply_text(&b"\xff".to_vec()), "\u{fffd}");
}

/// What a device that echoes would print for a request.
fn echoed(request: &AdbRequest) -> AdbRun {
    match request {
        AdbRequest::ShellEcho { text, .. } => exited(true, &format!("{text}\n"), ""),
        other => panic!("no echo: {other:?}"),
    }
}

#[test]
fn an_echo_of_what_was_asked_for_passes() {
    let request = official_adb_shell_request("d");
    assert_eq!(
        adb_args(7, &request),
        ["-P", "7", "-s", "d", "shell", "echo", "adboost_parity_marker_d31f"]
    );
    assert_eq!(case_official_adb_shell(&echoed(&request)), Outcome::Passed);

    let request = tcp_device_shell_request("1.2.3.4:5555");
    assert_eq!(
        adb_args(7, &request),
        ["-P", "7", "-s", "1.2.3.4:5555", "shell", "echo", "adboost_tcpip_through_server_marker"]
    );
    assert_eq!(case_official_adb_shell_through_tcp_device(&echoed(&request)), Outcome::Passed);

    let request = official_adb_ambiguous_shell_request();
    assert_eq!(
        adb_args(7, &request),
        ["-P", "7", "shell", "echo", "adboost_parity_marker_ambiguous"]
    );
    assert!(matches!(
        case_official_adb_ambiguous_shell(&echoed(&request)),
        Outcome::Failed(_)
    ));
}

#[test]
fn each_stream_is_held_against_its_list() {
    let asked = |state: TrackState| track_request(&state);
    assert_eq!(asked(TrackState::OpenLong), Some(s("host:track-devices-l")));
    assert_eq!(asked(TrackState::AskLong(s("x"))), Some(s("host:devices-l")));
    assert_eq!(asked(TrackState::OpenShort), Some(s("host:track-devices")));
    assert_eq!(asked(TrackState::AskShort(s("x"))), Some(s("host:devices")));
    assert_eq!(asked(TrackState::ReadLong), None);
    assert_eq!(asked(TrackState::ReadShort), None);
}
