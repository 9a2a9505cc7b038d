use adboost::cli::commands::ProxyChoice;
use adboost::selftest::judge::{
    case_forward_control_plane, case_list_scratch_dir, case_push_pull_roundtrip,
    case_shell_echo, case_shell_exit_code, case_stat_root, cleanup_command, device_shell,
    echo_command, exit_code_command, forward_ends, has_tool, iperf3_search, iperf3_summary,
    iperf3_unavailable, nc_search, persistent_push_pull, persistent_shell_echo,
    persistent_shell_v2, reverse_echo, reverse_echo_command, reverse_ends, reverse_iperf3,
    reverse_iperf3_command, run_shell, scratch_path, selftest_payload, shell_failed,
    transfer_path, ForwardRun, ReverseRun, ShellV2Run, Transfer, TransferStage,
};
use adboost::selftest::report::{plural, CaseResult, Ending, Outcome, Reporter};
use adboost::selftest::suite::{
    annotate_if_reader_died, direct_suite, list_discovered, plan_run, reader_dead_short_circuit,
    record, report_tcpip_skipped, run, run_one, run_phases, run_result, server_device,
    server_suite, skip_suite, unreachable_reason, DiscoveredDevice, Phase, RunEnd,
    SelftestCommand, ServerCase,
};

/// A scripted device.
#[derive(Default)]
struct FakeDevice {
    shell_stdout: Vec<u8>,
    shell_code: Option<u8>,
    pushed: Vec<u8>,
    fail: Option<&'static str>,
}

impl FakeDevice {
    fn shell(&self, cmd: &str) -> Result<(String, Option<u8>), String> {
        if self.fail == Some("shell") {
            run_shell(cmd, Err("shell boom".to_string()))
        } else {
            run_shell(cmd, Ok((self.shell_stdout.clone(), self.shell_code)))
        }
    }

    fn transfer(&mut self) -> Transfer {
        if self.fail == Some("push") {
            return Transfer::Failed(TransferStage::Push, "push boom".to_string());
        }
        self.pushed = selftest_payload();
        if self.fail == Some("pull") {
            return Transfer::Failed(TransferStage::Pull, "pull boom".to_string());
        }
        Transfer::Pulled(self.pushed.clone())
    }

    fn list(&self) -> Result<(), String> {
        if self.fail == Some("list") {
            Err("list boom".to_string())
        } else {
            Ok(())
        }
    }
}

#[test]
fn shell_echo_passes_on_marker() {
    let d = FakeDevice {
        shell_stdout: b"adboost_selftest_marker_4f2a\n".to_vec(),
        ..Default::default()
    };
    assert_eq!(echo_command(), "echo adboost_selftest_marker_4f2a");
    assert_eq!(case_shell_echo(d.shell(&echo_command()).map(|r| r.0)), Outcome::Passed);
}

#[test]
fn shell_echo_fails_on_wrong_output() {
    let d = FakeDevice { shell_stdout: b"nope\n".to_vec(), ..Default::default() };
    let outcome = case_shell_echo(d.shell(&echo_command()).map(|r| r.0));
    assert!(matches!(outcome, Outcome::Failed(_)));
    assert_eq!(
        outcome,
        Outcome::Failed(
            "echo returned \"nope\\n\", expected \"adboost_selftest_marker_4f2a\"".to_string()
        )
    );
}

#[test]
fn shell_exit_code_skips_when_none() {
    let d = FakeDevice { shell_code: None, ..Default::default() };
    assert!(matches!(
        case_shell_exit_code(d.shell("false").map(|r| r.1)),
        Outcome::Skipped(_)
    ));
}

#[test]
fn shell_exit_code_fails_when_false_returns_zero() {
    let d = FakeDevice { shell_code: Some(0), ..Default::default() };
    assert!(matches!(case_shell_exit_code(d.shell("false").map(|r| r.1)), Outcome::Failed(_)));
}

#[test]
fn shell_exit_code_passes_on_nonzero() {
    let d = FakeDevice { shell_code: Some(1), ..Default::default() };
    assert_eq!(case_shell_exit_code(d.shell("false").map(|r| r.1)), Outcome::Passed);
}

#[test]
fn push_pull_roundtrip_passes_when_bytes_match() {
    let mut d = FakeDevice::default();
    assert_eq!(case_push_pull_roundtrip(d.transfer()), Outcome::Passed);
}

#[test]
fn push_pull_roundtrip_fails_on_push_error() {
    let mut d = FakeDevice { fail: Some("push"), ..Default::default() };
    let outcome = case_push_pull_roundtrip(d.transfer());
    assert!(matches!(outcome, Outcome::Failed(_)));
    assert_eq!(outcome, Outcome::Failed("push failed: push boom".to_string()));
}

#[test]
fn list_and_stat_pass_on_ok() {
    let d = FakeDevice::default();
    assert_eq!(case_list_scratch_dir(d.list()), Outcome::Passed);
    assert_eq!(case_stat_root(d.list()), Outcome::Passed);
}

#[test]
fn list_fails_on_error() {
    let d = FakeDevice { fail: Some("list"), ..Default::default() };
    assert!(matches!(case_list_scratch_dir(d.list()), Outcome::Failed(_)));
    assert_eq!(
        case_list_scratch_dir(d.list()),
        Outcome::Failed("list `/data/local/tmp` failed: list boom".to_string())
    );
    assert_eq!(
        case_stat_root(d.list()),
        Outcome::Failed("stat `/data/local/tmp` failed: list boom".to_string())
    );
}

#[test]
fn a_shell_that_fails_is_reported() {
    let d = FakeDevice { fail: Some("shell"), ..Default::default() };
    assert_eq!(
        case_shell_exit_code(d.shell("false").map(|r| r.1)),
        Outcome::Failed("shell `false` failed: shell boom".to_string())
    );
    assert_eq!(
        persistent_shell_echo(Err("boom".to_string())),
        Outcome::Failed("shell_exec failed: boom".to_string())
    );
}

#[test]
fn transfers_over_a_persistent_connection() {
    let fail = |stage| persistent_push_pull(Transfer::Failed(stage, "x".to_string()));
    assert_eq!(
        fail(TransferStage::OpenPush),
        Outcome::Failed("open_sync_session (push) failed: x".to_string())
    );
    assert_eq!(fail(TransferStage::Push), Outcome::Failed("sync push failed: x".to_string()));
    assert_eq!(
        fail(TransferStage::OpenPull),
        Outcome::Failed("open_sync_session (pull) failed: x".to_string())
    );
    assert_eq!(fail(TransferStage::Pull), Outcome::Failed("sync pull failed: x".to_string()));
    assert_eq!(
        persistent_push_pull(Transfer::Pulled(vec![1, 2])),
        Outcome::Failed("pulled 2 bytes differ from pushed 32".to_string())
    );
    assert_eq!(
        case_push_pull_roundtrip(Transfer::Pulled(vec![])),
        Outcome::Failed("pulled 0 bytes differ from pushed 32 bytes".to_string())
    );
    assert_eq!(selftest_payload(), b"adboost selftest payload \x00\x01\x02 end".to_vec());
    assert_eq!(transfer_path(true), "/data/local/tmp/adboost_selftest_pers_8b1c.bin");
    assert_eq!(transfer_path(false), "/data/local/tmp/adboost_selftest_pushpull_8b1c.bin");
}

#[test]
fn a_shell_with_an_exit_code_is_judged_by_both() {
    let ended = |stdout: &str, exit_code| {
        persistent_shell_v2(&ShellV2Run::Ended { stdout: stdout.to_string(), exit_code })
    };
    assert_eq!(ended("adboost_selftest_marker_4f2a\n", Some(0)), Outcome::Passed);
    assert_eq!(
        ended("adboost_selftest_marker_4f2a", Some(3)),
        Outcome::Failed("shell_v2 echo exited 3, expected 0".to_string())
    );
    assert_eq!(
        ended("adboost_selftest_marker_4f2a", None),
        Outcome::Failed("shell_v2 reported no exit code".to_string())
    );
    assert_eq!(
        ended("a\"b", Some(0)),
        Outcome::Failed(
            "shell_v2 stdout \"a\\\"b\", expected \"adboost_selftest_marker_4f2a\"".to_string()
        )
    );
    assert_eq!(
        persistent_shell_v2(&ShellV2Run::NotOpened("e".to_string())),
        Outcome::Failed("open_shell_v2 failed: e".to_string())
    );
    assert_eq!(
        persistent_shell_v2(&ShellV2Run::Broken("e".to_string())),
        Outcome::Failed("shell_v2 execute failed: e".to_string())
    );
}

#[test]
fn forwards_are_judged_by_both_requests() {
    assert_eq!(case_forward_control_plane(ForwardRun::Done), Outcome::Passed);
    assert_eq!(
        case_forward_control_plane(ForwardRun::NotAdded("e".to_string())),
        Outcome::Failed("forward add failed: e".to_string())
    );
    assert_eq!(
        case_forward_control_plane(ForwardRun::NotRemoved("e".to_string())),
        Outcome::Failed("forward remove-all failed: e".to_string())
    );
}

#[test]
fn reverse_cases_are_judged() {
    let s = |t: &str| t.to_string();
    assert!(has_tool(Ok(s("/bin/nc\n"))));
    assert!(!has_tool(Ok(s(" \n"))));
    assert!(!has_tool(Err(s("e"))));
    assert_eq!(
        reverse_echo_command(47131),
        "(echo adboost_reverse_echo_5c1a; sleep 2) | nc 127.0.0.1 47131"
    );
    assert_eq!(reverse_iperf3_command(1), "iperf3 -c 127.0.0.1 -p 1 -t 3");
    assert_eq!(
        reverse_echo(ReverseRun::Printed(s("x adboost_reverse_echo_5c1a y"))),
        Outcome::Passed
    );
    assert_eq!(
        reverse_echo(ReverseRun::Printed(s("\u{1}"))),
        Outcome::Failed(s("echo via reverse returned \"\\u{1}\""))
    );
    assert_eq!(
        reverse_echo(ReverseRun::NotBound(s("e"))),
        Outcome::Failed(s("host echo bind failed: e"))
    );
    assert_eq!(
        reverse_echo(ReverseRun::NoAddress(s("e"))),
        Outcome::Failed(s("host echo addr failed: e"))
    );
    assert_eq!(
        reverse_echo(ReverseRun::NotSetUp(s("e"))),
        Outcome::Failed(s("reverse setup failed: e"))
    );
    assert_eq!(reverse_echo(ReverseRun::Failed(s("e"))), Outcome::Failed(s("e")));
    assert_eq!(
        reverse_echo(ReverseRun::TimedOut),
        Outcome::Failed(s("reverse echo timed out (10s)"))
    );
    assert_eq!(reverse_iperf3(ReverseRun::Printed(s("1 receiver"))), Outcome::Passed);
    assert_eq!(
        reverse_iperf3(ReverseRun::Printed(s("none"))),
        Outcome::Failed(s("iperf3 via reverse gave no result: \"none\""))
    );
    assert_eq!(
        reverse_iperf3(ReverseRun::NotBound(s("e"))),
        Outcome::Failed(s("cannot pick free port: e"))
    );
    assert_eq!(
        reverse_iperf3(ReverseRun::TimedOut),
        Outcome::Failed(s("reverse iperf3 timed out (20s)"))
    );
    assert_eq!(iperf3_unavailable("e"), Outcome::Skipped(s("host iperf3 unavailable: e")));
    assert_eq!(iperf3_summary("a sender\nb\nc receiver\n"), "a sender | c receiver");
}

#[test]
fn dead_reader_before_case_short_circuits_to_connection_failure() {
    let out = reader_dead_short_circuit(false).expect("dead reader short-circuits");
    match out {
        Outcome::Failed(reason) => assert!(
            reason.contains("USB reader task exited"),
            "reason names the reader death: {reason}"
        ),
        _ => panic!("dead reader must short-circuit to Failed"),
    }
}

#[test]
fn live_reader_before_case_runs_normally() {
    assert!(
        reader_dead_short_circuit(true).is_none(),
        "a live reader must not short-circuit the case"
    );
}

#[test]
fn failure_after_reader_death_is_annotated_with_root_cause() {
    let symptom = Outcome::Failed("error sending data to channel".to_string());
    match annotate_if_reader_died(false, symptom) {
        Outcome::Failed(reason) => {
            assert!(
                reason.contains("USB reader task exited"),
                "names the real cause: {reason}"
            );
            assert!(
                reason.contains("error sending data to channel"),
                "keeps the underlying symptom: {reason}"
            );
        }
        _ => panic!("a failure with a dead reader must stay Failed (annotated)"),
    }
}

#[test]
fn genuine_failure_with_live_reader_passes_through_unchanged() {
    let genuine = Outcome::Failed("echo returned \"nope\"".to_string());
    match annotate_if_reader_died(true, genuine) {
        Outcome::Failed(reason) => {
            assert_eq!(
                reason, "echo returned \"nope\"",
                "a real failure with a live reader must NOT be annotated"
            );
        }
        _ => panic!("must remain the original Failed"),
    }
}

#[test]
fn passing_outcome_is_never_annotated() {
    assert_eq!(annotate_if_reader_died(false, Outcome::Passed), Outcome::Passed);
    let skip = Outcome::Skipped("n/a".to_string());
    assert_eq!(annotate_if_reader_died(false, skip.clone()), skip);
}

#[test]
fn the_death_of_a_reader_is_explained_in_full() {
    let reason = "persistent connection died: USB reader task exited (e.g. the OS aborted the \
                  device claim). The remaining usb_direct cases cannot run on this connection.";
    assert_eq!(reader_dead_short_circuit(false), Some(Outcome::Failed(reason.to_string())));
    assert_eq!(
        annotate_if_reader_died(false, Outcome::Failed("x".to_string())),
        Outcome::Failed(format!("{reason} (underlying: x)"))
    );
}

fn case(suite: &str, name: &str, outcome: Outcome) -> CaseResult {
    CaseResult { suite: suite.to_string(), name: name.to_string(), outcome, elapsed_ms: 1 }
}

#[test]
fn full_name_is_suite_dot_case() {
    let c = case("usb_direct", "shell_echo", Outcome::Passed);
    assert_eq!(c.full_name(), "usb_direct.shell_echo");
}

#[test]
fn finish_run_true_when_no_failures() {
    let mut r = Reporter::new();
    r.finish_case(case("s", "a", Outcome::Passed));
    r.finish_case(case("s", "b", Outcome::Skipped("no device".to_string())));
    assert!(r.finish_run(2).ok, "passed+skipped only must be an overall success");
    assert!(!r.any_failed());
}

#[test]
fn finish_run_false_when_any_failure() {
    let mut r = Reporter::new();
    r.finish_case(case("s", "a", Outcome::Passed));
    r.finish_case(case("s", "b", Outcome::Failed("boom".to_string())));
    assert!(!r.finish_run(2).ok, "a single failure must flip the overall result");
    assert!(r.any_failed());
}

#[test]
fn plural_matches_gtest() {
    assert_eq!(plural(1), "");
    assert_eq!(plural(0), "s");
    assert_eq!(plural(2), "s");
}

#[test]
fn a_summary_counts_and_names() {
    let mut r = Reporter::new();
    r.finish_case(case("s", "a", Outcome::Passed));
    r.finish_case(case("s", "b", Outcome::Failed("boom".to_string())));
    r.finish_case(case("s", "c", Outcome::Skipped("no device".to_string())));
    assert_eq!(r.count(Ending::Passed), 1);
    assert_eq!(r.count(Ending::Failed), 1);
    assert_eq!(r.count(Ending::Skipped), 1);
    let summary = r.finish_run(2);
    assert_eq!(
        summary.lines,
        [
            "[==========] 3 tests ran. (2 ms total)",
            "[  PASSED  ] 1 test.",
            "[ SKIPPED  ] 1 test.",
            "[  FAILED  ] 1 test, listed below:",
            "[  FAILED  ] s.b",
        ]
    );
}

#[test]
fn recording_prints_a_line_before_and_after() {
    let mut r = Reporter::new();
    let lines = run_one(&mut r, "s", "a", Outcome::Passed, 12);
    assert_eq!(lines.last().unwrap(), "[       OK ] s.a (12 ms)");
    assert!(lines[0].contains("s.a") && lines.last().unwrap().contains("s.a"));
    let lines = record(&mut r, "s", "b", Outcome::Failed("why".to_string()), 40);
    assert_eq!(lines[1], "[  FAILED  ] s.b (40 ms)");
    assert!(lines.iter().any(|l| l.contains("why")), "got: {lines:?}");
    assert_eq!(r.count(Ending::Passed), 1);
    assert_eq!(r.count(Ending::Failed), 1);
}

#[test]
fn a_suite_is_skipped_case_by_case() {
    let mut r = Reporter::new();
    skip_suite(&mut r, "through_server", "why");
    assert_eq!(r.count(Ending::Skipped), 5);
    report_tcpip_skipped(&mut r);
    assert_eq!(r.count(Ending::Skipped), 6);
    assert_eq!(unreachable_reason(true, "e"), "cannot start in-process server: e");
    assert_eq!(unreachable_reason(false, "e"), "cannot open USB device: e");
    assert_eq!(run_result(true), RunEnd { status: 0, line: None });
    let line = Some("selftest completed with failing cases".to_string());
    assert_eq!(run_result(false), RunEnd { status: 1, line });
}

fn device(serial: Option<&str>) -> DiscoveredDevice {
    DiscoveredDevice { serial: serial.map(str::to_string), description: "Phone".to_string() }
}

#[test]
fn a_run_needs_a_device_with_a_serial() {
    let refusal = plan_run(&vec![]).unwrap_err();
    assert_eq!(
        refusal.reason,
        "no ADB device detected \u{2014} connect a device (and authorize it) before running selftest"
    );
    let refusal = plan_run(&vec![device(None)]).unwrap_err();
    assert_eq!(
        refusal.reason,
        "no device exposes a serial; cannot address any device for testing"
    );
    let plan = plan_run(&vec![device(Some("a")), device(None)]).unwrap();
    assert_eq!(plan.serials, ["a"]);
    assert!(!plan.multi);
    assert_eq!(
        list_discovered(&vec![device(Some("a")), device(None)]),
        [
            "Detected 2 ADB device(s); 1 addressable by serial.",
            "  - a  (Phone)",
            "  - <no-serial>  (Phone)",
        ]
    );
}

#[test]
fn a_run_is_planned_with_its_phases() {
    let devices = vec![device(Some("a"))];
    let (plan, phases) = run(&SelftestCommand { no_interactive: true }, &devices).unwrap();
    assert_eq!(plan.serials, ["a"]);
    assert_eq!(phases.last(), Some(&Phase::NoInteractive));
    assert!(run(&SelftestCommand { no_interactive: true }, &vec![]).is_err());
}

#[test]
fn direct_suites_come_before_the_server() {
    let s = |t: &str| t.to_string();
    let phases = run_phases(&vec![s("a"), s("b")], false);
    assert_eq!(
        phases,
        [
            Phase::UsbDirect(s("a")),
            Phase::Settle(300),
            Phase::UsbDirect(s("b")),
            Phase::Settle(200),
            Phase::StartServer,
            Phase::ThroughServer(s("a")),
            Phase::ThroughServer(s("b")),
            Phase::AmbiguousParity,
            Phase::StopServer,
            Phase::TcpipSkipped,
            Phase::NoInteractive,
        ]
    );
    let phases = run_phases(&vec![s("a")], true);
    assert!(!phases.contains(&Phase::AmbiguousParity));
    assert_eq!(phases.last(), Some(&Phase::Interactive));
}

#[test]
fn cases_that_lack_something_are_skipped() {
    let names: Vec<&str> = server_suite().iter().map(|c| c.name()).collect();
    assert_eq!(names[0], "shell_echo");
    assert_eq!(names.last(), Some(&"official_adb_shell"));
    assert!(names.contains(&"track_devices_family"));
    assert_eq!(ServerCase::ShellEcho.lacking(), None);
    assert_eq!(
        ServerCase::ReverseEcho.lacking(),
        Some(Outcome::Skipped("device has no `nc` for the reverse echo client".to_string()))
    );
    assert_eq!(
        ServerCase::ReverseIperf3.lacking(),
        Some(Outcome::Skipped("device has no `iperf3`".to_string()))
    );
    assert_eq!(
        ServerCase::OfficialAdbAmbiguousShell.lacking(),
        Some(Outcome::Skipped("official `adb` binary not found on PATH".to_string()))
    );
    assert_eq!(ServerCase::OfficialAdbShell.suite(), "parity");
    let direct: Vec<&str> = direct_suite().iter().map(|c| c.name()).collect();
    assert_eq!(direct, ["shell_echo", "shell_v2", "push_pull_roundtrip"]);
}

#[test]
fn output_that_is_no_text_is_shown_all_the_same() {
    assert_eq!(run_shell("c", Ok((b"a\xffb".to_vec(), Some(2)))), Ok(("a\u{fffd}b".to_string(), Some(2))));
    assert_eq!(device_shell("c", Ok(b"x\xc3\xa9".to_vec())), Ok("x\u{e9}".to_string()));
    assert_eq!(
        device_shell("c", Err("e".to_string())),
        Err("device shell `c` failed: e".to_string())
    );
    assert_eq!(shell_failed("c", "e"), "shell `c` failed: e");
    assert_eq!(
        ShellV2Run::ended(&b"\xff".to_vec(), None),
        ShellV2Run::Ended { stdout: "\u{fffd}".to_string(), exit_code: None }
    );
}

#[test]
fn the_device_is_named_where_there_are_several() {
    assert_eq!(server_device("d", true), ProxyChoice::Serial("d".to_string()));
    assert_eq!(server_device("d", false), ProxyChoice::Autodetect);
}

#[test]
fn commands_that_the_cases_run() {
    assert_eq!(nc_search(), "which nc || command -v nc");
    assert_eq!(iperf3_search(), "which iperf3 || command -v iperf3");
    assert_eq!(exit_code_command(), "false");
    assert_eq!(cleanup_command("/x"), "rm -f /x");
    assert_eq!(forward_ends(), ("tcp:5555".to_string(), "tcp:0".to_string()));
    assert_eq!(reverse_ends(47131, 80), ("tcp:47131".to_string(), "tcp:80".to_string()));
    assert_eq!(scratch_path(), "/data/local/tmp");
    assert!(transfer_path(true).starts_with(&scratch_path()));
}
