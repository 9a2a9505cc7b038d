use adboost::selftest::interactive::{
    case_pty_hup_kills_process_group, case_reboot_recovery, case_tcpip_through_server,
    case_usb_forward_release_on_unplug, case_usb_replug, hangup_cleanup, hangup_command,
    hangup_question, hangup_search, phase_question, reboot_question, rebooting_line,
    release_lines, release_question, release_request, replug_lines, replug_question,
    restore_usb_mode, run_interactive_phase, start_forward_release, start_reboot, start_tcpip,
    tcpip_question, CaseEnd, CaseEvent, CaseStep, HangupState, InteractiveCase, InteractivePlan,
    RebootState, ReleaseState, ReplugState, RestoreRun, TcpipState,
};
use adboost::selftest::polling::{
    adb_connect, adb_forward, adb_forward_list, device_ip, ip_command, is_tcpip_serial,
    open_device_with_retry, pgrep_marker, prompt_yes_no, serial_present,
    verify_shell_after_recovery, wait_for_absence, wait_for_forward_release, wait_for_presence,
    wait_for_ready_frame, wait_until, OpenPoll, Poll, ReadyPoll, ReleasePoll, ShellFrame,
};
use adboost::selftest::parity::{AdbRequest, AdbRun};
use adboost::selftest::report::Outcome;
use adboost::selftest::suite::DiscoveredDevice;

fn s(t: &str) -> String {
    t.to_string()
}

fn done<S>(outcome: Outcome, close: bool) -> CaseStep<S> {
    CaseStep::Done(CaseEnd { outcome, close, warning: None })
}

#[test]
fn tcpip_serial_detection() {
    assert!(is_tcpip_serial("192.168.1.10:5555"), "host:port is tcpip");
    assert!(!is_tcpip_serial("ABCDEF0123"), "bare serial is USB");
}

#[test]
fn wait_until_times_out_when_condition_never_true() {
    assert_eq!(wait_until(false, 0, 0), Poll::TimedOut, "never-true condition must time out");
}

#[test]
fn wait_until_returns_ok_when_condition_true() {
    assert_eq!(
        wait_until(true, 0, 5000),
        Poll::Holds,
        "already-true condition must return Ok immediately"
    );
    assert_eq!(wait_until(true, 9000, 5000), Poll::Holds);
    assert_eq!(wait_until(false, 4999, 5000), Poll::Pause);
}

#[test]
fn waits_for_devices_report_what_did_not_happen() {
    assert_eq!(wait_for_absence("d", false, 0, 120_000), Ok(Poll::Holds));
    assert_eq!(wait_for_absence("d", true, 0, 120_000), Ok(Poll::Pause));
    assert_eq!(
        wait_for_absence("d", true, 120_000, 120_000),
        Err(s("device d still present after 120s (expected removal)"))
    );
    assert_eq!(wait_for_presence("d", true, 0, 30_000), Ok(Poll::Holds));
    assert_eq!(
        wait_for_presence("d", false, 30_000, 30_000),
        Err(s("device d did not reappear within 30s"))
    );
}

#[test]
fn devices_are_present_by_serial() {
    let devices = vec![
        DiscoveredDevice { serial: None, description: s("x") },
        DiscoveredDevice { serial: Some(s("d")), description: s("y") },
    ];
    assert!(serial_present(Some(&devices), "d"));
    assert!(!serial_present(Some(&devices), "e"));
    assert!(!serial_present(None, "d"));
}

#[test]
fn opening_is_tried_until_the_budget_is_used() {
    assert_eq!(open_device_with_retry(Ok(()), 99, 1), OpenPoll::Open);
    assert_eq!(open_device_with_retry(Err(s("e")), 0, 20), OpenPoll::Pause);
    assert_eq!(open_device_with_retry(Err(s("e")), 20, 20), OpenPoll::Failed(s("e")));
    assert_eq!(verify_shell_after_recovery(Ok(Outcome::Passed)), Outcome::Passed);
    assert_eq!(
        verify_shell_after_recovery(Err(s("e"))),
        Outcome::Failed(s("device returned but shell not ready: e"))
    );
}

#[test]
fn rules_are_watched_until_they_go() {
    assert_eq!(
        wait_for_forward_release(Ok(s("other tcp:1 tcp:2\n")), "d", 0, 30),
        ReleasePoll::Released
    );
    assert_eq!(
        wait_for_forward_release(Ok(s("x\nd tcp:1 tcp:2\n")), "d", 0, 30),
        ReleasePoll::Pause
    );
    assert_eq!(
        wait_for_forward_release(Ok(s("d tcp:1 tcp:2\n")), "d", 30, 30),
        ReleasePoll::Late(s("d tcp:1 tcp:2\n"))
    );
    assert_eq!(
        wait_for_forward_release(Err(s("e")), "d", 30, 30),
        ReleasePoll::Late(s("(forward --list error: e)"))
    );
}

#[test]
fn readiness_is_read_from_the_output() {
    let frame = |stdout, text: &str| Ok(Some(ShellFrame::new(stdout, &text.as_bytes().to_vec())));
    assert_eq!(
        ShellFrame::new(true, &b"\xffREADY".to_vec()),
        ShellFrame { stdout: true, text: s("\u{fffd}READY") }
    );
    assert_eq!(wait_for_ready_frame(0, &frame(true, "READY\n")), ReadyPoll::Ready);
    assert_eq!(wait_for_ready_frame(0, &frame(false, "READY\n")), ReadyPoll::ReadOn);
    assert_eq!(wait_for_ready_frame(62, &frame(true, "x")), ReadyPoll::ReadOn);
    assert_eq!(
        wait_for_ready_frame(63, &frame(true, "x")),
        ReadyPoll::Failed(s("READY not seen within 64 frames"))
    );
    assert_eq!(
        wait_for_ready_frame(0, &Ok(None)),
        ReadyPoll::Failed(s("stream closed before READY"))
    );
    assert_eq!(
        wait_for_ready_frame(0, &Err(s("e"))),
        ReadyPoll::Failed(s("read_frame error: e"))
    );
}

#[test]
fn processes_are_found_by_their_number() {
    assert!(pgrep_marker(&Ok(s("x 123\n"))));
    assert!(!pgrep_marker(&Ok(s("none\n"))));
    assert!(!pgrep_marker(&Ok(s("4294967296"))));
    assert!(!pgrep_marker(&Err(s("e"))));
}

#[test]
fn an_address_follows_the_first_src() {
    let out = "default via 10.0.0.1 dev wlan0\n10.0.0.0/24 dev wlan0 src 10.0.0.7 metric 1\n";
    assert_eq!(device_ip(&Ok(s(out))), Ok(s("10.0.0.7")));
    assert_eq!(device_ip(&Ok(s(" a src "))), Err(s("no `src <ip>` in: a src")));
    assert_eq!(device_ip(&Ok(s("\n"))), Err(s("no `src <ip>` in: ")));
    assert_eq!(device_ip(&Err(s("e"))), Err(s("shell `ip route` failed: e")));
}

#[test]
fn answers_of_the_operator() {
    assert!(prompt_yes_no(Some("y\n")));
    assert!(prompt_yes_no(Some("  YeS \n")));
    assert!(!prompt_yes_no(Some("\n")));
    assert!(!prompt_yes_no(Some("yess")));
    assert!(!prompt_yes_no(Some("n")));
    assert!(!prompt_yes_no(None));
}

fn exited(success: bool, stdout: &str, stderr: &str) -> AdbRun {
    AdbRun::Exited {
        success,
        status: s("exit status: 1"),
        stdout: s(stdout),
        stderr: s(stderr),
    }
}

#[test]
fn runs_of_the_client_are_read() {
    assert_eq!(adb_forward(&exited(true, "", "")), Ok(()));
    assert_eq!(
        adb_forward(&exited(false, "", "bad \n")),
        Err(s("adb forward exited exit status: 1: bad"))
    );
    assert_eq!(
        adb_forward(&AdbRun::NotInvoked(s("e"))),
        Err(s("could not invoke adb forward: e"))
    );
    assert_eq!(adb_forward_list(&exited(true, "l\n", "")), Ok(s("l\n")));
    assert_eq!(
        adb_forward_list(&exited(false, "l", "bad")),
        Err(s("adb forward --list exited exit status: 1: bad"))
    );
    assert_eq!(adb_connect(&exited(false, "a", "b")), Ok(s("ab")));
    assert_eq!(
        adb_connect(&AdbRun::NotInvoked(s("e"))),
        Err(s("could not invoke adb connect: e"))
    );
}

#[test]
fn the_phase_needs_an_operator_and_a_device() {
    assert_eq!(
        run_interactive_phase(false, true),
        InteractivePlan::Skip(
            vec![InteractiveCase::Replug, InteractiveCase::RebootRecovery],
            s("operator declined interactive phase")
        )
    );
    assert_eq!(
        run_interactive_phase(true, false),
        InteractivePlan::Skip(
            vec![InteractiveCase::Replug],
            s("no addressable device for interactive cases")
        )
    );
    match run_interactive_phase(true, true) {
        InteractivePlan::Run(cases) => {
            assert_eq!(cases.len(), 5);
            assert_eq!(cases.last(), Some(&InteractiveCase::RebootRecovery));
            assert_eq!(cases[3].suite(), "tcpip");
            assert_eq!(cases[1].name(), "forward_release_on_unplug");
        }
        other => panic!("unexpected plan {other:?}"),
    }
}

#[test]
fn a_replugged_device_is_used() {
    assert_eq!(
        case_usb_replug(ReplugState::Ask, CaseEvent::Said(true)),
        CaseStep::Next(ReplugState::AwaitGone)
    );
    assert_eq!(
        case_usb_replug(ReplugState::AwaitGone, CaseEvent::Did(Ok(()))),
        CaseStep::Next(ReplugState::AwaitBack)
    );
    assert_eq!(
        case_usb_replug(ReplugState::AwaitBack, CaseEvent::Did(Err(s("e")))),
        done(Outcome::Failed(s("e")), false)
    );
    assert_eq!(
        case_usb_replug(ReplugState::Verify, CaseEvent::Judged(Outcome::Passed)),
        done(Outcome::Passed, false)
    );
}

#[test]
fn a_rule_goes_with_its_device() {
    assert_eq!(
        start_forward_release("1.2.3.4:5"),
        done(Outcome::Skipped(s("subject is a tcpip device, not a USB-unplug subject")), false)
    );
    let mut step = start_forward_release("d");
    let events = [
        CaseEvent::Said(true),
        CaseEvent::Said(true),
        CaseEvent::Did(Ok(())),
        CaseEvent::Did(Ok(())),
        CaseEvent::Got(Ok(s("d tcp:1 tcp:5555\n"))),
        CaseEvent::Did(Ok(())),
        CaseEvent::Did(Ok(())),
        CaseEvent::Did(Ok(())),
        CaseEvent::Judged(Outcome::Failed(s("slow"))),
    ];
    for event in events {
        match step {
            CaseStep::Next(state) => step = case_usb_forward_release_on_unplug("d", state, event),
            CaseStep::Done(e) => panic!("ended early: {e:?}"),
        }
    }
    assert_eq!(
        step,
        CaseStep::Done(CaseEnd {
            outcome: Outcome::Passed,
            close: true,
            warning: Some(s(
                "[forward_release] device d returned but did not stabilize after replug: slow"
            )),
        })
    );
}

#[test]
fn an_operator_who_declines_ends_the_case() {
    let declined = |why: &str| Outcome::Skipped(s(why));
    assert_eq!(
        case_usb_replug(ReplugState::Ask, CaseEvent::Said(false)),
        done(declined("operator declined USB re-plug"), false)
    );
    assert_eq!(
        case_usb_forward_release_on_unplug("d", ReleaseState::Ask, CaseEvent::Said(false)),
        done(declined("operator declined forward release"), false)
    );
}

#[test]
fn a_rule_that_stays_is_a_bug() {
    let step = case_usb_forward_release_on_unplug(
        "d",
        ReleaseState::AwaitRelease,
        CaseEvent::Did(Err(s(" d tcp:1 \n"))),
    );
    let expected = Outcome::Failed(s(
        "BUG REPRODUCED: forward rule for d still present 30s after unplug (expected \
         auto-release); last `forward --list`: d tcp:1",
    ));
    assert_eq!(step, CaseStep::Next(ReleaseState::AwaitBack(expected.clone())));
    let step = case_usb_forward_release_on_unplug(
        "d",
        ReleaseState::AwaitBack(expected.clone()),
        CaseEvent::Did(Err(s("e"))),
    );
    assert_eq!(
        step,
        CaseStep::Done(CaseEnd {
            outcome: expected,
            close: true,
            warning: Some(s("[forward_release] device d did not return after replug: e")),
        })
    );
    assert_eq!(
        case_usb_forward_release_on_unplug(
            "d",
            ReleaseState::ListRules,
            CaseEvent::Got(Ok(s("e tcp:1\n"))),
        ),
        done(
            Outcome::Failed(s(
                "forward registered but d absent from `forward --list`: e tcp:1"
            )),
            true
        )
    );
    assert_eq!(
        case_usb_forward_release_on_unplug(
            "d",
            ReleaseState::StartServer,
            CaseEvent::Did(Err(s("e"))),
        ),
        done(Outcome::Skipped(s("cannot start in-process server: e")), false)
    );
    assert_eq!(
        case_usb_forward_release_on_unplug("d", ReleaseState::Register, CaseEvent::Said(true)),
        done(Outcome::Failed(s("unexpected event")), true)
    );
}

#[test]
fn a_process_goes_with_its_terminal() {
    let next = case_pty_hup_kills_process_group;
    assert_eq!(
        next(HangupState::Ask, CaseEvent::Said(false)),
        done(Outcome::Skipped(s("operator declined PTY-HUP case")), false)
    );
    assert_eq!(
        next(HangupState::OpenShell, CaseEvent::Did(Err(s("e")))),
        done(Outcome::Failed(s("open PTY shell,v2 failed: e")), true)
    );
    assert_eq!(
        next(HangupState::LookBefore, CaseEvent::Said(false)),
        done(
            Outcome::Skipped(s(
                "sleep child not observed before cancel; cannot validate PTY-HUP"
            )),
            true
        )
    );
    assert_eq!(
        next(HangupState::Cancel, CaseEvent::Waited(0)),
        CaseStep::Next(HangupState::Look)
    );
    assert_eq!(
        next(HangupState::Look, CaseEvent::Said(true)),
        CaseStep::Next(HangupState::Pause)
    );
    assert_eq!(next(HangupState::Look, CaseEvent::Said(false)), done(Outcome::Passed, true));
    assert_eq!(
        next(HangupState::Pause, CaseEvent::Waited(10_000)),
        CaseStep::Next(HangupState::CleanUp)
    );
    assert_eq!(
        next(HangupState::CleanUp, CaseEvent::Did(Ok(()))),
        done(
            Outcome::Failed(s(
                "PTY-HUP did NOT reach the process group: `sleep adboost_pty_hup_probe_3c7e` \
                 still running 10s after session drop (expected SIGHUP on PTY master close)"
            )),
            true
        )
    );
    assert_eq!(hangup_command(), "echo READY; exec sleep 3600 adboost_pty_hup_probe_3c7e");
    assert_eq!(hangup_search(), "pgrep -f adboost_pty_hup_probe_3c7e");
    assert_eq!(hangup_cleanup(), "pkill -f adboost_pty_hup_probe_3c7e");
}

#[test]
fn a_switched_device_is_switched_back() {
    assert_eq!(
        start_tcpip("a:1"),
        done(Outcome::Skipped(s("subject is already a tcpip device")), false)
    );
    let mut step = start_tcpip("d");
    let events = [
        CaseEvent::Said(true),
        CaseEvent::Said(true),
        CaseEvent::Did(Ok(())),
        CaseEvent::Got(Ok(s("10.0.0.7"))),
        CaseEvent::Did(Ok(())),
        CaseEvent::Did(Ok(())),
        CaseEvent::Got(Ok(s("failed to reach\n"))),
    ];
    for event in events {
        match step {
            CaseStep::Next(state) => step = case_tcpip_through_server("d", state, event),
            CaseStep::Done(e) => panic!("ended early: {e:?}"),
        }
    }
    let outcome = Outcome::Failed(s(
        "host:connect to 10.0.0.7:5555 did not join the device: failed to reach",
    ));
    assert_eq!(
        step,
        CaseStep::Next(TcpipState::Leave {
            address: s("10.0.0.7:5555"),
            outcome: outcome.clone(),
            disconnect: true,
        })
    );
    let mut seen_restore = false;
    for event in [
        CaseEvent::Did(Ok(())),
        CaseEvent::Did(Ok(())),
        CaseEvent::Did(Ok(())),
        CaseEvent::Did(Err(s("busy"))),
    ] {
        match step {
            CaseStep::Next(state) => {
                seen_restore |= matches!(state, TcpipState::Restore { .. });
                step = case_tcpip_through_server("d", state, event);
            }
            CaseStep::Done(e) => panic!("ended early: {e:?}"),
        }
    }
    assert!(seen_restore);
    assert_eq!(
        step,
        CaseStep::Done(CaseEnd {
            outcome,
            close: false,
            warning: Some(s("[tcpip] device d returned but is not yet ready after restore: busy")),
        })
    );
}

#[test]
fn a_server_that_does_not_start_restores_too() {
    assert_eq!(
        case_tcpip_through_server(
            "d",
            TcpipState::StartServer { address: s("h:1") },
            CaseEvent::Did(Err(s("e"))),
        ),
        CaseStep::Next(TcpipState::Restore {
            address: s("h:1"),
            outcome: Outcome::Skipped(s("cannot start in-process server: e")),
        })
    );
    assert_eq!(
        case_tcpip_through_server(
            "d",
            TcpipState::Connect { address: s("h:1") },
            CaseEvent::Got(Ok(s("already connected to h:1"))),
        ),
        CaseStep::Next(TcpipState::Shell { address: s("h:1") })
    );
    assert_eq!(
        case_tcpip_through_server("d", TcpipState::AskAddress, CaseEvent::Got(Err(s("e")))),
        done(Outcome::Skipped(s("could not determine device IP: e")), true)
    );
}

#[test]
fn a_rebooted_device_must_come_back() {
    assert!(matches!(
        start_reboot("a:1"),
        CaseStep::Done(CaseEnd { outcome: Outcome::Skipped(_), .. })
    ));
    assert_eq!(start_reboot("d"), CaseStep::Next(RebootState::Ask));
    let next = case_reboot_recovery;
    assert_eq!(
        next(RebootState::Ask, CaseEvent::Said(false)),
        done(Outcome::Skipped(s("operator declined reboot")), false)
    );
    assert_eq!(
        next(RebootState::Open, CaseEvent::Did(Err(s("e")))),
        done(Outcome::Failed(s("cannot open device to reboot: e")), false)
    );
    assert_eq!(
        next(RebootState::Reboot, CaseEvent::Did(Err(s("e")))),
        done(Outcome::Failed(s("reboot command failed: e")), true)
    );
    assert_eq!(
        next(RebootState::AwaitGone, CaseEvent::Did(Err(s("late")))),
        CaseStep::Next(RebootState::AwaitBack)
    );
    assert_eq!(
        next(RebootState::AwaitBack, CaseEvent::Did(Err(s("e")))),
        done(Outcome::Failed(s("device did not return after reboot: e")), false)
    );
    assert_eq!(
        next(RebootState::Verify, CaseEvent::Judged(Outcome::Passed)),
        done(Outcome::Passed, false)
    );
}

#[test]
fn the_operator_is_told_what_to_do() {
    assert_eq!(
        phase_question(),
        "Run interactive tests (USB re-plug, reboot recovery)? [y/N]: "
    );
    assert_eq!(
        replug_question("d"),
        "[usb_replug] Unplug device d and plug it in again? You will be told when. [y/N]: "
    );
    assert!(release_question("d").starts_with("[forward_release] Set up a forward for device d"));
    assert!(hangup_question("d").starts_with("[pty_hup] Open a PTY shell on d, start a `sleep`"));
    assert!(tcpip_question("d").starts_with("[tcpip] Switch device d to TCP/IP mode"));
    assert_eq!(
        reboot_question("d"),
        "[reboot_recovery] Reboot device d? It will be rebooted now if you agree. [y/N]: "
    );
    assert_eq!(
        rebooting_line(),
        "[reboot_recovery] Rebooting; waiting up to 120s for the device to return\u{2026}"
    );
    assert_eq!(replug_lines("d").0, "[usb_replug] Please UNPLUG the device with serial d now.");
    assert_eq!(release_lines("d").0, "[forward_release] Please UNPLUG the device d now.");
}

#[test]
fn a_device_that_is_not_switched_back_is_warned_of() {
    let warning = |run: RestoreRun| restore_usb_mode("1.2.3.4:5555", &run);
    assert_eq!(
        warning(RestoreRun::NoAddress),
        Some(s("[tcpip] cannot parse 1.2.3.4:5555 to restore USB mode"))
    );
    assert_eq!(
        warning(RestoreRun::NotReached(s("e"))),
        Some(s("[tcpip] could not reconnect to 1.2.3.4:5555 to restore USB: e"))
    );
    assert_eq!(
        warning(RestoreRun::NotSwitched(s("e"))),
        Some(s("[tcpip] failed to switch 1.2.3.4:5555 back to USB: e"))
    );
    assert_eq!(warning(RestoreRun::Done), None);
}

#[test]
fn requests_that_the_cases_make() {
    assert_eq!(ip_command(), "ip route");
    assert_eq!(
        release_request("d"),
        AdbRequest::Forward { serial: s("d"), remote: s("tcp:5555") }
    );
}
