//! How the cases with an operator go, from their beginning to their end.
use vstd::prelude::*;

use crate::number::decimal;
use crate::selftest::interactive::{
    case_names, case_order, hangup_cleanup_text, hangup_command_text, hangup_marker,
    hangup_search_text, hangup_step, is_release_request, phase_plan, question_text, reboot_start,
    reboot_step, rebooting_text, release_start, release_step, release_texts, replug_step,
    replug_texts, restore_warning, tcpip_start, tcpip_step, EventView, HangupState, InteractiveCase,
    RebootState, ReleaseView, ReplugState, RestoreRun, StepView, TcpipView,
};
use crate::selftest::parity::AdbRequest;
use crate::selftest::report::OutcomeView;
use crate::words::{holds_text, some_line_holds, stands_at, texts_hold_their_parts, trimmed};

verus! {

/// A case that ends here, with nothing left open and nothing to warn of.
pub open spec fn ends<V>(step: StepView<V>, outcome: OutcomeView, close: bool) -> bool {
    step matches StepView::Done(e) && e.outcome == outcome && e.close == close && e.warning is None
}

/// A case that ends here with a warning.
pub open spec fn ends_warning<V>(
    step: StepView<V>,
    outcome: OutcomeView,
    close: bool,
    warning: Seq<char>,
) -> bool {
    step matches StepView::Done(e) && e.outcome == outcome && e.close == close && e.warning == Some(
        warning,
    )
}

/// All cases run if the operator agrees and there is a device; otherwise those that stand
/// for the phase are skipped, for the reason that holds.
pub proof fn the_phase_runs_if_it_can(has_subject: bool)
    ensures
        phase_plan(true, true) == (case_order(), None::<Seq<char>>),
        phase_plan(false, has_subject) == (
            seq![InteractiveCase::Replug, InteractiveCase::RebootRecovery],
            Some("operator declined interactive phase"@),
        ),
        phase_plan(true, false) == (
            seq![InteractiveCase::Replug],
            Some("no addressable device for interactive cases"@),
        ),
{
}

/// No two cases are reported under the same name.
pub proof fn cases_are_told_apart(a: InteractiveCase, b: InteractiveCase)
    requires
        case_names(a).1 == case_names(b).1,
    ensures
        a == b,
{
    reveal_strlit("usb_replug");
    reveal_strlit("forward_release_on_unplug");
    reveal_strlit("pty_hup_process_group");
    reveal_strlit("shell_through_tcp_device");
    reveal_strlit("reboot_recovery");
    assert("usb_replug"@.len() == 10);
    assert("forward_release_on_unplug"@.len() == 25);
    assert("pty_hup_process_group"@.len() == 21);
    assert("shell_through_tcp_device"@.len() == 24);
    assert("reboot_recovery"@.len() == 15);
}

/// A device that is unplugged and plugged in again must go, come back and work; that it
/// does not go or come back is why the case fails.
pub proof fn replugging_goes_its_way(o: OutcomeView, e: Seq<char>)
    ensures
        replug_step(ReplugState::Ask, EventView::Said(true)) == StepView::Next(
            ReplugState::AwaitGone,
        ),
        replug_step(ReplugState::AwaitGone, EventView::Did(Ok(()))) == StepView::Next(
            ReplugState::AwaitBack,
        ),
        replug_step(ReplugState::AwaitBack, EventView::Did(Ok(()))) == StepView::Next(
            ReplugState::Verify,
        ),
        ends(replug_step(ReplugState::Verify, EventView::Judged(o)), o, false),
        ends(
            replug_step(ReplugState::AwaitGone, EventView::Did(Err(e))),
            OutcomeView::Failed(e),
            false,
        ),
        ends(
            replug_step(ReplugState::AwaitBack, EventView::Did(Err(e))),
            OutcomeView::Failed(e),
            false,
        ),
        ends(
            replug_step(ReplugState::Ask, EventView::Said(false)),
            OutcomeView::Skipped("operator declined USB re-plug"@),
            false,
        ),
{
}

/// A rule is set up for the device and must be listed; the device is unplugged, the rule
/// must go, and the device is plugged in again.
pub proof fn releasing_goes_its_way(serial: Seq<char>, list: Seq<char>, o: OutcomeView)
    requires
        some_line_holds(list, serial),
    ensures
        !serial.contains(':') ==> release_start(serial) == StepView::Next(ReleaseView::LookForAdb),
        release_step(serial, ReleaseView::LookForAdb, EventView::Said(true)) == StepView::Next(
            ReleaseView::Ask,
        ),
        release_step(serial, ReleaseView::Ask, EventView::Said(true)) == StepView::Next(
            ReleaseView::StartServer,
        ),
        release_step(serial, ReleaseView::StartServer, EventView::Did(Ok(()))) == StepView::Next(
            ReleaseView::Register,
        ),
        release_step(serial, ReleaseView::Register, EventView::Did(Ok(()))) == StepView::Next(
            ReleaseView::ListRules,
        ),
        release_step(serial, ReleaseView::ListRules, EventView::Got(Ok(list))) == StepView::Next(
            ReleaseView::AwaitGone,
        ),
        release_step(serial, ReleaseView::AwaitGone, EventView::Did(Ok(()))) == StepView::Next(
            ReleaseView::AwaitRelease,
        ),
        release_step(serial, ReleaseView::AwaitRelease, EventView::Did(Ok(()))) == StepView::Next(
            ReleaseView::AwaitBack(OutcomeView::Passed),
        ),
        release_step(serial, ReleaseView::AwaitBack(o), EventView::Did(Ok(())))
            == StepView::Next(ReleaseView::Verify(o)),
        ends(
            release_step(
                serial,
                ReleaseView::Verify(o),
                EventView::Judged(OutcomeView::Passed),
            ),
            o,
            true,
        ),
{
}

/// What goes wrong with the rule is told with its cause; a rule that stays is what the case
/// looks for. What goes wrong afterwards is a warning that names the device.
pub proof fn releasing_fails_with_a_cause(
    serial: Seq<char>,
    list: Seq<char>,
    o: OutcomeView,
    e: Seq<char>,
)
    requires
        !some_line_holds(list, serial),
    ensures
        serial.contains(':') ==> ends(
            release_start(serial),
            OutcomeView::Skipped("subject is a tcpip device, not a USB-unplug subject"@),
            false,
        ),
        ends(
            release_step(serial, ReleaseView::LookForAdb, EventView::Said(false)),
            OutcomeView::Skipped("adb not on PATH"@),
            false,
        ),
        ends(
            release_step(serial, ReleaseView::Ask, EventView::Said(false)),
            OutcomeView::Skipped("operator declined forward release"@),
            false,
        ),
        ends(
            release_step(serial, ReleaseView::StartServer, EventView::Did(Err(e))),
            OutcomeView::Skipped("cannot start in-process server: "@ + e),
            false,
        ),
        ends(
            release_step(serial, ReleaseView::Register, EventView::Did(Err(e))),
            OutcomeView::Failed("could not register forward: "@ + e),
            true,
        ),
        ends(
            release_step(serial, ReleaseView::ListRules, EventView::Got(Ok(list))),
            OutcomeView::Failed(
                "forward registered but "@ + serial + " absent from `forward --list`: "@
                    + trimmed(list),
            ),
            true,
        ),
        ends(
            release_step(serial, ReleaseView::ListRules, EventView::Got(Err(e))),
            OutcomeView::Failed("could not read `forward --list`: "@ + e),
            true,
        ),
        ends(
            release_step(serial, ReleaseView::AwaitGone, EventView::Did(Err(e))),
            OutcomeView::Failed(e),
            true,
        ),
        release_step(serial, ReleaseView::AwaitRelease, EventView::Did(Err(e)))
            == StepView::Next(
            ReleaseView::AwaitBack(
                OutcomeView::Failed(
                    "BUG REPRODUCED: forward rule for "@ + serial + " still present "@ + decimal(
                        30,
                    ) + "s after unplug (expected auto-release); last `forward --list`: "@
                        + trimmed(e),
                ),
            ),
        ),
        ends_warning(
            release_step(serial, ReleaseView::AwaitBack(o), EventView::Did(Err(e))),
            o,
            true,
            "[forward_release] device "@ + serial + " did not return after replug: "@ + e,
        ),
        ends_warning(
            release_step(
                serial,
                ReleaseView::Verify(o),
                EventView::Judged(OutcomeView::Failed(e)),
            ),
            o,
            true,
            "[forward_release] device "@ + serial
                + " returned but did not stabilize after replug: "@ + e,
        ),
{
}

/// The rule that is watched is one for the device that is unplugged.
pub proof fn the_watched_rule_is_of_the_device(serial: Seq<char>, r: AdbRequest)
    ensures
        is_release_request(serial, r) <==> r is Forward && r->Forward_serial@ == serial
            && r->Forward_remote@ == "tcp:5555"@,
{
}

/// A process is started on a terminal, found by its marker, and must be gone once the
/// terminal is closed. It is looked for until it is gone or ten seconds have passed.
pub proof fn hanging_up_goes_its_way(ms: u64)
    ensures
        hangup_step(HangupState::Ask, EventView::Said(true)) == StepView::Next(HangupState::Open),
        hangup_step(HangupState::Open, EventView::Did(Ok(()))) == StepView::Next(
            HangupState::OpenShell,
        ),
        hangup_step(HangupState::OpenShell, EventView::Did(Ok(()))) == StepView::Next(
            HangupState::AwaitReady,
        ),
        hangup_step(HangupState::AwaitReady, EventView::Did(Ok(()))) == StepView::Next(
            HangupState::LookBefore,
        ),
        hangup_step(HangupState::LookBefore, EventView::Said(true)) == StepView::Next(
            HangupState::Cancel,
        ),
        ms < 10_000 ==> hangup_step(HangupState::Cancel, EventView::Waited(ms)) == StepView::Next(
            HangupState::Look,
        ),
        ms < 10_000 ==> hangup_step(HangupState::Pause, EventView::Waited(ms)) == StepView::Next(
            HangupState::Look,
        ),
        ms >= 10_000 ==> hangup_step(HangupState::Cancel, EventView::Waited(ms))
            == StepView::Next(HangupState::CleanUp),
        ms >= 10_000 ==> hangup_step(HangupState::Pause, EventView::Waited(ms)) == StepView::Next(
            HangupState::CleanUp,
        ),
        hangup_step(HangupState::Look, EventView::Said(true)) == StepView::Next(
            HangupState::Pause,
        ),
        ends(
            hangup_step(HangupState::Look, EventView::Said(false)),
            OutcomeView::Passed,
            true,
        ),
{
}

/// Without a process to look for nothing is found out; a process that stays is the failure,
/// and it is removed first.
pub proof fn hanging_up_fails_with_a_cause(e: Seq<char>, event: EventView)
    ensures
        ends(
            hangup_step(HangupState::Ask, EventView::Said(false)),
            OutcomeView::Skipped("operator declined PTY-HUP case"@),
            false,
        ),
        ends(
            hangup_step(HangupState::Open, EventView::Did(Err(e))),
            OutcomeView::Failed("cannot open device: "@ + e),
            false,
        ),
        ends(
            hangup_step(HangupState::OpenShell, EventView::Did(Err(e))),
            OutcomeView::Failed("open PTY shell,v2 failed: "@ + e),
            true,
        ),
        ends(
            hangup_step(HangupState::AwaitReady, EventView::Did(Err(e))),
            OutcomeView::Failed("PTY shell never became READY: "@ + e),
            true,
        ),
        ends(
            hangup_step(HangupState::LookBefore, EventView::Said(false)),
            OutcomeView::Skipped(
                "sleep child not observed before cancel; cannot validate PTY-HUP"@,
            ),
            true,
        ),
        ends(
            hangup_step(HangupState::CleanUp, event),
            OutcomeView::Failed(
                "PTY-HUP did NOT reach the process group: `sleep "@ + hangup_marker()
                    + "` still running 10s after session drop (expected SIGHUP on PTY master close)"@,
            ),
            true,
        ),
{
}

/// The process that is started is the one that is looked for and the one that is removed:
/// all three go by one marker, which the command carries at its end.
pub proof fn one_process_is_meant(marker: Seq<char>)
    ensures
        hangup_command_text(marker) == "echo READY; exec sleep 3600 "@ + marker,
        hangup_search_text(marker) == "pgrep -f "@ + marker,
        hangup_cleanup_text(marker) == "pkill -f "@ + marker,
        holds_text(hangup_command_text(marker), marker),
        holds_text(hangup_command_text(marker), "READY"@),
{
    reveal_strlit("echo READY; exec sleep 3600 ");
    reveal_strlit("READY");
    let c = hangup_command_text(marker);
    assert(c.subrange(28, c.len() as int) =~= marker);
    assert(stands_at(c, marker, 28));
    assert(c.subrange(5, 10) =~= "READY"@);
    assert(stands_at(c, "READY"@, 5));
}

/// A device is switched at the address that it has, joined there through the server, tried,
/// left, switched back and waited for.
pub proof fn switching_goes_its_way(
    serial: Seq<char>,
    ip: Seq<char>,
    out: Seq<char>,
    o: OutcomeView,
    event: EventView,
)
    requires
        holds_text(out, "connected to"@) || holds_text(out, "already connected"@),
    ensures
        ({
            let address = ip + ":"@ + decimal(5555);
            &&& !serial.contains(':') ==> tcpip_start(serial) == StepView::Next(
                TcpipView::LookForAdb,
            )
            &&& tcpip_step(serial, TcpipView::LookForAdb, EventView::Said(true))
                == StepView::Next(TcpipView::Ask)
            &&& tcpip_step(serial, TcpipView::Ask, EventView::Said(true)) == StepView::Next(
                TcpipView::Open,
            )
            &&& tcpip_step(serial, TcpipView::Open, EventView::Did(Ok(()))) == StepView::Next(
                TcpipView::AskAddress,
            )
            &&& tcpip_step(serial, TcpipView::AskAddress, EventView::Got(Ok(ip)))
                == StepView::Next(TcpipView::Switch { address })
            &&& tcpip_step(serial, TcpipView::Switch { address }, EventView::Did(Ok(())))
                == StepView::Next(TcpipView::StartServer { address })
            &&& tcpip_step(serial, TcpipView::StartServer { address }, EventView::Did(Ok(())))
                == StepView::Next(TcpipView::Connect { address })
            &&& tcpip_step(serial, TcpipView::Connect { address }, EventView::Got(Ok(out)))
                == StepView::Next(TcpipView::Shell { address })
            &&& tcpip_step(serial, TcpipView::Shell { address }, EventView::Judged(o))
                == StepView::Next(TcpipView::Leave { address, outcome: o, disconnect: true })
            &&& tcpip_step(
                serial,
                TcpipView::Leave { address, outcome: o, disconnect: true },
                event,
            ) == StepView::Next(TcpipView::Restore { address, outcome: o })
            &&& tcpip_step(serial, TcpipView::Restore { address, outcome: o }, event)
                == StepView::Next(TcpipView::AwaitBack { outcome: o })
            &&& tcpip_step(serial, TcpipView::AwaitBack { outcome: o }, EventView::Did(Ok(())))
                == StepView::Next(TcpipView::Reopen { outcome: o })
            &&& ends(
                tcpip_step(serial, TcpipView::Reopen { outcome: o }, EventView::Did(Ok(()))),
                o,
                false,
            )
        }),
{
}

/// What goes wrong before the device is switched ends the case; what goes wrong after it
/// leads back. Only a device that may have been joined is disconnected.
pub proof fn switching_fails_with_a_cause(
    serial: Seq<char>,
    address: Seq<char>,
    out: Seq<char>,
    o: OutcomeView,
    e: Seq<char>,
)
    requires
        !holds_text(out, "connected to"@),
        !holds_text(out, "already connected"@),
    ensures
        serial.contains(':') ==> ends(
            tcpip_start(serial),
            OutcomeView::Skipped("subject is already a tcpip device"@),
            false,
        ),
        ends(
            tcpip_step(serial, TcpipView::LookForAdb, EventView::Said(false)),
            OutcomeView::Skipped("official `adb` binary not found on PATH"@),
            false,
        ),
        ends(
            tcpip_step(serial, TcpipView::Ask, EventView::Said(false)),
            OutcomeView::Skipped("operator declined tcpip end-to-end"@),
            false,
        ),
        ends(
            tcpip_step(serial, TcpipView::Open, EventView::Did(Err(e))),
            OutcomeView::Failed("cannot open device: "@ + e),
            false,
        ),
        ends(
            tcpip_step(serial, TcpipView::AskAddress, EventView::Got(Err(e))),
            OutcomeView::Skipped("could not determine device IP: "@ + e),
            true,
        ),
        ends(
            tcpip_step(serial, TcpipView::Switch { address }, EventView::Did(Err(e))),
            OutcomeView::Failed("tcpip "@ + decimal(5555) + " failed: "@ + e),
            true,
        ),
        tcpip_step(serial, TcpipView::StartServer { address }, EventView::Did(Err(e)))
            == StepView::Next(
            TcpipView::Restore {
                address,
                outcome: OutcomeView::Skipped("cannot start in-process server: "@ + e),
            },
        ),
        tcpip_step(serial, TcpipView::Connect { address }, EventView::Got(Ok(out)))
            == StepView::Next(
            TcpipView::Leave {
                address,
                outcome: OutcomeView::Failed(
                    "host:connect to "@ + address + " did not join the device: "@ + trimmed(out),
                ),
                disconnect: true,
            },
        ),
        tcpip_step(serial, TcpipView::Connect { address }, EventView::Got(Err(e)))
            == StepView::Next(
            TcpipView::Leave { address, outcome: OutcomeView::Failed(e), disconnect: false },
        ),
        ends_warning(
            tcpip_step(serial, TcpipView::AwaitBack { outcome: o }, EventView::Did(Err(e))),
            o,
            false,
            "[tcpip] device "@ + serial + " did not re-enumerate over USB after restore: "@ + e,
        ),
        ends_warning(
            tcpip_step(serial, TcpipView::Reopen { outcome: o }, EventView::Did(Err(e))),
            o,
            false,
            "[tcpip] device "@ + serial + " returned but is not yet ready after restore: "@ + e,
        ),
{
}

/// A device that is not switched back is warned of, with its address and the reason.
pub proof fn devices_left_behind_are_warned_of(address: Seq<char>, e: String)
    ensures
        restore_warning(address, RestoreRun::Done) == None::<Seq<char>>,
        restore_warning(address, RestoreRun::NoAddress) == Some(
            "[tcpip] cannot parse "@ + address + " to restore USB mode"@,
        ),
        restore_warning(address, RestoreRun::NotReached(e)) == Some(
            "[tcpip] could not reconnect to "@ + address + " to restore USB: "@ + e@,
        ),
        restore_warning(address, RestoreRun::NotSwitched(e)) == Some(
            "[tcpip] failed to switch "@ + address + " back to USB: "@ + e@,
        ),
{
}

/// A device is rebooted and must come back and work; whether it was seen to go does not
/// matter.
pub proof fn rebooting_goes_its_way(
    serial: Seq<char>,
    seen: Result<(), Seq<char>>,
    o: OutcomeView,
)
    ensures
        !serial.contains(':') ==> reboot_start(serial) == StepView::Next(RebootState::Ask),
        reboot_step(RebootState::Ask, EventView::Said(true)) == StepView::Next(RebootState::Open),
        reboot_step(RebootState::Open, EventView::Did(Ok(()))) == StepView::Next(
            RebootState::Reboot,
        ),
        reboot_step(RebootState::Reboot, EventView::Did(Ok(()))) == StepView::Next(
            RebootState::AwaitGone,
        ),
        reboot_step(RebootState::AwaitGone, EventView::Did(seen)) == StepView::Next(
            RebootState::AwaitBack,
        ),
        reboot_step(RebootState::AwaitBack, EventView::Did(Ok(()))) == StepView::Next(
            RebootState::Verify,
        ),
        ends(reboot_step(RebootState::Verify, EventView::Judged(o)), o, false),
{
}

/// What goes wrong with a reboot is told with its cause.
pub proof fn rebooting_fails_with_a_cause(serial: Seq<char>, e: Seq<char>)
    ensures
        serial.contains(':') ==> ends(
            reboot_start(serial),
            OutcomeView::Skipped(
                "reboot-recovery excludes tcpip devices (post-reboot reconnect is a separate scenario)"@,
            ),
            false,
        ),
        ends(
            reboot_step(RebootState::Ask, EventView::Said(false)),
            OutcomeView::Skipped("operator declined reboot"@),
            false,
        ),
        ends(
            reboot_step(RebootState::Open, EventView::Did(Err(e))),
            OutcomeView::Failed("cannot open device to reboot: "@ + e),
            false,
        ),
        ends(
            reboot_step(RebootState::Reboot, EventView::Did(Err(e))),
            OutcomeView::Failed("reboot command failed: "@ + e),
            true,
        ),
        ends(
            reboot_step(RebootState::AwaitBack, EventView::Did(Err(e))),
            OutcomeView::Failed("device did not return after reboot: "@ + e),
            false,
        ),
{
}

/// The operator is told which device is meant, in every question and where they are to
/// unplug it.
pub proof fn the_operator_is_told_the_device(c: InteractiveCase, serial: Seq<char>)
    ensures
        holds_text(question_text(c, serial), serial),
        holds_text(replug_texts(serial).0, serial),
        holds_text(release_texts(serial).0, serial),
        holds_text(release_texts(serial).1, serial),
        rebooting_text() == "[reboot_recovery] Rebooting; waiting up to "@ + decimal(120)
            + "s for the device to return\u{2026}"@,
{
    let (head, tail) = match c {
        InteractiveCase::Replug => (
            "[usb_replug] Unplug device "@,
            " and plug it in again? You will be told when. [y/N]: "@,
        ),
        InteractiveCase::ForwardRelease => (
            "[forward_release] Set up a forward for device "@,
            " and unplug it to see the rule go? You will be told when. [y/N]: "@,
        ),
        InteractiveCase::PtyHup => (
            "[pty_hup] Open a PTY shell on "@,
            ", start a `sleep`, then drop the session and verify the kernel SIGHUPs the process group? (non-destructive) [y/N]: "@,
        ),
        InteractiveCase::TcpipThroughServer => (
            "[tcpip] Switch device "@,
            " to TCP/IP mode, shell to it through the adboost server, then switch it back to USB? (reversible) [y/N]: "@,
        ),
        InteractiveCase::RebootRecovery => (
            "[reboot_recovery] Reboot device "@,
            "? It will be rebooted now if you agree. [y/N]: "@,
        ),
    };
    texts_hold_their_parts(head, serial, tail);
    texts_hold_their_parts(
        "[usb_replug] Please UNPLUG the device with serial "@,
        serial,
        " now."@,
    );
    texts_hold_their_parts(
        "[forward_release] Please UNPLUG the device "@,
        serial,
        " now."@,
    );
    texts_hold_their_parts(
        "[forward_release] Core check done. Please RE-PLUG the device "@,
        serial,
        " to restore."@,
    );
}

} // verus!
