//! The cases that need an operator: each is a machine that says what to do next and
//! is told what came of it.
use vstd::prelude::*;

use crate::number::{decimal, decimal_string};
use crate::selftest::parity::AdbRequest;
use crate::selftest::polling::{
    is_tcpip_serial, seconds, HANGUP_TIMEOUT_MS, REBOOT_TIMEOUT_MS, RELEASE_TIMEOUT_MS,
};
use crate::selftest::report::{Outcome, OutcomeView};
use crate::text::{concat, concat3, opt_text};
use crate::words::{any_line_holds, contains_text, holds_text, some_line_holds, trim, trimmed};

verus! {

/// The port on which a device listens in TCP mode.
pub const TCPIP_PORT: u16 = 5555;

/// What came of the last thing that was done.
#[derive(Debug, PartialEq, Eq)]
pub enum CaseEvent {
    /// A question was answered.
    Said(bool),
    /// Something was done, or not.
    Did(Result<(), String>),
    /// A text was got, or not.
    Got(Result<String, String>),
    /// Another case was run.
    Judged(Outcome),
    /// So many milliseconds have passed since the wait began.
    Waited(u64),
}

/// The contents of a [`CaseEvent`].
pub enum EventView {
    Said(bool),
    Did(Result<(), Seq<char>>),
    Got(Result<Seq<char>, Seq<char>>),
    Judged(OutcomeView),
    Waited(u64),
}

impl View for CaseEvent {
    type V = EventView;

    open spec fn view(&self) -> EventView {
        match self {
            CaseEvent::Said(b) => EventView::Said(*b),
            CaseEvent::Did(Ok(_)) => EventView::Did(Ok(())),
            CaseEvent::Did(Err(e)) => EventView::Did(Err(e@)),
            CaseEvent::Got(Ok(t)) => EventView::Got(Ok(t@)),
            CaseEvent::Got(Err(e)) => EventView::Got(Err(e@)),
            CaseEvent::Judged(o) => EventView::Judged(o@),
            CaseEvent::Waited(ms) => EventView::Waited(*ms),
        }
    }
}

/// The end of a case.
#[derive(Debug, PartialEq, Eq)]
pub struct CaseEnd {
    /// How it ended.
    pub outcome: Outcome,
    /// Whether the server or the connection that the case opened is to be closed.
    pub close: bool,
    /// What went wrong when the device was to be brought back to where it was.
    pub warning: Option<String>,
}

/// The contents of a [`CaseEnd`].
pub struct EndView {
    pub outcome: OutcomeView,
    pub close: bool,
    pub warning: Option<Seq<char>>,
}

impl View for CaseEnd {
    type V = EndView;

    open spec fn view(&self) -> EndView {
        EndView {
            outcome: self.outcome@,
            close: self.close,
            warning: opt_text(self.warning),
        }
    }
}

/// What a case does next.
#[derive(Debug, PartialEq, Eq)]
pub enum CaseStep<S> {
    /// Do what this state stands for.
    Next(S),
    /// Nothing: the case has ended.
    Done(CaseEnd),
}

/// The contents of a [`CaseStep`].
pub enum StepView<V> {
    Next(V),
    Done(EndView),
}

impl<S: View> View for CaseStep<S> {
    type V = StepView<S::V>;

    open spec fn view(&self) -> StepView<S::V> {
        match self {
            CaseStep::Next(s) => StepView::Next(s@),
            CaseStep::Done(e) => StepView::Done(e@),
        }
    }
}

/// An end without a warning.
pub open spec fn plain_end<V>(outcome: OutcomeView, close: bool) -> StepView<V> {
    StepView::Done(EndView { outcome, close, warning: None })
}

/// An end without a warning.
fn end<S: View>(outcome: Outcome, close: bool) -> (r: CaseStep<S>)
    ensures
        r@ == plain_end::<S::V>(outcome@, close),
{
    CaseStep::Done(CaseEnd { outcome, close, warning: None })
}

/// A failure whose reason is `head` and the text.
pub open spec fn failure(head: Seq<char>, e: Seq<char>) -> OutcomeView {
    OutcomeView::Failed(head + e)
}

/// A failure whose reason is `head` and the text.
fn failed(head: &str, e: &str) -> (r: Outcome)
    ensures
        r@ == failure(head@, e@),
{
    Outcome::Failed(concat(head, e))
}

/// The failure of a case that was told of something it did not do.
pub open spec fn stray() -> OutcomeView {
    OutcomeView::Failed("unexpected event"@)
}

/// The failure of a case that was told of something it did not do.
fn stray_outcome() -> (r: Outcome)
    ensures
        r@ == stray(),
{
    Outcome::Failed("unexpected event".to_owned())
}

/// A skip for this reason.
fn skipped(reason: &str) -> (r: Outcome)
    ensures
        r@ == OutcomeView::Skipped(reason@),
{
    Outcome::Skipped(reason.to_owned())
}

// ---------------------------------------------------------------------------------
// The phase
// ---------------------------------------------------------------------------------

/// The cases of the phase.
#[derive(Clone, Copy, Debug, PartialEq, Eq, Structural)]
pub enum InteractiveCase {
    Replug,
    ForwardRelease,
    PtyHup,
    TcpipThroughServer,
    RebootRecovery,
}

/// The suite and the name of a case.
pub open spec fn case_names(c: InteractiveCase) -> (Seq<char>, Seq<char>) {
    match c {
        InteractiveCase::Replug => ("interactive"@, "usb_replug"@),
        InteractiveCase::ForwardRelease => ("interactive"@, "forward_release_on_unplug"@),
        InteractiveCase::PtyHup => ("interactive"@, "pty_hup_process_group"@),
        InteractiveCase::TcpipThroughServer => ("tcpip"@, "shell_through_tcp_device"@),
        InteractiveCase::RebootRecovery => ("interactive"@, "reboot_recovery"@),
    }
}

impl InteractiveCase {
    /// The suite that the case is reported in.
    pub fn suite(&self) -> (r: &'static str)
        ensures
            r@ == case_names(*self).0,
    {
        match self {
            InteractiveCase::TcpipThroughServer => "tcpip",
            _ => "interactive",
        }
    }

    /// The name that the case is reported under.
    pub fn name(&self) -> (r: &'static str)
        ensures
            r@ == case_names(*self).1,
    {
        match self {
            InteractiveCase::Replug => "usb_replug",
            InteractiveCase::ForwardRelease => "forward_release_on_unplug",
            InteractiveCase::PtyHup => "pty_hup_process_group",
            InteractiveCase::TcpipThroughServer => "shell_through_tcp_device",
            InteractiveCase::RebootRecovery => "reboot_recovery",
        }
    }
}

/// What the phase is to do.
#[derive(Debug, PartialEq, Eq)]
pub enum InteractivePlan {
    /// Run these cases, in this order.
    Run(Vec<InteractiveCase>),
    /// Report these cases as skipped, for this reason.
    Skip(Vec<InteractiveCase>, String),
}

/// The cases in the order in which they are run.
pub open spec fn case_order() -> Seq<InteractiveCase> {
    seq![
        InteractiveCase::Replug,
        InteractiveCase::ForwardRelease,
        InteractiveCase::PtyHup,
        InteractiveCase::TcpipThroughServer,
        InteractiveCase::RebootRecovery,
    ]
}

/// What the phase does: which cases it runs, or which it skips and why.
pub open spec fn phase_plan(agreed: bool, has_subject: bool) -> (
    Seq<InteractiveCase>,
    Option<Seq<char>>,
) {
    if !agreed {
        (
            seq![InteractiveCase::Replug, InteractiveCase::RebootRecovery],
            Some("operator declined interactive phase"@),
        )
    } else if !has_subject {
        (
            seq![InteractiveCase::Replug],
            Some("no addressable device for interactive cases"@),
        )
    } else {
        (case_order(), None)
    }
}

/// The contents of a plan.
pub open spec fn phase_plan_view(r: InteractivePlan) -> (Seq<InteractiveCase>, Option<Seq<char>>) {
    match r {
        InteractivePlan::Run(cases) => (cases@, None),
        InteractivePlan::Skip(cases, why) => (cases@, Some(why@)),
    }
}

/// Plans the phase, given whether the operator agrees to it and whether there is a
/// device to run it on.
pub fn run_interactive_phase(agreed: bool, has_subject: bool) -> (r: InteractivePlan)
    ensures
        phase_plan_view(r) == phase_plan(agreed, has_subject),
{
    let mut cases: Vec<InteractiveCase> = Vec::new();
    cases.push(InteractiveCase::Replug);
    if !agreed {
        cases.push(InteractiveCase::RebootRecovery);
        InteractivePlan::Skip(cases, "operator declined interactive phase".to_owned())
    } else if !has_subject {
        InteractivePlan::Skip(cases, "no addressable device for interactive cases".to_owned())
    } else {
        cases.push(InteractiveCase::ForwardRelease);
        cases.push(InteractiveCase::PtyHup);
        cases.push(InteractiveCase::TcpipThroughServer);
        cases.push(InteractiveCase::RebootRecovery);
        assert(cases@ =~= case_order());
        InteractivePlan::Run(cases)
    }
}

/// The reboot comes last: every other case comes before it, so that none meets a
/// device that is still coming up.
pub proof fn reboot_comes_last(i: int)
    requires
        0 <= i < case_order().len(),
    ensures
        case_order()[i] is RebootRecovery <==> i == case_order().len() - 1,
        forall|c: InteractiveCase| #[trigger] case_order().contains(c),
{
    assert forall|c: InteractiveCase| #[trigger] case_order().contains(c) by {
        match c {
            InteractiveCase::Replug => assert(case_order()[0] == c),
            InteractiveCase::ForwardRelease => assert(case_order()[1] == c),
            InteractiveCase::PtyHup => assert(case_order()[2] == c),
            InteractiveCase::TcpipThroughServer => assert(case_order()[3] == c),
            InteractiveCase::RebootRecovery => assert(case_order()[4] == c),
        }
    }
}

// ---------------------------------------------------------------------------------
// Unplugging and plugging in again
// ---------------------------------------------------------------------------------

/// Where the case stands.
#[derive(Clone, Copy, Debug, PartialEq, Eq, Structural)]
pub enum ReplugState {
    /// Ask the operator.
    Ask,
    /// Wait for the device to go.
    AwaitGone,
    /// Wait for it to come back.
    AwaitBack,
    /// Use it.
    Verify,
}

impl View for ReplugState {
    type V = ReplugState;

    open spec fn view(&self) -> ReplugState {
        *self
    }
}

/// What an event makes of the case.
pub open spec fn replug_step(state: ReplugState, event: EventView) -> StepView<ReplugState> {
    match (state, event) {
        (ReplugState::Ask, EventView::Said(true)) => StepView::Next(ReplugState::AwaitGone),
        (ReplugState::Ask, EventView::Said(false)) => plain_end(
            OutcomeView::Skipped("operator declined USB re-plug"@),
            false,
        ),
        (ReplugState::AwaitGone, EventView::Did(Ok(_))) => StepView::Next(ReplugState::AwaitBack),
        (ReplugState::AwaitBack, EventView::Did(Ok(_))) => StepView::Next(ReplugState::Verify),
        (ReplugState::AwaitGone, EventView::Did(Err(e))) => plain_end(
            OutcomeView::Failed(e),
            false,
        ),
        (ReplugState::AwaitBack, EventView::Did(Err(e))) => plain_end(
            OutcomeView::Failed(e),
            false,
        ),
        (ReplugState::Verify, EventView::Judged(o)) => plain_end(o, false),
        _ => plain_end(stray(), false),
    }
}

/// Handles an event of the case, which starts by asking the operator.
pub fn case_usb_replug(state: ReplugState, event: CaseEvent) -> (r: CaseStep<ReplugState>)
    ensures
        r@ == replug_step(state, event@),
{
    match (state, event) {
        (ReplugState::Ask, CaseEvent::Said(agreed)) => if agreed {
            CaseStep::Next(ReplugState::AwaitGone)
        } else {
            end(skipped("operator declined USB re-plug"), false)
        },
        (ReplugState::AwaitGone, CaseEvent::Did(Ok(_))) => CaseStep::Next(ReplugState::AwaitBack),
        (ReplugState::AwaitBack, CaseEvent::Did(Ok(_))) => CaseStep::Next(ReplugState::Verify),
        (ReplugState::AwaitGone, CaseEvent::Did(Err(e))) => end(Outcome::Failed(e), false),
        (ReplugState::AwaitBack, CaseEvent::Did(Err(e))) => end(Outcome::Failed(e), false),
        (ReplugState::Verify, CaseEvent::Judged(o)) => end(o, false),
        _ => end(stray_outcome(), false),
    }
}

// ---------------------------------------------------------------------------------
// Rules that go with their device
// ---------------------------------------------------------------------------------

/// Where the case stands. The last two states hold what it has found.
#[derive(Debug, PartialEq, Eq)]
pub enum ReleaseState {
    /// Look for the official client.
    LookForAdb,
    /// Ask the operator.
    Ask,
    /// Start a server.
    StartServer,
    /// Set up a rule for the device.
    Register,
    /// List the rules.
    ListRules,
    /// Wait for the device to go.
    AwaitGone,
    /// Wait for the rule to go.
    AwaitRelease,
    /// Wait for the device to come back.
    AwaitBack(Outcome),
    /// Use it.
    Verify(Outcome),
}

/// The contents of a [`ReleaseState`].
pub enum ReleaseView {
    LookForAdb,
    Ask,
    StartServer,
    Register,
    ListRules,
    AwaitGone,
    AwaitRelease,
    AwaitBack(OutcomeView),
    Verify(OutcomeView),
}

impl View for ReleaseState {
    type V = ReleaseView;

    open spec fn view(&self) -> ReleaseView {
        match self {
            ReleaseState::LookForAdb => ReleaseView::LookForAdb,
            ReleaseState::Ask => ReleaseView::Ask,
            ReleaseState::StartServer => ReleaseView::StartServer,
            ReleaseState::Register => ReleaseView::Register,
            ReleaseState::ListRules => ReleaseView::ListRules,
            ReleaseState::AwaitGone => ReleaseView::AwaitGone,
            ReleaseState::AwaitRelease => ReleaseView::AwaitRelease,
            ReleaseState::AwaitBack(o) => ReleaseView::AwaitBack(o@),
            ReleaseState::Verify(o) => ReleaseView::Verify(o@),
        }
    }
}

impl ReleaseView {
    /// Whether the server runs.
    pub open spec fn serving(self) -> bool {
        !(self is LookForAdb) && !(self is Ask) && !(self is StartServer)
    }

    /// What the case has found, where it is found.
    pub open spec fn found(self) -> Option<OutcomeView> {
        match self {
            ReleaseView::AwaitBack(o) => Some(o),
            ReleaseView::Verify(o) => Some(o),
            _ => None,
        }
    }
}

/// The start of the case.
pub open spec fn release_start(serial: Seq<char>) -> StepView<ReleaseView> {
    if serial.contains(':') {
        plain_end(
            OutcomeView::Skipped("subject is a tcpip device, not a USB-unplug subject"@),
            false,
        )
    } else {
        StepView::Next(ReleaseView::LookForAdb)
    }
}

/// Starts the case.
pub fn start_forward_release(serial: &str) -> (r: CaseStep<ReleaseState>)
    ensures
        r@ == release_start(serial@),
{
    if is_tcpip_serial(serial) {
        end(skipped("subject is a tcpip device, not a USB-unplug subject"), false)
    } else {
        CaseStep::Next(ReleaseState::LookForAdb)
    }
}

/// The failure of a rule that stays.
pub open spec fn rule_stayed(serial: Seq<char>, last: Seq<char>) -> OutcomeView {
    OutcomeView::Failed(
        "BUG REPRODUCED: forward rule for "@ + serial + " still present "@ + seconds(
            RELEASE_TIMEOUT_MS,
        ) + "s after unplug (expected auto-release); last `forward --list`: "@ + trimmed(last),
    )
}

/// The failure of a rule that stays.
fn rule_stayed_outcome(serial: &str, last: &str) -> (r: Outcome)
    ensures
        r@ == rule_stayed(serial@, last@),
{
    let mut text = concat3("BUG REPRODUCED: forward rule for ", serial, " still present ");
    text.append(decimal_string(RELEASE_TIMEOUT_MS / 1000).as_str());
    text.append("s after unplug (expected auto-release); last `forward --list`: ");
    text.append(trim(last));
    Outcome::Failed(text)
}

/// What an event makes of the case. What it finds is settled once the rule has gone or
/// has not; bringing the device back can only add a warning.
pub open spec fn release_step(
    serial: Seq<char>,
    state: ReleaseView,
    event: EventView,
) -> StepView<ReleaseView> {
    match (state, event) {
        (ReleaseView::LookForAdb, EventView::Said(true)) => StepView::Next(ReleaseView::Ask),
        (ReleaseView::LookForAdb, EventView::Said(false)) => plain_end(
            OutcomeView::Skipped("adb not on PATH"@),
            false,
        ),
        (ReleaseView::Ask, EventView::Said(true)) => StepView::Next(ReleaseView::StartServer),
        (ReleaseView::Ask, EventView::Said(false)) => plain_end(
            OutcomeView::Skipped("operator declined forward release"@),
            false,
        ),
        (ReleaseView::StartServer, EventView::Did(Ok(_))) => StepView::Next(ReleaseView::Register),
        (ReleaseView::StartServer, EventView::Did(Err(e))) => plain_end(
            OutcomeView::Skipped("cannot start in-process server: "@ + e),
            false,
        ),
        (ReleaseView::Register, EventView::Did(Ok(_))) => StepView::Next(ReleaseView::ListRules),
        (ReleaseView::Register, EventView::Did(Err(e))) => plain_end(
            failure("could not register forward: "@, e),
            true,
        ),
        (ReleaseView::ListRules, EventView::Got(Ok(list))) => if some_line_holds(list, serial) {
            StepView::Next(ReleaseView::AwaitGone)
        } else {
            plain_end(
                OutcomeView::Failed(
                    "forward registered but "@ + serial + " absent from `forward --list`: "@
                        + trimmed(list),
                ),
                true,
            )
        },
        (ReleaseView::ListRules, EventView::Got(Err(e))) => plain_end(
            failure("could not read `forward --list`: "@, e),
            true,
        ),
        (ReleaseView::AwaitGone, EventView::Did(Ok(_))) => StepView::Next(
            ReleaseView::AwaitRelease,
        ),
        (ReleaseView::AwaitGone, EventView::Did(Err(e))) => plain_end(OutcomeView::Failed(e), true),
        (ReleaseView::AwaitRelease, EventView::Did(Ok(_))) => StepView::Next(
            ReleaseView::AwaitBack(OutcomeView::Passed),
        ),
        (ReleaseView::AwaitRelease, EventView::Did(Err(last))) => StepView::Next(
            ReleaseView::AwaitBack(rule_stayed(serial, last)),
        ),
        (ReleaseView::AwaitBack(o), EventView::Did(Ok(_))) => StepView::Next(
            ReleaseView::Verify(o),
        ),
        (ReleaseView::AwaitBack(o), EventView::Did(Err(e))) => StepView::Done(
            EndView {
                outcome: o,
                close: true,
                warning: Some(
                    "[forward_release] device "@ + serial + " did not return after replug: "@ + e,
                ),
            },
        ),
        (ReleaseView::Verify(o), EventView::Judged(OutcomeView::Failed(reason))) => StepView::Done(
            EndView {
                outcome: o,
                close: true,
                warning: Some(
                    "[forward_release] device "@ + serial
                        + " returned but did not stabilize after replug: "@ + reason,
                ),
            },
        ),
        (ReleaseView::Verify(o), EventView::Judged(_)) => plain_end(o, true),
        _ => plain_end(
            (match state.found() {
                Some(o) => o,
                None => stray(),
            }),
            state.serving(),
        ),
    }
}

/// A warning about the device.
fn device_warning(head: &str, serial: &str, what: &str, e: &str) -> (r: Option<String>)
    ensures
        opt_text(r) == Some(head@ + serial@ + what@ + e@),
{
    let mut text = concat3(head, serial, what);
    text.append(e);
    Some(text)
}

/// Handles an event of the case.
pub fn case_usb_forward_release_on_unplug(
    serial: &str,
    state: ReleaseState,
    event: CaseEvent,
) -> (r: CaseStep<ReleaseState>)
    ensures
        r@ == release_step(serial@, state@, event@),
{
    match (state, event) {
        (ReleaseState::LookForAdb, CaseEvent::Said(found)) => if found {
            CaseStep::Next(ReleaseState::Ask)
        } else {
            end(skipped("adb not on PATH"), false)
        },
        (ReleaseState::Ask, CaseEvent::Said(agreed)) => if agreed {
            CaseStep::Next(ReleaseState::StartServer)
        } else {
            end(skipped("operator declined forward release"), false)
        },
        (ReleaseState::StartServer, CaseEvent::Did(Ok(_))) => CaseStep::Next(
            ReleaseState::Register,
        ),
        (ReleaseState::StartServer, CaseEvent::Did(Err(e))) => end(
            Outcome::Skipped(concat("cannot start in-process server: ", e.as_str())),
            false,
        ),
        (ReleaseState::Register, CaseEvent::Did(Ok(_))) => CaseStep::Next(ReleaseState::ListRules),
        (ReleaseState::Register, CaseEvent::Did(Err(e))) => end(
            failed("could not register forward: ", e.as_str()),
            true,
        ),
        (ReleaseState::ListRules, CaseEvent::Got(Ok(list))) => {
            if any_line_holds(list.as_str(), serial) {
                CaseStep::Next(ReleaseState::AwaitGone)
            } else {
                let mut text = concat3(
                    "forward registered but ",
                    serial,
                    " absent from `forward --list`: ",
                );
                text.append(trim(list.as_str()));
                end(Outcome::Failed(text), true)
            }
        },
        (ReleaseState::ListRules, CaseEvent::Got(Err(e))) => end(
            failed("could not read `forward --list`: ", e.as_str()),
            true,
        ),
        (ReleaseState::AwaitGone, CaseEvent::Did(Ok(_))) => CaseStep::Next(
            ReleaseState::AwaitRelease,
        ),
        (ReleaseState::AwaitGone, CaseEvent::Did(Err(e))) => end(Outcome::Failed(e), true),
        (ReleaseState::AwaitRelease, CaseEvent::Did(Ok(_))) => CaseStep::Next(
            ReleaseState::AwaitBack(Outcome::Passed),
        ),
        (ReleaseState::AwaitRelease, CaseEvent::Did(Err(last))) => CaseStep::Next(
            ReleaseState::AwaitBack(rule_stayed_outcome(serial, last.as_str())),
        ),
        (ReleaseState::AwaitBack(o), CaseEvent::Did(Ok(_))) => CaseStep::Next(
            ReleaseState::Verify(o),
        ),
        (ReleaseState::AwaitBack(o), CaseEvent::Did(Err(e))) => CaseStep::Done(
            CaseEnd {
                outcome: o,
                close: true,
                warning: device_warning(
                    "[forward_release] device ",
                    serial,
                    " did not return after replug: ",
                    e.as_str(),
                ),
            },
        ),
        (ReleaseState::Verify(o), CaseEvent::Judged(Outcome::Failed(reason))) => CaseStep::Done(
            CaseEnd {
                outcome: o,
                close: true,
                warning: device_warning(
                    "[forward_release] device ",
                    serial,
                    " returned but did not stabilize after replug: ",
                    reason.as_str(),
                ),
            },
        ),
        (ReleaseState::Verify(o), CaseEvent::Judged(_)) => end(o, true),
        (ReleaseState::AwaitBack(o), _) => end(o, true),
        (ReleaseState::Verify(o), _) => end(o, true),
        (ReleaseState::LookForAdb, _) => end(stray_outcome(), false),
        (ReleaseState::Ask, _) => end(stray_outcome(), false),
        (ReleaseState::StartServer, _) => end(stray_outcome(), false),
        _ => end(stray_outcome(), true),
    }
}

/// The server is closed at the end exactly if it was started.
pub proof fn started_servers_are_closed(serial: Seq<char>, state: ReleaseView, event: EventView)
    ensures
        release_step(serial, state, event) matches StepView::Done(e) ==> e.close
            == state.serving(),
{
}

/// Once the case has found something, no event changes that: it is kept from state to
/// state, and it is how the case ends.
pub proof fn bringing_back_changes_no_finding(
    serial: Seq<char>,
    state: ReleaseView,
    event: EventView,
)
    requires
        state.found() is Some,
    ensures
        match release_step(serial, state, event) {
            StepView::Next(next) => next.found() == state.found(),
            StepView::Done(e) => Some(e.outcome) == state.found(),
        },
{
}

/// The case passes only if the rule was listed before and the device and the rule then
/// went: it finds a pass in one step alone, and the way to that step leads through a
/// list with the device on it and through the device's going.
pub proof fn a_pass_means_the_rule_went(serial: Seq<char>, state: ReleaseView, event: EventView)
    requires
        state.found() is None,
    ensures
        match release_step(serial, state, event) {
            StepView::Next(next) => {
                &&& next.found() == Some(OutcomeView::Passed) ==> state is AwaitRelease && (
                event matches EventView::Did(Ok(_)))
                &&& next is AwaitRelease ==> state is AwaitGone && (event matches EventView::Did(
                    Ok(_),
                ))
                &&& next is AwaitGone ==> state is ListRules && (event matches EventView::Got(
                    Ok(list),
                ) && some_line_holds(list, serial))
            },
            StepView::Done(e) => !(e.outcome is Passed),
        },
{
}

// ---------------------------------------------------------------------------------
// Processes that go with their terminal
// ---------------------------------------------------------------------------------

/// Where the case stands.
#[derive(Clone, Copy, Debug, PartialEq, Eq, Structural)]
pub enum HangupState {
    /// Ask the operator.
    Ask,
    /// Open the device.
    Open,
    /// Start the process on a terminal.
    OpenShell,
    /// Wait for it to say that it runs.
    AwaitReady,
    /// Look for it.
    LookBefore,
    /// Close the terminal, and begin to wait.
    Cancel,
    /// Look for the process.
    Look,
    /// Pause.
    Pause,
    /// Remove the process.
    CleanUp,
}

impl View for HangupState {
    type V = HangupState;

    open spec fn view(&self) -> HangupState {
        *self
    }
}

/// Whether the device is open.
pub open spec fn hangup_open(state: HangupState) -> bool {
    !(state is Ask) && !(state is Open)
}

/// The text that the process carries, to be found by.
pub open spec fn hangup_marker() -> Seq<char> {
    "adboost_pty_hup_probe_3c7e"@
}

/// The command that runs on the terminal.
pub open spec fn hangup_command_text(marker: Seq<char>) -> Seq<char> {
    "echo READY; exec sleep 3600 "@ + marker
}

/// The command that looks for the process.
pub open spec fn hangup_search_text(marker: Seq<char>) -> Seq<char> {
    "pgrep -f "@ + marker
}

/// The command that removes the process.
pub open spec fn hangup_cleanup_text(marker: Seq<char>) -> Seq<char> {
    "pkill -f "@ + marker
}

/// The command that runs on the terminal.
pub fn hangup_command() -> (r: String)
    ensures
        r@ == hangup_command_text(hangup_marker()),
{
    concat("echo READY; exec sleep 3600 ", "adboost_pty_hup_probe_3c7e")
}

/// The command that looks for the process.
pub fn hangup_search() -> (r: String)
    ensures
        r@ == hangup_search_text(hangup_marker()),
{
    concat("pgrep -f ", "adboost_pty_hup_probe_3c7e")
}

/// The command that removes the process.
pub fn hangup_cleanup() -> (r: String)
    ensures
        r@ == hangup_cleanup_text(hangup_marker()),
{
    concat("pkill -f ", "adboost_pty_hup_probe_3c7e")
}

/// What an event makes of the case: the process must be there before the terminal is
/// closed, and be gone in time after that.
pub open spec fn hangup_step(state: HangupState, event: EventView) -> StepView<HangupState> {
    match (state, event) {
        (HangupState::Ask, EventView::Said(true)) => StepView::Next(HangupState::Open),
        (HangupState::Ask, EventView::Said(false)) => plain_end(
            OutcomeView::Skipped("operator declined PTY-HUP case"@),
            false,
        ),
        (HangupState::Open, EventView::Did(Ok(_))) => StepView::Next(HangupState::OpenShell),
        (HangupState::Open, EventView::Did(Err(e))) => plain_end(
            failure("cannot open device: "@, e),
            false,
        ),
        (HangupState::OpenShell, EventView::Did(Ok(_))) => StepView::Next(HangupState::AwaitReady),
        (HangupState::OpenShell, EventView::Did(Err(e))) => plain_end(
            failure("open PTY shell,v2 failed: "@, e),
            true,
        ),
        (HangupState::AwaitReady, EventView::Did(Ok(_))) => StepView::Next(HangupState::LookBefore),
        (HangupState::AwaitReady, EventView::Did(Err(e))) => plain_end(
            failure("PTY shell never became READY: "@, e),
            true,
        ),
        (HangupState::LookBefore, EventView::Said(true)) => StepView::Next(HangupState::Cancel),
        (HangupState::LookBefore, EventView::Said(false)) => plain_end(
            OutcomeView::Skipped(
                "sleep child not observed before cancel; cannot validate PTY-HUP"@,
            ),
            true,
        ),
        (HangupState::Cancel, EventView::Waited(ms)) => if ms < HANGUP_TIMEOUT_MS {
            StepView::Next(HangupState::Look)
        } else {
            StepView::Next(HangupState::CleanUp)
        },
        (HangupState::Pause, EventView::Waited(ms)) => if ms < HANGUP_TIMEOUT_MS {
            StepView::Next(HangupState::Look)
        } else {
            StepView::Next(HangupState::CleanUp)
        },
        (HangupState::Look, EventView::Said(true)) => StepView::Next(HangupState::Pause),
        (HangupState::Look, EventView::Said(false)) => plain_end(OutcomeView::Passed, true),
        (HangupState::CleanUp, _) => plain_end(
            OutcomeView::Failed(
                "PTY-HUP did NOT reach the process group: `sleep "@ + hangup_marker()
                    + "` still running 10s after session drop (expected SIGHUP on PTY master close)"@,
            ),
            true,
        ),
        _ => plain_end(stray(), hangup_open(state)),
    }
}

/// Handles an event of the case, which starts by asking the operator.
pub fn case_pty_hup_kills_process_group(
    state: HangupState,
    event: CaseEvent,
) -> (r: CaseStep<HangupState>)
    ensures
        r@ == hangup_step(state, event@),
{
    match (state, event) {
        (HangupState::Ask, CaseEvent::Said(agreed)) => if agreed {
            CaseStep::Next(HangupState::Open)
        } else {
            end(skipped("operator declined PTY-HUP case"), false)
        },
        (HangupState::Open, CaseEvent::Did(Ok(_))) => CaseStep::Next(HangupState::OpenShell),
        (HangupState::Open, CaseEvent::Did(Err(e))) => end(
            failed("cannot open device: ", e.as_str()),
            false,
        ),
        (HangupState::OpenShell, CaseEvent::Did(Ok(_))) => CaseStep::Next(HangupState::AwaitReady),
        (HangupState::OpenShell, CaseEvent::Did(Err(e))) => end(
            failed("open PTY shell,v2 failed: ", e.as_str()),
            true,
        ),
        (HangupState::AwaitReady, CaseEvent::Did(Ok(_))) => CaseStep::Next(HangupState::LookBefore),
        (HangupState::AwaitReady, CaseEvent::Did(Err(e))) => end(
            failed("PTY shell never became READY: ", e.as_str()),
            true,
        ),
        (HangupState::LookBefore, CaseEvent::Said(running)) => if running {
            CaseStep::Next(HangupState::Cancel)
        } else {
            end(skipped("sleep child not observed before cancel; cannot validate PTY-HUP"), true)
        },
        (HangupState::Cancel, CaseEvent::Waited(ms)) => if ms < HANGUP_TIMEOUT_MS {
            CaseStep::Next(HangupState::Look)
        } else {
            CaseStep::Next(HangupState::CleanUp)
        },
        (HangupState::Pause, CaseEvent::Waited(ms)) => if ms < HANGUP_TIMEOUT_MS {
            CaseStep::Next(HangupState::Look)
        } else {
            CaseStep::Next(HangupState::CleanUp)
        },
        (HangupState::Look, CaseEvent::Said(running)) => if running {
            CaseStep::Next(HangupState::Pause)
        } else {
            end(Outcome::Passed, true)
        },
        (HangupState::CleanUp, _) => end(
            Outcome::Failed(
                concat3(
                    "PTY-HUP did NOT reach the process group: `sleep ",
                    "adboost_pty_hup_probe_3c7e",
                    "` still running 10s after session drop (expected SIGHUP on PTY master close)",
                ),
            ),
            true,
        ),
        (HangupState::Ask, _) => end(stray_outcome(), false),
        (HangupState::Open, _) => end(stray_outcome(), false),
        _ => end(stray_outcome(), true),
    }
}

/// The device is closed at the end exactly if it was opened, and where a process stays
/// past its time, removing it comes before the end: a process that was seen after the
/// terminal was closed is looked for again or removed.
pub proof fn hangup_tidies_up(state: HangupState, event: EventView)
    ensures
        state is Look && event == EventView::Said(true) ==> hangup_step(state, event)
            == StepView::Next(HangupState::Pause),
        hangup_step(state, event) matches StepView::Done(e) ==> e.close == hangup_open(state),
        (state is Cancel || state is Pause) && (event matches EventView::Waited(ms) && ms
            >= HANGUP_TIMEOUT_MS) ==> hangup_step(state, event) == StepView::Next(
            HangupState::CleanUp,
        ),
{
}

// ---------------------------------------------------------------------------------
// A device in TCP mode
// ---------------------------------------------------------------------------------

/// Where the case stands. `address` is where the device listens.
#[derive(Debug, PartialEq, Eq)]
pub enum TcpipState {
    /// Look for the official client.
    LookForAdb,
    /// Ask the operator.
    Ask,
    /// Open the device.
    Open,
    /// Ask the device for its address.
    AskAddress,
    /// Switch it to TCP mode.
    Switch { address: String },
    /// Close it, and start a server.
    StartServer { address: String },
    /// Connect to it through the server.
    Connect { address: String },
    /// Run a shell on it through the server.
    Shell { address: String },
    /// Leave it, where it was joined or may have been, and stop the server.
    Leave { address: String, outcome: Outcome, disconnect: bool },
    /// Switch it back.
    Restore { address: String, outcome: Outcome },
    /// Wait for it to come back.
    AwaitBack { outcome: Outcome },
    /// Open it.
    Reopen { outcome: Outcome },
}

/// The contents of a [`TcpipState`].
pub enum TcpipView {
    LookForAdb,
    Ask,
    Open,
    AskAddress,
    Switch { address: Seq<char> },
    StartServer { address: Seq<char> },
    Connect { address: Seq<char> },
    Shell { address: Seq<char> },
    Leave { address: Seq<char>, outcome: OutcomeView, disconnect: bool },
    Restore { address: Seq<char>, outcome: OutcomeView },
    AwaitBack { outcome: OutcomeView },
    Reopen { outcome: OutcomeView },
}

impl View for TcpipState {
    type V = TcpipView;

    open spec fn view(&self) -> TcpipView {
        match self {
            TcpipState::LookForAdb => TcpipView::LookForAdb,
            TcpipState::Ask => TcpipView::Ask,
            TcpipState::Open => TcpipView::Open,
            TcpipState::AskAddress => TcpipView::AskAddress,
            TcpipState::Switch { address } => TcpipView::Switch { address: address@ },
            TcpipState::StartServer { address } => TcpipView::StartServer { address: address@ },
            TcpipState::Connect { address } => TcpipView::Connect { address: address@ },
            TcpipState::Shell { address } => TcpipView::Shell { address: address@ },
            TcpipState::Leave { address, outcome, disconnect } => TcpipView::Leave {
                address: address@,
                outcome: outcome@,
                disconnect: *disconnect,
            },
            TcpipState::Restore { address, outcome } => TcpipView::Restore {
                address: address@,
                outcome: outcome@,
            },
            TcpipState::AwaitBack { outcome } => TcpipView::AwaitBack { outcome: outcome@ },
            TcpipState::Reopen { outcome } => TcpipView::Reopen { outcome: outcome@ },
        }
    }
}

impl TcpipView {
    /// Where the device listens, from when it was switched to when it is switched back.
    pub open spec fn switched(self) -> Option<Seq<char>> {
        match self {
            TcpipView::StartServer { address } => Some(address),
            TcpipView::Connect { address } => Some(address),
            TcpipView::Shell { address } => Some(address),
            TcpipView::Leave { address, outcome, disconnect } => Some(address),
            TcpipView::Restore { address, outcome } => Some(address),
            _ => None,
        }
    }

    /// What the case has found, where it is found.
    pub open spec fn found(self) -> Option<OutcomeView> {
        match self {
            TcpipView::Leave { address, outcome, disconnect } => Some(outcome),
            TcpipView::Restore { address, outcome } => Some(outcome),
            TcpipView::AwaitBack { outcome } => Some(outcome),
            TcpipView::Reopen { outcome } => Some(outcome),
            _ => None,
        }
    }

    /// Whether the device is open.
    pub open spec fn device_open(self) -> bool {
        self is AskAddress || self is Switch
    }
}

/// The start of the case.
pub open spec fn tcpip_start(serial: Seq<char>) -> StepView<TcpipView> {
    if serial.contains(':') {
        plain_end(OutcomeView::Skipped("subject is already a tcpip device"@), false)
    } else {
        StepView::Next(TcpipView::LookForAdb)
    }
}

/// Starts the case.
pub fn start_tcpip(serial: &str) -> (r: CaseStep<TcpipState>)
    ensures
        r@ == tcpip_start(serial@),
{
    if is_tcpip_serial(serial) {
        end(skipped("subject is already a tcpip device"), false)
    } else {
        CaseStep::Next(TcpipState::LookForAdb)
    }
}

/// Whether the client says that it is connected.
pub open spec fn joined_wording(out: Seq<char>) -> bool {
    holds_text(out, "connected to"@) || holds_text(out, "already connected"@)
}

/// Where a device listens that has this address.
pub open spec fn tcp_serial(ip: Seq<char>) -> Seq<char> {
    ip + ":"@ + decimal(TCPIP_PORT as nat)
}

/// What an event makes of the case. Once the device is switched, every way on leads
/// through switching it back; and what the case has found by then, switching back does
/// not change.
pub open spec fn tcpip_step(
    serial: Seq<char>,
    state: TcpipView,
    event: EventView,
) -> StepView<TcpipView> {
    match (state, event) {
        (TcpipView::LookForAdb, EventView::Said(true)) => StepView::Next(TcpipView::Ask),
        (TcpipView::LookForAdb, EventView::Said(false)) => plain_end(
            OutcomeView::Skipped("official `adb` binary not found on PATH"@),
            false,
        ),
        (TcpipView::Ask, EventView::Said(true)) => StepView::Next(TcpipView::Open),
        (TcpipView::Ask, EventView::Said(false)) => plain_end(
            OutcomeView::Skipped("operator declined tcpip end-to-end"@),
            false,
        ),
        (TcpipView::Open, EventView::Did(Ok(_))) => StepView::Next(TcpipView::AskAddress),
        (TcpipView::Open, EventView::Did(Err(e))) => plain_end(
            failure("cannot open device: "@, e),
            false,
        ),
        (TcpipView::AskAddress, EventView::Got(Ok(ip))) => StepView::Next(
            TcpipView::Switch { address: tcp_serial(ip) },
        ),
        (TcpipView::AskAddress, EventView::Got(Err(e))) => plain_end(
            OutcomeView::Skipped("could not determine device IP: "@ + e),
            true,
        ),
        (TcpipView::Switch { address }, EventView::Did(Ok(_))) => StepView::Next(
            TcpipView::StartServer { address },
        ),
        (TcpipView::Switch { address }, EventView::Did(Err(e))) => plain_end(
            OutcomeView::Failed(
                "tcpip "@ + decimal(TCPIP_PORT as nat) + " failed: "@ + e,
            ),
            true,
        ),
        (TcpipView::StartServer { address }, EventView::Did(Ok(_))) => StepView::Next(
            TcpipView::Connect { address },
        ),
        (TcpipView::StartServer { address }, EventView::Did(Err(e))) => StepView::Next(
            TcpipView::Restore {
                address,
                outcome: OutcomeView::Skipped("cannot start in-process server: "@ + e),
            },
        ),
        (TcpipView::StartServer { address }, _) => StepView::Next(
            TcpipView::Restore { address, outcome: stray() },
        ),
        (TcpipView::Connect { address }, EventView::Got(Ok(out))) => if joined_wording(out) {
            StepView::Next(TcpipView::Shell { address })
        } else {
            StepView::Next(
                TcpipView::Leave {
                    address,
                    outcome: OutcomeView::Failed(
                        "host:connect to "@ + address + " did not join the device: "@ + trimmed(
                            out,
                        ),
                    ),
                    disconnect: true,
                },
            )
        },
        (TcpipView::Connect { address }, EventView::Got(Err(e))) => StepView::Next(
            TcpipView::Leave { address, outcome: OutcomeView::Failed(e), disconnect: false },
        ),
        (TcpipView::Connect { address }, _) => StepView::Next(
            TcpipView::Leave { address, outcome: stray(), disconnect: true },
        ),
        (TcpipView::Shell { address }, EventView::Judged(o)) => StepView::Next(
            TcpipView::Leave { address, outcome: o, disconnect: true },
        ),
        (TcpipView::Shell { address }, _) => StepView::Next(
            TcpipView::Leave { address, outcome: stray(), disconnect: true },
        ),
        (TcpipView::Leave { address, outcome, disconnect }, _) => StepView::Next(
            TcpipView::Restore { address, outcome },
        ),
        (TcpipView::Restore { address, outcome }, _) => StepView::Next(
            TcpipView::AwaitBack { outcome },
        ),
        (TcpipView::AwaitBack { outcome }, EventView::Did(Ok(_))) => StepView::Next(
            TcpipView::Reopen { outcome },
        ),
        (TcpipView::AwaitBack { outcome }, EventView::Did(Err(e))) => StepView::Done(
            EndView {
                outcome,
                close: false,
                warning: Some(
                    "[tcpip] device "@ + serial
                        + " did not re-enumerate over USB after restore: "@ + e,
                ),
            },
        ),
        (TcpipView::AwaitBack { outcome }, _) => plain_end(outcome, false),
        (TcpipView::Reopen { outcome }, EventView::Did(Err(e))) => StepView::Done(
            EndView {
                outcome,
                close: false,
                warning: Some(
                    "[tcpip] device "@ + serial + " returned but is not yet ready after restore: "@
                        + e,
                ),
            },
        ),
        (TcpipView::Reopen { outcome }, _) => plain_end(outcome, false),
        _ => plain_end(stray(), state.device_open()),
    }
}

/// Handles an event of the case.
pub fn case_tcpip_through_server(
    serial: &str,
    state: TcpipState,
    event: CaseEvent,
) -> (r: CaseStep<TcpipState>)
    ensures
        r@ == tcpip_step(serial@, state@, event@),
{
    match (state, event) {
        (TcpipState::LookForAdb, CaseEvent::Said(found)) => if found {
            CaseStep::Next(TcpipState::Ask)
        } else {
            end(skipped("official `adb` binary not found on PATH"), false)
        },
        (TcpipState::Ask, CaseEvent::Said(agreed)) => if agreed {
            CaseStep::Next(TcpipState::Open)
        } else {
            end(skipped("operator declined tcpip end-to-end"), false)
        },
        (TcpipState::Open, CaseEvent::Did(Ok(_))) => CaseStep::Next(TcpipState::AskAddress),
        (TcpipState::Open, CaseEvent::Did(Err(e))) => end(
            failed("cannot open device: ", e.as_str()),
            false,
        ),
        (TcpipState::AskAddress, CaseEvent::Got(Ok(ip))) => CaseStep::Next(
            TcpipState::Switch {
                address: concat3(
                    ip.as_str(),
                    ":",
                    decimal_string(TCPIP_PORT as u64).as_str(),
                ),
            },
        ),
        (TcpipState::AskAddress, CaseEvent::Got(Err(e))) => end(
            Outcome::Skipped(concat("could not determine device IP: ", e.as_str())),
            true,
        ),
        (TcpipState::Switch { address }, CaseEvent::Did(Ok(_))) => CaseStep::Next(
            TcpipState::StartServer { address },
        ),
        (TcpipState::Switch { address }, CaseEvent::Did(Err(e))) => {
            let mut text = concat3(
                "tcpip ",
                decimal_string(TCPIP_PORT as u64).as_str(),
                " failed: ",
            );
            text.append(e.as_str());
            end(Outcome::Failed(text), true)
        },
        (TcpipState::StartServer { address }, CaseEvent::Did(Ok(_))) => CaseStep::Next(
            TcpipState::Connect { address },
        ),
        (TcpipState::StartServer { address }, CaseEvent::Did(Err(e))) => CaseStep::Next(
            TcpipState::Restore {
                address,
                outcome: Outcome::Skipped(concat("cannot start in-process server: ", e.as_str())),
            },
        ),
        (TcpipState::StartServer { address }, _) => CaseStep::Next(
            TcpipState::Restore { address, outcome: stray_outcome() },
        ),
        (TcpipState::Connect { address }, CaseEvent::Got(Ok(out))) => {
            if contains_text(out.as_str(), "connected to") || contains_text(
                out.as_str(),
                "already connected",
            ) {
                CaseStep::Next(TcpipState::Shell { address })
            } else {
                let mut text = concat3(
                    "host:connect to ",
                    address.as_str(),
                    " did not join the device: ",
                );
                text.append(trim(out.as_str()));
                CaseStep::Next(
                    TcpipState::Leave { address, outcome: Outcome::Failed(text), disconnect: true },
                )
            }
        },
        (TcpipState::Connect { address }, CaseEvent::Got(Err(e))) => CaseStep::Next(
            TcpipState::Leave { address, outcome: Outcome::Failed(e), disconnect: false },
        ),
        (TcpipState::Connect { address }, _) => CaseStep::Next(
            TcpipState::Leave { address, outcome: stray_outcome(), disconnect: true },
        ),
        (TcpipState::Shell { address }, CaseEvent::Judged(outcome)) => CaseStep::Next(
            TcpipState::Leave { address, outcome, disconnect: true },
        ),
        (TcpipState::Shell { address }, _) => CaseStep::Next(
            TcpipState::Leave { address, outcome: stray_outcome(), disconnect: true },
        ),
        (TcpipState::Leave { address, outcome, disconnect }, _) => CaseStep::Next(
            TcpipState::Restore { address, outcome },
        ),
        (TcpipState::Restore { address, outcome }, _) => CaseStep::Next(
            TcpipState::AwaitBack { outcome },
        ),
        (TcpipState::AwaitBack { outcome }, CaseEvent::Did(Ok(_))) => CaseStep::Next(
            TcpipState::Reopen { outcome },
        ),
        (TcpipState::AwaitBack { outcome }, CaseEvent::Did(Err(e))) => CaseStep::Done(
            CaseEnd {
                outcome,
                close: false,
                warning: device_warning(
                    "[tcpip] device ",
                    serial,
                    " did not re-enumerate over USB after restore: ",
                    e.as_str(),
                ),
            },
        ),
        (TcpipState::AwaitBack { outcome }, _) => end(outcome, false),
        (TcpipState::Reopen { outcome }, CaseEvent::Did(Err(e))) => CaseStep::Done(
            CaseEnd {
                outcome,
                close: false,
                warning: device_warning(
                    "[tcpip] device ",
                    serial,
                    " returned but is not yet ready after restore: ",
                    e.as_str(),
                ),
            },
        ),
        (TcpipState::Reopen { outcome }, _) => end(outcome, false),
        (TcpipState::AskAddress, _) => end(stray_outcome(), true),
        (TcpipState::Switch { address }, _) => end(stray_outcome(), true),
        _ => end(stray_outcome(), false),
    }
}

/// A device that was switched is switched back: no event ends the case before, and the
/// state in which it is switched back knows where the device listens.
pub proof fn switched_devices_are_restored(serial: Seq<char>, state: TcpipView, event: EventView)
    requires
        state.switched() is Some,
    ensures
        tcpip_step(serial, state, event) matches StepView::Next(next) && if state is Restore {
            next is AwaitBack
        } else {
            next.switched() == state.switched()
        },
{
}

/// Each step leads nearer to the end: of a switched device, to its restoration.
pub open spec fn tcpip_distance(state: TcpipView) -> nat {
    match state {
        TcpipView::LookForAdb => 12,
        TcpipView::Ask => 11,
        TcpipView::Open => 10,
        TcpipView::AskAddress => 9,
        TcpipView::Switch { .. } => 8,
        TcpipView::StartServer { .. } => 7,
        TcpipView::Connect { .. } => 6,
        TcpipView::Shell { .. } => 5,
        TcpipView::Leave { .. } => 4,
        TcpipView::Restore { .. } => 3,
        TcpipView::AwaitBack { .. } => 2,
        TcpipView::Reopen { .. } => 1,
    }
}

/// The case comes to its end: every step that does not end it leads nearer.
pub proof fn tcpip_ends(serial: Seq<char>, state: TcpipView, event: EventView)
    ensures
        tcpip_step(serial, state, event) matches StepView::Next(next) ==> tcpip_distance(next)
            < tcpip_distance(state),
{
}

/// What the case has found, switching the device back does not change.
pub proof fn restoring_changes_no_finding(serial: Seq<char>, state: TcpipView, event: EventView)
    requires
        state.found() is Some,
    ensures
        match tcpip_step(serial, state, event) {
            StepView::Next(next) => next.found() == state.found(),
            StepView::Done(e) => Some(e.outcome) == state.found(),
        },
{
}

// ---------------------------------------------------------------------------------
// Rebooting
// ---------------------------------------------------------------------------------

/// Where the case stands.
#[derive(Clone, Copy, Debug, PartialEq, Eq, Structural)]
pub enum RebootState {
    /// Ask the operator.
    Ask,
    /// Open the device.
    Open,
    /// Reboot it.
    Reboot,
    /// Close it, and wait for it to go.
    AwaitGone,
    /// Wait for it to come back.
    AwaitBack,
    /// Use it.
    Verify,
}

impl View for RebootState {
    type V = RebootState;

    open spec fn view(&self) -> RebootState {
        *self
    }
}

/// The start of the case: a device over TCP is not rebooted.
pub open spec fn reboot_start(serial: Seq<char>) -> StepView<RebootState> {
    if serial.contains(':') {
        plain_end(
            OutcomeView::Skipped(
                "reboot-recovery excludes tcpip devices (post-reboot reconnect is a separate scenario)"@,
            ),
            false,
        )
    } else {
        StepView::Next(RebootState::Ask)
    }
}

/// Starts the case.
pub fn start_reboot(serial: &str) -> (r: CaseStep<RebootState>)
    ensures
        r@ == reboot_start(serial@),
{
    if is_tcpip_serial(serial) {
        end(
            skipped(
                "reboot-recovery excludes tcpip devices (post-reboot reconnect is a separate scenario)",
            ),
            false,
        )
    } else {
        CaseStep::Next(RebootState::Ask)
    }
}

/// What an event makes of the case. That the device goes is waited for, and does not
/// matter; that it comes back does.
pub open spec fn reboot_step(state: RebootState, event: EventView) -> StepView<RebootState> {
    match (state, event) {
        (RebootState::Ask, EventView::Said(true)) => StepView::Next(RebootState::Open),
        (RebootState::Ask, EventView::Said(false)) => plain_end(
            OutcomeView::Skipped("operator declined reboot"@),
            false,
        ),
        (RebootState::Open, EventView::Did(Ok(_))) => StepView::Next(RebootState::Reboot),
        (RebootState::Open, EventView::Did(Err(e))) => plain_end(
            failure("cannot open device to reboot: "@, e),
            false,
        ),
        (RebootState::Reboot, EventView::Did(Ok(_))) => StepView::Next(RebootState::AwaitGone),
        (RebootState::Reboot, EventView::Did(Err(e))) => plain_end(
            failure("reboot command failed: "@, e),
            true,
        ),
        (RebootState::AwaitGone, EventView::Did(_)) => StepView::Next(RebootState::AwaitBack),
        (RebootState::AwaitBack, EventView::Did(Ok(_))) => StepView::Next(RebootState::Verify),
        (RebootState::AwaitBack, EventView::Did(Err(e))) => plain_end(
            failure("device did not return after reboot: "@, e),
            false,
        ),
        (RebootState::Verify, EventView::Judged(o)) => plain_end(o, false),
        _ => plain_end(stray(), state is Reboot),
    }
}

/// Handles an event of the case.
pub fn case_reboot_recovery(state: RebootState, event: CaseEvent) -> (r: CaseStep<RebootState>)
    ensures
        r@ == reboot_step(state, event@),
{
    match (state, event) {
        (RebootState::Ask, CaseEvent::Said(agreed)) => if agreed {
            CaseStep::Next(RebootState::Open)
        } else {
            end(skipped("operator declined reboot"), false)
        },
        (RebootState::Open, CaseEvent::Did(Ok(_))) => CaseStep::Next(RebootState::Reboot),
        (RebootState::Open, CaseEvent::Did(Err(e))) => end(
            failed("cannot open device to reboot: ", e.as_str()),
            false,
        ),
        (RebootState::Reboot, CaseEvent::Did(Ok(_))) => CaseStep::Next(RebootState::AwaitGone),
        (RebootState::Reboot, CaseEvent::Did(Err(e))) => end(
            failed("reboot command failed: ", e.as_str()),
            true,
        ),
        (RebootState::AwaitGone, CaseEvent::Did(_)) => CaseStep::Next(RebootState::AwaitBack),
        (RebootState::AwaitBack, CaseEvent::Did(Ok(_))) => CaseStep::Next(RebootState::Verify),
        (RebootState::AwaitBack, CaseEvent::Did(Err(e))) => end(
            failed("device did not return after reboot: ", e.as_str()),
            false,
        ),
        (RebootState::Verify, CaseEvent::Judged(o)) => end(o, false),
        (RebootState::Reboot, _) => end(stray_outcome(), true),
        _ => end(stray_outcome(), false),
    }
}

/// The operator opts in to every case by itself: each asks before it opens, starts or
/// waits for anything, and is skipped where the answer is no.
pub proof fn every_case_is_asked_for(
    serial: Seq<char>,
    replug: ReplugState,
    release: ReleaseView,
    hangup: HangupState,
    tcpip: TcpipView,
    reboot: RebootState,
    event: EventView,
)
    ensures
        replug_step(ReplugState::Ask, EventView::Said(false)) matches StepView::Done(d)
            && d.outcome is Skipped,
        replug_step(replug, event) matches StepView::Next(s) && s is AwaitGone ==> replug is Ask
            && event == EventView::Said(true),
        release_start(serial) matches StepView::Next(s) ==> s is LookForAdb,
        release_step(serial, ReleaseView::LookForAdb, event) matches StepView::Next(s) ==> s is Ask,
        release_step(serial, ReleaseView::Ask, EventView::Said(false)) matches StepView::Done(d)
            && d.outcome is Skipped,
        release_step(serial, release, event) matches StepView::Next(s) && s is StartServer
            ==> release is Ask && event == EventView::Said(true),
        hangup_step(HangupState::Ask, EventView::Said(false)) matches StepView::Done(d)
            && d.outcome is Skipped,
        hangup_step(hangup, event) matches StepView::Next(s) && s is Open ==> hangup is Ask && event
            == EventView::Said(true),
        tcpip_start(serial) matches StepView::Next(s) ==> s is LookForAdb,
        tcpip_step(serial, TcpipView::LookForAdb, event) matches StepView::Next(s) ==> s is Ask,
        tcpip_step(serial, TcpipView::Ask, EventView::Said(false)) matches StepView::Done(d)
            && d.outcome is Skipped,
        tcpip_step(serial, tcpip, event) matches StepView::Next(s) && s is Open ==> tcpip is Ask
            && event == EventView::Said(true),
        reboot_start(serial) matches StepView::Next(s) ==> s is Ask,
        reboot_step(RebootState::Ask, EventView::Said(false)) matches StepView::Done(d)
            && d.outcome is Skipped,
        reboot_step(reboot, event) matches StepView::Next(s) && s is Open ==> reboot is Ask && event
            == EventView::Said(true),
{
}

/// A device over TCP is never rebooted: the case ends before the operator is asked.
pub proof fn tcp_devices_are_not_rebooted(serial: Seq<char>)
    requires
        serial.contains(':'),
    ensures
        reboot_start(serial) matches StepView::Done(e) && e.outcome is Skipped,
{
}

// ---------------------------------------------------------------------------------
// What is said to the operator
// ---------------------------------------------------------------------------------

/// The question before the phase.
pub fn phase_question() -> (r: String)
    ensures
        r@ == "Run interactive tests (USB re-plug, reboot recovery)? [y/N]: "@,
{
    "Run interactive tests (USB re-plug, reboot recovery)? [y/N]: ".to_owned()
}

/// Whether this is the request for the rule that is watched while the device is unplugged.
pub open spec fn is_release_request(serial: Seq<char>, r: AdbRequest) -> bool {
    r matches AdbRequest::Forward { serial: on, remote } && on@ == serial && remote@
        == "tcp:5555"@
}

/// The question before a case on a device.
pub open spec fn question_text(c: InteractiveCase, serial: Seq<char>) -> Seq<char> {
    match c {
        InteractiveCase::Replug => "[usb_replug] Unplug device "@ + serial
            + " and plug it in again? You will be told when. [y/N]: "@,
        InteractiveCase::ForwardRelease => "[forward_release] Set up a forward for device "@
            + serial + " and unplug it to see the rule go? You will be told when. [y/N]: "@,
        InteractiveCase::PtyHup => "[pty_hup] Open a PTY shell on "@ + serial
            + ", start a `sleep`, then drop the session and verify the kernel SIGHUPs the process group? (non-destructive) [y/N]: "@,
        InteractiveCase::TcpipThroughServer => "[tcpip] Switch device "@ + serial
            + " to TCP/IP mode, shell to it through the adboost server, then switch it back to USB? (reversible) [y/N]: "@,
        InteractiveCase::RebootRecovery => "[reboot_recovery] Reboot device "@ + serial
            + "? It will be rebooted now if you agree. [y/N]: "@,
    }
}

/// What the operator is asked to do with the device, first and then.
pub open spec fn replug_texts(serial: Seq<char>) -> (Seq<char>, Seq<char>) {
    (
        "[usb_replug] Please UNPLUG the device with serial "@ + serial + " now."@,
        "[usb_replug] Detected removal. Now RE-PLUG the device."@,
    )
}

/// What the operator is asked to do with the device while its rule is watched.
pub open spec fn release_texts(serial: Seq<char>) -> (Seq<char>, Seq<char>) {
    (
        "[forward_release] Please UNPLUG the device "@ + serial + " now."@,
        "[forward_release] Core check done. Please RE-PLUG the device "@ + serial
            + " to restore."@,
    )
}

/// The line while a device reboots.
pub open spec fn rebooting_text() -> Seq<char> {
    "[reboot_recovery] Rebooting; waiting up to "@ + seconds(REBOOT_TIMEOUT_MS)
        + "s for the device to return\u{2026}"@
}

/// The request for the rule that is watched while the device is unplugged.
pub fn release_request(serial: &str) -> (r: AdbRequest)
    ensures
        is_release_request(serial@, r),
{
    AdbRequest::Forward { serial: serial.to_owned(), remote: "tcp:5555".to_owned() }
}

/// What became of switching a device back to USB.
#[derive(Debug, PartialEq, Eq)]
pub enum RestoreRun {
    /// Its address is none.
    NoAddress,
    /// It could not be reached.
    NotReached(String),
    /// It refused.
    NotSwitched(String),
    /// It was switched.
    Done,
}

/// The warning that a device was not switched back to USB.
pub open spec fn restore_warning(tcp_serial: Seq<char>, run: RestoreRun) -> Option<Seq<char>> {
    match run {
        RestoreRun::NoAddress => Some(
            "[tcpip] cannot parse "@ + tcp_serial + " to restore USB mode"@,
        ),
        RestoreRun::NotReached(e) => Some(
            "[tcpip] could not reconnect to "@ + tcp_serial + " to restore USB: "@ + e@,
        ),
        RestoreRun::NotSwitched(e) => Some(
            "[tcpip] failed to switch "@ + tcp_serial + " back to USB: "@ + e@,
        ),
        RestoreRun::Done => None,
    }
}

/// The warning that a device was not switched back to USB.
pub fn restore_usb_mode(tcp_serial: &str, run: &RestoreRun) -> (r: Option<String>)
    ensures
        opt_text(r) == restore_warning(tcp_serial@, *run),
{
    match run {
        RestoreRun::NoAddress => Some(
            concat3("[tcpip] cannot parse ", tcp_serial, " to restore USB mode"),
        ),
        RestoreRun::NotReached(e) => {
            let mut text = concat3(
                "[tcpip] could not reconnect to ",
                tcp_serial,
                " to restore USB: ",
            );
            text.append(e.as_str());
            Some(text)
        },
        RestoreRun::NotSwitched(e) => {
            let mut text = concat3("[tcpip] failed to switch ", tcp_serial, " back to USB: ");
            text.append(e.as_str());
            Some(text)
        },
        RestoreRun::Done => None,
    }
}

/// The question before a device is unplugged and plugged in again.
pub fn replug_question(serial: &str) -> (r: String)
    ensures
        r@ == question_text(InteractiveCase::Replug, serial@),
{
    concat3(
        "[usb_replug] Unplug device ",
        serial,
        " and plug it in again? You will be told when. [y/N]: ",
    )
}

/// The question before a device is unplugged while its rule is watched.
pub fn release_question(serial: &str) -> (r: String)
    ensures
        r@ == question_text(InteractiveCase::ForwardRelease, serial@),
{
    concat3(
        "[forward_release] Set up a forward for device ",
        serial,
        " and unplug it to see the rule go? You will be told when. [y/N]: ",
    )
}

/// The question before the terminal is closed.
pub fn hangup_question(serial: &str) -> (r: String)
    ensures
        r@ == question_text(InteractiveCase::PtyHup, serial@),
{
    concat3(
        "[pty_hup] Open a PTY shell on ",
        serial,
        ", start a `sleep`, then drop the session and verify the kernel SIGHUPs the process group? (non-destructive) [y/N]: ",
    )
}

/// The question before a device is switched.
pub fn tcpip_question(serial: &str) -> (r: String)
    ensures
        r@ == question_text(InteractiveCase::TcpipThroughServer, serial@),
{
    concat3(
        "[tcpip] Switch device ",
        serial,
        " to TCP/IP mode, shell to it through the adboost server, then switch it back to USB? (reversible) [y/N]: ",
    )
}

/// The question before a reboot.
pub fn reboot_question(serial: &str) -> (r: String)
    ensures
        r@ == question_text(InteractiveCase::RebootRecovery, serial@),
{
    concat3(
        "[reboot_recovery] Reboot device ",
        serial,
        "? It will be rebooted now if you agree. [y/N]: ",
    )
}

/// The line while a device reboots.
pub fn rebooting_line() -> (r: String)
    ensures
        r@ == rebooting_text(),
{
    concat3(
        "[reboot_recovery] Rebooting; waiting up to ",
        decimal_string(REBOOT_TIMEOUT_MS / 1000).as_str(),
        "s for the device to return\u{2026}",
    )
}

/// The lines that ask the operator to act on the device: on its removal and on its
/// return, in the two cases that need it.
pub fn replug_lines(serial: &str) -> (r: (String, String))
    ensures
        (r.0@, r.1@) == replug_texts(serial@),
{
    (
        concat3("[usb_replug] Please UNPLUG the device with serial ", serial, " now."),
        "[usb_replug] Detected removal. Now RE-PLUG the device.".to_owned(),
    )
}

/// The lines that ask the operator to act on the device while its rule is watched.
pub fn release_lines(serial: &str) -> (r: (String, String))
    ensures
        (r.0@, r.1@) == release_texts(serial@),
{
    (
        concat3("[forward_release] Please UNPLUG the device ", serial, " now."),
        concat3(
            "[forward_release] Core check done. Please RE-PLUG the device ",
            serial,
            " to restore.",
        ),
    )
}

} // verus!
