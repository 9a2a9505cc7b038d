//! The suites of the self-test: which cases run in which order, and how their
//! outcomes are recorded.
use vstd::prelude::*;

use crate::cli::commands::ProxyChoice;
use crate::number::{decimal, decimal_string};
use crate::selftest::report::{
    case_name, finish_case_lines, start_case_line, start_run_line, CaseResult, CaseView, Outcome,
    OutcomeView, Reporter,
};
use crate::text::{clone_opt, concat, concat3, opt_text, texts};

verus! {

/// Cases per device that are announced when a run starts. It is an estimate; the
/// summary has the exact numbers.
pub const ESTIMATED_CASES_PER_DEVICE: usize = 10;

/// How long to wait between the direct suites of two devices, in milliseconds.
pub const USB_DIRECT_INTER_DEVICE_SETTLE_MS: u64 = 300;

/// How long to wait before the in-process server claims the devices, in
/// milliseconds.
pub const SERVER_START_SETTLE_MS: u64 = 200;

/// The port that the device listens on in the reverse cases.
pub const REVERSE_DEVICE_PORT: u16 = 47131;

/// Cases per device that are announced when a run starts.
pub fn estimated_cases_per_device() -> (r: usize)
    ensures
        r == ESTIMATED_CASES_PER_DEVICE,
{
    ESTIMATED_CASES_PER_DEVICE
}

/// Whether this is the device that the cases through the server ask for.
pub open spec fn is_server_device(serial: Seq<char>, multi: bool, r: ProxyChoice) -> bool {
    if multi {
        r matches ProxyChoice::Serial(s) && s@ == serial
    } else {
        r is Autodetect
    }
}

/// The device that the cases through the server ask for: with several devices the one
/// with the serial, with a single one the only one there is.
pub fn server_device(serial: &str, multi: bool) -> (r: ProxyChoice)
    ensures
        is_server_device(serial@, multi, r),
{
    if multi {
        ProxyChoice::Serial(serial.to_owned())
    } else {
        ProxyChoice::Autodetect
    }
}

/// A case as it is recorded.
pub open spec fn recorded_case(
    suite: Seq<char>,
    name: Seq<char>,
    outcome: OutcomeView,
    elapsed_ms: u64,
) -> CaseView {
    CaseView { suite, name, outcome, elapsed_ms }
}

/// The lines of a recorded case.
pub open spec fn case_lines(c: CaseView) -> Seq<Seq<char>> {
    seq![start_case_line(case_name(c.suite, c.name))] + finish_case_lines(c)
}

/// The lines of several recorded cases.
pub open spec fn all_case_lines(cases: Seq<CaseView>) -> Seq<Seq<char>>
    decreases cases.len(),
{
    if cases.len() == 0 {
        Seq::empty()
    } else {
        all_case_lines(cases.drop_last()) + case_lines(cases.last())
    }
}

/// Records a case that has ended after `elapsed_ms`; the lines to print.
pub fn run_one(
    reporter: &mut Reporter,
    suite: &str,
    name: &str,
    outcome: Outcome,
    elapsed_ms: u64,
) -> (r: Vec<String>)
    ensures
        final(reporter)@ == old(reporter)@.push(recorded_case(suite@, name@, outcome@, elapsed_ms)),
        texts(r@) == case_lines(recorded_case(suite@, name@, outcome@, elapsed_ms)),
{
    let result = CaseResult {
        suite: suite.to_owned(),
        name: name.to_owned(),
        outcome,
        elapsed_ms,
    };
    let full = result.full_name();
    let mut lines: Vec<String> = Vec::new();
    lines.push(Reporter::start_case(full.as_str()));
    let ghost first = texts(lines@);
    let mut more = reporter.finish_case(result);
    let ghost second = texts(more@);
    lines.append(&mut more);
    proof {
        assert(first =~= seq![start_case_line(case_name(suite@, name@))]);
        assert(texts(lines@) =~= first + second);
    }
    lines
}

/// Records a case of the interactive phase that has ended after `elapsed_ms`; the lines to print.
pub fn record(
    reporter: &mut Reporter,
    suite: &str,
    name: &str,
    outcome: Outcome,
    elapsed_ms: u64,
) -> (r: Vec<String>)
    ensures
        final(reporter)@ == old(reporter)@.push(recorded_case(suite@, name@, outcome@, elapsed_ms)),
        texts(r@) == case_lines(recorded_case(suite@, name@, outcome@, elapsed_ms)),
{
    run_one(reporter, suite, name, outcome, elapsed_ms)
}

/// The cases of the standard suite, in their order.
pub open spec fn standard_suite() -> Seq<Seq<char>> {
    seq![
        "shell_echo"@,
        "shell_exit_code"@,
        "push_pull_roundtrip"@,
        "list_scratch_dir"@,
        "stat_root"@,
    ]
}

/// The cases of a suite, all of them skipped for this reason.
pub open spec fn skipped_cases(
    suite: Seq<char>,
    names: Seq<Seq<char>>,
    reason: Seq<char>,
) -> Seq<CaseView> {
    names.map_values(
        |name: Seq<char>| recorded_case(suite, name, OutcomeView::Skipped(reason), 0),
    )
}

/// Records every case of the standard suite as skipped; the lines to print.
pub fn skip_suite(reporter: &mut Reporter, suite: &str, reason: &str) -> (r: Vec<String>)
    ensures
        final(reporter)@ == old(reporter)@ + skipped_cases(suite@, standard_suite(), reason@),
        texts(r@) == all_case_lines(skipped_cases(suite@, standard_suite(), reason@)),
{
    let ghost all = skipped_cases(suite@, standard_suite(), reason@);
    let names: [&str; 5] = [
        "shell_echo",
        "shell_exit_code",
        "push_pull_roundtrip",
        "list_scratch_dir",
        "stat_root",
    ];
    let mut lines: Vec<String> = Vec::new();
    let mut i: usize = 0;
    assert(all.take(0) =~= Seq::empty());
    assert(texts(lines@) =~= all_case_lines(all.take(0)));
    assert(reporter@ =~= old(reporter)@ + all.take(0));
    while i < 5
        invariant
            i <= 5,
            all == skipped_cases(suite@, standard_suite(), reason@),
            all.len() == 5,
            names@.len() == 5,
            forall|j: int| 0 <= j < 5 ==> (#[trigger] names@[j])@ == standard_suite()[j],
            reporter@ == old(reporter)@ + all.take(i as int),
            texts(lines@) == all_case_lines(all.take(i as int)),
        decreases 5 - i,
    {
        let ghost before = texts(lines@);
        let ghost recorded = reporter@;
        let name = names[i];
        let mut more = run_one(reporter, suite, name, Outcome::Skipped(reason.to_owned()), 0);
        let ghost added = texts(more@);
        lines.append(&mut more);
        proof {
            assert(names@[i as int]@ == standard_suite()[i as int]);
            let c = recorded_case(suite@, name@, OutcomeView::Skipped(reason@), 0);
            assert(c == all[i as int]);
            assert(all.take(i + 1).drop_last() =~= all.take(i as int));
            assert(all.take(i + 1).last() == all[i as int]);
            assert(texts(lines@) =~= before + added);
            assert(reporter@ =~= old(reporter)@ + all.take(i + 1));
        }
        i += 1;
    }
    assert(all.take(5) =~= all);
    lines
}

/// The reason why the case over TCP is skipped.
pub open spec fn tcpip_reason() -> Seq<char> {
    "tcpip channel not implemented yet (pre-wired; pending emulator debug env)"@
}

/// The case over TCP, which is skipped.
pub open spec fn tcpip_case() -> CaseView {
    recorded_case("tcpip"@, "shell_echo"@, OutcomeView::Skipped(tcpip_reason()), 0)
}

/// Records the case over TCP as skipped; the lines to print.
pub fn report_tcpip_skipped(reporter: &mut Reporter) -> (r: Vec<String>)
    ensures
        final(reporter)@ == old(reporter)@.push(tcpip_case()),
        texts(r@) == case_lines(tcpip_case()),
{
    run_one(
        reporter,
        "tcpip",
        "shell_echo",
        Outcome::Skipped(
            "tcpip channel not implemented yet (pre-wired; pending emulator debug env)".to_owned(),
        ),
        0,
    )
}

/// The reason for a failure when the connection's reader is dead.
pub open spec fn reader_dead_reason() -> Seq<char> {
    "persistent connection died: USB reader task exited (e.g. the OS aborted the device claim). The remaining usb_direct cases cannot run on this connection."@
}

/// The outcome of a case that cannot run because the reader is dead before it.
pub open spec fn short_circuit(alive_before: bool) -> Option<OutcomeView> {
    if alive_before {
        None
    } else {
        Some(OutcomeView::Failed(reader_dead_reason()))
    }
}

/// The contents of an outcome that there may be.
pub open spec fn opt_outcome(o: Option<Outcome>) -> Option<OutcomeView> {
    match o {
        Some(o) => Some(o@),
        None => None,
    }
}

/// The outcome of a case that cannot run because the reader is dead before it; `None`
/// if the reader lives and the case is to run.
pub fn reader_dead_short_circuit(alive_before: bool) -> (r: Option<Outcome>)
    ensures
        opt_outcome(r) == short_circuit(alive_before),
{
    if alive_before {
        None
    } else {
        Some(
            Outcome::Failed(
                "persistent connection died: USB reader task exited (e.g. the OS aborted the device claim). The remaining usb_direct cases cannot run on this connection.".to_owned(),
            ),
        )
    }
}

/// The outcome with its cause, where the cause is that the reader died.
pub open spec fn annotated(alive_after: bool, outcome: OutcomeView) -> OutcomeView {
    match outcome {
        OutcomeView::Failed(reason) => if alive_after {
            outcome
        } else {
            OutcomeView::Failed(reader_dead_reason() + " (underlying: "@ + reason + ")"@)
        },
        _ => outcome,
    }
}

/// Names the cause of a failure if it is that the reader died during the case. Every
/// other outcome is left as it is.
pub fn annotate_if_reader_died(alive_after: bool, outcome: Outcome) -> (r: Outcome)
    ensures
        r@ == annotated(alive_after, outcome@),
{
    match outcome {
        Outcome::Failed(reason) => if alive_after {
            Outcome::Failed(reason)
        } else {
            let mut text = concat3(
                "persistent connection died: USB reader task exited (e.g. the OS aborted the device claim). The remaining usb_direct cases cannot run on this connection.",
                " (underlying: ",
                reason.as_str(),
            );
            text.append(")");
            Outcome::Failed(text)
        },
        other => other,
    }
}

/// Annotation never turns a failure into anything else, nor anything else into a
/// failure.
pub proof fn annotation_keeps_the_ending(alive_after: bool, outcome: OutcomeView)
    ensures
        annotated(alive_after, outcome).ending() == outcome.ending(),
        !(outcome is Failed) ==> annotated(alive_after, outcome) == outcome,
        alive_after ==> annotated(alive_after, outcome) == outcome,
{
}

/// A device that was found for the self-test.
#[derive(Debug, PartialEq, Eq)]
pub struct DiscoveredDevice {
    /// The serial; a device without one is listed but not tested.
    pub serial: Option<String>,
    /// What the device is.
    pub description: String,
}

/// The contents of a [`DiscoveredDevice`].
pub struct DiscoveredView {
    pub serial: Option<Seq<char>>,
    pub description: Seq<char>,
}

impl View for DiscoveredDevice {
    type V = DiscoveredView;

    open spec fn view(&self) -> DiscoveredView {
        DiscoveredView { serial: opt_text(self.serial), description: self.description@ }
    }
}

impl Clone for DiscoveredDevice {
    fn clone(&self) -> (r: Self)
        ensures
            r@ == self@,
    {
        DiscoveredDevice {
            serial: clone_opt(&self.serial),
            description: self.description.clone(),
        }
    }
}

/// The contents of a list of devices that were found.
pub open spec fn discovered_views(v: Seq<DiscoveredDevice>) -> Seq<DiscoveredView> {
    v.map_values(|d: DiscoveredDevice| d@)
}

/// The serials of the devices that have one, in their order.
pub open spec fn addressable(devices: Seq<DiscoveredView>) -> Seq<Seq<char>>
    decreases devices.len(),
{
    if devices.len() == 0 {
        Seq::empty()
    } else {
        match devices.last().serial {
            Some(s) => addressable(devices.drop_last()).push(s),
            None => addressable(devices.drop_last()),
        }
    }
}

/// The serials of the devices that have one, in their order.
pub fn addressable_serials(devices: &Vec<DiscoveredDevice>) -> (r: Vec<String>)
    ensures
        texts(r@) == addressable(discovered_views(devices@)),
        r@.len() <= devices@.len(),
{
    let ghost all = discovered_views(devices@);
    let mut r: Vec<String> = Vec::new();
    let mut i: usize = 0;
    assert(all.take(0) =~= Seq::empty());
    assert(texts(r@) =~= Seq::empty());
    while i < devices.len()
        invariant
            i <= devices.len(),
            all == discovered_views(devices@),
            r@.len() <= i,
            texts(r@) == addressable(all.take(i as int)),
        decreases devices.len() - i,
    {
        let ghost before = texts(r@);
        proof {
            assert(all.take(i + 1).drop_last() =~= all.take(i as int));
            assert(all.take(i + 1).last() == devices@[i as int]@);
        }
        if let Some(s) = &devices[i].serial {
            r.push(s.clone());
            assert(texts(r@) =~= before.push(s@));
        }
        i += 1;
    }
    assert(all.take(devices.len() as int) =~= all);
    r
}

/// The line that lists a device.
pub open spec fn discovered_line(d: DiscoveredView) -> Seq<char> {
    "  - "@ + (match d.serial {
        Some(s) => s,
        None => "<no-serial>"@,
    }) + "  ("@ + d.description + ")"@
}

/// The lines that list what was found.
pub open spec fn discovery_lines(devices: Seq<DiscoveredView>) -> Seq<Seq<char>> {
    seq![
        "Detected "@ + decimal(devices.len()) + " ADB device(s); "@ + decimal(
            addressable(devices).len(),
        ) + " addressable by serial."@,
    ] + devices.map_values(|d: DiscoveredView| discovered_line(d))
}

/// The lines that list what was found.
pub fn list_discovered(devices: &Vec<DiscoveredDevice>) -> (r: Vec<String>)
    ensures
        texts(r@) == discovery_lines(discovered_views(devices@)),
{
    let ghost all = discovered_views(devices@);
    let ghost lines = all.map_values(|d: DiscoveredView| discovered_line(d));
    let serials = addressable_serials(devices);
    assert(texts(serials@).len() == serials.len());
    let mut first = concat3("Detected ", decimal_string(devices.len() as u64).as_str(),
        " ADB device(s); ");
    first.append(decimal_string(serials.len() as u64).as_str());
    first.append(" addressable by serial.");
    let ghost head = seq![first@];
    let mut r: Vec<String> = Vec::new();
    r.push(first);
    let mut i: usize = 0;
    assert(texts(r@) =~= head + lines.take(0));
    while i < devices.len()
        invariant
            i <= devices.len(),
            all == discovered_views(devices@),
            lines == all.map_values(|d: DiscoveredView| discovered_line(d)),
            texts(r@) == head + lines.take(i as int),
        decreases devices.len() - i,
    {
        let ghost before = texts(r@);
        let mut line = "  - ".to_owned();
        match &devices[i].serial {
            Some(s) => line.append(s.as_str()),
            None => line.append("<no-serial>"),
        }
        line.append("  (");
        line.append(devices[i].description.as_str());
        line.append(")");
        r.push(line);
        proof {
            assert(all[i as int] == devices@[i as int]@);
            assert(line@ =~= discovered_line(all[i as int]));
            assert(lines[i as int] == line@);
            assert(texts(r@) =~= before.push(line@));
            assert(lines.take(i + 1) =~= lines.take(i as int).push(line@));
            assert(head + lines.take(i as int).push(line@) =~= (head + lines.take(
                i as int,
            )).push(line@));
        }
        i += 1;
    }
    assert(lines.take(devices.len() as int) =~= lines);
    r
}

/// What a self-test run begins with.
#[derive(Debug, PartialEq, Eq)]
pub struct RunPlan {
    /// The devices to test.
    pub serials: Vec<String>,
    /// Whether there are several of them.
    pub multi: bool,
    /// The lines to print first.
    pub lines: Vec<String>,
}

/// Why a self-test run does not begin, with the lines to print first.
#[derive(Debug, PartialEq, Eq)]
pub struct RunRefusal {
    /// The lines to print first.
    pub lines: Vec<String>,
    /// The reason.
    pub reason: String,
}

/// The line that names the scenario.
pub open spec fn scenario_line(multi: bool) -> Seq<char> {
    "Scenario: "@ + (if multi {
        "multi"@
    } else {
        "single"@
    }) + " device."@
}

/// What a self-test run over these devices begins with.
pub open spec fn begins_with(all: Seq<DiscoveredView>, p: RunPlan) -> bool {
    let serials = addressable(all);
    &&& serials.len() > 0
    &&& texts(p.serials@) == serials
    &&& p.multi == (serials.len() > 1)
    &&& texts(p.lines@) == discovery_lines(all) + seq![
        scenario_line(serials.len() > 1),
        start_run_line(serials.len() * (ESTIMATED_CASES_PER_DEVICE as nat)),
    ]
}

/// Why a self-test run over these devices does not begin.
pub open spec fn is_refused(all: Seq<DiscoveredView>, e: RunRefusal) -> bool {
    &&& addressable(all).len() == 0
    &&& all.len() == 0 ==> texts(e.lines@) == Seq::<Seq<char>>::empty() && e.reason@
        == "no ADB device detected \u{2014} connect a device (and authorize it) before running selftest"@
    &&& all.len() > 0 ==> texts(e.lines@) == discovery_lines(all) && e.reason@
        == "no device exposes a serial; cannot address any device for testing"@
}

/// Decides what a self-test run begins with: it needs at least one device that has a
/// serial.
pub fn plan_run(devices: &Vec<DiscoveredDevice>) -> (r: Result<RunPlan, RunRefusal>)
    requires
        devices@.len() * ESTIMATED_CASES_PER_DEVICE <= usize::MAX,
    ensures
        match r {
            Ok(p) => begins_with(discovered_views(devices@), p),
            Err(e) => is_refused(discovered_views(devices@), e),
        },
{
    if devices.len() == 0 {
        let lines: Vec<String> = Vec::new();
        assert(texts(lines@) =~= Seq::empty());
        assert(discovered_views(devices@) =~= Seq::empty());
        return Err(
            RunRefusal {
                lines,
                reason: "no ADB device detected \u{2014} connect a device (and authorize it) before running selftest".to_owned(),
            },
        );
    }
    let serials = addressable_serials(devices);
    assert(texts(serials@).len() == serials.len());
    let mut lines = list_discovered(devices);
    if serials.len() == 0 {
        return Err(
            RunRefusal {
                lines,
                reason: "no device exposes a serial; cannot address any device for testing".to_owned(),
            },
        );
    }
    let multi = serials.len() > 1;
    let ghost head = texts(lines@);
    let scenario = concat3(
        "Scenario: ",
        if multi {
            "multi"
        } else {
            "single"
        },
        " device.",
    );
    assert(serials.len() * ESTIMATED_CASES_PER_DEVICE <= devices@.len()
        * ESTIMATED_CASES_PER_DEVICE) by (nonlinear_arith)
        requires
            serials.len() <= devices@.len(),
    ;
    let start = Reporter::start_run(serials.len() * estimated_cases_per_device());
    lines.push(scenario);
    lines.push(start);
    assert(texts(lines@) =~= head + seq![scenario@, start@]);
    Ok(RunPlan { serials, multi, lines })
}

/// A part of a self-test run.
#[derive(Debug, PartialEq, Eq)]
pub enum Phase {
    /// Wait until the system has retired the last claim on a device.
    Settle(u64),
    /// Run the direct suite on this device, over a connection of its own.
    UsbDirect(String),
    /// Start the in-process server, which claims all devices for itself.
    StartServer,
    /// Run the suite through the server on this device.
    ThroughServer(String),
    /// Ask for a shell without naming one of several devices.
    AmbiguousParity,
    /// Stop the server.
    StopServer,
    /// Record the case over TCP as skipped.
    TcpipSkipped,
    /// Run the cases that need an operator.
    Interactive,
    /// Say that these are left out.
    NoInteractive,
}

/// The contents of a [`Phase`].
pub enum PhaseView {
    Settle(u64),
    UsbDirect(Seq<char>),
    StartServer,
    ThroughServer(Seq<char>),
    AmbiguousParity,
    StopServer,
    TcpipSkipped,
    Interactive,
    NoInteractive,
}

impl View for Phase {
    type V = PhaseView;

    open spec fn view(&self) -> PhaseView {
        match self {
            Phase::Settle(ms) => PhaseView::Settle(*ms),
            Phase::UsbDirect(s) => PhaseView::UsbDirect(s@),
            Phase::StartServer => PhaseView::StartServer,
            Phase::ThroughServer(s) => PhaseView::ThroughServer(s@),
            Phase::AmbiguousParity => PhaseView::AmbiguousParity,
            Phase::StopServer => PhaseView::StopServer,
            Phase::TcpipSkipped => PhaseView::TcpipSkipped,
            Phase::Interactive => PhaseView::Interactive,
            Phase::NoInteractive => PhaseView::NoInteractive,
        }
    }
}

/// The contents of a list of phases.
pub open spec fn phase_views(v: Seq<Phase>) -> Seq<PhaseView> {
    v.map_values(|p: Phase| p@)
}

/// The direct suites, one device after the other with a pause between them.
pub open spec fn direct_phases(serials: Seq<Seq<char>>) -> Seq<PhaseView>
    decreases serials.len(),
{
    if serials.len() == 0 {
        Seq::empty()
    } else {
        let before = direct_phases(serials.drop_last());
        let settled = if serials.len() > 1 {
            before.push(PhaseView::Settle(USB_DIRECT_INTER_DEVICE_SETTLE_MS))
        } else {
            before
        };
        settled.push(PhaseView::UsbDirect(serials.last()))
    }
}

/// The suites through the server.
pub open spec fn through_phases(serials: Seq<Seq<char>>) -> Seq<PhaseView> {
    serials.map_values(|s: Seq<char>| PhaseView::ThroughServer(s))
}

/// What happens while the server runs.
pub open spec fn server_phases(serials: Seq<Seq<char>>) -> Seq<PhaseView> {
    let suites = seq![PhaseView::Settle(SERVER_START_SETTLE_MS), PhaseView::StartServer]
        + through_phases(serials);
    if serials.len() > 1 {
        suites + seq![PhaseView::AmbiguousParity, PhaseView::StopServer]
    } else {
        suites + seq![PhaseView::StopServer]
    }
}

/// A whole run.
pub open spec fn all_phases(serials: Seq<Seq<char>>, interactive: bool) -> Seq<PhaseView> {
    direct_phases(serials) + server_phases(serials) + seq![
        PhaseView::TcpipSkipped,
        if interactive {
            PhaseView::Interactive
        } else {
            PhaseView::NoInteractive
        },
    ]
}

/// The phases of a run over these devices. A USB device can be claimed only once, so
/// all direct suites come before the server starts.
pub fn run_phases(serials: &Vec<String>, interactive: bool) -> (r: Vec<Phase>)
    ensures
        phase_views(r@) == all_phases(texts(serials@), interactive),
{
    let ghost t = texts(serials@);
    let mut r: Vec<Phase> = Vec::new();
    let mut i: usize = 0;
    assert(t.take(0) =~= Seq::empty());
    assert(phase_views(r@) =~= Seq::empty());
    while i < serials.len()
        invariant
            i <= serials.len(),
            t == texts(serials@),
            phase_views(r@) == direct_phases(t.take(i as int)),
        decreases serials.len() - i,
    {
        proof {
            assert(t.take(i + 1).drop_last() =~= t.take(i as int));
            assert(t.take(i + 1).last() == serials@[i as int]@);
        }
        let ghost before = phase_views(r@);
        if i > 0 {
            r.push(Phase::Settle(USB_DIRECT_INTER_DEVICE_SETTLE_MS));
            assert(phase_views(r@) =~= before.push(
                PhaseView::Settle(USB_DIRECT_INTER_DEVICE_SETTLE_MS),
            ));
        }
        let ghost settled = phase_views(r@);
        r.push(Phase::UsbDirect(serials[i].clone()));
        assert(phase_views(r@) =~= settled.push(PhaseView::UsbDirect(serials@[i as int]@)));
        i += 1;
    }
    assert(t.take(serials.len() as int) =~= t);
    let ghost direct = phase_views(r@);
    let ghost through = through_phases(t);
    let ghost start = seq![PhaseView::Settle(SERVER_START_SETTLE_MS), PhaseView::StartServer];
    r.push(Phase::Settle(SERVER_START_SETTLE_MS));
    r.push(Phase::StartServer);
    let mut k: usize = 0;
    assert(phase_views(r@) =~= direct + (start + through.take(0)));
    while k < serials.len()
        invariant
            k <= serials.len(),
            t == texts(serials@),
            through == through_phases(t),
            phase_views(r@) == direct + (start + through.take(k as int)),
        decreases serials.len() - k,
    {
        let ghost before = phase_views(r@);
        r.push(Phase::ThroughServer(serials[k].clone()));
        proof {
            let p = PhaseView::ThroughServer(serials@[k as int]@);
            assert(phase_views(r@) =~= before.push(p));
            assert(through[k as int] == p);
            assert(phase_views(r@) =~= direct + (start + through.take(k + 1)));
        }
        k += 1;
    }
    assert(through.take(serials.len() as int) =~= through);
    assert(t.len() == serials.len());
    let ghost suites = phase_views(r@);
    if serials.len() > 1 {
        r.push(Phase::AmbiguousParity);
        r.push(Phase::StopServer);
        assert(phase_views(r@) =~= suites + seq![
            PhaseView::AmbiguousParity,
            PhaseView::StopServer,
        ]);
    } else {
        r.push(Phase::StopServer);
        assert(phase_views(r@) =~= suites + seq![PhaseView::StopServer]);
    }
    assert(phase_views(r@) =~= direct + server_phases(t));
    let ghost served = phase_views(r@);
    r.push(Phase::TcpipSkipped);
    let last = if interactive {
        Phase::Interactive
    } else {
        Phase::NoInteractive
    };
    r.push(last);
    assert(phase_views(r@) =~= served + seq![PhaseView::TcpipSkipped, last@]);
    r
}

/// No direct suite runs once the server has started: the server's claims and a direct
/// one would collide.
pub proof fn direct_suites_come_first(serials: Seq<Seq<char>>, interactive: bool, i: int, j: int)
    requires
        0 <= i < all_phases(serials, interactive).len(),
        0 <= j < all_phases(serials, interactive).len(),
        all_phases(serials, interactive)[i] is UsbDirect,
        all_phases(serials, interactive)[j] is StartServer,
    ensures
        i < j,
{
    let direct = direct_phases(serials);
    direct_phases_are_direct(serials);
    let all = all_phases(serials, interactive);
    if j < direct.len() {
        assert(all[j] == direct[j]);
    }
    if i >= direct.len() {
        let k = i - direct.len();
        let server = server_phases(serials);
        if k < server.len() {
            assert(all[i] == server[k]);
        }
    }
}

/// The direct suites and the pauses between them are nothing else.
proof fn direct_phases_are_direct(serials: Seq<Seq<char>>)
    ensures
        forall|i: int|
            0 <= i < direct_phases(serials).len() ==> (#[trigger] direct_phases(serials)[i])
                is UsbDirect || direct_phases(serials)[i] is Settle,
    decreases serials.len(),
{
    if serials.len() > 0 {
        direct_phases_are_direct(serials.drop_last());
    }
}

/// Every device is tested directly and through the server.
pub proof fn every_device_is_tested(serials: Seq<Seq<char>>, interactive: bool, k: int)
    requires
        0 <= k < serials.len(),
    ensures
        all_phases(serials, interactive).contains(PhaseView::UsbDirect(serials[k])),
        all_phases(serials, interactive).contains(PhaseView::ThroughServer(serials[k])),
{
    let direct = direct_phases(serials);
    let server = server_phases(serials);
    let all = all_phases(serials, interactive);
    direct_suite_of(serials, k);
    let i = choose|i: int| 0 <= i < direct.len() && direct[i] == PhaseView::UsbDirect(serials[k]);
    assert(all[i] == direct[i]);
    assert(server[k + 2] == PhaseView::ThroughServer(serials[k]));
    assert(all[direct.len() + k + 2] == server[k + 2]);
}

/// Every device has its direct suite.
proof fn direct_suite_of(serials: Seq<Seq<char>>, k: int)
    requires
        0 <= k < serials.len(),
    ensures
        direct_phases(serials).contains(PhaseView::UsbDirect(serials[k])),
    decreases serials.len(),
{
    let all = direct_phases(serials);
    if k == serials.len() - 1 {
        assert(all[all.len() - 1] == PhaseView::UsbDirect(serials[k]));
    } else {
        let init = serials.drop_last();
        direct_suite_of(init, k);
        let before = direct_phases(init);
        let i = choose|i: int|
            0 <= i < before.len() && before[i] == PhaseView::UsbDirect(init[k]);
        assert(all[i] == before[i]);
    }
}

/// The command line of the self-test.
#[derive(Clone, Copy, Debug, PartialEq, Eq, Structural)]
pub struct SelftestCommand {
    /// Whether to leave out the cases that need an operator.
    pub no_interactive: bool,
}

/// Plans a self-test run: what it begins with, and its phases.
pub fn run(cmd: &SelftestCommand, devices: &Vec<DiscoveredDevice>) -> (r: Result<
    (RunPlan, Vec<Phase>),
    RunRefusal,
>)
    requires
        devices@.len() * ESTIMATED_CASES_PER_DEVICE <= usize::MAX,
    ensures
        match r {
            Ok((plan, phases)) => {
                &&& begins_with(discovered_views(devices@), plan)
                &&& phase_views(phases@) == all_phases(
                    addressable(discovered_views(devices@)),
                    !cmd.no_interactive,
                )
            },
            Err(e) => is_refused(discovered_views(devices@), e),
        },
{
    match plan_run(devices) {
        Ok(plan) => {
            let phases = run_phases(&plan.serials, !cmd.no_interactive);
            Ok((plan, phases))
        },
        Err(e) => Err(e),
    }
}

/// A case that goes through the server.
#[derive(Clone, Copy, Debug, PartialEq, Eq, Structural)]
pub enum ServerCase {
    ShellEcho,
    ShellExitCode,
    PushPullRoundtrip,
    ListScratchDir,
    StatRoot,
    TrackDevicesFamily,
    ForwardAddRemove,
    ReverseEcho,
    ReverseIperf3,
    OfficialAdbShell,
    OfficialAdbAmbiguousShell,
}

/// The suite and the name of a case.
pub open spec fn server_case_names(c: ServerCase) -> (Seq<char>, Seq<char>) {
    match c {
        ServerCase::ShellEcho => ("through_server"@, "shell_echo"@),
        ServerCase::ShellExitCode => ("through_server"@, "shell_exit_code"@),
        ServerCase::PushPullRoundtrip => ("through_server"@, "push_pull_roundtrip"@),
        ServerCase::ListScratchDir => ("through_server"@, "list_scratch_dir"@),
        ServerCase::StatRoot => ("through_server"@, "stat_root"@),
        ServerCase::TrackDevicesFamily => ("through_server"@, "track_devices_family"@),
        ServerCase::ForwardAddRemove => ("through_server"@, "forward_add_remove"@),
        ServerCase::ReverseEcho => ("through_server"@, "reverse_echo"@),
        ServerCase::ReverseIperf3 => ("through_server"@, "reverse_iperf3"@),
        ServerCase::OfficialAdbShell => ("parity"@, "official_adb_shell"@),
        ServerCase::OfficialAdbAmbiguousShell => ("parity"@, "official_adb_ambiguous_shell"@),
    }
}

/// Why a case is skipped where what it needs is not there: a tool on the device, or the
/// official client. The other cases need nothing.
pub open spec fn lacking_reason(c: ServerCase) -> Option<Seq<char>> {
    match c {
        ServerCase::ReverseEcho => Some("device has no `nc` for the reverse echo client"@),
        ServerCase::ReverseIperf3 => Some("device has no `iperf3`"@),
        ServerCase::OfficialAdbShell => Some("official `adb` binary not found on PATH"@),
        ServerCase::OfficialAdbAmbiguousShell => Some("official `adb` binary not found on PATH"@),
        _ => None,
    }
}

/// The outcome of a case where what it needs is not there.
pub open spec fn lacking_outcome(c: ServerCase) -> Option<OutcomeView> {
    match lacking_reason(c) {
        Some(why) => Some(OutcomeView::Skipped(why)),
        None => None,
    }
}

/// The cases that are run through the server on one device, in their order.
pub open spec fn server_cases() -> Seq<ServerCase> {
    seq![
        ServerCase::ShellEcho,
        ServerCase::ShellExitCode,
        ServerCase::PushPullRoundtrip,
        ServerCase::ListScratchDir,
        ServerCase::StatRoot,
        ServerCase::TrackDevicesFamily,
        ServerCase::ForwardAddRemove,
        ServerCase::ReverseEcho,
        ServerCase::ReverseIperf3,
        ServerCase::OfficialAdbShell,
    ]
}

impl ServerCase {
    /// The suite that the case is reported in.
    pub fn suite(&self) -> (r: &'static str)
        ensures
            r@ == server_case_names(*self).0,
    {
        match self {
            ServerCase::OfficialAdbShell => "parity",
            ServerCase::OfficialAdbAmbiguousShell => "parity",
            _ => "through_server",
        }
    }

    /// The name that the case is reported under.
    pub fn name(&self) -> (r: &'static str)
        ensures
            r@ == server_case_names(*self).1,
    {
        match self {
            ServerCase::ShellEcho => "shell_echo",
            ServerCase::ShellExitCode => "shell_exit_code",
            ServerCase::PushPullRoundtrip => "push_pull_roundtrip",
            ServerCase::ListScratchDir => "list_scratch_dir",
            ServerCase::StatRoot => "stat_root",
            ServerCase::TrackDevicesFamily => "track_devices_family",
            ServerCase::ForwardAddRemove => "forward_add_remove",
            ServerCase::ReverseEcho => "reverse_echo",
            ServerCase::ReverseIperf3 => "reverse_iperf3",
            ServerCase::OfficialAdbShell => "official_adb_shell",
            ServerCase::OfficialAdbAmbiguousShell => "official_adb_ambiguous_shell",
        }
    }

    /// The outcome of the case where what it needs is not there.
    pub fn lacking(&self) -> (r: Option<Outcome>)
        ensures
            opt_outcome(r) == lacking_outcome(*self),
    {
        match self {
            ServerCase::ReverseEcho => Some(
                Outcome::Skipped("device has no `nc` for the reverse echo client".to_owned()),
            ),
            ServerCase::ReverseIperf3 => Some(
                Outcome::Skipped("device has no `iperf3`".to_owned()),
            ),
            ServerCase::OfficialAdbShell => Some(
                Outcome::Skipped("official `adb` binary not found on PATH".to_owned()),
            ),
            ServerCase::OfficialAdbAmbiguousShell => Some(
                Outcome::Skipped("official `adb` binary not found on PATH".to_owned()),
            ),
            _ => None,
        }
    }
}

/// The cases that are run through the server on one device, in their order.
pub fn server_suite() -> (r: Vec<ServerCase>)
    ensures
        r@ == server_cases(),
{
    let mut r: Vec<ServerCase> = Vec::new();
    r.push(ServerCase::ShellEcho);
    r.push(ServerCase::ShellExitCode);
    r.push(ServerCase::PushPullRoundtrip);
    r.push(ServerCase::ListScratchDir);
    r.push(ServerCase::StatRoot);
    r.push(ServerCase::TrackDevicesFamily);
    r.push(ServerCase::ForwardAddRemove);
    r.push(ServerCase::ReverseEcho);
    r.push(ServerCase::ReverseIperf3);
    r.push(ServerCase::OfficialAdbShell);
    r
}

/// A case that goes over USB, without a server.
#[derive(Clone, Copy, Debug, PartialEq, Eq, Structural)]
pub enum DirectCase {
    ShellEcho,
    ShellV2,
    PushPullRoundtrip,
}

/// The name of a case.
pub open spec fn direct_case_name(c: DirectCase) -> Seq<char> {
    match c {
        DirectCase::ShellEcho => "shell_echo"@,
        DirectCase::ShellV2 => "shell_v2"@,
        DirectCase::PushPullRoundtrip => "push_pull_roundtrip"@,
    }
}

impl DirectCase {
    /// The name that the case is reported under, in the suite `usb_direct`.
    pub fn name(&self) -> (r: &'static str)
        ensures
            r@ == direct_case_name(*self),
    {
        match self {
            DirectCase::ShellEcho => "shell_echo",
            DirectCase::ShellV2 => "shell_v2",
            DirectCase::PushPullRoundtrip => "push_pull_roundtrip",
        }
    }
}

/// The cases that are run over USB on one device, in their order.
pub open spec fn direct_cases() -> Seq<DirectCase> {
    seq![DirectCase::ShellEcho, DirectCase::ShellV2, DirectCase::PushPullRoundtrip]
}

/// The cases that are run over USB on one device, in their order.
pub fn direct_suite() -> (r: Vec<DirectCase>)
    ensures
        r@ == direct_cases(),
{
    let mut r: Vec<DirectCase> = Vec::new();
    r.push(DirectCase::ShellEcho);
    r.push(DirectCase::ShellV2);
    r.push(DirectCase::PushPullRoundtrip);
    r
}

/// Why the suites of a device are skipped.
pub open spec fn unreachable_text(through_server: bool, error: Seq<char>) -> Seq<char> {
    (if through_server {
        "cannot start in-process server: "@
    } else {
        "cannot open USB device: "@
    }) + error
}

/// Why the suites of a device are skipped: it could not be opened over USB, or the
/// server could not be started.
pub fn unreachable_reason(through_server: bool, error: &str) -> (r: String)
    ensures
        r@ == unreachable_text(through_server, error@),
{
    if through_server {
        concat("cannot start in-process server: ", error)
    } else {
        concat("cannot open USB device: ", error)
    }
}

/// How a run that took place ends for the caller. Cases that failed are no error of the
/// run: they show in the status of the process.
#[derive(Debug, PartialEq, Eq)]
pub struct RunEnd {
    /// The exit status.
    pub status: u8,
    /// A line for the log.
    pub line: Option<String>,
}

/// How a run that took place ends for the caller: the status, and a line for the log.
pub open spec fn run_end(ok: bool) -> (u8, Option<Seq<char>>) {
    if ok {
        (0, None)
    } else {
        (1, Some("selftest completed with failing cases"@))
    }
}

/// How a run that took place ends for the caller.
pub fn run_result(ok: bool) -> (r: RunEnd)
    ensures
        (r.status, opt_text(r.line)) == run_end(ok),
{
    if ok {
        RunEnd { status: 0, line: None }
    } else {
        RunEnd { status: 1, line: Some("selftest completed with failing cases".to_owned()) }
    }
}

} // verus!
