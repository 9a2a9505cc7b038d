//! What a run consists of, and that its report tells what happened.
use vstd::prelude::*;

use crate::cli::commands::ProxyChoice;
use crate::number::decimal;
use crate::selftest::report::{
    case_name, count_of, failed_lines, plural_text, start_run_line, summary_lines, CaseView, Ending,
    OutcomeView,
};
use crate::selftest::suite::{
    addressable, all_case_lines, all_phases, annotated, begins_with, case_lines, direct_case_name,
    direct_cases, direct_phases, discovered_line, discovery_lines, is_refused, is_server_device,
    lacking_outcome, reader_dead_reason, recorded_case, run_end, scenario_line, server_case_names,
    server_cases, server_phases, short_circuit, skipped_cases, standard_suite, tcpip_case,
    unreachable_text, DirectCase, DiscoveredView, PhaseView, RunPlan, RunRefusal, ServerCase,
};
use crate::text::texts;

verus! {

// ---------------------------------------------------------------------------------
// The report
// ---------------------------------------------------------------------------------

/// A case is reported under its full name, with the time it took unless it was skipped, and
/// with the reason unless it passed.
pub proof fn cases_are_reported(
    suite: Seq<char>,
    name: Seq<char>,
    reason: Seq<char>,
    elapsed_ms: u64,
)
    ensures
        ({
            let full = suite + "."@ + name;
            let time = " ("@ + decimal(elapsed_ms as nat) + " ms)"@;
            &&& case_name(suite, name) == full
            &&& case_lines(recorded_case(suite, name, OutcomeView::Passed, elapsed_ms)) == seq![
                "[ RUN      ] "@ + full,
                "[       OK ] "@ + full + time,
            ]
            &&& case_lines(recorded_case(suite, name, OutcomeView::Failed(reason), elapsed_ms))
                == seq![
                "[ RUN      ] "@ + full,
                "[  FAILED  ] "@ + full + time,
                "             "@ + reason,
            ]
            &&& case_lines(recorded_case(suite, name, OutcomeView::Skipped(reason), elapsed_ms))
                == seq![
                "[ RUN      ] "@ + full,
                "[ SKIPPED  ] "@ + full,
                "             "@ + reason,
            ]
        }),
{
}

/// The cases of a run are reported one after the other.
pub proof fn cases_are_reported_in_order(cases: Seq<CaseView>, c: CaseView)
    ensures
        all_case_lines(Seq::empty()) == Seq::<Seq<char>>::empty(),
        all_case_lines(cases.push(c)) == all_case_lines(cases) + case_lines(c),
{
    assert(cases.push(c).drop_last() =~= cases);
}

/// Every case counts once, for the way in which it ended, and a case that failed is listed
/// under its full name.
pub proof fn every_case_counts(results: Seq<CaseView>, c: CaseView, ending: Ending)
    ensures
        count_of(Seq::empty(), ending) == 0,
        failed_lines(Seq::empty()) == Seq::<Seq<char>>::empty(),
        c.outcome.ending() == ending ==> count_of(results.push(c), ending) == count_of(
            results,
            ending,
        ) + 1,
        c.outcome.ending() != ending ==> count_of(results.push(c), ending) == count_of(
            results,
            ending,
        ),
        c.outcome is Failed ==> failed_lines(results.push(c)) == failed_lines(results).push(
            "[  FAILED  ] "@ + (c.suite + "."@ + c.name),
        ),
        !(c.outcome is Failed) ==> failed_lines(results.push(c)) == failed_lines(results),
        c.outcome is Passed <==> c.outcome.ending() == Ending::Passed,
        c.outcome is Failed <==> c.outcome.ending() == Ending::Failed,
        c.outcome is Skipped <==> c.outcome.ending() == Ending::Skipped,
{
    assert(results.push(c).drop_last() =~= results);
}

/// The summary tells how many cases ran and passed, then how many were skipped and how many
/// failed where there are any, and then which failed.
pub proof fn summaries_tell_the_numbers(results: Seq<CaseView>, total_ms: u64)
    ensures
        ({
            let n = results.len();
            let p = count_of(results, Ending::Passed);
            let s = count_of(results, Ending::Skipped);
            let f = count_of(results, Ending::Failed);
            let ran = "[==========] "@ + decimal(n) + " test"@ + plural_text(n) + " ran. ("@
                + decimal(total_ms as nat) + " ms total)"@;
            let passed = "[  PASSED  ] "@ + decimal(p) + " test"@ + plural_text(p) + "."@;
            let skipped = "[ SKIPPED  ] "@ + decimal(s) + " test"@ + plural_text(s) + "."@;
            let failed = "[  FAILED  ] "@ + decimal(f) + " test"@ + plural_text(f)
                + ", listed below:"@;
            &&& s == 0 && f == 0 ==> summary_lines(results, total_ms) == seq![ran, passed]
            &&& s > 0 && f == 0 ==> summary_lines(results, total_ms) == seq![ran, passed, skipped]
            &&& s == 0 && f > 0 ==> summary_lines(results, total_ms) == seq![ran, passed, failed]
                + failed_lines(results)
            &&& s > 0 && f > 0 ==> summary_lines(results, total_ms) == seq![
                ran,
                passed,
                skipped,
                failed,
            ] + failed_lines(results)
        }),
{
}

/// One is told in the singular, every other number in the plural.
pub proof fn numbers_agree_with_their_noun(n: nat)
    ensures
        start_run_line(1) == "[==========] Running "@ + decimal(1) + " test"@ + "."@,
        n != 1 ==> start_run_line(n) == "[==========] Running "@ + decimal(n) + " tests"@ + "."@,
        n != 1 ==> plural_text(n) == "s"@,
        plural_text(1) == ""@,
{
    reveal_strlit("");
    reveal_strlit("s");
    reveal_strlit(" test");
    reveal_strlit(" tests");
    assert(" test"@ + ""@ =~= " test"@);
    assert(" test"@ + "s"@ =~= " tests"@);
    let head = "[==========] Running "@ + decimal(n);
    assert(head + " test"@ + "s"@ =~= head + (" test"@ + "s"@));
    let one = "[==========] Running "@ + decimal(1);
    assert(one + " test"@ + ""@ =~= one + (" test"@ + ""@));
}

// ---------------------------------------------------------------------------------
// The cases
// ---------------------------------------------------------------------------------

/// A suite that cannot run has all its cases skipped, in their order and for the reason
/// that was given.
pub proof fn suites_are_skipped_as_a_whole(suite: Seq<char>, reason: Seq<char>, i: int)
    requires
        0 <= i < standard_suite().len(),
    ensures
        ({
            let cases = skipped_cases(suite, standard_suite(), reason);
            &&& cases.len() == standard_suite().len()
            &&& cases[i].suite == suite
            &&& cases[i].name == standard_suite()[i]
            &&& cases[i].outcome == OutcomeView::Skipped(reason)
            &&& cases[i].elapsed_ms == 0
        }),
        standard_suite() == seq![
            server_case_names(ServerCase::ShellEcho).1,
            server_case_names(ServerCase::ShellExitCode).1,
            server_case_names(ServerCase::PushPullRoundtrip).1,
            server_case_names(ServerCase::ListScratchDir).1,
            server_case_names(ServerCase::StatRoot).1,
        ],
{
}

/// The case over TCP is skipped, and never anything else.
pub proof fn the_case_over_tcp_is_skipped()
    ensures
        tcpip_case().suite == "tcpip"@,
        tcpip_case().name == "shell_echo"@,
        tcpip_case().outcome is Skipped,
        tcpip_case().elapsed_ms == 0,
{
}

/// A case does not run on a connection that is dead, and fails for that; on one that lives
/// it runs. A failure during which the connection died says so and keeps its own reason.
pub proof fn dead_connections_fail_their_cases(reason: Seq<char>)
    ensures
        short_circuit(true) == None::<OutcomeView>,
        short_circuit(false) == Some(OutcomeView::Failed(reader_dead_reason())),
        annotated(true, OutcomeView::Failed(reason)) == OutcomeView::Failed(reason),
        annotated(false, OutcomeView::Failed(reason)) == OutcomeView::Failed(
            reader_dead_reason() + " (underlying: "@ + reason + ")"@,
        ),
        annotated(false, OutcomeView::Passed) == OutcomeView::Passed,
        annotated(false, OutcomeView::Skipped(reason)) == OutcomeView::Skipped(reason),
{
}

/// With several devices the server is asked for the one that is tested, by its serial; with
/// one it is asked for the only one.
pub proof fn the_server_is_asked_for_the_device(serial: Seq<char>, r: ProxyChoice)
    ensures
        is_server_device(serial, true, r) <==> r is Serial && r->Serial_0@ == serial,
        is_server_device(serial, false, r) <==> r is Autodetect,
{
}

/// Every case through the server runs once on a device, the plain ones first and the
/// official client last. That without a device named is for several devices and runs apart.
pub proof fn every_server_case_runs_once(c: ServerCase, i: int, j: int)
    ensures
        server_cases().contains(c) <==> c != ServerCase::OfficialAdbAmbiguousShell,
        0 <= i < j < server_cases().len() ==> server_cases()[i] != server_cases()[j],
        server_cases()[0] == ServerCase::ShellEcho,
        server_cases().last() == ServerCase::OfficialAdbShell,
{
    let all = server_cases();
    assert(all[0] == ServerCase::ShellEcho);
    assert(all[1] == ServerCase::ShellExitCode);
    assert(all[2] == ServerCase::PushPullRoundtrip);
    assert(all[3] == ServerCase::ListScratchDir);
    assert(all[4] == ServerCase::StatRoot);
    assert(all[5] == ServerCase::TrackDevicesFamily);
    assert(all[6] == ServerCase::ForwardAddRemove);
    assert(all[7] == ServerCase::ReverseEcho);
    assert(all[8] == ServerCase::ReverseIperf3);
    assert(all[9] == ServerCase::OfficialAdbShell);
}

/// Every case over USB runs once on a device.
pub proof fn every_direct_case_runs_once(c: DirectCase, i: int, j: int)
    ensures
        direct_cases().contains(c),
        0 <= i < j < direct_cases().len() ==> direct_cases()[i] != direct_cases()[j],
        direct_cases()[0] == DirectCase::ShellEcho,
        direct_case_name(DirectCase::ShellEcho) == server_case_names(ServerCase::ShellEcho).1,
        direct_case_name(DirectCase::PushPullRoundtrip) == server_case_names(
            ServerCase::PushPullRoundtrip,
        ).1,
{
    let all = direct_cases();
    assert(all[0] == DirectCase::ShellEcho);
    assert(all[1] == DirectCase::ShellV2);
    assert(all[2] == DirectCase::PushPullRoundtrip);
}

/// A case is skipped for want of something only if it needs a tool on the device or the
/// official client; the reason names it.
pub proof fn only_cases_that_need_something_lack_it(c: ServerCase)
    ensures
        lacking_outcome(c) is Some <==> c == ServerCase::ReverseEcho || c
            == ServerCase::ReverseIperf3 || server_case_names(c).0 == "parity"@,
        lacking_outcome(c) is Some ==> lacking_outcome(c)->Some_0 is Skipped,
        lacking_outcome(ServerCase::ReverseEcho) == Some(
            OutcomeView::Skipped("device has no `nc` for the reverse echo client"@),
        ),
        lacking_outcome(ServerCase::ReverseIperf3) == Some(
            OutcomeView::Skipped("device has no `iperf3`"@),
        ),
        lacking_outcome(ServerCase::OfficialAdbShell) == Some(
            OutcomeView::Skipped("official `adb` binary not found on PATH"@),
        ),
        lacking_outcome(ServerCase::OfficialAdbAmbiguousShell) == lacking_outcome(
            ServerCase::OfficialAdbShell,
        ),
{
    reveal_strlit("parity");
    reveal_strlit("through_server");
    assert("parity"@.len() == 6);
    assert("through_server"@.len() == 14);
}

/// A device that cannot be reached is told with the way to it and the reason.
pub proof fn unreachable_devices_are_told(error: Seq<char>)
    ensures
        unreachable_text(true, error) == "cannot start in-process server: "@ + error,
        unreachable_text(false, error) == "cannot open USB device: "@ + error,
{
}

/// The process ends with zero exactly if nothing failed; only a failure is told of.
pub proof fn the_status_tells_of_failures(ok: bool)
    ensures
        run_end(ok).0 == 0 <==> ok,
        run_end(false) == (1u8, Some("selftest completed with failing cases"@)),
        run_end(true).1 is None,
{
}

// ---------------------------------------------------------------------------------
// The run
// ---------------------------------------------------------------------------------

/// Devices with a serial are tested, in the order in which they were found; others are
/// not.
pub proof fn devices_with_a_serial_are_tested(
    devices: Seq<DiscoveredView>,
    serial: Seq<char>,
    description: Seq<char>,
)
    ensures
        addressable(Seq::empty()) == Seq::<Seq<char>>::empty(),
        addressable(devices.push(DiscoveredView { serial: Some(serial), description }))
            == addressable(devices).push(serial),
        addressable(devices.push(DiscoveredView { serial: None, description })) == addressable(
            devices,
        ),
{
    assert(devices.push(DiscoveredView { serial: Some(serial), description }).drop_last()
        =~= devices);
    assert(devices.push(DiscoveredView { serial: None, description }).drop_last() =~= devices);
}

/// What was found is listed: how many devices there are and how many can be tested, and then
/// every device, with its serial or the remark that it has none.
pub proof fn finds_are_listed(devices: Seq<DiscoveredView>, i: int)
    ensures
        discovery_lines(devices).len() == devices.len() + 1,
        discovery_lines(devices)[0] == "Detected "@ + decimal(devices.len()) + " ADB device(s); "@
            + decimal(addressable(devices).len()) + " addressable by serial."@,
        0 <= i < devices.len() && devices[i].serial is Some ==> discovery_lines(devices)[i + 1]
            == "  - "@ + devices[i].serial->Some_0 + "  ("@ + devices[i].description + ")"@,
        0 <= i < devices.len() && devices[i].serial is None ==> discovery_lines(devices)[i + 1]
            == "  - "@ + "<no-serial>"@ + "  ("@ + devices[i].description + ")"@,
{
    if 0 <= i < devices.len() {
        assert(discovery_lines(devices)[i + 1] == discovered_line(devices[i]));
    }
}

/// A run begins exactly if a device can be tested. It tests them all, and says which of the
/// two scenarios it is and how many cases it expects.
pub proof fn runs_begin_with_their_devices(
    all: Seq<DiscoveredView>,
    p: RunPlan,
    e: RunRefusal,
)
    ensures
        begins_with(all, p) ==> {
            &&& addressable(all).len() > 0
            &&& texts(p.serials@) == addressable(all)
            &&& p.multi <==> addressable(all).len() >= 2
            &&& texts(p.lines@).len() == discovery_lines(all).len() + 2
            &&& texts(p.lines@).take(discovery_lines(all).len() as int) == discovery_lines(all)
            &&& texts(p.lines@)[discovery_lines(all).len() as int] == scenario_line(p.multi)
            &&& texts(p.lines@).last() == start_run_line(10 * addressable(all).len())
        },
        is_refused(all, e) ==> addressable(all).len() == 0,
        is_refused(all, e) && all.len() > 0 ==> texts(e.lines@) == discovery_lines(all)
            && e.reason@ == "no device exposes a serial; cannot address any device for testing"@,
        is_refused(Seq::empty(), e) ==> e.lines@.len() == 0,
        scenario_line(true) == "Scenario: multi device."@,
        scenario_line(false) == "Scenario: single device."@,
{
    reveal_strlit("Scenario: ");
    reveal_strlit("multi");
    reveal_strlit("single");
    reveal_strlit(" device.");
    reveal_strlit("Scenario: multi device.");
    reveal_strlit("Scenario: single device.");
    assert(scenario_line(true) =~= "Scenario: multi device."@);
    assert(scenario_line(false) =~= "Scenario: single device."@);
    if is_refused(Seq::empty(), e) {
        assert(texts(e.lines@).len() == 0);
    }
    if begins_with(all, p) {
        assert(texts(p.lines@).take(discovery_lines(all).len() as int) =~= discovery_lines(all));
    }
}

/// The direct suites run one after the other, with a pause before each but the first.
pub proof fn direct_suites_are_apart(serials: Seq<Seq<char>>, serial: Seq<char>)
    ensures
        direct_phases(Seq::empty()) == Seq::<PhaseView>::empty(),
        direct_phases(seq![serial]) == seq![PhaseView::UsbDirect(serial)],
        serials.len() > 0 ==> direct_phases(serials.push(serial)) == direct_phases(serials) + seq![
            PhaseView::Settle(300),
            PhaseView::UsbDirect(serial),
        ],
{
    assert(serials.push(serial).drop_last() =~= serials);
    assert(seq![serial].drop_last() =~= Seq::<Seq<char>>::empty());
    assert(direct_phases(Seq::<Seq<char>>::empty()) =~= Seq::empty());
    if serials.len() > 0 {
        assert(direct_phases(serials.push(serial)) =~= direct_phases(serials) + seq![
            PhaseView::Settle(300),
            PhaseView::UsbDirect(serial),
        ]);
    }
}

/// The server is started after a pause, serves the suites of all devices in their order,
/// then, with several devices, the case without a device named, and is stopped.
pub proof fn the_server_serves_every_suite(serials: Seq<Seq<char>>, i: int)
    ensures
        ({
            let phases = server_phases(serials);
            &&& phases[0] == PhaseView::Settle(200)
            &&& phases[1] == PhaseView::StartServer
            &&& 0 <= i < serials.len() ==> phases[i + 2] == PhaseView::ThroughServer(serials[i])
            &&& phases.last() == PhaseView::StopServer
            &&& serials.len() > 1 ==> phases.len() == serials.len() + 4
                && phases[serials.len() as int + 2] == PhaseView::AmbiguousParity
            &&& serials.len() <= 1 ==> phases.len() == serials.len() + 3
        }),
{
}

/// A run is made of the direct suites, the suites through the server and the case over TCP,
/// and ends with the operator, or with the remark that there is none.
pub proof fn runs_are_made_of_their_parts(serials: Seq<Seq<char>>, interactive: bool)
    ensures
        ({
            let phases = all_phases(serials, interactive);
            let direct = direct_phases(serials).len() as int;
            let server = server_phases(serials).len() as int;
            &&& phases.len() == direct + server + 2
            &&& phases.subrange(0, direct) == direct_phases(serials)
            &&& phases.subrange(direct, direct + server) == server_phases(serials)
            &&& phases[direct + server] == PhaseView::TcpipSkipped
            &&& interactive ==> phases.last() == PhaseView::Interactive
            &&& !interactive ==> phases.last() == PhaseView::NoInteractive
        }),
{
    let phases = all_phases(serials, interactive);
    let direct = direct_phases(serials).len() as int;
    let server = server_phases(serials).len() as int;
    assert(phases.subrange(0, direct) =~= direct_phases(serials));
    assert(phases.subrange(direct, direct + server) =~= server_phases(serials));
}

} // verus!
