//! What the self-test makes of what it sees: from the output of a case to its
//! outcome.
use vstd::prelude::*;
use vstd::utf8::encode_utf8;

use crate::number::{decimal, decimal_string};
use crate::selftest::report::{Outcome, OutcomeView};
use crate::text::{
    concat, concat3, join_strings, joined, lossy_string, result_text, shows, str_eq, texts,
};
use crate::words::{
    contains_text, holds_text, lines_of, split_lines, trim, trim_end, trimmed, trimmed_end,
};

verus! {

/// What formatting a string with `{:?}` gives: the string in quotes, with escapes
/// for what cannot be shown.
pub uninterp spec fn debug_text(s: Seq<char>) -> Seq<char>;

/// The `Debug` format of [`str`]: its result depends on the string alone.
#[verifier::external_body]
pub(crate) fn debug_string(s: &str) -> (r: String)
    ensures
        r@ == debug_text(s@),
{
    format!("{s:?}")
}

/// The text that the shell cases send through the device.
pub open spec fn echo_marker() -> Seq<char> {
    "adboost_selftest_marker_4f2a"@
}

/// The shell command that sends a marker back.
pub open spec fn echo_text(marker: Seq<char>) -> Seq<char> {
    "echo "@ + marker
}

/// The shell command that sends the marker back.
pub fn echo_command() -> (r: String)
    ensures
        r@ == echo_text(echo_marker()),
{
    concat("echo ", "adboost_selftest_marker_4f2a")
}

/// The directory for scratch files on a device.
pub open spec fn scratch_dir() -> Seq<char> {
    "/data/local/tmp"@
}

/// The directory for scratch files on a device.
pub fn scratch_path() -> (r: String)
    ensures
        r@ == scratch_dir(),
{
    "/data/local/tmp".to_owned()
}

/// The bytes that the transfer cases send.
pub open spec fn payload_bytes() -> Seq<u8> {
    encode_utf8("adboost selftest payload \u{0}\u{1}\u{2} end"@)
}

/// The bytes that the transfer cases send.
pub fn selftest_payload() -> (r: Vec<u8>)
    ensures
        r@ == payload_bytes(),
{
    "adboost selftest payload \u{0}\u{1}\u{2} end".as_bytes_vec()
}

/// The outcome of an echo that came back as `out`: the marker, apart from white space
/// at the end.
pub open spec fn echo_outcome(out: Seq<char>) -> OutcomeView {
    if trimmed_end(out) == echo_marker() {
        OutcomeView::Passed
    } else {
        OutcomeView::Failed(
            "echo returned "@ + debug_text(out) + ", expected "@ + debug_text(echo_marker()),
        )
    }
}

/// The report of a text that is not the expected one, both as they are to be shown.
pub fn mismatch(head: &str, shown: &str, expected: &str) -> (r: String)
    ensures
        r@ == head@ + shown@ + ", expected "@ + expected@,
{
    let mut r = concat3(head, shown, ", expected ");
    r.append(expected);
    r
}

/// The outcome of an echo.
fn judge_echo(out: &str) -> (r: Outcome)
    ensures
        r@ == echo_outcome(out@),
{
    if str_eq(trim_end(out), "adboost_selftest_marker_4f2a") {
        Outcome::Passed
    } else {
        let shown = debug_string(out);
        let expected = debug_string("adboost_selftest_marker_4f2a");
        Outcome::Failed(mismatch("echo returned ", shown.as_str(), expected.as_str()))
    }
}

/// The outcome of an echo over a persistent connection.
pub open spec fn persistent_echo_outcome(result: Result<Seq<char>, Seq<char>>) -> OutcomeView {
    match result {
        Ok(out) => echo_outcome(out),
        Err(e) => OutcomeView::Failed("shell_exec failed: "@ + e),
    }
}

/// The outcome of an echo on a device.
pub open spec fn device_echo_outcome(result: Result<Seq<char>, Seq<char>>) -> OutcomeView {
    match result {
        Ok(out) => echo_outcome(out),
        Err(e) => OutcomeView::Failed(e),
    }
}

/// The outcome of an echo over a persistent connection.
pub fn persistent_shell_echo(result: Result<String, String>) -> (r: Outcome)
    ensures
        r@ == persistent_echo_outcome(result_text(result)),
{
    match result {
        Ok(out) => judge_echo(out.as_str()),
        Err(e) => Outcome::Failed(concat("shell_exec failed: ", e.as_str())),
    }
}

/// The outcome of an echo on a device.
pub fn case_shell_echo(result: Result<String, String>) -> (r: Outcome)
    ensures
        r@ == device_echo_outcome(result_text(result)),
{
    match result {
        Ok(out) => judge_echo(out.as_str()),
        Err(e) => Outcome::Failed(e),
    }
}

/// Why a shell command could not be run.
pub open spec fn shell_failure(cmd: Seq<char>, error: Seq<char>) -> Seq<char> {
    "shell `"@ + cmd + "` failed: "@ + error
}

/// Why a shell command for the cases on rules that the device initiates could not be run.
pub open spec fn device_shell_failure(cmd: Seq<char>, error: Seq<char>) -> Seq<char> {
    "device shell `"@ + cmd + "` failed: "@ + error
}

/// Why a shell command could not be run.
pub fn shell_failed(cmd: &str, error: &str) -> (r: String)
    ensures
        r@ == shell_failure(cmd@, error@),
{
    let mut r = concat3("shell `", cmd, "` failed: ");
    r.append(error);
    r
}

/// What came of a shell command on a device: its output as text and its exit code, or
/// why it could not be run.
pub fn run_shell(cmd: &str, result: Result<(Vec<u8>, Option<u8>), String>) -> (r: Result<
    (String, Option<u8>),
    String,
>)
    ensures
        match result {
            Ok((out, code)) => r matches Ok((t, c)) && shows(out@, t@) && c == code,
            Err(e) => r matches Err(why) && why@ == shell_failure(cmd@, e@),
        },
{
    match result {
        Ok((out, code)) => Ok((lossy_string(&out), code)),
        Err(e) => Err(shell_failed(cmd, e.as_str())),
    }
}

/// What came of a shell command for the cases on rules that the device initiates.
pub fn device_shell(cmd: &str, result: Result<Vec<u8>, String>) -> (r: Result<String, String>)
    ensures
        match result {
            Ok(out) => r matches Ok(t) && shows(out@, t@),
            Err(e) => r matches Err(why) && why@ == device_shell_failure(cmd@, e@),
        },
{
    match result {
        Ok(out) => Ok(lossy_string(&out)),
        Err(e) => {
            let mut why = concat3("device shell `", cmd, "` failed: ");
            why.append(e.as_str());
            Err(why)
        },
    }
}

/// The outcome of an echo with separate streams and an exit code.
pub open spec fn shell_v2_outcome(stdout: Seq<char>, exit_code: Option<u8>) -> OutcomeView {
    if trimmed_end(stdout) != echo_marker() {
        OutcomeView::Failed(
            "shell_v2 stdout "@ + debug_text(stdout) + ", expected "@ + debug_text(echo_marker()),
        )
    } else {
        match exit_code {
            Some(c) => if c == 0 {
                OutcomeView::Passed
            } else {
                OutcomeView::Failed("shell_v2 echo exited "@ + decimal(c as nat) + ", expected 0"@)
            },
            None => OutcomeView::Failed("shell_v2 reported no exit code"@),
        }
    }
}

/// What became of a shell session with separate streams.
#[derive(Debug, PartialEq, Eq)]
pub enum ShellV2Run {
    /// It could not be opened.
    NotOpened(String),
    /// It broke off.
    Broken(String),
    /// It ended.
    Ended { stdout: String, exit_code: Option<u8> },
}

impl ShellV2Run {
    /// A session that ended with this output.
    pub fn ended(stdout: &Vec<u8>, exit_code: Option<u8>) -> (r: Self)
        ensures
            r matches ShellV2Run::Ended { stdout: t, exit_code: c } && shows(stdout@, t@)
                && c == exit_code,
    {
        ShellV2Run::Ended { stdout: lossy_string(stdout), exit_code }
    }
}

/// The outcome of a session with separate streams.
pub open spec fn v2_run_outcome(run: ShellV2Run) -> OutcomeView {
    match run {
        ShellV2Run::NotOpened(e) => OutcomeView::Failed("open_shell_v2 failed: "@ + e@),
        ShellV2Run::Broken(e) => OutcomeView::Failed("shell_v2 execute failed: "@ + e@),
        ShellV2Run::Ended { stdout, exit_code } => shell_v2_outcome(stdout@, exit_code),
    }
}

/// The outcome of an echo with separate streams and an exit code.
pub fn persistent_shell_v2(run: &ShellV2Run) -> (r: Outcome)
    ensures
        r@ == v2_run_outcome(*run),
{
    match run {
        ShellV2Run::NotOpened(e) => Outcome::Failed(concat("open_shell_v2 failed: ", e.as_str())),
        ShellV2Run::Broken(e) => Outcome::Failed(concat("shell_v2 execute failed: ", e.as_str())),
        ShellV2Run::Ended { stdout, exit_code } => {
            if !str_eq(trim_end(stdout.as_str()), "adboost_selftest_marker_4f2a") {
                let shown = debug_string(stdout.as_str());
                let expected = debug_string("adboost_selftest_marker_4f2a");
                return Outcome::Failed(
                    mismatch("shell_v2 stdout ", shown.as_str(), expected.as_str()),
                );
            }
            match exit_code {
                Some(c) => if *c == 0 {
                    Outcome::Passed
                } else {
                    Outcome::Failed(
                        concat3(
                            "shell_v2 echo exited ",
                            decimal_string(*c as u64).as_str(),
                            ", expected 0",
                        ),
                    )
                },
                None => Outcome::Failed("shell_v2 reported no exit code".to_owned()),
            }
        },
    }
}

/// The outcome of running a command that fails.
pub open spec fn exit_code_outcome(result: Result<Option<u8>, Seq<char>>) -> OutcomeView {
    match result {
        Err(e) => OutcomeView::Failed(e),
        Ok(None) => OutcomeView::Skipped("channel does not surface shell exit codes"@),
        Ok(Some(c)) => if c == 0 {
            OutcomeView::Failed("`false` reported exit code 0"@)
        } else {
            OutcomeView::Passed
        },
    }
}

/// The command whose exit code is judged.
pub fn exit_code_command() -> (r: String)
    ensures
        r@ == "false"@,
{
    "false".to_owned()
}

/// The outcome of running `false`: its exit code must not be 0. A way to the device
/// that tells no exit codes is not held against it.
pub fn case_shell_exit_code(result: Result<Option<u8>, String>) -> (r: Outcome)
    ensures
        r@ == exit_code_outcome(
            match result {
                Ok(c) => Ok(c),
                Err(e) => Err(e@),
            },
        ),
{
    match result {
        Err(e) => Outcome::Failed(e),
        Ok(None) => Outcome::Skipped("channel does not surface shell exit codes".to_owned()),
        Ok(Some(c)) => if c == 0 {
            Outcome::Failed("`false` reported exit code 0".to_owned())
        } else {
            Outcome::Passed
        },
    }
}

/// The steps of sending bytes to a device and getting them back.
#[derive(Clone, Copy, Debug, PartialEq, Eq, Structural)]
pub enum TransferStage {
    /// Opening a session to send in.
    OpenPush,
    /// Sending.
    Push,
    /// Opening a session to get them back in.
    OpenPull,
    /// Getting them back.
    Pull,
}

/// What became of sending bytes to a device and getting them back.
#[derive(Debug, PartialEq, Eq)]
pub enum Transfer {
    /// A step failed.
    Failed(TransferStage, String),
    /// This came back.
    Pulled(Vec<u8>),
}

/// How the failure of a step begins. Over a persistent connection the sessions are
/// opened by hand.
pub open spec fn stage_text(stage: TransferStage, persistent: bool) -> Seq<char> {
    match (stage, persistent) {
        (TransferStage::OpenPush, true) => "open_sync_session (push) failed: "@,
        (TransferStage::Push, true) => "sync push failed: "@,
        (TransferStage::OpenPull, true) => "open_sync_session (pull) failed: "@,
        (TransferStage::Pull, true) => "sync pull failed: "@,
        (TransferStage::OpenPush, false) => "push failed: "@,
        (TransferStage::Push, false) => "push failed: "@,
        (TransferStage::OpenPull, false) => "pull failed: "@,
        (TransferStage::Pull, false) => "pull failed: "@,
    }
}

/// The outcome of a transfer.
pub open spec fn transfer_outcome(t: Transfer, persistent: bool) -> OutcomeView {
    match t {
        Transfer::Failed(stage, e) => OutcomeView::Failed(stage_text(stage, persistent) + e@),
        Transfer::Pulled(bytes) => if bytes@ == payload_bytes() {
            OutcomeView::Passed
        } else {
            OutcomeView::Failed(
                "pulled "@ + decimal(bytes@.len()) + " bytes differ from pushed "@ + decimal(
                    payload_bytes().len(),
                ) + (if persistent {
                    ""@
                } else {
                    " bytes"@
                }),
            )
        },
    }
}

/// The file that a transfer leaves on the device.
pub open spec fn transfer_file(persistent: bool) -> Seq<char> {
    scratch_dir() + (if persistent {
        "/adboost_selftest_pers_8b1c.bin"@
    } else {
        "/adboost_selftest_pushpull_8b1c.bin"@
    })
}

/// The command on the device that removes a file.
pub open spec fn cleanup_text(path: Seq<char>) -> Seq<char> {
    "rm -f "@ + path
}

/// The file that a transfer leaves on the device.
pub fn transfer_path(persistent: bool) -> (r: String)
    ensures
        r@ == transfer_file(persistent),
{
    concat(
        "/data/local/tmp",
        if persistent {
            "/adboost_selftest_pers_8b1c.bin"
        } else {
            "/adboost_selftest_pushpull_8b1c.bin"
        },
    )
}

/// The command on the device that removes a file which was sent.
pub fn cleanup_command(path: &str) -> (r: String)
    ensures
        r@ == cleanup_text(path@),
{
    concat("rm -f ", path)
}

/// Whether the two byte strings are equal.
fn bytes_eq(a: &Vec<u8>, b: &Vec<u8>) -> (r: bool)
    ensures
        r == (a@ == b@),
{
    if a.len() != b.len() {
        return false;
    }
    let mut i: usize = 0;
    while i < a.len()
        invariant
            a.len() == b.len(),
            i <= a.len(),
            forall|j: int| 0 <= j < i ==> a@[j] == b@[j],
        decreases a.len() - i,
    {
        if a[i] != b[i] {
            return false;
        }
        i += 1;
    }
    assert(a@ =~= b@);
    true
}

/// The outcome of a transfer.
fn judge_transfer(t: Transfer, persistent: bool) -> (r: Outcome)
    ensures
        r@ == transfer_outcome(t, persistent),
{
    match t {
        Transfer::Failed(stage, e) => {
            let head = match (stage, persistent) {
                (TransferStage::OpenPush, true) => "open_sync_session (push) failed: ",
                (TransferStage::Push, true) => "sync push failed: ",
                (TransferStage::OpenPull, true) => "open_sync_session (pull) failed: ",
                (TransferStage::Pull, true) => "sync pull failed: ",
                (TransferStage::OpenPush, false) => "push failed: ",
                (TransferStage::Push, false) => "push failed: ",
                (TransferStage::OpenPull, false) => "pull failed: ",
                (TransferStage::Pull, false) => "pull failed: ",
            };
            Outcome::Failed(concat(head, e.as_str()))
        },
        Transfer::Pulled(bytes) => {
            let payload = selftest_payload();
            if bytes_eq(&bytes, &payload) {
                Outcome::Passed
            } else {
                let mut text = concat3(
                    "pulled ",
                    decimal_string(bytes.len() as u64).as_str(),
                    " bytes differ from pushed ",
                );
                text.append(decimal_string(payload.len() as u64).as_str());
                text.append(
                    if persistent {
                        ""
                    } else {
                        " bytes"
                    },
                );
                Outcome::Failed(text)
            }
        },
    }
}

/// The outcome of a transfer over a persistent connection.
pub fn persistent_push_pull(t: Transfer) -> (r: Outcome)
    ensures
        r@ == transfer_outcome(t, true),
{
    judge_transfer(t, true)
}

/// The outcome of a transfer on a device.
pub fn case_push_pull_roundtrip(t: Transfer) -> (r: Outcome)
    ensures
        r@ == transfer_outcome(t, false),
{
    judge_transfer(t, false)
}

/// The outcome of a request about the scratch directory.
pub open spec fn scratch_outcome(verb: Seq<char>, failure: Option<Seq<char>>) -> OutcomeView {
    match failure {
        None => OutcomeView::Passed,
        Some(e) => OutcomeView::Failed(verb + " `"@ + scratch_dir() + "` failed: "@ + e),
    }
}

/// Why something that was asked for was not done.
pub open spec fn failure_text(result: Result<(), String>) -> Option<Seq<char>> {
    match result {
        Ok(_) => None,
        Err(e) => Some(e@),
    }
}

/// The outcome of listing the scratch directory.
pub fn case_list_scratch_dir(result: Result<(), String>) -> (r: Outcome)
    ensures
        r@ == scratch_outcome("list"@, failure_text(result)),
{
    match result {
        Ok(_) => Outcome::Passed,
        Err(e) => {
            let mut text = concat3("list", " `", "/data/local/tmp");
            text.append("` failed: ");
            text.append(e.as_str());
            Outcome::Failed(text)
        },
    }
}

/// The outcome of asking for the scratch directory's attributes.
pub fn case_stat_root(result: Result<(), String>) -> (r: Outcome)
    ensures
        r@ == scratch_outcome("stat"@, failure_text(result)),
{
    match result {
        Ok(_) => Outcome::Passed,
        Err(e) => {
            let mut text = concat3("stat", " `", "/data/local/tmp");
            text.append("` failed: ");
            text.append(e.as_str());
            Outcome::Failed(text)
        },
    }
}

/// What became of adding a forwarding rule and removing all rules.
#[derive(Debug, PartialEq, Eq)]
pub enum ForwardRun {
    /// The rule could not be added.
    NotAdded(String),
    /// The rules could not be removed.
    NotRemoved(String),
    /// Both was done.
    Done,
}

/// The outcome of adding a forwarding rule and removing all rules.
pub open spec fn forward_run_outcome(run: ForwardRun) -> OutcomeView {
    match run {
        ForwardRun::NotAdded(e) => OutcomeView::Failed("forward add failed: "@ + e@),
        ForwardRun::NotRemoved(e) => OutcomeView::Failed("forward remove-all failed: "@ + e@),
        ForwardRun::Done => OutcomeView::Passed,
    }
}

/// The outcome of adding a forwarding rule and removing all rules.
pub fn case_forward_control_plane(run: ForwardRun) -> (r: Outcome)
    ensures
        r@ == forward_run_outcome(run),
{
    match run {
        ForwardRun::NotAdded(e) => Outcome::Failed(concat("forward add failed: ", e.as_str())),
        ForwardRun::NotRemoved(e) => Outcome::Failed(
            concat("forward remove-all failed: ", e.as_str()),
        ),
        ForwardRun::Done => Outcome::Passed,
    }
}

/// The command on the device that looks for what an echo through a reverse rule needs.
pub fn nc_search() -> (r: String)
    ensures
        r@ == "which nc || command -v nc"@,
{
    "which nc || command -v nc".to_owned()
}

/// The command on the device that looks for what measuring the throughput needs.
pub fn iperf3_search() -> (r: String)
    ensures
        r@ == "which iperf3 || command -v iperf3"@,
{
    "which iperf3 || command -v iperf3".to_owned()
}

/// Whether the device has a tool.
pub open spec fn tool_found(printed: Result<Seq<char>, Seq<char>>) -> bool {
    printed matches Ok(s) && trimmed(s).len() > 0
}

/// Whether the device has a tool, by what looking for it printed.
pub fn has_tool(printed: Result<String, String>) -> (r: bool)
    ensures
        r == tool_found(result_text(printed)),
{
    match printed {
        Ok(s) => !trim(s.as_str()).is_empty(),
        Err(_) => false,
    }
}

/// What became of a case that goes through a reverse rule.
#[derive(Debug, PartialEq, Eq)]
pub enum ReverseRun {
    /// No port could be had on the host.
    NotBound(String),
    /// The port could not be told.
    NoAddress(String),
    /// The rule could not be set up.
    NotSetUp(String),
    /// The command on the device printed this.
    Printed(String),
    /// It failed.
    Failed(String),
    /// It took too long.
    TimedOut,
}

/// The two ends of the rule that the forward case adds: the one on the device, and one on
/// the host that the system picks.
pub fn forward_ends() -> (r: (String, String))
    ensures
        r.0@ == "tcp:5555"@,
        r.1@ == "tcp:0"@,
{
    ("tcp:5555".to_owned(), "tcp:0".to_owned())
}

/// A port as the end of a rule.
pub open spec fn port_end(port: u16) -> Seq<char> {
    "tcp:"@ + decimal(port as nat)
}

/// The text that the reverse case sends through the device.
pub open spec fn reverse_marker() -> Seq<char> {
    "adboost_reverse_echo_5c1a"@
}

/// The command that sends the marker to a port of the device and waits for it.
pub open spec fn reverse_echo_text(device_port: u16) -> Seq<char> {
    "(echo adboost_reverse_echo_5c1a; sleep 2) | nc 127.0.0.1 "@ + decimal(device_port as nat)
}

/// The command that measures the throughput to a port of the device.
pub open spec fn reverse_iperf3_text(device_port: u16) -> Seq<char> {
    "iperf3 -c 127.0.0.1 -p "@ + decimal(device_port as nat) + " -t 3"@
}

/// The outcome of an echo through a reverse rule.
pub open spec fn reverse_echo_outcome(run: ReverseRun) -> OutcomeView {
    match run {
        ReverseRun::NotBound(e) => OutcomeView::Failed("host echo bind failed: "@ + e@),
        ReverseRun::NoAddress(e) => OutcomeView::Failed("host echo addr failed: "@ + e@),
        ReverseRun::NotSetUp(e) => OutcomeView::Failed("reverse setup failed: "@ + e@),
        ReverseRun::Printed(out) => if holds_text(out@, reverse_marker()) {
            OutcomeView::Passed
        } else {
            OutcomeView::Failed("echo via reverse returned "@ + debug_text(out@))
        },
        ReverseRun::Failed(e) => OutcomeView::Failed(e@),
        ReverseRun::TimedOut => OutcomeView::Failed("reverse echo timed out (10s)"@),
    }
}

/// The outcome of a throughput measurement through a reverse rule.
pub open spec fn reverse_iperf3_outcome(run: ReverseRun) -> OutcomeView {
    match run {
        ReverseRun::NotBound(e) => OutcomeView::Failed("cannot pick free port: "@ + e@),
        ReverseRun::NoAddress(e) => OutcomeView::Failed("cannot read free port: "@ + e@),
        ReverseRun::NotSetUp(e) => OutcomeView::Failed("reverse setup failed: "@ + e@),
        ReverseRun::Printed(out) => if sums_up(out@) {
            OutcomeView::Passed
        } else {
            OutcomeView::Failed("iperf3 via reverse gave no result: "@ + debug_text(out@))
        },
        ReverseRun::Failed(e) => OutcomeView::Failed(e@),
        ReverseRun::TimedOut => OutcomeView::Failed("reverse iperf3 timed out (20s)"@),
    }
}

/// The outcome of a measurement for which the host has no server.
pub open spec fn no_iperf3(error: Seq<char>) -> OutcomeView {
    OutcomeView::Skipped("host iperf3 unavailable: "@ + error)
}

/// The two ends of the rule that a reverse case adds: the one on the device, and the one
/// on the host.
pub fn reverse_ends(device_port: u16, host_port: u16) -> (r: (String, String))
    ensures
        r.0@ == port_end(device_port),
        r.1@ == port_end(host_port),
{
    (
        concat("tcp:", decimal_string(device_port as u64).as_str()),
        concat("tcp:", decimal_string(host_port as u64).as_str()),
    )
}

/// The command on the device that sends the marker and waits for it to come back.
pub fn reverse_echo_command(device_port: u16) -> (r: String)
    ensures
        r@ == reverse_echo_text(device_port),
{
    concat(
        "(echo adboost_reverse_echo_5c1a; sleep 2) | nc 127.0.0.1 ",
        decimal_string(device_port as u64).as_str(),
    )
}

/// The command on the device that measures the throughput.
pub fn reverse_iperf3_command(device_port: u16) -> (r: String)
    ensures
        r@ == reverse_iperf3_text(device_port),
{
    concat3("iperf3 -c 127.0.0.1 -p ", decimal_string(device_port as u64).as_str(), " -t 3")
}

/// The outcome of an echo through a reverse rule.
pub fn reverse_echo(run: ReverseRun) -> (r: Outcome)
    ensures
        r@ == reverse_echo_outcome(run),
{
    match run {
        ReverseRun::NotBound(e) => Outcome::Failed(concat("host echo bind failed: ", e.as_str())),
        ReverseRun::NoAddress(e) => Outcome::Failed(concat("host echo addr failed: ", e.as_str())),
        ReverseRun::NotSetUp(e) => Outcome::Failed(concat("reverse setup failed: ", e.as_str())),
        ReverseRun::Printed(out) => if contains_text(out.as_str(), "adboost_reverse_echo_5c1a") {
            Outcome::Passed
        } else {
            Outcome::Failed(
                concat("echo via reverse returned ", debug_string(out.as_str()).as_str()),
            )
        },
        ReverseRun::Failed(e) => Outcome::Failed(e),
        ReverseRun::TimedOut => Outcome::Failed("reverse echo timed out (10s)".to_owned()),
    }
}

/// The outcome of a throughput measurement for which the host has no server.
pub fn iperf3_unavailable(error: &str) -> (r: Outcome)
    ensures
        r@ == no_iperf3(error@),
{
    Outcome::Skipped(concat("host iperf3 unavailable: ", error))
}

/// The outcome of a throughput measurement through a reverse rule.
pub fn reverse_iperf3(run: ReverseRun) -> (r: Outcome)
    ensures
        r@ == reverse_iperf3_outcome(run),
{
    match run {
        ReverseRun::NotBound(e) => Outcome::Failed(concat("cannot pick free port: ", e.as_str())),
        ReverseRun::NoAddress(e) => Outcome::Failed(concat("cannot read free port: ", e.as_str())),
        ReverseRun::NotSetUp(e) => Outcome::Failed(concat("reverse setup failed: ", e.as_str())),
        ReverseRun::Printed(out) => if contains_text(out.as_str(), "receiver") || contains_text(
            out.as_str(),
            "sender",
        ) {
            Outcome::Passed
        } else {
            Outcome::Failed(
                concat("iperf3 via reverse gave no result: ", debug_string(out.as_str()).as_str()),
            )
        },
        ReverseRun::Failed(e) => Outcome::Failed(e),
        ReverseRun::TimedOut => Outcome::Failed("reverse iperf3 timed out (20s)".to_owned()),
    }
}

/// A line of a measurement that sums it up.
pub open spec fn sums_up(line: Seq<char>) -> bool {
    holds_text(line, "sender"@) || holds_text(line, "receiver"@)
}

/// The lines of a measurement that sum it up, on one line.
pub open spec fn summary_text(out: Seq<char>) -> Seq<char> {
    joined(lines_of(out).filter(|l: Seq<char>| sums_up(l)), " | "@)
}

/// The lines of a measurement that sum it up, on one line.
pub fn iperf3_summary(out: &str) -> (r: String)
    ensures
        r@ == summary_text(out@),
{
    let lines = split_lines(out);
    let ghost all = lines_of(out@);
    let ghost pick = |l: Seq<char>| sums_up(l);
    let mut kept: Vec<String> = Vec::new();
    let mut i: usize = 0;
    proof {
        reveal(Seq::filter);
        assert(texts(kept@) =~= all.take(0).filter(pick));
    }
    while i < lines.len()
        invariant
            i <= lines.len(),
            all == texts(lines@),
            pick == (|l: Seq<char>| sums_up(l)),
            texts(kept@) == all.take(i as int).filter(pick),
        decreases lines.len() - i,
    {
        let ghost before = texts(kept@);
        let ghost line = lines@[i as int]@;
        let keep = contains_text(lines[i].as_str(), "sender") || contains_text(
            lines[i].as_str(),
            "receiver",
        );
        if keep {
            kept.push(lines[i].clone());
            assert(texts(kept@) =~= before.push(line));
        }
        proof {
            reveal(Seq::filter);
            assert(all.take(i + 1).drop_last() =~= all.take(i as int));
            assert(all.take(i + 1).last() == line);
        }
        i += 1;
    }
    assert(all.take(lines.len() as int) =~= all);
    join_strings(&kept, " | ")
}

} // verus!
