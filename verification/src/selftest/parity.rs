//! Cases that drive the server with the official `adb` client, and cases that speak
//! the protocol of device streams directly.
use vstd::prelude::*;

use crate::number::{decimal, decimal_string};
use crate::selftest::judge::{debug_string, debug_text, failure_text, mismatch};
use crate::selftest::report::{Outcome, OutcomeView};
use crate::text::{concat, concat3, lossy_string, opt_text, shows, str_eq, texts};
use crate::words::{
    any_line_begins, contains_text, holds_text, some_line_begins, trim, trim_end, trimmed,
    trimmed_end,
};

verus! {

/// What the official client is asked to do.
#[derive(Debug, PartialEq, Eq)]
pub enum AdbRequest {
    /// Tell its version.
    Version,
    /// Echo a text on a device, named or not.
    ShellEcho { serial: Option<String>, text: String },
    /// Tell the state of the device.
    GetState,
    /// Connect a device.
    Connect(String),
    /// Disconnect a device.
    Disconnect(String),
    /// Forward a port that the system chooses to this end on the device.
    Forward { serial: String, remote: String },
    /// List the rules.
    ForwardList,
}

/// The words that tell the client which server to use.
pub open spec fn at_port(port: u16) -> Seq<Seq<char>> {
    seq!["-P"@, decimal(port as nat)]
}

/// The words that tell the client which device to use.
pub open spec fn on_device(serial: Option<Seq<char>>) -> Seq<Seq<char>> {
    match serial {
        Some(s) => seq!["-s"@, s],
        None => Seq::empty(),
    }
}

/// The arguments of the client.
pub open spec fn client_args(port: u16, request: AdbRequest) -> Seq<Seq<char>> {
    match request {
        AdbRequest::Version => seq!["version"@],
        AdbRequest::ShellEcho { serial, text } => at_port(port) + on_device(opt_text(serial))
            + seq!["shell"@, "echo"@, text@],
        AdbRequest::GetState => at_port(port) + seq!["get-state"@],
        AdbRequest::Connect(target) => at_port(port) + seq!["connect"@, target@],
        AdbRequest::Disconnect(target) => at_port(port) + seq!["disconnect"@, target@],
        AdbRequest::Forward { serial, remote } => at_port(port) + on_device(Some(serial@)) + seq![
            "forward"@,
            "tcp:0"@,
            remote@,
        ],
        AdbRequest::ForwardList => at_port(port) + seq!["forward"@, "--list"@],
    }
}

/// Adds an argument.
fn add_arg(args: &mut Vec<String>, arg: &str)
    ensures
        texts(final(args)@) == texts(old(args)@).push(arg@),
{
    args.push(arg.to_owned());
    assert(texts(args@) =~= texts(old(args)@).push(arg@));
}

/// The arguments of the client.
pub fn adb_args(port: u16, request: &AdbRequest) -> (r: Vec<String>)
    ensures
        texts(r@) == client_args(port, *request),
{
    let mut r: Vec<String> = Vec::new();
    assert(texts(r@) =~= Seq::empty());
    if let AdbRequest::Version = request {
        add_arg(&mut r, "version");
        assert(texts(r@) =~= client_args(port, *request));
        return r;
    }
    add_arg(&mut r, "-P");
    add_arg(&mut r, decimal_string(port as u64).as_str());
    match request {
        AdbRequest::Version => (),
        AdbRequest::ShellEcho { serial, text } => {
            if let Some(s) = serial {
                add_arg(&mut r, "-s");
                add_arg(&mut r, s.as_str());
            }
            add_arg(&mut r, "shell");
            add_arg(&mut r, "echo");
            add_arg(&mut r, text.as_str());
        },
        AdbRequest::GetState => add_arg(&mut r, "get-state"),
        AdbRequest::Connect(target) => {
            add_arg(&mut r, "connect");
            add_arg(&mut r, target.as_str());
        },
        AdbRequest::Disconnect(target) => {
            add_arg(&mut r, "disconnect");
            add_arg(&mut r, target.as_str());
        },
        AdbRequest::Forward { serial, remote } => {
            add_arg(&mut r, "-s");
            add_arg(&mut r, serial.as_str());
            add_arg(&mut r, "forward");
            add_arg(&mut r, "tcp:0");
            add_arg(&mut r, remote.as_str());
        },
        AdbRequest::ForwardList => {
            add_arg(&mut r, "forward");
            add_arg(&mut r, "--list");
        },
    }
    assert(texts(r@) =~= client_args(port, *request));
    r
}

/// What became of a run of the official client.
#[derive(Debug, PartialEq, Eq)]
pub enum AdbRun {
    /// It could not be started.
    NotInvoked(String),
    /// It ended, with this status and these outputs.
    Exited { success: bool, status: String, stdout: String, stderr: String },
}

impl AdbRun {
    /// A run that ended with these outputs.
    pub fn exited(success: bool, status: String, stdout: &Vec<u8>, stderr: &Vec<u8>) -> (r: Self)
        ensures
            r matches AdbRun::Exited { success: ok, status: how, stdout: out, stderr: err } && ok
                == success && how@ == status@ && shows(stdout@, out@) && shows(stderr@, err@),
    {
        AdbRun::Exited {
            success,
            status,
            stdout: lossy_string(stdout),
            stderr: lossy_string(stderr),
        }
    }
}

/// The text of a reply that a server sent.
pub fn reply_text(bytes: &Vec<u8>) -> (r: String)
    ensures
        shows(bytes@, r@),
{
    lossy_string(bytes)
}

/// The failure to start the client.
pub open spec fn not_invoked(e: Seq<char>) -> OutcomeView {
    OutcomeView::Failed("could not invoke adb: "@ + e)
}

/// The failure to start the client.
fn judge_not_invoked(e: &str) -> (r: Outcome)
    ensures
        r@ == not_invoked(e@),
{
    Outcome::Failed(concat("could not invoke adb: ", e))
}

/// `head`, the status, `: ` and the text.
fn exited(head: &str, status: &str, text: &str) -> (r: String)
    ensures
        r@ == head@ + status@ + ": "@ + text@,
{
    let mut r = concat3(head, status, ": ");
    r.append(text);
    r
}

/// The text that the official client echoes on a device.
pub open spec fn shell_marker() -> Seq<char> {
    "adboost_parity_marker_d31f"@
}

/// The text that the official client echoes where it names no device.
pub open spec fn ambiguous_marker() -> Seq<char> {
    "adboost_parity_marker_ambiguous"@
}

/// The text that the official client echoes on a device that is connected over TCP.
pub open spec fn tcp_device_marker() -> Seq<char> {
    "adboost_tcpip_through_server_marker"@
}

/// Whether a request is an echo of a text on a device.
pub open spec fn is_echo(request: AdbRequest, on: Option<Seq<char>>, marker: Seq<char>) -> bool {
    request matches AdbRequest::ShellEcho { serial, text } && opt_text(serial) == on && text@
        == marker
}

/// The request that [`case_official_adb_shell`] judges.
pub fn official_adb_shell_request(serial: &str) -> (r: AdbRequest)
    ensures
        is_echo(r, Some(serial@), shell_marker()),
{
    AdbRequest::ShellEcho {
        serial: Some(serial.to_owned()),
        text: "adboost_parity_marker_d31f".to_owned(),
    }
}

/// The request that [`case_official_adb_ambiguous_shell`] judges: it names no device.
pub fn official_adb_ambiguous_shell_request() -> (r: AdbRequest)
    ensures
        is_echo(r, None, ambiguous_marker()),
{
    AdbRequest::ShellEcho { serial: None, text: "adboost_parity_marker_ambiguous".to_owned() }
}

/// The request that [`case_official_adb_shell_through_tcp_device`] judges.
pub fn tcp_device_shell_request(tcp_serial: &str) -> (r: AdbRequest)
    ensures
        is_echo(r, Some(tcp_serial@), tcp_device_marker()),
{
    AdbRequest::ShellEcho {
        serial: Some(tcp_serial.to_owned()),
        text: "adboost_tcpip_through_server_marker".to_owned(),
    }
}

/// The outcome of an echo with the official client.
pub open spec fn shell_outcome(run: AdbRun) -> OutcomeView {
    match run {
        AdbRun::NotInvoked(e) => not_invoked(e@),
        AdbRun::Exited { success, status, stdout, stderr } => if success {
            if trimmed_end(stdout@) == shell_marker() {
                OutcomeView::Passed
            } else {
                OutcomeView::Failed(
                    "official adb shell echo returned "@ + debug_text(trimmed_end(stdout@))
                        + ", expected "@ + debug_text(shell_marker()),
                )
            }
        } else {
            OutcomeView::Failed(
                "official adb against adboost server exited "@ + status@ + ": "@ + trimmed_end(
                    stderr@,
                ),
            )
        },
    }
}

/// The outcome of an echo with the official client.
pub fn case_official_adb_shell(run: &AdbRun) -> (r: Outcome)
    ensures
        r@ == shell_outcome(*run),
{
    match run {
        AdbRun::NotInvoked(e) => judge_not_invoked(e.as_str()),
        AdbRun::Exited { success, status, stdout, stderr } => if *success {
            let out = trim_end(stdout.as_str());
            if str_eq(out, "adboost_parity_marker_d31f") {
                Outcome::Passed
            } else {
                let shown = debug_string(out);
                let expected = debug_string("adboost_parity_marker_d31f");
                Outcome::Failed(
                    mismatch(
                        "official adb shell echo returned ",
                        shown.as_str(),
                        expected.as_str(),
                    ),
                )
            }
        } else {
            Outcome::Failed(
                exited(
                    "official adb against adboost server exited ",
                    status.as_str(),
                    trim_end(stderr.as_str()),
                ),
            )
        },
    }
}

/// The outcome of asking for a shell without naming one of several devices.
pub open spec fn ambiguous_outcome(run: AdbRun) -> OutcomeView {
    match run {
        AdbRun::NotInvoked(e) => not_invoked(e@),
        AdbRun::Exited { success, status, stdout, stderr } => if success {
            OutcomeView::Failed(
                "official adb shell with no -s unexpectedly succeeded against multiple devices; expected `more than one device`"@,
            )
        } else if holds_text(stderr@, "more than one device"@) {
            OutcomeView::Passed
        } else if holds_text(stderr@, "device not found"@) {
            OutcomeView::Failed(
                "REGRESSION: no--s shell against multiple devices reported `device not found` instead of `more than one device`: "@
                    + trimmed_end(stderr@),
            )
        } else {
            OutcomeView::Failed(
                "no--s shell against multiple devices failed with unexpected wording, expected `more than one device`: "@
                    + trimmed_end(stderr@),
            )
        },
    }
}

/// The outcome of asking for a shell without naming one of several devices: the
/// client must be told that there is more than one.
pub fn case_official_adb_ambiguous_shell(run: &AdbRun) -> (r: Outcome)
    ensures
        r@ == ambiguous_outcome(*run),
{
    match run {
        AdbRun::NotInvoked(e) => judge_not_invoked(e.as_str()),
        AdbRun::Exited { success, status, stdout, stderr } => if *success {
            Outcome::Failed(
                "official adb shell with no -s unexpectedly succeeded against multiple devices; expected `more than one device`".to_owned(),
            )
        } else if contains_text(stderr.as_str(), "more than one device") {
            Outcome::Passed
        } else if contains_text(stderr.as_str(), "device not found") {
            Outcome::Failed(
                concat(
                    "REGRESSION: no--s shell against multiple devices reported `device not found` instead of `more than one device`: ",
                    trim_end(stderr.as_str()),
                ),
            )
        } else {
            Outcome::Failed(
                concat(
                    "no--s shell against multiple devices failed with unexpected wording, expected `more than one device`: ",
                    trim_end(stderr.as_str()),
                ),
            )
        },
    }
}

/// Words that only come from an attempt to connect.
pub open spec fn connect_wording(out: Seq<char>) -> bool {
    ||| holds_text(out, "connected to"@)
    ||| holds_text(out, "failed to connect"@)
    ||| holds_text(out, "cannot connect"@)
    ||| holds_text(out, "could not resolve"@)
}

/// The outcome of connecting to a port where nothing listens.
pub open spec fn connect_outcome(run: AdbRun) -> OutcomeView {
    match run {
        AdbRun::NotInvoked(e) => not_invoked(e@),
        AdbRun::Exited { success, status, stdout, stderr } => {
            let out = stdout@ + stderr@;
            if holds_text(out, "unknown host service"@) {
                OutcomeView::Failed(
                    "REGRESSION: `adb connect` reported `unknown host service` \u{2014} the host:connect arm is missing: "@
                        + trimmed(out),
                )
            } else if connect_wording(out) {
                OutcomeView::Passed
            } else {
                OutcomeView::Failed(
                    "`adb connect` produced unexpected output (no connect-machinery wording): "@
                        + trimmed(out),
                )
            }
        },
    }
}

/// The outcome of connecting to a port where nothing listens: whatever the client
/// prints about connecting shows that the request is known.
pub fn case_official_adb_connect_routing(run: &AdbRun) -> (r: Outcome)
    ensures
        r@ == connect_outcome(*run),
{
    match run {
        AdbRun::NotInvoked(e) => judge_not_invoked(e.as_str()),
        AdbRun::Exited { success, status, stdout, stderr } => {
            let out = concat(stdout.as_str(), stderr.as_str());
            if contains_text(out.as_str(), "unknown host service") {
                Outcome::Failed(
                    concat(
                        "REGRESSION: `adb connect` reported `unknown host service` \u{2014} the host:connect arm is missing: ",
                        trim(out.as_str()),
                    ),
                )
            } else if contains_text(out.as_str(), "connected to") || contains_text(
                out.as_str(),
                "failed to connect",
            ) || contains_text(out.as_str(), "cannot connect") || contains_text(
                out.as_str(),
                "could not resolve",
            ) {
                Outcome::Passed
            } else {
                Outcome::Failed(
                    concat(
                        "`adb connect` produced unexpected output (no connect-machinery wording): ",
                        trim(out.as_str()),
                    ),
                )
            }
        },
    }
}

/// The outcome of asking for the state without naming a device.
pub open spec fn state_outcome(run: AdbRun) -> OutcomeView {
    match run {
        AdbRun::NotInvoked(e) => not_invoked(e@),
        AdbRun::Exited { success, status, stdout, stderr } => {
            let out = stdout@ + stderr@;
            if holds_text(out, "unknown host service"@) {
                OutcomeView::Failed(
                    "REGRESSION: bare `adb get-state` reported `unknown host service` \u{2014} the transport-any host:get-state arm is missing: "@
                        + trimmed(out),
                )
            } else {
                OutcomeView::Passed
            }
        },
    }
}

/// The outcome of asking for the state without naming a device: anything but an
/// unknown service shows that the request is known.
pub fn case_official_adb_get_state(run: &AdbRun) -> (r: Outcome)
    ensures
        r@ == state_outcome(*run),
{
    match run {
        AdbRun::NotInvoked(e) => judge_not_invoked(e.as_str()),
        AdbRun::Exited { success, status, stdout, stderr } => {
            let out = concat(stdout.as_str(), stderr.as_str());
            if contains_text(out.as_str(), "unknown host service") {
                Outcome::Failed(
                    concat(
                        "REGRESSION: bare `adb get-state` reported `unknown host service` \u{2014} the transport-any host:get-state arm is missing: ",
                        trim(out.as_str()),
                    ),
                )
            } else {
                Outcome::Passed
            }
        },
    }
}

/// The outcome of an echo on a device that is connected over TCP.
pub open spec fn tcp_shell_outcome(run: AdbRun) -> OutcomeView {
    match run {
        AdbRun::NotInvoked(e) => not_invoked(e@),
        AdbRun::Exited { success, status, stdout, stderr } => {
            let out = stdout@ + stderr@;
            if success {
                if trimmed_end(stdout@) == tcp_device_marker() {
                    OutcomeView::Passed
                } else {
                    OutcomeView::Failed(
                        "shell through TCP/IP device returned "@ + debug_text(
                            trimmed_end(stdout@),
                        ) + ", expected "@ + debug_text(tcp_device_marker()),
                    )
                }
            } else if holds_text(out, "not yet supported"@) {
                OutcomeView::Failed(
                    "REGRESSION: shell through a host:connect'd TCP/IP device reported `not yet supported` \u{2014} the transport-generalized multiplexer is not wired: "@
                        + trimmed(out),
                )
            } else {
                OutcomeView::Failed(
                    "shell through TCP/IP device exited "@ + status@ + ": "@ + trimmed(out),
                )
            }
        },
    }
}

/// The outcome of an echo through the server on a device that is connected over TCP.
pub fn case_official_adb_shell_through_tcp_device(run: &AdbRun) -> (r: Outcome)
    ensures
        r@ == tcp_shell_outcome(*run),
{
    match run {
        AdbRun::NotInvoked(e) => judge_not_invoked(e.as_str()),
        AdbRun::Exited { success, status, stdout, stderr } => {
            if *success {
                let out = trim_end(stdout.as_str());
                if str_eq(out, "adboost_tcpip_through_server_marker") {
                    return Outcome::Passed;
                }
                let shown = debug_string(out);
                let expected = debug_string("adboost_tcpip_through_server_marker");
                return Outcome::Failed(
                    mismatch(
                        "shell through TCP/IP device returned ",
                        shown.as_str(),
                        expected.as_str(),
                    ),
                );
            }
            let out = concat(stdout.as_str(), stderr.as_str());
            if contains_text(out.as_str(), "not yet supported") {
                Outcome::Failed(
                    concat(
                        "REGRESSION: shell through a host:connect'd TCP/IP device reported `not yet supported` \u{2014} the transport-generalized multiplexer is not wired: ",
                        trim(out.as_str()),
                    ),
                )
            } else {
                Outcome::Failed(
                    exited(
                        "shell through TCP/IP device exited ",
                        status.as_str(),
                        trim(out.as_str()),
                    ),
                )
            }
        },
    }
}

/// Whether a device list has a line for the serial.
pub open spec fn lists_device(snapshot: Seq<char>, serial: Seq<char>) -> bool {
    some_line_begins(snapshot, serial + "\t"@)
}

/// Whether a device list has a line for the serial. The tab behind the serial keeps
/// one serial that begins like another apart.
pub fn snapshot_has_serial(snapshot: &str, serial: &str) -> (r: bool)
    ensures
        r == lists_device(snapshot@, serial@),
{
    let prefix = concat(serial, "\t");
    any_line_begins(snapshot, prefix.as_str())
}

/// Why a request for a stream of device lists was not accepted.
pub open spec fn stream_refusal(
    service: Seq<char>,
    status: Seq<char>,
    reason: Seq<char>,
) -> Option<Seq<char>> {
    if status == "OKAY"@ {
        None
    } else {
        Some(service + " replied "@ + status + ": "@ + reason)
    }
}

/// What the server's reply makes of a request for a stream of device lists.
pub fn stream_accepted(service: &str, status: &str, reason: &str) -> (r: Result<(), String>)
    ensures
        failure_text(r) == stream_refusal(service@, status@, reason@),
{
    if str_eq(status, "OKAY") {
        Ok(())
    } else {
        let mut text = concat3(service, " replied ", status);
        text.append(": ");
        text.append(reason);
        Err(text)
    }
}

/// Where the case on device streams stands.
#[derive(Debug, PartialEq, Eq)]
pub enum TrackState {
    /// The long stream is being opened.
    OpenLong,
    /// Its first list is awaited.
    ReadLong,
    /// The long list is asked for, to be compared with this.
    AskLong(String),
    /// The short stream is being opened.
    OpenShort,
    /// Its first list is awaited.
    ReadShort,
    /// The short list is asked for, to be compared with this.
    AskShort(String),
}

/// The service that a state of the case on device streams asks the server for.
pub open spec fn track_service(state: TrackState) -> Option<Seq<char>> {
    match state {
        TrackState::OpenLong => Some("host:track-devices-l"@),
        TrackState::AskLong(_) => Some("host:devices-l"@),
        TrackState::OpenShort => Some("host:track-devices"@),
        TrackState::AskShort(_) => Some("host:devices"@),
        TrackState::ReadLong | TrackState::ReadShort => None,
    }
}

/// The service that a state of the case on device streams asks the server for.
pub fn track_request(state: &TrackState) -> (r: Option<String>)
    ensures
        opt_text(r) == track_service(*state),
{
    match state {
        TrackState::OpenLong => Some("host:track-devices-l".to_owned()),
        TrackState::AskLong(_) => Some("host:devices-l".to_owned()),
        TrackState::OpenShort => Some("host:track-devices".to_owned()),
        TrackState::AskShort(_) => Some("host:devices".to_owned()),
        TrackState::ReadLong | TrackState::ReadShort => None,
    }
}

/// What the case on device streams does next.
#[derive(Debug, PartialEq, Eq)]
pub enum TrackStep {
    /// Do this.
    Next(TrackState),
    /// The case has ended.
    Done(Outcome),
}

/// What came of it.
#[derive(Debug, PartialEq, Eq)]
pub enum TrackEvent {
    /// A stream was opened, or not.
    Opened(Result<(), String>),
    /// A list came from the stream, or not.
    Listed(Result<String, String>),
    /// A list was replied with a status word, or not.
    Replied(Result<(String, String), String>),
}

/// The outcome of comparing a streamed list with the replied one.
pub open spec fn lists_agree(status: Seq<char>, streamed: Seq<char>, replied: Seq<char>) -> bool {
    status == "OKAY"@ && streamed == replied
}

/// The report of two lists that differ, both as they are to be shown.
pub fn lists_differ(head: &str, status: &str, streamed: &str, replied: &str) -> (r: String)
    ensures
        r@ == head@ + status@ + "): streamed="@ + streamed@ + " one-shot="@ + replied@,
{
    let mut r = concat3(head, status, "): streamed=");
    r.append(streamed);
    r.append(" one-shot=");
    r.append(replied);
    r
}

/// What the case on device streams makes of an event in a state: the long stream's
/// first list must have a line for the device, be in the long format and be the same
/// as the long reply; the short stream's first list must be the same as the short
/// reply. An event that does not belong to the state ends the case.
pub open spec fn track_outcome(
    state: TrackState,
    event: TrackEvent,
    serial: Seq<char>,
) -> OutcomeView {
    match (state, event) {
        (TrackState::OpenLong, TrackEvent::Opened(Err(e))) => OutcomeView::Failed(
            "REGRESSION: host:track-devices-l could not be opened \u{2014} the arm Android Studio's adblib depends on is missing: "@
                + e@,
        ),
        (TrackState::ReadLong, TrackEvent::Listed(Err(e))) => OutcomeView::Failed(
            "track-devices-l first snapshot: "@ + e@,
        ),
        (TrackState::ReadLong, TrackEvent::Listed(Ok(s))) => if !lists_device(s@, serial) {
            OutcomeView::Failed(
                "track-devices-l snapshot lacks a line for "@ + serial + ": "@ + debug_text(s@),
            )
        } else {
            OutcomeView::Failed(
                "track-devices-l snapshot is not the LONG format (no transport_id): "@
                    + debug_text(s@),
            )
        },
        (TrackState::AskLong(_), TrackEvent::Replied(Err(e))) => OutcomeView::Failed(
            "host:devices-l: "@ + e@,
        ),
        (TrackState::AskLong(streamed), TrackEvent::Replied(Ok((status, replied)))) => {
            OutcomeView::Failed(
                "track-devices-l first snapshot must byte-equal host:devices-l (status "@ + status@
                    + "): streamed="@ + debug_text(streamed@) + " one-shot="@ + debug_text(
                    replied@,
                ),
            )
        },
        (TrackState::OpenShort, TrackEvent::Opened(Err(e))) => OutcomeView::Failed(
            "host:track-devices: "@ + e@,
        ),
        (TrackState::ReadShort, TrackEvent::Listed(Err(e))) => OutcomeView::Failed(
            "track-devices first snapshot: "@ + e@,
        ),
        (TrackState::AskShort(_), TrackEvent::Replied(Err(e))) => OutcomeView::Failed(
            "host:devices: "@ + e@,
        ),
        (TrackState::AskShort(streamed), TrackEvent::Replied(Ok((status, replied)))) => {
            if lists_agree(status@, streamed@, replied@) {
                OutcomeView::Passed
            } else {
                OutcomeView::Failed(
                    "track-devices snapshot must byte-equal host:devices (status "@ + status@
                        + "): streamed="@ + debug_text(streamed@) + " one-shot="@ + debug_text(
                        replied@,
                    ),
                )
            }
        },
        _ => OutcomeView::Failed("unexpected event"@),
    }
}

/// Whether the case goes on, and where it then stands.
pub open spec fn track_continues(
    state: TrackState,
    event: TrackEvent,
    serial: Seq<char>,
    next: TrackState,
) -> bool {
    match (state, event) {
        (TrackState::OpenLong, TrackEvent::Opened(Ok(_))) => next is ReadLong,
        (TrackState::ReadLong, TrackEvent::Listed(Ok(s))) => lists_device(s@, serial)
            && holds_text(s@, "transport_id:"@) && (next matches TrackState::AskLong(t) && t@
            == s@),
        (TrackState::AskLong(streamed), TrackEvent::Replied(Ok((status, replied)))) => lists_agree(
            status@,
            streamed@,
            replied@,
        ) && next is OpenShort,
        (TrackState::OpenShort, TrackEvent::Opened(Ok(_))) => next is ReadShort,
        (TrackState::ReadShort, TrackEvent::Listed(Ok(s))) => next matches TrackState::AskShort(t)
            && t@ == s@,
        _ => false,
    }
}

/// Handles one event of the case on device streams.
pub fn case_track_devices_family(state: TrackState, event: TrackEvent, serial: &str) -> (r:
    TrackStep)
    ensures
        match r {
            TrackStep::Next(next) => track_continues(state, event, serial@, next),
            TrackStep::Done(o) => o@ == track_outcome(state, event, serial@) && !(exists|
                next: TrackState,
            | track_continues(state, event, serial@, next)),
        },
{
    match (state, event) {
        (TrackState::OpenLong, TrackEvent::Opened(Ok(_))) => TrackStep::Next(TrackState::ReadLong),
        (TrackState::OpenLong, TrackEvent::Opened(Err(e))) => TrackStep::Done(
            Outcome::Failed(
                concat(
                    "REGRESSION: host:track-devices-l could not be opened \u{2014} the arm Android Studio's adblib depends on is missing: ",
                    e.as_str(),
                ),
            ),
        ),
        (TrackState::ReadLong, TrackEvent::Listed(Err(e))) => TrackStep::Done(
            Outcome::Failed(concat("track-devices-l first snapshot: ", e.as_str())),
        ),
        (TrackState::ReadLong, TrackEvent::Listed(Ok(s))) => {
            if !snapshot_has_serial(s.as_str(), serial) {
                let mut text = concat3(
                    "track-devices-l snapshot lacks a line for ",
                    serial,
                    ": ",
                );
                text.append(debug_string(s.as_str()).as_str());
                TrackStep::Done(Outcome::Failed(text))
            } else if !contains_text(s.as_str(), "transport_id:") {
                TrackStep::Done(
                    Outcome::Failed(
                        concat(
                            "track-devices-l snapshot is not the LONG format (no transport_id): ",
                            debug_string(s.as_str()).as_str(),
                        ),
                    ),
                )
            } else {
                TrackStep::Next(TrackState::AskLong(s))
            }
        },
        (TrackState::AskLong(_), TrackEvent::Replied(Err(e))) => TrackStep::Done(
            Outcome::Failed(concat("host:devices-l: ", e.as_str())),
        ),
        (TrackState::AskLong(streamed), TrackEvent::Replied(Ok((status, replied)))) => {
            if str_eq(status.as_str(), "OKAY") && str_eq(streamed.as_str(), replied.as_str()) {
                TrackStep::Next(TrackState::OpenShort)
            } else {
                TrackStep::Done(
                    Outcome::Failed(
                        lists_differ(
                            "track-devices-l first snapshot must byte-equal host:devices-l (status ",
                            status.as_str(),
                            debug_string(streamed.as_str()).as_str(),
                            debug_string(replied.as_str()).as_str(),
                        ),
                    ),
                )
            }
        },
        (TrackState::OpenShort, TrackEvent::Opened(Ok(_))) => TrackStep::Next(
            TrackState::ReadShort,
        ),
        (TrackState::OpenShort, TrackEvent::Opened(Err(e))) => TrackStep::Done(
            Outcome::Failed(concat("host:track-devices: ", e.as_str())),
        ),
        (TrackState::ReadShort, TrackEvent::Listed(Err(e))) => TrackStep::Done(
            Outcome::Failed(concat("track-devices first snapshot: ", e.as_str())),
        ),
        (TrackState::ReadShort, TrackEvent::Listed(Ok(s))) => TrackStep::Next(
            TrackState::AskShort(s),
        ),
        (TrackState::AskShort(_), TrackEvent::Replied(Err(e))) => TrackStep::Done(
            Outcome::Failed(concat("host:devices: ", e.as_str())),
        ),
        (TrackState::AskShort(streamed), TrackEvent::Replied(Ok((status, replied)))) => {
            if str_eq(status.as_str(), "OKAY") && str_eq(streamed.as_str(), replied.as_str()) {
                TrackStep::Done(Outcome::Passed)
            } else {
                TrackStep::Done(
                    Outcome::Failed(
                        lists_differ(
                            "track-devices snapshot must byte-equal host:devices (status ",
                            status.as_str(),
                            debug_string(streamed.as_str()).as_str(),
                            debug_string(replied.as_str()).as_str(),
                        ),
                    ),
                )
            }
        },
        _ => TrackStep::Done(Outcome::Failed("unexpected event".to_owned())),
    }
}

} // verus!
