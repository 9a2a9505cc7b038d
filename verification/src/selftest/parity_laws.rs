//! What the official client is asked for is what it is judged by.
use vstd::prelude::*;

use crate::number::decimal;
use crate::selftest::judge::debug_text;
use crate::selftest::judge_laws::trimmed_to;
use crate::selftest::parity::{
    ambiguous_outcome, client_args, connect_outcome, is_echo, lists_device, shell_marker,
    shell_outcome, state_outcome, stream_refusal, tcp_device_marker, tcp_shell_outcome,
    track_continues, track_outcome, track_service, AdbRequest, AdbRun, TrackEvent, TrackState,
};
use crate::selftest::report::OutcomeView;
use crate::text::{has_prefix, prefix_is_found};
use crate::words::{
    all_white, holds_text, is_white, lines_of, texts_are_made_of_lines, trimmed, trimmed_end,
};

verus! {

/// The client speaks to the server at the port that is tested, on the device that is named,
/// and says what it is told to. Only its version needs no server.
pub proof fn the_client_is_told_what_to_do(port: u16, serial: String, text: String)
    ensures
        client_args(port, AdbRequest::ShellEcho { serial: Some(serial), text }) == seq![
            "-P"@,
            decimal(port as nat),
            "-s"@,
            serial@,
            "shell"@,
            "echo"@,
            text@,
        ],
        client_args(port, AdbRequest::ShellEcho { serial: None, text }) == seq![
            "-P"@,
            decimal(port as nat),
            "shell"@,
            "echo"@,
            text@,
        ],
        client_args(port, AdbRequest::GetState) == seq![
            "-P"@,
            decimal(port as nat),
            "get-state"@,
        ],
        client_args(port, AdbRequest::Connect(text)) == seq![
            "-P"@,
            decimal(port as nat),
            "connect"@,
            text@,
        ],
        client_args(port, AdbRequest::Disconnect(text)) == seq![
            "-P"@,
            decimal(port as nat),
            "disconnect"@,
            text@,
        ],
        client_args(port, AdbRequest::Forward { serial, remote: text }) == seq![
            "-P"@,
            decimal(port as nat),
            "-s"@,
            serial@,
            "forward"@,
            "tcp:0"@,
            text@,
        ],
        client_args(port, AdbRequest::ForwardList) == seq![
            "-P"@,
            decimal(port as nat),
            "forward"@,
            "--list"@,
        ],
        client_args(port, AdbRequest::Version) == seq!["version"@],
{
}

/// The markers are words.
proof fn markers_are_words()
    ensures
        shell_marker().len() > 0,
        !is_white(shell_marker()[0]),
        !is_white(shell_marker().last()),
        tcp_device_marker().len() > 0,
        !is_white(tcp_device_marker()[0]),
        !is_white(tcp_device_marker().last()),
{
    reveal_strlit("adboost_parity_marker_d31f");
    reveal_strlit("adboost_tcpip_through_server_marker");
    assert(shell_marker()[0] == 'a' && shell_marker().last() == 'f');
    assert(tcp_device_marker()[0] == 'a' && tcp_device_marker().last() == 'r');
}

/// An echo with the official client passes exactly if the client ended well and what it was
/// told to say stands on its output, with nothing but white space behind it.
pub proof fn the_echo_of_the_client_must_come_back(
    request: AdbRequest,
    serial: Seq<char>,
    success: bool,
    status: String,
    stdout: String,
    stderr: String,
)
    requires
        is_echo(request, Some(serial), shell_marker()),
    ensures
        ({
            let run = AdbRun::Exited { success, status, stdout, stderr };
            let said = request->ShellEcho_text@;
            &&& shell_outcome(run) == OutcomeView::Passed <==> success && has_prefix(stdout@, said)
                && all_white(stdout@.skip(said.len() as int))
            &&& !success ==> shell_outcome(run) == OutcomeView::Failed(
                "official adb against adboost server exited "@ + status@ + ": "@ + trimmed_end(
                    stderr@,
                ),
            )
            &&& success && shell_outcome(run) != OutcomeView::Passed ==> shell_outcome(run)
                == OutcomeView::Failed(
                "official adb shell echo returned "@ + debug_text(trimmed_end(stdout@))
                    + ", expected "@ + debug_text(said),
            )
        }),
{
    markers_are_words();
    trimmed_to(stdout@, shell_marker());
}

/// The same holds of the echo on a device that is connected over TCP, where it is told apart
/// that the server does not bridge such devices.
pub proof fn the_echo_over_tcp_must_come_back(
    request: AdbRequest,
    serial: Seq<char>,
    success: bool,
    status: String,
    stdout: String,
    stderr: String,
)
    requires
        is_echo(request, Some(serial), tcp_device_marker()),
    ensures
        ({
            let run = AdbRun::Exited { success, status, stdout, stderr };
            let said = request->ShellEcho_text@;
            let both = stdout@ + stderr@;
            &&& tcp_shell_outcome(run) == OutcomeView::Passed <==> success && has_prefix(
                stdout@,
                said,
            ) && all_white(stdout@.skip(said.len() as int))
            &&& success && tcp_shell_outcome(run) != OutcomeView::Passed ==> tcp_shell_outcome(run)
                == OutcomeView::Failed(
                "shell through TCP/IP device returned "@ + debug_text(trimmed_end(stdout@))
                    + ", expected "@ + debug_text(said),
            )
            &&& !success && !holds_text(both, "not yet supported"@) ==> tcp_shell_outcome(run)
                == OutcomeView::Failed(
                "shell through TCP/IP device exited "@ + status@ + ": "@ + trimmed(both),
            )
            &&& !success && holds_text(both, "not yet supported"@) ==> tcp_shell_outcome(run)
                == OutcomeView::Failed(
                "REGRESSION: shell through a host:connect'd TCP/IP device reported `not yet supported` \u{2014} the transport-generalized multiplexer is not wired: "@
                    + trimmed(both),
            )
        }),
{
    markers_are_words();
    trimmed_to(stdout@, tcp_device_marker());
}

/// Without a device named, and with several there, the client must fail and be told that
/// there is more than one. That it succeeds, or is told that there is none, is a failure.
pub proof fn the_client_must_be_told_of_several_devices(
    success: bool,
    status: String,
    stdout: String,
    stderr: String,
)
    ensures
        ({
            let run = AdbRun::Exited { success, status, stdout, stderr };
            let several = holds_text(stderr@, "more than one device"@);
            let none = holds_text(stderr@, "device not found"@);
            &&& ambiguous_outcome(run) == OutcomeView::Passed <==> !success && several
            &&& success ==> ambiguous_outcome(run) == OutcomeView::Failed(
                "official adb shell with no -s unexpectedly succeeded against multiple devices; expected `more than one device`"@,
            )
            &&& !success && !several && none ==> ambiguous_outcome(run) == OutcomeView::Failed(
                "REGRESSION: no--s shell against multiple devices reported `device not found` instead of `more than one device`: "@
                    + trimmed_end(stderr@),
            )
            &&& !success && !several && !none ==> ambiguous_outcome(run) == OutcomeView::Failed(
                "no--s shell against multiple devices failed with unexpected wording, expected `more than one device`: "@
                    + trimmed_end(stderr@),
            )
        }),
{
}

/// A request is known to the server unless the client says on either stream that it is not.
/// To connect must lead to words about connecting besides, whether it succeeds or not.
pub proof fn requests_must_be_known(
    success: bool,
    status: String,
    stdout: String,
    stderr: String,
)
    ensures
        ({
            let run = AdbRun::Exited { success, status, stdout, stderr };
            let both = stdout@ + stderr@;
            let unknown = holds_text(both, "unknown host service"@);
            &&& state_outcome(run) == OutcomeView::Passed <==> !unknown
            &&& connect_outcome(run) == OutcomeView::Passed <==> !unknown && (holds_text(
                both,
                "connected to"@,
            ) || holds_text(both, "failed to connect"@) || holds_text(both, "cannot connect"@)
                || holds_text(both, "could not resolve"@))
            &&& unknown ==> state_outcome(run) == OutcomeView::Failed(
                "REGRESSION: bare `adb get-state` reported `unknown host service` \u{2014} the transport-any host:get-state arm is missing: "@
                    + trimmed(both),
            )
            &&& unknown ==> connect_outcome(run) == OutcomeView::Failed(
                "REGRESSION: `adb connect` reported `unknown host service` \u{2014} the host:connect arm is missing: "@
                    + trimmed(both),
            )
            &&& !unknown && connect_outcome(run) != OutcomeView::Passed ==> connect_outcome(run)
                == OutcomeView::Failed(
                "`adb connect` produced unexpected output (no connect-machinery wording): "@
                    + trimmed(both),
            )
        }),
{
}

/// A client that could not be started passes no case, and each says why.
pub proof fn a_client_that_does_not_start_passes_nothing(e: String)
    ensures
        ({
            let run = AdbRun::NotInvoked(e);
            let failed = OutcomeView::Failed("could not invoke adb: "@ + e@);
            &&& shell_outcome(run) == failed
            &&& ambiguous_outcome(run) == failed
            &&& connect_outcome(run) == failed
            &&& state_outcome(run) == failed
            &&& tcp_shell_outcome(run) == failed
        }),
{
}

/// A list has a device if one of its lines is the serial, a tab and more; a serial that
/// only begins like it does not count.
pub proof fn lists_have_the_devices_of_their_lines(
    serial: Seq<char>,
    state: Seq<char>,
    more: Seq<char>,
)
    requires
        !serial.contains('\n'),
        !state.contains('\n'),
        state.len() > 0,
        state.last() != '\r',
    ensures
        lists_device(serial + seq!['\t'] + state + seq!['\n'] + more, serial),
        !lists_device(Seq::empty(), serial),
        lists_device(more, serial) <==> exists|i: int|
            0 <= i < lines_of(more).len() && has_prefix(
                #[trigger] lines_of(more)[i],
                serial + seq!['\t'],
            ),
{
    reveal_strlit("\t");
    assert("\t"@ =~= seq!['\t']);
    let line = serial + seq!['\t'] + state;
    assert(!line.contains('\n')) by {
        if line.contains('\n') {
            let i = choose|i: int| 0 <= i < line.len() && line[i] == '\n';
            if i < serial.len() {
                assert(serial.contains(serial[i]));
            } else if i > serial.len() {
                assert(state.contains(state[i - serial.len() - 1]));
            }
        }
    }
    assert(line.last() == state.last());
    texts_are_made_of_lines(line, more);
    let all = serial + seq!['\t'] + state + seq!['\n'] + more;
    assert(lines_of(all)[0] == line);
    prefix_is_found(serial + "\t"@, state);
    assert(has_prefix(lines_of(all)[0], serial + "\t"@));
}

/// A stream is accepted exactly if the server says `OKAY`; otherwise the request, the word
/// and the reason are told.
pub proof fn streams_must_be_accepted(service: Seq<char>, status: Seq<char>, reason: Seq<char>)
    ensures
        stream_refusal(service, "OKAY"@, reason) == None::<Seq<char>>,
        status != "OKAY"@ ==> stream_refusal(service, status, reason) == Some(
            service + " replied "@ + status + ": "@ + reason,
        ),
{
}

/// The case on streams asks for the long stream and the long list, and then for the short
/// ones. It goes on exactly if a stream opens, its list has the device in the long form,
/// and the list that is asked for is the same, letter for letter.
pub proof fn streams_are_held_against_lists(
    serial: Seq<char>,
    streamed: String,
    status: String,
    replied: String,
    next: TrackState,
)
    ensures
        track_service(TrackState::OpenLong) == Some("host:track-devices-l"@),
        track_continues(TrackState::OpenLong, TrackEvent::Opened(Ok(())), serial, next)
            <==> next is ReadLong,
        track_continues(TrackState::ReadLong, TrackEvent::Listed(Ok(streamed)), serial, next)
            <==> lists_device(streamed@, serial) && holds_text(streamed@, "transport_id:"@)
            && next is AskLong && next->AskLong_0@ == streamed@,
        track_service(TrackState::AskLong(streamed)) == Some("host:devices-l"@),
        track_continues(
            TrackState::AskLong(streamed),
            TrackEvent::Replied(Ok((status, replied))),
            serial,
            next,
        ) <==> status@ == "OKAY"@ && streamed@ == replied@ && next is OpenShort,
        track_service(TrackState::OpenShort) == Some("host:track-devices"@),
        track_continues(TrackState::OpenShort, TrackEvent::Opened(Ok(())), serial, next)
            <==> next is ReadShort,
        track_continues(TrackState::ReadShort, TrackEvent::Listed(Ok(streamed)), serial, next)
            <==> next is AskShort && next->AskShort_0@ == streamed@,
        track_service(TrackState::AskShort(streamed)) == Some("host:devices"@),
        track_outcome(
            TrackState::AskShort(streamed),
            TrackEvent::Replied(Ok((status, replied))),
            serial,
        ) == OutcomeView::Passed <==> status@ == "OKAY"@ && streamed@ == replied@,
{
}

/// The case passes only at its very end; wherever else it stops, it has failed.
pub proof fn streams_pass_only_at_the_end(
    state: TrackState,
    event: TrackEvent,
    serial: Seq<char>,
)
    ensures
        track_outcome(state, event, serial) == OutcomeView::Passed ==> state is AskShort && event
            is Replied,
        track_outcome(state, event, serial) != OutcomeView::Passed ==> track_outcome(
            state,
            event,
            serial,
        ) is Failed,
{
}

/// What goes wrong with a stream or a list is told with its cause, and lists that differ are
/// both shown.
pub proof fn failures_of_streams_are_told(
    serial: Seq<char>,
    e: String,
    streamed: String,
    status: String,
    replied: String,
)
    ensures
        track_outcome(TrackState::OpenLong, TrackEvent::Opened(Err(e)), serial)
            == OutcomeView::Failed(
            "REGRESSION: host:track-devices-l could not be opened \u{2014} the arm Android Studio's adblib depends on is missing: "@
                + e@,
        ),
        track_outcome(TrackState::ReadLong, TrackEvent::Listed(Err(e)), serial)
            == OutcomeView::Failed("track-devices-l first snapshot: "@ + e@),
        !lists_device(streamed@, serial) ==> track_outcome(
            TrackState::ReadLong,
            TrackEvent::Listed(Ok(streamed)),
            serial,
        ) == OutcomeView::Failed(
            "track-devices-l snapshot lacks a line for "@ + serial + ": "@ + debug_text(streamed@),
        ),
        lists_device(streamed@, serial) ==> track_outcome(
            TrackState::ReadLong,
            TrackEvent::Listed(Ok(streamed)),
            serial,
        ) == OutcomeView::Failed(
            "track-devices-l snapshot is not the LONG format (no transport_id): "@ + debug_text(
                streamed@,
            ),
        ),
        track_outcome(TrackState::AskLong(streamed), TrackEvent::Replied(Err(e)), serial)
            == OutcomeView::Failed("host:devices-l: "@ + e@),
        track_outcome(
            TrackState::AskLong(streamed),
            TrackEvent::Replied(Ok((status, replied))),
            serial,
        ) == OutcomeView::Failed(
            "track-devices-l first snapshot must byte-equal host:devices-l (status "@ + status@
                + "): streamed="@ + debug_text(streamed@) + " one-shot="@ + debug_text(replied@),
        ),
        track_outcome(TrackState::OpenShort, TrackEvent::Opened(Err(e)), serial)
            == OutcomeView::Failed("host:track-devices: "@ + e@),
        track_outcome(TrackState::ReadShort, TrackEvent::Listed(Err(e)), serial)
            == OutcomeView::Failed("track-devices first snapshot: "@ + e@),
        track_outcome(TrackState::AskShort(streamed), TrackEvent::Replied(Err(e)), serial)
            == OutcomeView::Failed("host:devices: "@ + e@),
        !(status@ == "OKAY"@ && streamed@ == replied@) ==> track_outcome(
            TrackState::AskShort(streamed),
            TrackEvent::Replied(Ok((status, replied))),
            serial,
        ) == OutcomeView::Failed(
            "track-devices snapshot must byte-equal host:devices (status "@ + status@
                + "): streamed="@ + debug_text(streamed@) + " one-shot="@ + debug_text(replied@),
        ),
{
}

} // verus!
