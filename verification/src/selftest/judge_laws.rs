//! What the cases on a device ask for is what they are judged by.
use vstd::prelude::*;

use crate::number::decimal;
use crate::selftest::judge::{
    cleanup_text, debug_text, device_echo_outcome, device_shell_failure, echo_marker, echo_text,
    exit_code_outcome, forward_run_outcome, no_iperf3, payload_bytes, persistent_echo_outcome,
    port_end, reverse_echo_outcome, reverse_echo_text, reverse_iperf3_outcome, reverse_iperf3_text,
    reverse_marker, scratch_dir, scratch_outcome, shell_failure, stage_text, summary_text, sums_up,
    tool_found, transfer_file, transfer_outcome, v2_run_outcome, ForwardRun, ReverseRun, ShellV2Run,
    Transfer, TransferStage,
};
use crate::selftest::report::OutcomeView;
use crate::text::{has_prefix, prefix_is_found};
use crate::words::{
    all_white, holds_text, is_white, lines_of, texts_are_made_of_lines, trimmed_end,
    trimming_takes_the_white_space_around, white_space_is_trimmed_to_nothing,
};

verus! {

/// What is left of a text without the white space at its end, and that white space.
proof fn trimming_splits(s: Seq<char>)
    ensures
        trimmed_end(s).len() <= s.len(),
        s == trimmed_end(s) + s.skip(trimmed_end(s).len() as int),
        all_white(s.skip(trimmed_end(s).len() as int)),
    decreases s.len(),
{
    if s.len() > 0 && is_white(s.last()) {
        let init = s.drop_last();
        trimming_splits(init);
        let n = trimmed_end(s).len() as int;
        assert(s =~= init.push(s.last()));
        assert(s.skip(n) =~= init.skip(n).push(s.last()));
        assert(s =~= trimmed_end(s) + s.skip(n));
    } else {
        assert(s =~= trimmed_end(s) + s.skip(s.len() as int));
    }
}

/// The marker is what an output is trimmed to exactly if it stands at its front with
/// nothing but white space behind it.
pub proof fn trimmed_to(out: Seq<char>, m: Seq<char>)
    requires
        m.len() > 0,
        !is_white(m[0]),
        !is_white(m.last()),
    ensures
        trimmed_end(out) == m <==> has_prefix(out, m) && all_white(out.skip(m.len() as int)),
{
    trimming_splits(out);
    if trimmed_end(out) == m {
        prefix_is_found(m, out.skip(m.len() as int));
    }
    if has_prefix(out, m) && all_white(out.skip(m.len() as int)) {
        let w = out.skip(m.len() as int);
        assert(out =~= Seq::<char>::empty() + m + w);
        trimming_takes_the_white_space_around(Seq::empty(), m, w);
        assert(Seq::<char>::empty() + m =~= m);
    }
}

/// The marker has no white space at its ends.
proof fn the_marker_is_a_word()
    ensures
        echo_marker().len() > 0,
        !is_white(echo_marker()[0]),
        !is_white(echo_marker().last()),
{
    reveal_strlit("adboost_selftest_marker_4f2a");
    assert(echo_marker()[0] == 'a');
    assert(echo_marker().last() == 'a');
}

/// An echo passes exactly if what it was told to say came back, with nothing but white
/// space behind it; otherwise what came back is shown. Either way to the device judges
/// alike, and tells why it could not.
pub proof fn an_echo_passes_if_it_comes_back(marker: Seq<char>, out: Seq<char>, e: Seq<char>)
    requires
        echo_text(echo_marker()) == "echo "@ + marker,
    ensures
        device_echo_outcome(Ok(out)) == OutcomeView::Passed <==> has_prefix(out, marker)
            && all_white(out.skip(marker.len() as int)),
        device_echo_outcome(Ok(out)) == OutcomeView::Passed || device_echo_outcome(Ok(out))
            == OutcomeView::Failed(
            "echo returned "@ + debug_text(out) + ", expected "@ + debug_text(marker),
        ),
        persistent_echo_outcome(Ok(out)) == device_echo_outcome(Ok(out)),
        device_echo_outcome(Err(e)) == OutcomeView::Failed(e),
        persistent_echo_outcome(Err(e)) == OutcomeView::Failed("shell_exec failed: "@ + e),
{
    reveal_strlit("echo ");
    assert(marker =~= echo_text(echo_marker()).skip(5));
    assert(echo_marker() =~= echo_text(echo_marker()).skip(5));
    the_marker_is_a_word();
    trimmed_to(out, marker);
}

/// With separate streams the echo must come back on the output and end with zero; an end
/// without a code is not enough.
pub proof fn a_session_passes_if_it_ends_well(out: String, code: u8, e: String)
    ensures
        v2_run_outcome(ShellV2Run::Ended { stdout: out, exit_code: Some(code) })
            == OutcomeView::Passed <==> code == 0 && device_echo_outcome(Ok(out@))
            == OutcomeView::Passed,
        v2_run_outcome(ShellV2Run::Ended { stdout: out, exit_code: None }) is Failed,
        device_echo_outcome(Ok(out@)) == OutcomeView::Passed && code != 0 ==> v2_run_outcome(
            ShellV2Run::Ended { stdout: out, exit_code: Some(code) },
        ) == OutcomeView::Failed(
            "shell_v2 echo exited "@ + decimal(code as nat) + ", expected 0"@,
        ),
        device_echo_outcome(Ok(out@)) == OutcomeView::Passed ==> v2_run_outcome(
            ShellV2Run::Ended { stdout: out, exit_code: None },
        ) == OutcomeView::Failed("shell_v2 reported no exit code"@),
        device_echo_outcome(Ok(out@)) != OutcomeView::Passed ==> v2_run_outcome(
            ShellV2Run::Ended { stdout: out, exit_code: Some(code) },
        ) == OutcomeView::Failed(
            "shell_v2 stdout "@ + debug_text(out@) + ", expected "@ + debug_text(echo_marker()),
        ),
        v2_run_outcome(ShellV2Run::NotOpened(e)) == OutcomeView::Failed(
            "open_shell_v2 failed: "@ + e@,
        ),
        v2_run_outcome(ShellV2Run::Broken(e)) == OutcomeView::Failed(
            "shell_v2 execute failed: "@ + e@,
        ),
{
}

/// A command that fails must be told to fail: any code but zero passes, and a way to the
/// device that tells no codes is not held against it.
pub proof fn failures_must_be_told(code: u8, e: Seq<char>)
    ensures
        code != 0 ==> exit_code_outcome(Ok(Some(code))) == OutcomeView::Passed,
        exit_code_outcome(Ok(Some(0))) == OutcomeView::Failed("`false` reported exit code 0"@),
        exit_code_outcome(Ok(None)) == OutcomeView::Skipped(
            "channel does not surface shell exit codes"@,
        ),
        exit_code_outcome(Err(e)) == OutcomeView::Failed(e),
{
}

/// A command that could not be run is named with the reason.
pub proof fn commands_that_fail_are_named(cmd: Seq<char>, e: Seq<char>)
    ensures
        shell_failure(cmd, e) == "shell `"@ + cmd + "` failed: "@ + e,
        device_shell_failure(cmd, e) == "device shell `"@ + cmd + "` failed: "@ + e,
{
}

/// A transfer passes exactly if the bytes that come back are those that were sent. Every
/// step that fails is a failure with its reason, and the number of bytes is told where they
/// differ.
pub proof fn a_transfer_passes_if_nothing_changes(
    bytes: Vec<u8>,
    stage: TransferStage,
    e: String,
    persistent: bool,
)
    ensures
        transfer_outcome(Transfer::Pulled(bytes), persistent) == OutcomeView::Passed <==> bytes@
            == payload_bytes(),
        bytes@ != payload_bytes() ==> transfer_outcome(Transfer::Pulled(bytes), true)
            == OutcomeView::Failed(
            "pulled "@ + decimal(bytes@.len()) + " bytes differ from pushed "@ + decimal(
                payload_bytes().len(),
            ),
        ),
        bytes@ != payload_bytes() ==> transfer_outcome(Transfer::Pulled(bytes), false)
            == OutcomeView::Failed(
            "pulled "@ + decimal(bytes@.len()) + " bytes differ from pushed "@ + decimal(
                payload_bytes().len(),
            ) + " bytes"@,
        ),
        transfer_outcome(Transfer::Failed(stage, e), persistent) == OutcomeView::Failed(
            stage_text(stage, persistent) + e@,
        ),
        stage_text(TransferStage::Push, true) == "sync push failed: "@,
        stage_text(TransferStage::Pull, true) == "sync pull failed: "@,
        stage_text(TransferStage::OpenPush, true) == "open_sync_session (push) failed: "@,
        stage_text(TransferStage::OpenPull, true) == "open_sync_session (pull) failed: "@,
        stage_text(TransferStage::Push, false) == "push failed: "@,
        stage_text(TransferStage::OpenPush, false) == "push failed: "@,
        stage_text(TransferStage::Pull, false) == "pull failed: "@,
        stage_text(TransferStage::OpenPull, false) == "pull failed: "@,
{
    reveal_strlit("");
    let head = "pulled "@ + decimal(bytes@.len()) + " bytes differ from pushed "@ + decimal(
        payload_bytes().len(),
    );
    assert(head + ""@ =~= head);
}

/// Transfers leave their files among the scratch files, each kind its own, and the file is
/// removed by its path.
pub proof fn transfers_keep_to_the_scratch_files(persistent: bool)
    ensures
        scratch_dir() == "/data/local/tmp"@,
        has_prefix(transfer_file(persistent), scratch_dir() + "/"@),
        transfer_file(true) != transfer_file(false),
        cleanup_text(transfer_file(persistent)) == "rm -f "@ + transfer_file(persistent),
{
    reveal_strlit("/");
    reveal_strlit("/data/local/tmp");
    reveal_strlit("/adboost_selftest_pers_8b1c.bin");
    reveal_strlit("/adboost_selftest_pushpull_8b1c.bin");
    assert(transfer_file(true).len() != transfer_file(false).len());
    assert(transfer_file(persistent).subrange(0, 16) =~= scratch_dir() + "/"@);
}

/// A request about the scratch directory passes exactly if it was done, and names itself,
/// the directory and the reason otherwise.
pub proof fn requests_about_the_scratch_directory(verb: Seq<char>, e: Seq<char>)
    ensures
        scratch_outcome(verb, None) == OutcomeView::Passed,
        scratch_outcome(verb, Some(e)) == OutcomeView::Failed(
            verb + " `"@ + "/data/local/tmp"@ + "` failed: "@ + e,
        ),
{
}

/// Rules pass exactly if they can be added and removed.
pub proof fn rules_pass_if_added_and_removed(e: String)
    ensures
        forward_run_outcome(ForwardRun::Done) == OutcomeView::Passed,
        forward_run_outcome(ForwardRun::NotAdded(e)) == OutcomeView::Failed(
            "forward add failed: "@ + e@,
        ),
        forward_run_outcome(ForwardRun::NotRemoved(e)) == OutcomeView::Failed(
            "forward remove-all failed: "@ + e@,
        ),
{
}

/// A device has a tool if looking for it printed anything but white space.
pub proof fn tools_are_found_by_what_is_printed(
    a: Seq<char>,
    m: Seq<char>,
    b: Seq<char>,
    e: Seq<char>,
)
    requires
        all_white(a),
        all_white(b),
        m.len() > 0,
        !is_white(m[0]),
        !is_white(m.last()),
    ensures
        tool_found(Ok(a + m + b)),
        !tool_found(Ok(a)),
        !tool_found(Err(e)),
{
    trimming_takes_the_white_space_around(a, m, b);
    white_space_is_trimmed_to_nothing(a);
}

/// An echo through a reverse rule passes exactly if what the device was told to say stands
/// in what came back.
pub proof fn a_reverse_echo_passes_if_it_comes_back(
    marker: Seq<char>,
    device_port: u16,
    out: String,
    e: String,
)
    requires
        reverse_echo_text(device_port) == "(echo "@ + marker + "; sleep 2) | nc 127.0.0.1 "@
            + decimal(device_port as nat),
    ensures
        reverse_echo_outcome(ReverseRun::Printed(out)) == OutcomeView::Passed <==> holds_text(
            out@,
            marker,
        ),
        !holds_text(out@, marker) ==> reverse_echo_outcome(ReverseRun::Printed(out))
            == OutcomeView::Failed("echo via reverse returned "@ + debug_text(out@)),
        reverse_echo_outcome(ReverseRun::NotBound(e)) == OutcomeView::Failed(
            "host echo bind failed: "@ + e@,
        ),
        reverse_echo_outcome(ReverseRun::NoAddress(e)) == OutcomeView::Failed(
            "host echo addr failed: "@ + e@,
        ),
        reverse_echo_outcome(ReverseRun::NotSetUp(e)) == OutcomeView::Failed(
            "reverse setup failed: "@ + e@,
        ),
        reverse_echo_outcome(ReverseRun::Failed(e)) == OutcomeView::Failed(e@),
        reverse_echo_outcome(ReverseRun::TimedOut) == OutcomeView::Failed(
            "reverse echo timed out (10s)"@,
        ),
{
    reveal_strlit("(echo ");
    reveal_strlit("; sleep 2) | nc 127.0.0.1 ");
    reveal_strlit("(echo adboost_reverse_echo_5c1a; sleep 2) | nc 127.0.0.1 ");
    reveal_strlit("adboost_reverse_echo_5c1a");
    let t = reverse_echo_text(device_port);
    let tail = decimal(device_port as nat);
    assert(t.len() == 6 + marker.len() + 26 + tail.len());
    assert(t.len() == 57 + tail.len());
    assert(marker =~= t.subrange(6, 31));
    assert(reverse_marker() =~= t.subrange(6, 31));
}

/// The command on the device speaks to the end of the rule there.
pub proof fn reverse_rules_are_spoken_to(device_port: u16)
    ensures
        port_end(device_port) == "tcp:"@ + decimal(device_port as nat),
        reverse_echo_text(device_port) == "(echo "@ + reverse_marker()
            + "; sleep 2) | nc 127.0.0.1 "@ + decimal(device_port as nat),
        reverse_iperf3_text(device_port) == "iperf3 -c 127.0.0.1 -p "@ + decimal(
            device_port as nat,
        ) + " -t 3"@,
{
    reveal_strlit("(echo ");
    reveal_strlit("; sleep 2) | nc 127.0.0.1 ");
    reveal_strlit("(echo adboost_reverse_echo_5c1a; sleep 2) | nc 127.0.0.1 ");
    reveal_strlit("adboost_reverse_echo_5c1a");
    assert(reverse_echo_text(device_port) =~= "(echo "@ + reverse_marker()
        + "; sleep 2) | nc 127.0.0.1 "@ + decimal(device_port as nat));
}

/// A measurement passes exactly if either side sums it up; a host without the tool is not
/// held against the device.
pub proof fn a_measurement_passes_if_it_is_summed_up(out: String, e: String)
    ensures
        reverse_iperf3_outcome(ReverseRun::Printed(out)) == OutcomeView::Passed <==> holds_text(
            out@,
            "receiver"@,
        ) || holds_text(out@, "sender"@),
        reverse_iperf3_outcome(ReverseRun::Printed(out)) != OutcomeView::Passed
            ==> reverse_iperf3_outcome(ReverseRun::Printed(out)) == OutcomeView::Failed(
            "iperf3 via reverse gave no result: "@ + debug_text(out@),
        ),
        reverse_iperf3_outcome(ReverseRun::NotBound(e)) == OutcomeView::Failed(
            "cannot pick free port: "@ + e@,
        ),
        reverse_iperf3_outcome(ReverseRun::NoAddress(e)) == OutcomeView::Failed(
            "cannot read free port: "@ + e@,
        ),
        reverse_iperf3_outcome(ReverseRun::NotSetUp(e)) == OutcomeView::Failed(
            "reverse setup failed: "@ + e@,
        ),
        reverse_iperf3_outcome(ReverseRun::Failed(e)) == OutcomeView::Failed(e@),
        reverse_iperf3_outcome(ReverseRun::TimedOut) == OutcomeView::Failed(
            "reverse iperf3 timed out (20s)"@,
        ),
        no_iperf3(e@) == OutcomeView::Skipped("host iperf3 unavailable: "@ + e@),
{
}

/// The summary of a measurement holds the lines that sum it up, in their order, and no
/// other.
pub proof fn summaries_hold_the_lines_that_sum_up(line: Seq<char>, rest: Seq<char>)
    requires
        !line.contains('\n'),
        line.len() == 0 || line.last() != '\r',
    ensures
        summary_text(Seq::empty()) == Seq::<char>::empty(),
        holds_text(line, "sender"@) || holds_text(line, "receiver"@) ==> summary_text(
            line + seq!['\n'],
        ) == line,
        !holds_text(line, "sender"@) && !holds_text(line, "receiver"@) ==> summary_text(
            line + seq!['\n'] + rest,
        ) == summary_text(rest),
{
    let pick = |l: Seq<char>| sums_up(l);
    texts_are_made_of_lines(line, rest);
    texts_are_made_of_lines(line, Seq::empty());
    assert(line + seq!['\n'] + Seq::<char>::empty() =~= line + seq!['\n']);
    assert(seq![line] + Seq::<Seq<char>>::empty() =~= seq![line]);
    reveal(Seq::filter);
    assert(Seq::<Seq<char>>::empty().filter(pick) =~= Seq::empty());
    assert(seq![line].drop_last() =~= Seq::<Seq<char>>::empty());
    if sums_up(line) {
        assert(seq![line].filter(pick) =~= seq![line]);
    } else {
        assert(seq![line].filter(pick) =~= Seq::empty());
        Seq::filter_distributes_over_add(seq![line], lines_of(rest), pick);
        assert((seq![line] + lines_of(rest)).filter(pick) =~= lines_of(rest).filter(pick));
    }
}

} // verus!
