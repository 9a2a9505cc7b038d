//! How long something is waited for, and what is read while it is.
use vstd::prelude::*;

use crate::number::{decimal, parse_of_decimal, parsed_unsigned};
use crate::selftest::parity::AdbRun;
use crate::selftest::polling::{
    absence, agrees, ascii_lower, ascii_lowered, connect_said, forward_failure, ip_found,
    is_present, listed_rules, open_fits, poll, presence, process_found, ready_fits,
    recovery_outcome, release_fits, seconds, tcpip_serial, word_after, OpenPoll, Poll, ReadyPoll,
    ReleasePoll,
};
use crate::selftest::report::OutcomeView;
use crate::selftest::suite::DiscoveredDevice;
use crate::text::opt_text;
use crate::words::{
    all_white, holds_text, is_white, some_line_holds, trimmed, trimmed_end,
    trimming_takes_the_white_space_around, words_of,
};

verus! {

/// What holds is found to hold, however late; only what does not hold runs out of time, and
/// only once the time is up.
pub proof fn what_holds_is_never_late(elapsed_ms: u64, timeout_ms: u64)
    ensures
        poll(true, elapsed_ms, timeout_ms) == Poll::Holds,
        elapsed_ms >= timeout_ms ==> poll(false, elapsed_ms, timeout_ms) == Poll::TimedOut,
        elapsed_ms < timeout_ms ==> poll(false, elapsed_ms, timeout_ms) == Poll::Pause,
{
}

/// A device is waited for until it is there, or until it is not. Whoever gives up says which
/// device it was and how long it was waited for.
pub proof fn devices_are_waited_for(serial: Seq<char>, elapsed_ms: u64, timeout_ms: u64)
    ensures
        presence(serial, true, elapsed_ms, timeout_ms) == Ok::<Poll, Seq<char>>(Poll::Holds),
        absence(serial, false, elapsed_ms, timeout_ms) == Ok::<Poll, Seq<char>>(Poll::Holds),
        elapsed_ms < timeout_ms ==> presence(serial, false, elapsed_ms, timeout_ms) == Ok::<
            Poll,
            Seq<char>,
        >(Poll::Pause),
        elapsed_ms < timeout_ms ==> absence(serial, true, elapsed_ms, timeout_ms) == Ok::<
            Poll,
            Seq<char>,
        >(Poll::Pause),
        elapsed_ms >= timeout_ms ==> presence(serial, false, elapsed_ms, timeout_ms) == Err::<
            Poll,
            Seq<char>,
        >("device "@ + serial + " did not reappear within "@ + seconds(timeout_ms) + "s"@),
        elapsed_ms >= timeout_ms ==> absence(serial, true, elapsed_ms, timeout_ms) == Err::<
            Poll,
            Seq<char>,
        >(
            "device "@ + serial + " still present after "@ + seconds(timeout_ms)
                + "s (expected removal)"@,
        ),
{
}

/// A time is told in whole seconds.
pub proof fn times_are_told_in_seconds(s: u32, ms: u64)
    requires
        ms < 1000,
    ensures
        seconds((s * 1000 + ms) as u64) == decimal(s as nat),
{
}

/// A device is there if one of those that were found has its serial; one without a serial
/// does not count, and nor does a list that could not be had.
pub proof fn devices_are_found_by_serial(devices: Seq<DiscoveredDevice>, serial: Seq<char>, i: int)
    ensures
        0 <= i < devices.len() && opt_text(devices[i].serial) == Some(serial) ==> is_present(
            Some(devices),
            serial,
        ),
        (forall|j: int|
            0 <= j < devices.len() ==> opt_text(#[trigger] devices[j].serial) != Some(serial))
            ==> !is_present(Some(devices), serial),
        !is_present(None, serial),
{
}

/// A device that cannot be opened yet is tried again until the time is up; the last error is
/// the one that is reported.
pub proof fn opening_is_tried_again(e: Seq<char>, elapsed_ms: u64, budget_ms: u64, r: OpenPoll)
    ensures
        open_fits(None, elapsed_ms, budget_ms, r) <==> r is Open,
        elapsed_ms < budget_ms ==> (open_fits(Some(e), elapsed_ms, budget_ms, r) <==> r is Pause),
        elapsed_ms >= budget_ms ==> (open_fits(Some(e), elapsed_ms, budget_ms, r) <==> r is Failed
            && r->Failed_0@ == e),
{
}

/// A device that has come back is judged by its echo; one that cannot be used has failed.
pub proof fn devices_that_come_back_are_judged(o: OutcomeView, e: Seq<char>)
    ensures
        recovery_outcome(Ok(o)) == o,
        recovery_outcome(Err(e)) == OutcomeView::Failed(
            "device returned but shell not ready: "@ + e,
        ),
{
}

/// Rules are gone once no line of the list names the device. Until then, and while the list
/// cannot be had, they are waited for; when the time is up the last list is handed on, or
/// why there was none.
pub proof fn rules_are_waited_for(
    list: Seq<char>,
    e: Seq<char>,
    serial: Seq<char>,
    elapsed_ms: u64,
    timeout_ms: u64,
    r: ReleasePoll,
)
    ensures
        !some_line_holds(list, serial) ==> (release_fits(
            Ok(list),
            serial,
            elapsed_ms,
            timeout_ms,
            r,
        ) <==> r is Released),
        some_line_holds(list, serial) && elapsed_ms < timeout_ms ==> (release_fits(
            Ok(list),
            serial,
            elapsed_ms,
            timeout_ms,
            r,
        ) <==> r is Pause),
        some_line_holds(list, serial) && elapsed_ms >= timeout_ms ==> (release_fits(
            Ok(list),
            serial,
            elapsed_ms,
            timeout_ms,
            r,
        ) <==> r is Late && r->Late_0@ == list),
        elapsed_ms < timeout_ms ==> (release_fits(Err(e), serial, elapsed_ms, timeout_ms, r)
            <==> r is Pause),
        elapsed_ms >= timeout_ms ==> (release_fits(Err(e), serial, elapsed_ms, timeout_ms, r)
            <==> r is Late && r->Late_0@ == "(forward --list error: "@ + e + ")"@),
{
}

/// A shell is ready once it says so on its output. It may say other things before, on
/// either stream, but in no more than sixty-three frames.
pub proof fn readiness_is_waited_for(
    seen: u64,
    stdout: bool,
    text: Seq<char>,
    e: Seq<char>,
    r: ReadyPoll,
)
    requires
        seen < 64,
    ensures
        holds_text(text, "READY"@) ==> (ready_fits(seen, Ok(Some((true, text))), r)
            <==> r is Ready),
        (!stdout || !holds_text(text, "READY"@)) && seen < 63 ==> (ready_fits(
            seen,
            Ok(Some((stdout, text))),
            r,
        ) <==> r is ReadOn),
        (!stdout || !holds_text(text, "READY"@)) && seen == 63 ==> (ready_fits(
            seen,
            Ok(Some((stdout, text))),
            r,
        ) <==> r is Failed && r->Failed_0@ == "READY not seen within 64 frames"@),
        ready_fits(seen, Ok(None), r) <==> r is Failed && r->Failed_0@
            == "stream closed before READY"@,
        ready_fits(seen, Err(e), r) <==> r is Failed && r->Failed_0@ == "read_frame error: "@ + e,
{
}

/// A process is found if one of the words is its number. Other words do not count, and nor
/// does a search that failed.
pub proof fn processes_are_found_by_number(out: Seq<char>, i: int, n: u32, e: Seq<char>)
    ensures
        0 <= i < words_of(out).len() && words_of(out)[i] == decimal(n as nat) ==> process_found(
            Ok(out),
        ),
        (forall|j: int|
            0 <= j < words_of(out).len() ==> (#[trigger] parsed_unsigned(
                words_of(out)[j],
                0xffff_ffff,
            )) is None) ==> !process_found(Ok(out)),
        !process_found(Err(e)),
{
    parse_of_decimal(n as nat, 0xffff_ffff);
}

/// What stands behind the first of the words that are looked for.
proof fn first_key_counts(
    a: Seq<Seq<char>>,
    key: Seq<char>,
    x: Seq<char>,
    b: Seq<Seq<char>>,
)
    requires
        !a.contains(key),
    ensures
        word_after(a + seq![key, x] + b, key) == Some(x),
        word_after(a + seq![key], key) == None::<Seq<char>>,
        word_after(a, key) == None::<Seq<char>>,
    decreases a.len(),
{
    let s = a + seq![key, x] + b;
    let t = a + seq![key];
    if a.len() > 0 {
        let rest = a.skip(1);
        assert(a.contains(a[0]));
        assert(s[0] == a[0] && t[0] == a[0]);
        assert(!rest.contains(key)) by {
            if rest.contains(key) {
                let i = choose|i: int| 0 <= i < rest.len() && rest[i] == key;
                assert(a[i + 1] == key);
            }
        }
        assert(s.skip(1) =~= rest + seq![key, x] + b);
        assert(t.skip(1) =~= rest + seq![key]);
        first_key_counts(rest, key, x, b);
    } else {
        assert(s[0] == key && s[1] == x);
        assert(t[0] == key && t.len() == 1);
    }
}

/// The address of a device is the word behind the first `src` of its routes; without one
/// the routes are shown, and a command that failed is told of.
pub proof fn addresses_stand_behind_their_word(
    out: Seq<char>,
    a: Seq<Seq<char>>,
    ip: Seq<char>,
    b: Seq<Seq<char>>,
    e: Seq<char>,
)
    requires
        !a.contains("src"@),
    ensures
        words_of(out) == a + seq!["src"@, ip] + b ==> ip_found(Ok(out)) == Ok::<
            Seq<char>,
            Seq<char>,
        >(ip),
        words_of(out) == a || words_of(out) == a + seq!["src"@] ==> ip_found(Ok(out)) == Err::<
            Seq<char>,
            Seq<char>,
        >("no `src <ip>` in: "@ + trimmed(out)),
        ip_found(Err(e)) == Err::<Seq<char>, Seq<char>>("shell `ip route` failed: "@ + e),
{
    first_key_counts(a, "src"@, ip, b);
}

/// What the official client prints is taken only if it ended well; otherwise how it ended
/// and what it complained of is told. When it connects both its streams are read, however
/// it ended.
pub proof fn the_client_is_read(status: String, stdout: String, stderr: String, e: String)
    ensures
        ({
            let well = AdbRun::Exited { success: true, status, stdout, stderr };
            let ill = AdbRun::Exited { success: false, status, stdout, stderr };
            let not = AdbRun::NotInvoked(e);
            &&& forward_failure(well) == None::<Seq<char>>
            &&& forward_failure(ill) == Some(
                "adb forward exited "@ + status@ + ": "@ + trimmed_end(stderr@),
            )
            &&& forward_failure(not) == Some("could not invoke adb forward: "@ + e@)
            &&& listed_rules(well) == Ok::<Seq<char>, Seq<char>>(stdout@)
            &&& listed_rules(ill) == Err::<Seq<char>, Seq<char>>(
                "adb forward --list exited "@ + status@ + ": "@ + trimmed_end(stderr@),
            )
            &&& listed_rules(not) == Err::<Seq<char>, Seq<char>>(
                "could not invoke adb forward --list: "@ + e@,
            )
            &&& connect_said(well) == Ok::<Seq<char>, Seq<char>>(stdout@ + stderr@)
            &&& connect_said(ill) == Ok::<Seq<char>, Seq<char>>(stdout@ + stderr@)
            &&& connect_said(not) == Err::<Seq<char>, Seq<char>>(
                "could not invoke adb connect: "@ + e@,
            )
        }),
{
}

/// A host and a port with a colon between them are the serial of a device over TCP; a
/// serial without a colon is not.
pub proof fn tcp_serials_have_a_colon(host: Seq<char>, port: Seq<char>, serial: Seq<char>)
    ensures
        tcpip_serial(host + seq![':'] + port),
        (forall|i: int| 0 <= i < serial.len() ==> serial[i] != ':') ==> !tcpip_serial(serial),
{
    assert((host + seq![':'] + port)[host.len() as int] == ':');
}

/// The letters of ASCII have their small ones, thirty-two places behind them; everything
/// else stays.
pub proof fn letters_are_made_small(s: Seq<char>, i: int)
    requires
        0 <= i < s.len(),
    ensures
        ascii_lowered(s).len() == s.len(),
        'A' <= s[i] <= 'Z' ==> ascii_lowered(s)[i] as u32 == s[i] as u32 + ('a' as u32 - 'A' as u32),
        s[i] < 'A' || s[i] > 'Z' ==> ascii_lowered(s)[i] == s[i],
{
}

/// The operator agrees with `y` or `yes`, in letters of any size and with white space
/// around them. Any other line does not agree, and nor does one that could not be read.
pub proof fn the_operator_must_agree(a: Seq<char>, m: Seq<char>, b: Seq<char>)
    requires
        all_white(a),
        all_white(b),
        m.len() > 0,
        !is_white(m[0]),
        !is_white(m.last()),
    ensures
        agrees(Some(a + m + b)) <==> {
            ||| m.len() == 1 && (m[0] == 'y' || m[0] == 'Y')
            ||| m.len() == 3 && (m[0] == 'y' || m[0] == 'Y') && (m[1] == 'e' || m[1] == 'E') && (
            m[2] == 's' || m[2] == 'S')
        },
        !agrees(None),
{
    trimming_takes_the_white_space_around(a, m, b);
    reveal_strlit("y");
    reveal_strlit("yes");
    let l = ascii_lowered(m);
    assert("y"@.len() == 1 && "y"@[0] == 'y');
    assert("yes"@.len() == 3 && "yes"@[0] == 'y' && "yes"@[1] == 'e' && "yes"@[2] == 's');
    assert(forall|i: int| 0 <= i < m.len() ==> l[i] == ascii_lower(#[trigger] m[i]));
    if m.len() == 1 && ascii_lower(m[0]) == 'y' {
        assert(l =~= "y"@);
    }
    if l == "y"@ {
        assert(l.len() == 1 && l[0] == ascii_lower(m[0]));
    }
    if m.len() == 3 && ascii_lower(m[0]) == 'y' && ascii_lower(m[1]) == 'e' && ascii_lower(m[2])
        == 's' {
        assert(l =~= "yes"@);
    }
    if l == "yes"@ {
        assert(l.len() == 3 && l[0] == ascii_lower(m[0]) && l[1] == ascii_lower(m[1]) && l[2]
            == ascii_lower(m[2]));
    }
    assert(m.len() > 0 ==> (ascii_lower(m[0]) == 'y' <==> m[0] == 'y' || m[0] == 'Y'));
    assert(m.len() == 3 ==> (ascii_lower(m[1]) == 'e' <==> m[1] == 'e' || m[1] == 'E'));
    assert(m.len() == 3 ==> (ascii_lower(m[2]) == 's' <==> m[2] == 's' || m[2] == 'S'));
}

} // verus!
