//! Waiting for something to happen to a device, and reading what a device or the
//! official client says while it does.
use vstd::prelude::*;

use crate::number::{decimal, decimal_string, parse_unsigned, parsed_unsigned};
use crate::selftest::judge::failure_text;
use crate::selftest::parity::AdbRun;
use crate::selftest::report::{Outcome, OutcomeView};
use crate::selftest::suite::DiscoveredDevice;
use crate::text::{
    chars_of, concat, concat3, lossy_string, opt_str, opt_text, result_text, shows, str_eq, texts,
};
use crate::words::{
    any_line_holds, contains_text, holds_text, some_line_holds, split_words, trim, trim_end,
    trimmed, trimmed_end, words_of,
};

verus! {

/// How long to wait for a device to go or to come back, in milliseconds.
pub const RECONNECT_TIMEOUT_MS: u64 = 120_000;

/// How long to wait for a device to come back from a reboot, in milliseconds.
pub const REBOOT_TIMEOUT_MS: u64 = 120_000;

/// How long to wait for a device to go away when it reboots, in milliseconds.
pub const REBOOT_ABSENCE_MS: u64 = 30_000;

/// How long to go on trying to open a device that has come back, in milliseconds.
pub const REOPEN_BUDGET_MS: u64 = 20_000;

/// How long to wait for a rule to go after its device, in milliseconds.
pub const RELEASE_TIMEOUT_MS: u64 = 30_000;

/// How long to wait for a process to go after its terminal, in milliseconds.
pub const HANGUP_TIMEOUT_MS: u64 = 10_000;

/// How long to pause between two looks, in milliseconds.
pub const POLL_INTERVAL_MS: u64 = 1_000;

/// How many frames to read before the shell must have said that it is ready.
pub const READY_FRAMES: u64 = 64;

/// What to do after a look.
#[derive(Clone, Copy, Debug, PartialEq, Eq, Structural)]
pub enum Poll {
    /// It holds: stop.
    Holds,
    /// It does not, and the time is up: stop.
    TimedOut,
    /// It does not yet: pause, and look again.
    Pause,
}

/// What to do after a look.
pub open spec fn poll(holds: bool, elapsed_ms: u64, timeout_ms: u64) -> Poll {
    if holds {
        Poll::Holds
    } else if elapsed_ms >= timeout_ms {
        Poll::TimedOut
    } else {
        Poll::Pause
    }
}

/// Decides after a look. A condition that holds wins over a time that is up, so the
/// condition is looked at once at least.
pub fn wait_until(holds: bool, elapsed_ms: u64, timeout_ms: u64) -> (r: Poll)
    ensures
        r == poll(holds, elapsed_ms, timeout_ms),
{
    if holds {
        Poll::Holds
    } else if elapsed_ms >= timeout_ms {
        Poll::TimedOut
    } else {
        Poll::Pause
    }
}

/// Whether one of the devices has the serial.
pub open spec fn has_serial(devices: Seq<DiscoveredDevice>, serial: Seq<char>) -> bool {
    exists|i: int| 0 <= i < devices.len() && opt_text(#[trigger] devices[i].serial) == Some(serial)
}

/// Whether one of the devices has the serial.
fn any_has_serial(devices: &Vec<DiscoveredDevice>, serial: &str) -> (r: bool)
    ensures
        r == has_serial(devices@, serial@),
{
    let mut i: usize = 0;
    while i < devices.len()
        invariant
            i <= devices@.len(),
            forall|j: int|
                0 <= j < i ==> opt_text(#[trigger] devices@[j].serial) != Some(serial@),
        decreases devices@.len() - i,
    {
        if let Some(s) = &devices[i].serial {
            if str_eq(s.as_str(), serial) {
                assert(opt_text(devices@[i as int].serial) == Some(serial@));
                return true;
            }
        }
        i += 1;
    }
    false
}

/// Whether a device with the serial is there.
pub open spec fn is_present(devices: Option<Seq<DiscoveredDevice>>, serial: Seq<char>) -> bool {
    devices matches Some(d) && has_serial(d, serial)
}

/// Whether a device with the serial is there; where the devices cannot be listed, it
/// is not.
pub fn serial_present(devices: Option<&Vec<DiscoveredDevice>>, serial: &str) -> (r: bool)
    ensures
        r == is_present(
            match devices {
                Some(d) => Some(d@),
                None => None,
            },
            serial@,
        ),
{
    match devices {
        None => false,
        Some(d) => any_has_serial(d, serial),
    }
}

/// A time in whole seconds.
pub open spec fn seconds(ms: u64) -> Seq<char> {
    decimal((ms / 1000) as nat)
}

/// What looking for a device that is to go gives.
pub open spec fn absence(
    serial: Seq<char>,
    present: bool,
    elapsed_ms: u64,
    timeout_ms: u64,
) -> Result<Poll, Seq<char>> {
    if !present {
        Ok(Poll::Holds)
    } else if elapsed_ms < timeout_ms {
        Ok(Poll::Pause)
    } else {
        Err(
            "device "@ + serial + " still present after "@ + seconds(timeout_ms)
                + "s (expected removal)"@,
        )
    }
}

/// What looking for a device that is to come back gives.
pub open spec fn presence(
    serial: Seq<char>,
    present: bool,
    elapsed_ms: u64,
    timeout_ms: u64,
) -> Result<Poll, Seq<char>> {
    if present {
        Ok(Poll::Holds)
    } else if elapsed_ms < timeout_ms {
        Ok(Poll::Pause)
    } else {
        Err("device "@ + serial + " did not reappear within "@ + seconds(timeout_ms) + "s"@)
    }
}

/// The contents of what a look gives.
pub open spec fn poll_view(r: Result<Poll, String>) -> Result<Poll, Seq<char>> {
    match r {
        Ok(p) => Ok(p),
        Err(e) => Err(e@),
    }
}

/// Decides after looking for a device that is to go: `Err` reports that it did not in
/// time, `Ok(Poll::Pause)` asks for another look.
pub fn wait_for_absence(
    serial: &str,
    present: bool,
    elapsed_ms: u64,
    timeout_ms: u64,
) -> (r: Result<Poll, String>)
    ensures
        poll_view(r) == absence(serial@, present, elapsed_ms, timeout_ms),
{
    match wait_until(!present, elapsed_ms, timeout_ms) {
        Poll::TimedOut => {
            let mut text = concat3("device ", serial, " still present after ");
            text.append(decimal_string(timeout_ms / 1000).as_str());
            text.append("s (expected removal)");
            Err(text)
        },
        p => Ok(p),
    }
}

/// Decides after looking for a device that is to come back: `Err` reports that it did
/// not in time, `Ok(Poll::Pause)` asks for another look.
pub fn wait_for_presence(
    serial: &str,
    present: bool,
    elapsed_ms: u64,
    timeout_ms: u64,
) -> (r: Result<Poll, String>)
    ensures
        poll_view(r) == presence(serial@, present, elapsed_ms, timeout_ms),
{
    match wait_until(present, elapsed_ms, timeout_ms) {
        Poll::TimedOut => {
            let mut text = concat3("device ", serial, " did not reappear within ");
            text.append(decimal_string(timeout_ms / 1000).as_str());
            text.append("s");
            Err(text)
        },
        p => Ok(p),
    }
}

/// What to do after an attempt to open a device.
#[derive(Debug, PartialEq, Eq)]
pub enum OpenPoll {
    /// It is open: stop.
    Open,
    /// It is not, and the time is up: stop, with this error.
    Failed(String),
    /// It is not yet: pause, and try again.
    Pause,
}

/// What to do after an attempt to open a device: nothing where it is open, else to stop
/// with the error or to try again.
pub open spec fn open_fits(
    failure: Option<Seq<char>>,
    elapsed_ms: u64,
    budget_ms: u64,
    r: OpenPoll,
) -> bool {
    match failure {
        None => r is Open,
        Some(e) => if elapsed_ms >= budget_ms {
            r matches OpenPoll::Failed(f) && f@ == e
        } else {
            r is Pause
        },
    }
}

/// Decides after an attempt to open a device that may still be coming up. The last
/// error is the one to report.
pub fn open_device_with_retry(
    attempt: Result<(), String>,
    elapsed_ms: u64,
    budget_ms: u64,
) -> (r: OpenPoll)
    ensures
        open_fits(failure_text(attempt), elapsed_ms, budget_ms, r),
{
    match attempt {
        Ok(_) => OpenPoll::Open,
        Err(e) => if elapsed_ms >= budget_ms {
            OpenPoll::Failed(e)
        } else {
            OpenPoll::Pause
        },
    }
}

/// The outcome of using a device that has come back.
pub open spec fn recovery_outcome(echo: Result<OutcomeView, Seq<char>>) -> OutcomeView {
    match echo {
        Ok(o) => o,
        Err(e) => OutcomeView::Failed("device returned but shell not ready: "@ + e),
    }
}

/// The outcome of using a device that has come back: that of the echo, where it could
/// be opened.
pub fn verify_shell_after_recovery(echo: Result<Outcome, String>) -> (r: Outcome)
    ensures
        r@ == recovery_outcome(
            match echo {
                Ok(o) => Ok(o@),
                Err(e) => Err(e@),
            },
        ),
{
    match echo {
        Ok(o) => o,
        Err(e) => Outcome::Failed(concat("device returned but shell not ready: ", e.as_str())),
    }
}

/// What to do after reading the rules.
#[derive(Debug, PartialEq, Eq)]
pub enum ReleasePoll {
    /// No rule of the device is left: stop.
    Released,
    /// One is, and the time is up: stop, with the last list.
    Late(String),
    /// One is still there: pause, and read again.
    Pause,
}

/// What to do after reading the rules, or failing to, while a device is gone.
pub open spec fn release_fits(
    listed: Result<Seq<char>, Seq<char>>,
    serial: Seq<char>,
    elapsed_ms: u64,
    timeout_ms: u64,
    r: ReleasePoll,
) -> bool {
    match listed {
        Ok(list) => if !some_line_holds(list, serial) {
            r is Released
        } else if elapsed_ms >= timeout_ms {
            r matches ReleasePoll::Late(last) && last@ == list
        } else {
            r is Pause
        },
        Err(e) => if elapsed_ms >= timeout_ms {
            r matches ReleasePoll::Late(last) && last@ == "(forward --list error: "@ + e + ")"@
        } else {
            r is Pause
        },
    }
}

/// Decides after reading the rules, or failing to, while a device is gone.
pub fn wait_for_forward_release(
    listed: Result<String, String>,
    serial: &str,
    elapsed_ms: u64,
    timeout_ms: u64,
) -> (r: ReleasePoll)
    ensures
        release_fits(result_text(listed), serial@, elapsed_ms, timeout_ms, r),
{
    let last = match listed {
        Ok(list) => {
            if !any_line_holds(list.as_str(), serial) {
                return ReleasePoll::Released;
            }
            list
        },
        Err(e) => concat3("(forward --list error: ", e.as_str(), ")"),
    };
    if elapsed_ms >= timeout_ms {
        ReleasePoll::Late(last)
    } else {
        ReleasePoll::Pause
    }
}

/// What a frame of a shell stream makes of the wait for readiness.
#[derive(Debug, PartialEq, Eq)]
pub enum ReadyPoll {
    /// The shell is ready.
    Ready,
    /// It has not said so yet: read on.
    ReadOn,
    /// It will not say so.
    Failed(String),
}

/// A frame of a shell stream.
#[derive(Debug, PartialEq, Eq)]
pub struct ShellFrame {
    /// Whether it is ordinary output.
    pub stdout: bool,
    /// Its text.
    pub text: String,
}

impl ShellFrame {
    /// A frame with this payload.
    pub fn new(stdout: bool, payload: &Vec<u8>) -> (r: Self)
        ensures
            r.stdout == stdout,
            shows(payload@, r.text@),
    {
        ShellFrame { stdout, text: lossy_string(payload) }
    }
}

/// What to do after reading a frame, when `seen` frames were read before it.
pub open spec fn ready_fits(
    seen: u64,
    read: Result<Option<(bool, Seq<char>)>, Seq<char>>,
    r: ReadyPoll,
) -> bool {
    match read {
        Ok(Some((stdout, text))) => if stdout && holds_text(text, "READY"@) {
            r is Ready
        } else if seen + 1 < READY_FRAMES {
            r is ReadOn
        } else {
            r matches ReadyPoll::Failed(t) && t@ == "READY not seen within 64 frames"@
        },
        Ok(None) => r matches ReadyPoll::Failed(t) && t@ == "stream closed before READY"@,
        Err(e) => r matches ReadyPoll::Failed(t) && t@ == "read_frame error: "@ + e,
    }
}

/// The contents of what was read.
pub open spec fn frame_view(read: Result<Option<ShellFrame>, String>) -> Result<
    Option<(bool, Seq<char>)>,
    Seq<char>,
> {
    match read {
        Ok(Some(f)) => Ok(Some((f.stdout, f.text@))),
        Ok(None) => Ok(None),
        Err(e) => Err(e@),
    }
}

/// Decides after reading a frame, when `seen` frames were read before it.
pub fn wait_for_ready_frame(
    seen: u64,
    read: &Result<Option<ShellFrame>, String>,
) -> (r: ReadyPoll)
    ensures
        ready_fits(seen, frame_view(*read), r),
{
    match read {
        Ok(Some(f)) => {
            if f.stdout && contains_text(f.text.as_str(), "READY") {
                ReadyPoll::Ready
            } else if seen < READY_FRAMES - 1 {
                ReadyPoll::ReadOn
            } else {
                ReadyPoll::Failed("READY not seen within 64 frames".to_owned())
            }
        },
        Ok(None) => ReadyPoll::Failed("stream closed before READY".to_owned()),
        Err(e) => ReadyPoll::Failed(concat("read_frame error: ", e.as_str())),
    }
}

/// Whether a word of the text is a process number.
pub open spec fn has_process_number(out: Seq<char>) -> bool {
    exists|i: int|
        0 <= i < words_of(out).len() && (#[trigger] parsed_unsigned(
            words_of(out)[i],
            0xffff_ffff,
        )) is Some
}

/// Whether a word of the text is a process number.
fn any_process_number(out: &str) -> (r: bool)
    ensures
        r == has_process_number(out@),
{
    let words = split_words(out);
    let mut i: usize = 0;
    while i < words.len()
        invariant
            i <= words@.len(),
            texts(words@) == words_of(out@),
            forall|j: int|
                0 <= j < i ==> (#[trigger] parsed_unsigned(
                    words_of(out@)[j],
                    0xffff_ffff,
                )) is None,
        decreases words@.len() - i,
    {
        assert(words_of(out@)[i as int] == words@[i as int]@);
        if parse_unsigned(words[i].as_str(), 0xffff_ffff).is_some() {
            return true;
        }
        i += 1;
    }
    false
}

/// Whether a search for a process found one.
pub open spec fn process_found(search: Result<Seq<char>, Seq<char>>) -> bool {
    search matches Ok(out) && has_process_number(out)
}

/// Whether a search for a process found one: a word of what it printed is a process
/// number. A search that failed found none.
pub fn pgrep_marker(search: &Result<String, String>) -> (r: bool)
    ensures
        r == process_found(result_text(*search)),
{
    match search {
        Err(_) => false,
        Ok(out) => any_process_number(out.as_str()),
    }
}

/// The word behind the first word that is `key`.
pub open spec fn word_after(words: Seq<Seq<char>>, key: Seq<char>) -> Option<Seq<char>>
    decreases words.len(),
{
    if words.len() == 0 {
        None
    } else if words[0] == key {
        if words.len() > 1 {
            Some(words[1])
        } else {
            None
        }
    } else {
        word_after(words.skip(1), key)
    }
}

/// The word behind the first word that is `key`.
fn find_word_after(text: &str, key: &str) -> (r: Option<String>)
    ensures
        opt_text(r) == word_after(words_of(text@), key@),
{
    let words = split_words(text);
    let mut i: usize = 0;
    proof {
        assert(texts(words@).skip(0) =~= texts(words@));
    }
    while i < words.len()
        invariant
            i <= words@.len(),
            texts(words@) == words_of(text@),
            word_after(words_of(text@), key@) == word_after(words_of(text@).skip(i as int), key@),
        decreases words@.len() - i,
    {
        let ghost rest = words_of(text@).skip(i as int);
        assert(rest[0] == words@[i as int]@);
        if str_eq(words[i].as_str(), key) {
            if i + 1 < words.len() {
                assert(rest[1] == words@[i + 1]@);
                return Some(words[i + 1].clone());
            }
            return None;
        }
        assert(rest.skip(1) =~= words_of(text@).skip(i + 1));
        i += 1;
    }
    assert(words_of(text@).skip(i as int).len() == 0);
    None
}

/// The command on the device that prints its address.
pub fn ip_command() -> (r: String)
    ensures
        r@ == "ip route"@,
{
    "ip route".to_owned()
}

/// The address of a device, or why it is not known.
pub open spec fn ip_found(route: Result<Seq<char>, Seq<char>>) -> Result<Seq<char>, Seq<char>> {
    match route {
        Ok(out) => match word_after(words_of(out), "src"@) {
            Some(ip) => Ok(ip),
            None => Err("no `src <ip>` in: "@ + trimmed(out)),
        },
        Err(e) => Err("shell `ip route` failed: "@ + e),
    }
}

/// The address of a device, from what `ip route` printed there: the word behind the
/// first `src`.
pub fn device_ip(route: &Result<String, String>) -> (r: Result<String, String>)
    ensures
        result_text(r) == ip_found(result_text(*route)),
{
    match route {
        Err(e) => Err(concat("shell `ip route` failed: ", e.as_str())),
        Ok(out) => match find_word_after(out.as_str(), "src") {
            Some(ip) => Ok(ip),
            None => Err(concat("no `src <ip>` in: ", trim(out.as_str()))),
        },
    }
}

/// Why a forward could not be had from the official client.
pub open spec fn forward_failure(run: AdbRun) -> Option<Seq<char>> {
    match run {
        AdbRun::NotInvoked(e) => Some("could not invoke adb forward: "@ + e@),
        AdbRun::Exited { success, status, stdout, stderr } => if success {
            None
        } else {
            Some("adb forward exited "@ + status@ + ": "@ + trimmed_end(stderr@))
        },
    }
}

/// The rules that the official client lists, or why it does not.
pub open spec fn listed_rules(run: AdbRun) -> Result<Seq<char>, Seq<char>> {
    match run {
        AdbRun::NotInvoked(e) => Err("could not invoke adb forward --list: "@ + e@),
        AdbRun::Exited { success, status, stdout, stderr } => if success {
            Ok(stdout@)
        } else {
            Err("adb forward --list exited "@ + status@ + ": "@ + trimmed_end(stderr@))
        },
    }
}

/// What the official client says when it is asked to connect.
pub open spec fn connect_said(run: AdbRun) -> Result<Seq<char>, Seq<char>> {
    match run {
        AdbRun::NotInvoked(e) => Err("could not invoke adb connect: "@ + e@),
        AdbRun::Exited { success, status, stdout, stderr } => Ok(stdout@ + stderr@),
    }
}

/// What came of asking the official client for a forward.
pub fn adb_forward(run: &AdbRun) -> (r: Result<(), String>)
    ensures
        failure_text(r) == forward_failure(*run),
{
    match run {
        AdbRun::NotInvoked(e) => Err(concat("could not invoke adb forward: ", e.as_str())),
        AdbRun::Exited { success, status, stdout, stderr } => if *success {
            Ok(())
        } else {
            let mut text = concat3("adb forward exited ", status.as_str(), ": ");
            text.append(trim_end(stderr.as_str()));
            Err(text)
        },
    }
}

/// What came of asking the official client for the rules.
pub fn adb_forward_list(run: &AdbRun) -> (r: Result<String, String>)
    ensures
        result_text(r) == listed_rules(*run),
{
    match run {
        AdbRun::NotInvoked(e) => Err(concat("could not invoke adb forward --list: ", e.as_str())),
        AdbRun::Exited { success, status, stdout, stderr } => if *success {
            Ok(stdout.clone())
        } else {
            let mut text = concat3("adb forward --list exited ", status.as_str(), ": ");
            text.append(trim_end(stderr.as_str()));
            Err(text)
        },
    }
}

/// What came of asking the official client to connect.
pub fn adb_connect(run: &AdbRun) -> (r: Result<String, String>)
    ensures
        result_text(r) == connect_said(*run),
{
    match run {
        AdbRun::NotInvoked(e) => Err(concat("could not invoke adb connect: ", e.as_str())),
        AdbRun::Exited { success, status, stdout, stderr } => Ok(
            concat(stdout.as_str(), stderr.as_str()),
        ),
    }
}

/// Whether the serial is that of a device over TCP.
pub open spec fn tcpip_serial(serial: Seq<char>) -> bool {
    serial.contains(':')
}

/// Whether the serial is that of a device over TCP, which is a host and a port. That
/// of a USB device has no colon.
pub fn is_tcpip_serial(serial: &str) -> (r: bool)
    ensures
        r == tcpip_serial(serial@),
{
    let cs = chars_of(serial);
    let mut i: usize = 0;
    while i < cs.len()
        invariant
            i <= cs@.len(),
            cs@ == serial@,
            forall|j: int| 0 <= j < i ==> cs@[j] != ':',
        decreases cs@.len() - i,
    {
        if cs[i] == ':' {
            return true;
        }
        i += 1;
    }
    false
}

/// The letter in lower case, where it is an ASCII letter.
pub open spec fn ascii_lower(c: char) -> char {
    if 'A' <= c <= 'Z' {
        (c as u32 + 32) as char
    } else {
        c
    }
}

/// The text with its ASCII letters in lower case.
pub open spec fn ascii_lowered(s: Seq<char>) -> Seq<char> {
    Seq::new(s.len(), |i: int| ascii_lower(s[i]))
}

/// Whether `s` is `word`, whatever the case of its ASCII letters.
fn is_word(s: &str, word: &str) -> (r: bool)
    ensures
        r == (ascii_lowered(s@) == word@),
{
    let cs = chars_of(s);
    let ws = chars_of(word);
    if cs.len() != ws.len() {
        assert(ascii_lowered(s@).len() != word@.len());
        return false;
    }
    let mut i: usize = 0;
    while i < cs.len()
        invariant
            i <= cs@.len(),
            cs@.len() == ws@.len(),
            cs@ == s@,
            ws@ == word@,
            forall|j: int| 0 <= j < i ==> ascii_lowered(s@)[j] == word@[j],
        decreases cs@.len() - i,
    {
        let c = cs[i];
        let lower = if 'A' <= c && c <= 'Z' {
            (c as u8 + 32) as char
        } else {
            c
        };
        assert(lower == ascii_lower(c));
        if lower != ws[i] {
            assert(ascii_lowered(s@)[i as int] != word@[i as int]);
            return false;
        }
        i += 1;
    }
    assert(ascii_lowered(s@) =~= word@);
    true
}

/// Whether the operator's line agrees.
pub open spec fn agrees(line: Option<Seq<char>>) -> bool {
    line matches Some(l) && (ascii_lowered(trimmed(l)) == "y"@ || ascii_lowered(trimmed(l))
        == "yes"@)
}

/// Whether the operator's line agrees: `y` or `yes`, in any case, with white space
/// around it. Anything else, a line that could not be read too, does not.
pub fn prompt_yes_no(line: Option<&str>) -> (r: bool)
    ensures
        r == agrees(opt_str(line)),
{
    match line {
        None => false,
        Some(l) => {
            let answer = trim(l);
            is_word(answer, "y") || is_word(answer, "yes")
        },
    }
}

} // verus!
