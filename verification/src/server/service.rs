//! The grammar of requests: what a service string asks for.
use vstd::prelude::*;

use crate::number::is_digit;
use crate::text::{
    after_prefix, chars_of, cut_at, cut_first, first_index, first_index_is_least, has_prefix,
    split_once, starts_with, str_eq, strip_prefix, texts_are_cut_at_the_first,
};

verus! {

/// A service that the device's daemon answers with a short text, and that is
/// passed on word for word.
pub open spec fn control_service(service: Seq<char>) -> bool {
    ||| service == "usb:"@
    ||| service == "root:"@
    ||| service == "unroot:"@
    ||| service == "remount:"@
    ||| service == "enable-verity:"@
    ||| service == "disable-verity:"@
    ||| has_prefix(service, "tcpip:"@)
    ||| has_prefix(service, "reboot:"@)
}

/// Whether `service` is a control service of the device's daemon.
pub fn is_control_service(service: &str) -> (r: bool)
    ensures
        r == control_service(service@),
{
    str_eq(service, "usb:") || str_eq(service, "root:") || str_eq(service, "unroot:") || str_eq(
        service,
        "remount:",
    ) || str_eq(service, "enable-verity:") || str_eq(service, "disable-verity:") || starts_with(
        service,
        "tcpip:",
    ) || starts_with(service, "reboot:")
}

/// A service on the table of forwarding rules.
pub open spec fn forward_family(svc: Seq<char>) -> bool {
    ||| svc == "list-forward"@
    ||| svc == "killforward-all"@
    ||| has_prefix(svc, "forward:"@)
    ||| has_prefix(svc, "killforward:"@)
}

/// Whether `svc` is a service on the table of forwarding rules.
pub fn is_forward_family(svc: &str) -> (r: bool)
    ensures
        r == forward_family(svc@),
{
    str_eq(svc, "list-forward") || str_eq(svc, "killforward-all") || starts_with(svc, "forward:")
        || starts_with(svc, "killforward:")
}

/// A service that can follow a device's name in a request.
pub open spec fn host_serial_sub(sub: Seq<char>) -> bool {
    ||| sub == "get-state"@
    ||| sub == "get-serialno"@
    ||| sub == "features"@
    ||| has_prefix(sub, "transport"@)
    ||| sub == "tport"@
    ||| has_prefix(sub, "wait-for-"@)
    ||| forward_family(sub)
}

/// Whether `sub` can follow a device's name in a request.
pub fn is_host_serial_sub(sub: &str) -> (r: bool)
    ensures
        r == host_serial_sub(sub@),
{
    str_eq(sub, "get-state") || str_eq(sub, "get-serialno") || str_eq(sub, "features")
        || starts_with(sub, "transport") || str_eq(sub, "tport") || starts_with(sub, "wait-for-")
        || is_forward_family(sub)
}

/// A request on the table of forwarding rules.
#[derive(Debug, PartialEq, Eq)]
pub enum ForwardService {
    /// List the rules.
    List,
    /// Remove all rules.
    KillAll,
    /// Add the rule that the argument describes.
    Add(String),
    /// Remove the rule of the host end that the argument names.
    Kill(String),
}

/// The contents of a [`ForwardService`].
pub enum ForwardServiceView {
    List,
    KillAll,
    Add(Seq<char>),
    Kill(Seq<char>),
}

impl View for ForwardService {
    type V = ForwardServiceView;

    open spec fn view(&self) -> ForwardServiceView {
        match self {
            ForwardService::List => ForwardServiceView::List,
            ForwardService::KillAll => ForwardServiceView::KillAll,
            ForwardService::Add(a) => ForwardServiceView::Add(a@),
            ForwardService::Kill(a) => ForwardServiceView::Kill(a@),
        }
    }
}

/// The request on forwarding rules that `svc` is, if it is one.
pub open spec fn parsed_forward_service(svc: Seq<char>) -> Option<ForwardServiceView> {
    if svc == "list-forward"@ {
        Some(ForwardServiceView::List)
    } else if svc == "killforward-all"@ {
        Some(ForwardServiceView::KillAll)
    } else if has_prefix(svc, "forward:"@) {
        Some(ForwardServiceView::Add(after_prefix(svc, "forward:"@)))
    } else if has_prefix(svc, "killforward:"@) {
        Some(ForwardServiceView::Kill(after_prefix(svc, "killforward:"@)))
    } else {
        None
    }
}

/// Reads a request on forwarding rules.
pub fn parse_forward_service(svc: &str) -> (r: Option<ForwardService>)
    ensures
        match r {
            Some(f) => parsed_forward_service(svc@) == Some(f@),
            None => parsed_forward_service(svc@) is None,
        },
{
    if str_eq(svc, "list-forward") {
        return Some(ForwardService::List);
    }
    if str_eq(svc, "killforward-all") {
        return Some(ForwardService::KillAll);
    }
    if let Some(arg) = strip_prefix(svc, "forward:") {
        return Some(ForwardService::Add(arg.to_owned()));
    }
    if let Some(arg) = strip_prefix(svc, "killforward:") {
        return Some(ForwardService::Kill(arg.to_owned()));
    }
    None
}

/// A request on one device that the request itself names.
#[derive(Debug, PartialEq, Eq)]
pub enum SubService {
    /// The state of the device.
    GetState,
    /// The serial of the device.
    GetSerialno,
    /// The features that hold for the device.
    Features,
    /// A request on forwarding rules.
    Forward(ForwardService),
    /// Select the device for the next request on the connection.
    Transport,
    /// Wait for a state of the device.
    WaitFor(String),
    /// Anything else.
    Unknown(String),
}

/// The contents of a [`SubService`].
pub enum SubServiceView {
    GetState,
    GetSerialno,
    Features,
    Forward(ForwardServiceView),
    Transport,
    WaitFor(Seq<char>),
    Unknown(Seq<char>),
}

impl View for SubService {
    type V = SubServiceView;

    open spec fn view(&self) -> SubServiceView {
        match self {
            SubService::GetState => SubServiceView::GetState,
            SubService::GetSerialno => SubServiceView::GetSerialno,
            SubService::Features => SubServiceView::Features,
            SubService::Forward(f) => SubServiceView::Forward(f@),
            SubService::Transport => SubServiceView::Transport,
            SubService::WaitFor(a) => SubServiceView::WaitFor(a@),
            SubService::Unknown(s) => SubServiceView::Unknown(s@),
        }
    }
}

/// The request on one device that `sub` is.
pub open spec fn parsed_sub(sub: Seq<char>) -> SubServiceView {
    if sub == "get-state"@ {
        SubServiceView::GetState
    } else if sub == "get-serialno"@ {
        SubServiceView::GetSerialno
    } else if sub == "features"@ {
        SubServiceView::Features
    } else if let Some(f) = parsed_forward_service(sub) {
        SubServiceView::Forward(f)
    } else if has_prefix(sub, "transport"@) || sub == "tport"@ {
        SubServiceView::Transport
    } else if has_prefix(sub, "wait-for-"@) {
        SubServiceView::WaitFor(after_prefix(sub, "wait-for-"@))
    } else {
        SubServiceView::Unknown(sub)
    }
}

/// Reads a request on one device.
pub fn parse_sub(sub: &str) -> (r: SubService)
    ensures
        r@ == parsed_sub(sub@),
{
    if str_eq(sub, "get-state") {
        return SubService::GetState;
    }
    if str_eq(sub, "get-serialno") {
        return SubService::GetSerialno;
    }
    if str_eq(sub, "features") {
        return SubService::Features;
    }
    if let Some(f) = parse_forward_service(sub) {
        return SubService::Forward(f);
    }
    if starts_with(sub, "transport") || str_eq(sub, "tport") {
        return SubService::Transport;
    }
    if let Some(arg) = strip_prefix(sub, "wait-for-") {
        return SubService::WaitFor(arg.to_owned());
    }
    SubService::Unknown(sub.to_owned())
}

/// The services that can anchor a split are exactly the ones that are understood.
pub proof fn anchors_are_the_known_services(sub: Seq<char>)
    ensures
        host_serial_sub(sub) <==> !(parsed_sub(sub) is Unknown),
        forward_family(sub) <==> parsed_forward_service(sub) is Some,
{
}

/// A known service follows the colon at `i`.
pub open spec fn anchored(rest: Seq<char>, i: int) -> bool {
    rest[i] == ':' && host_serial_sub(rest.subrange(i + 1, rest.len() as int))
}

/// The first place from `k` on where a known service follows a colon; the length
/// of `rest` if there is none.
pub open spec fn anchor_from(rest: Seq<char>, k: int) -> int
    decreases rest.len() - k,
{
    if k >= rest.len() {
        rest.len() as int
    } else if anchored(rest, k) {
        k
    } else {
        anchor_from(rest, k + 1)
    }
}

/// A device's name and the service that follows it: split at the first colon that
/// a known service follows, else at the first colon.
pub open spec fn split_serial(rest: Seq<char>) -> Option<(Seq<char>, Seq<char>)> {
    let i = anchor_from(rest, 0);
    if i < rest.len() {
        Some(cut_at(rest, i))
    } else {
        cut_first(rest, ':')
    }
}

/// Splits `<serial>:<sub>`. A serial may hold colons itself (`ip:port`), so the
/// split is at the first colon that a known service follows. Without one it is at
/// the first colon, so that the unknown service can be named in the refusal.
pub fn split_host_serial(rest: &str) -> (r: Option<(&str, &str)>)
    ensures
        match r {
            Some((serial, sub)) => split_serial(rest@) == Some((serial@, sub@)),
            None => split_serial(rest@) is None,
        },
{
    let v = chars_of(rest);
    let mut i: usize = 0;
    while i < v.len()
        invariant
            v@ == rest@,
            i <= v.len(),
            anchor_from(rest@, 0) == anchor_from(rest@, i as int),
        decreases v.len() - i,
    {
        if v[i] == ':' {
            let sub = rest.substring_char(i + 1, v.len());
            if is_host_serial_sub(sub) {
                return Some((rest.substring_char(0, i), sub));
            }
        }
        i += 1;
    }
    split_once(rest, ':')
}

/// A known service begins with one of six letters.
proof fn known_service_begins(sub: Seq<char>)
    requires
        host_serial_sub(sub),
    ensures
        sub.len() > 0,
        sub[0] == 'g' || sub[0] == 'f' || sub[0] == 't' || sub[0] == 'w' || sub[0] == 'l' || sub[0]
            == 'k',
{
    reveal_strlit("get-state");
    reveal_strlit("get-serialno");
    reveal_strlit("features");
    reveal_strlit("transport");
    reveal_strlit("tport");
    reveal_strlit("wait-for-");
    reveal_strlit("list-forward");
    reveal_strlit("killforward-all");
    reveal_strlit("forward:");
    reveal_strlit("killforward:");
    if has_prefix(sub, "transport"@) {
        assert(sub.subrange(0, 9)[0] == sub[0]);
    } else if has_prefix(sub, "wait-for-"@) {
        assert(sub.subrange(0, 9)[0] == sub[0]);
    } else if has_prefix(sub, "forward:"@) {
        assert(sub.subrange(0, 8)[0] == sub[0]);
    } else if has_prefix(sub, "killforward:"@) {
        assert(sub.subrange(0, 12)[0] == sub[0]);
    }
}

/// The first anchor is one, and none stands before it.
proof fn anchor_is_first(rest: Seq<char>, k: int)
    requires
        0 <= k <= rest.len(),
    ensures
        k <= anchor_from(rest, k) <= rest.len(),
        anchor_from(rest, k) < rest.len() ==> anchored(rest, anchor_from(rest, k)),
        forall|j: int| k <= j < anchor_from(rest, k) ==> !anchored(rest, j),
    decreases rest.len() - k,
{
    if k < rest.len() && !anchored(rest, k) {
        anchor_is_first(rest, k + 1);
    }
}

/// The two parts of a split and the colon between them are the whole text.
pub proof fn split_loses_nothing(rest: Seq<char>)
    ensures
        match split_serial(rest) {
            Some((serial, sub)) => rest == serial + seq![':'] + sub,
            None => !rest.contains(':'),
        },
{
    anchor_is_first(rest, 0);
    first_index_is_least(rest, ':');
    let i = anchor_from(rest, 0);
    let k = if i < rest.len() {
        i
    } else {
        first_index(rest, ':')
    };
    if let Some((serial, sub)) = split_serial(rest) {
        assert(rest =~= serial + seq![':'] + sub);
    }
}

/// Where no known service follows, a plain serial ends at the first colon, and everything
/// behind it is the service that is not known.
pub proof fn unknown_services_split_off(serial: Seq<char>, sub: Seq<char>)
    requires
        !serial.contains(':'),
        !host_serial_sub(sub),
        forall|i: int|
            0 <= i < sub.len() && #[trigger] sub[i] == ':' ==> !host_serial_sub(
                sub.subrange(i + 1, sub.len() as int),
            ),
    ensures
        split_serial(serial + seq![':'] + sub) == Some((serial, sub)),
{
    let rest = serial + seq![':'] + sub;
    anchor_is_first(rest, 0);
    let i = anchor_from(rest, 0);
    if i < rest.len() {
        assert(anchored(rest, i));
        let n = serial.len() as int;
        if i < n {
            assert(serial.contains(serial[i]));
        } else if i == n {
            assert(rest.subrange(i + 1, rest.len() as int) =~= sub);
        } else {
            assert(sub[i - n - 1] == ':');
            assert(rest.subrange(i + 1, rest.len() as int) =~= sub.subrange(
                i - n,
                sub.len() as int,
            ));
        }
    }
    texts_are_cut_at_the_first(serial, ':', sub);
}

/// A serial without colons is split off in front of every known service.
pub proof fn plain_serials_split_right(serial: Seq<char>, sub: Seq<char>)
    requires
        !serial.contains(':'),
        host_serial_sub(sub),
    ensures
        split_serial(serial + seq![':'] + sub) == Some((serial, sub)),
{
    let rest = serial + seq![':'] + sub;
    assert forall|j: int| 0 <= j < serial.len() implies !anchored(rest, j) by {
        assert(rest[j] == serial[j]);
    }
    split_at_serial_end(serial, sub);
}

/// A digit stands behind place `j`.
pub open spec fn digit_follows(serial: Seq<char>, j: int) -> bool {
    j + 1 < serial.len() && is_digit(serial[j + 1])
}

/// A digit follows every colon, as in `172.20.1.45:5555`.
pub open spec fn digits_follow_colons(serial: Seq<char>) -> bool {
    forall|j: int|
        0 <= j < serial.len() && serial[j] == ':' ==> #[trigger] digit_follows(serial, j)
}

/// So is a serial like `172.20.1.45:5555`: one in which a digit follows every colon.
pub proof fn tcp_serials_split_right(serial: Seq<char>, sub: Seq<char>)
    requires
        digits_follow_colons(serial),
        host_serial_sub(sub),
    ensures
        split_serial(serial + seq![':'] + sub) == Some((serial, sub)),
{
    let rest = serial + seq![':'] + sub;
    assert forall|j: int| 0 <= j < serial.len() implies !anchored(rest, j) by {
        if anchored(rest, j) {
            let tail = rest.subrange(j + 1, rest.len() as int);
            assert(serial[j] == ':');
            assert(digit_follows(serial, j));
            assert(tail[0] == serial[j + 1]);
            known_service_begins(tail);
        }
    }
    split_at_serial_end(serial, sub);
}

/// With no anchor inside the serial, the split is behind it.
proof fn split_at_serial_end(serial: Seq<char>, sub: Seq<char>)
    requires
        host_serial_sub(sub),
        forall|j: int|
            0 <= j < serial.len() ==> !anchored(serial + seq![':'] + sub, j),
    ensures
        split_serial(serial + seq![':'] + sub) == Some((serial, sub)),
{
    let rest = serial + seq![':'] + sub;
    let n = serial.len() as int;
    assert(rest.subrange(n + 1, rest.len() as int) =~= sub);
    assert(anchored(rest, n));
    anchor_is_first(rest, 0);
    let i = anchor_from(rest, 0);
    assert(i == n);
    assert(cut_at(rest, n).0 =~= serial);
    assert(cut_at(rest, n).1 =~= sub);
}

} // verus!
