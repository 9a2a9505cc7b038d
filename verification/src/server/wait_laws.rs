//! What clients wait for: how a wait is spelled, and when it ends.
use vstd::prelude::*;

use crate::protocol::{fail_reply, okay_word};
use crate::server::backend::{DeviceView, LifecycleView, TransportKind};
use crate::server::frontend::{host_outcome, FrontendView};
use crate::server::query_laws::{first_with_serial, none_with_serial};
use crate::server::select_laws::can_be;
use crate::server::service::{digits_follow_colons, host_serial_sub};
use crate::server::step::StepView;
use crate::server::transport::kinds_fit;
use crate::server::wait_for::{
    device_wait, disconnect_wait, ends_disconnect_wait, parsed_wait, WaitEventView, WaitStepView,
    WaitView,
};
use crate::server::wire_laws::{host_serial_names_its_device, wait_for_carries_its_argument};
use crate::text::{cut_last, last_index_unique, no_prefix, prefix_is_found};

verus! {

/// The kind behind `wait-for-` and the state behind the kind.
proof fn wait_is_split(transport: Seq<char>, state: Seq<char>)
    requires
        !state.contains('-'),
    ensures
        cut_last(transport + "-"@ + state, '-') == Some((transport, state)),
        cut_last(state, '-') is None,
{
    reveal_strlit("-");
    let arg = transport + "-"@ + state;
    let n = transport.len() as int;
    assert(arg[n] == '-');
    assert forall|j: int| n < j < arg.len() implies arg[j] != '-' by {
        assert(arg[j] == state[j - n - 1]);
    }
    last_index_unique(arg, '-', n);
    assert(arg.contains('-'));
    let (a, b) = cut_last(arg, '-')->0;
    assert(a =~= transport);
    assert(b =~= state);
}

/// The words for kinds and states.
proof fn wait_words()
    ensures
        "device"@.len() == 6 && !"device"@.contains('-') && "device"@[2] == 'v',
        "disconnect"@.len() == 10 && !"disconnect"@.contains('-'),
        "usb"@.len() == 3 && "usb"@[0] == 'u',
        "local"@.len() == 5 && "local"@[0] == 'l',
        "any"@.len() == 3 && "any"@[0] == 'a',
        "usb-device"@ == "usb"@ + "-"@ + "device"@,
        "local-device"@ == "local"@ + "-"@ + "device"@,
        "any-device"@ == "any"@ + "-"@ + "device"@,
        "usb-disconnect"@ == "usb"@ + "-"@ + "disconnect"@,
        "local-disconnect"@ == "local"@ + "-"@ + "disconnect"@,
        "any-disconnect"@ == "any"@ + "-"@ + "disconnect"@,
{
    reveal_strlit("-");
    reveal_strlit("device");
    reveal_strlit("disconnect");
    reveal_strlit("usb");
    reveal_strlit("local");
    reveal_strlit("any");
    reveal_strlit("usb-device");
    reveal_strlit("local-device");
    reveal_strlit("any-device");
    reveal_strlit("usb-disconnect");
    reveal_strlit("local-disconnect");
    reveal_strlit("any-disconnect");
    assert("usb-device"@ =~= "usb"@ + "-"@ + "device"@);
    assert("local-device"@ =~= "local"@ + "-"@ + "device"@);
    assert("any-device"@ =~= "any"@ + "-"@ + "device"@);
    assert("usb-disconnect"@ =~= "usb"@ + "-"@ + "disconnect"@);
    assert("local-disconnect"@ =~= "local"@ + "-"@ + "disconnect"@);
    assert("any-disconnect"@ =~= "any"@ + "-"@ + "disconnect"@);
}

/// The kind in a request for a device is the kind that is waited for; without one, or with
/// a word that is no kind, every device will do.
pub proof fn a_wait_for_a_device_is_by_kind(word: Seq<char>, pinned: Option<Seq<char>>)
    ensures
        parsed_wait("usb-device"@, pinned) == WaitView::Device(Some(TransportKind::Usb)),
        parsed_wait("local-device"@, pinned) == WaitView::Device(Some(TransportKind::Local)),
        parsed_wait("any-device"@, pinned) == WaitView::Device(None),
        parsed_wait("device"@, pinned) == WaitView::Device(None),
        word != "usb"@ && word != "local"@ ==> parsed_wait(word + "-"@ + "device"@, pinned)
            == WaitView::Device(None),
{
    wait_words();
    wait_is_split("usb"@, "device"@);
    wait_is_split("local"@, "device"@);
    wait_is_split("any"@, "device"@);
    wait_is_split(word, "device"@);
}

/// So is the kind in a request for a disconnect, and the device that the request names is
/// the one whose transport is watched.
pub proof fn a_wait_for_a_disconnect_is_by_kind(word: Seq<char>, pinned: Option<Seq<char>>)
    ensures
        parsed_wait("usb-disconnect"@, pinned) == (WaitView::Disconnect {
            want: Some(TransportKind::Usb),
            pinned,
        }),
        parsed_wait("local-disconnect"@, pinned) == (WaitView::Disconnect {
            want: Some(TransportKind::Local),
            pinned,
        }),
        parsed_wait("any-disconnect"@, pinned) == (WaitView::Disconnect { want: None, pinned }),
        parsed_wait("disconnect"@, pinned) == (WaitView::Disconnect { want: None, pinned }),
        word != "usb"@ && word != "local"@ ==> parsed_wait(word + "-"@ + "disconnect"@, pinned)
            == (WaitView::Disconnect { want: None, pinned }),
{
    wait_words();
    wait_is_split("usb"@, "disconnect"@);
    wait_is_split("local"@, "disconnect"@);
    wait_is_split("any"@, "disconnect"@);
    wait_is_split(word, "disconnect"@);
}

/// A state that the server cannot see is refused at once, by its name.
pub proof fn other_states_are_refused(
    word: Seq<char>,
    state: Seq<char>,
    pinned: Option<Seq<char>>,
)
    requires
        !state.contains('-'),
        state != "device"@,
        state != "disconnect"@,
    ensures
        ({
            let refusal = WaitView::Refused(
                fail_reply(
                    "wait-for-"@ + state
                        + " not supported (this server only observes the 'device' and 'disconnect' states)"@,
                ),
            );
            &&& parsed_wait(state, pinned) == refusal
            &&& parsed_wait(word + "-"@ + state, pinned) == refusal
        }),
{
    wait_is_split(word, state);
}

/// A request that names no device waits for what it says; one that names a device waits
/// with that device named. Neither changes a rule or needs the list of devices.
pub proof fn waits_are_begun(
    f: FrontendView,
    arg: Seq<char>,
    serial: Seq<char>,
    devices: Option<Seq<DeviceView>>,
    listed: Seq<DeviceView>,
)
    requires
        digits_follow_colons(serial),
    ensures
        host_outcome(f, "host:"@ + ("wait-for-"@ + arg), devices).step == StepView::Wait(
            parsed_wait(arg, None),
        ),
        host_outcome(f, "host:"@ + ("wait-for-"@ + arg), devices).rules == f.rules,
        host_outcome(
            f,
            "host-serial:"@ + (serial + seq![':'] + ("wait-for-"@ + arg)),
            Some(listed),
        ).step == StepView::Wait(parsed_wait(arg, Some(serial))),
        host_outcome(
            f,
            "host-serial:"@ + (serial + seq![':'] + ("wait-for-"@ + arg)),
            Some(listed),
        ).rules == f.rules,
{
    wait_for_carries_its_argument(arg);
    let sub = "wait-for-"@ + arg;
    prefix_is_found("wait-for-"@, arg);
    assert(host_serial_sub(sub));
    host_serial_names_its_device(serial, sub);
    reveal_strlit("wait-for-");
    reveal_strlit("get-state");
    reveal_strlit("get-serialno");
    reveal_strlit("features");
    reveal_strlit("list-forward");
    reveal_strlit("killforward-all");
    reveal_strlit("forward:");
    reveal_strlit("killforward:");
    reveal_strlit("transport");
    reveal_strlit("tport");
    assert(sub[0] == 'w');
    no_prefix(sub, "forward:"@, 0);
    no_prefix(sub, "killforward:"@, 0);
    no_prefix(sub, "transport"@, 0);
}

/// A wait for a device ends well as soon as a device is listed that can be of the kind, and
/// not before. A list with devices of the other kind only does not end it: after a minute
/// it fails, and until then it goes on.
pub proof fn a_wait_for_a_device_ends(
    want: Option<TransportKind>,
    devices: Seq<DeviceView>,
    elapsed_ms: u64,
)
    ensures
        (exists|i: int| 0 <= i < devices.len() && can_be(#[trigger] devices[i], want))
            ==> device_wait(want, devices, elapsed_ms) == WaitStepView::Done(
            okay_word() + okay_word(),
        ),
        (forall|i: int| 0 <= i < devices.len() ==> !can_be(#[trigger] devices[i], want))
            && elapsed_ms >= 60_000 ==> device_wait(want, devices, elapsed_ms)
            == WaitStepView::Done(fail_reply("wait-for timed out"@)),
        (forall|i: int| 0 <= i < devices.len() ==> !can_be(#[trigger] devices[i], want))
            && elapsed_ms < 60_000 ==> device_wait(want, devices, elapsed_ms)
            == WaitStepView::Continue,
{
    if exists|i: int| 0 <= i < devices.len() && can_be(#[trigger] devices[i], want) {
        let i = choose|i: int| 0 <= i < devices.len() && can_be(#[trigger] devices[i], want);
        assert(kinds_fit(want, devices[i].kind));
    }
    assert forall|i: int| 0 <= i < devices.len() implies can_be(#[trigger] devices[i], want)
        == kinds_fit(want, devices[i].kind) by {}
}

/// A wait for a disconnect ends at once if the transport is down, and goes on if it is up.
/// It also ends when nothing more can be learned: at the end of the events, or when the
/// time is over.
pub proof fn a_wait_for_a_disconnect_ends(
    want: Option<TransportKind>,
    pinned: Option<Seq<char>>,
    devices: Seq<DeviceView>,
    rest: Seq<WaitEventView>,
)
    ensures
        disconnect_wait(want, pinned, devices, seq![WaitEventView::Alive(false)] + rest)
            == WaitStepView::Done(okay_word() + okay_word()),
        disconnect_wait(want, pinned, devices, seq![WaitEventView::Alive(true)] + rest)
            == disconnect_wait(want, pinned, devices, rest),
        disconnect_wait(want, pinned, devices, seq![WaitEventView::StreamClosed] + rest)
            == WaitStepView::Done(okay_word() + okay_word()),
        disconnect_wait(want, pinned, devices, seq![WaitEventView::Deadline] + rest)
            == WaitStepView::Done(okay_word() + okay_word()),
        disconnect_wait(want, pinned, devices, Seq::empty()) == WaitStepView::Continue,
{
    let up = seq![WaitEventView::Alive(true)] + rest;
    assert(up.skip(1) =~= rest);
}

/// What happens to the named device ends a wait for its disconnect, be it gone or only
/// restarted; what happens to another device does not.
pub proof fn a_named_device_ends_its_wait(
    want: Option<TransportKind>,
    pinned: Seq<char>,
    devices: Seq<DeviceView>,
    serial: Seq<char>,
    rest: Seq<WaitEventView>,
)
    ensures
        ({
            let gone = WaitEventView::Lifecycle(LifecycleView::Disconnected(serial));
            let reset = WaitEventView::Lifecycle(LifecycleView::TransportReset(serial));
            let over = WaitStepView::Done(okay_word() + okay_word());
            if serial == pinned {
                &&& disconnect_wait(want, Some(pinned), devices, seq![gone] + rest) == over
                &&& disconnect_wait(want, Some(pinned), devices, seq![reset] + rest) == over
            } else {
                &&& disconnect_wait(want, Some(pinned), devices, seq![gone] + rest)
                    == disconnect_wait(want, Some(pinned), devices, rest)
                &&& disconnect_wait(want, Some(pinned), devices, seq![reset] + rest)
                    == disconnect_wait(want, Some(pinned), devices, rest)
            }
        }),
{
    let gone = WaitEventView::Lifecycle(LifecycleView::Disconnected(serial));
    let reset = WaitEventView::Lifecycle(LifecycleView::TransportReset(serial));
    assert((seq![gone] + rest).skip(1) =~= rest);
    assert((seq![reset] + rest).skip(1) =~= rest);
}

/// Without a named device, what happens to a device ends the wait if that can be of the
/// kind; one that was not listed when the wait began can be of every kind.
pub proof fn a_device_of_the_kind_ends_a_wait(
    want: Option<TransportKind>,
    devices: Seq<DeviceView>,
    i: int,
)
    requires
        0 <= i < devices.len(),
        forall|j: int| 0 <= j < i ==> (#[trigger] devices[j]).serial != devices[i].serial,
    ensures
        ends_disconnect_wait(
            want,
            None,
            devices,
            WaitEventView::Lifecycle(LifecycleView::Disconnected(devices[i].serial)),
        ) <==> can_be(devices[i], want),
        ends_disconnect_wait(
            want,
            None,
            devices,
            WaitEventView::Lifecycle(LifecycleView::TransportReset(devices[i].serial)),
        ) <==> can_be(devices[i], want),
{
    first_with_serial(devices, i);
}

/// The devices that were not listed when the wait began.
pub proof fn an_unlisted_device_ends_a_wait(
    want: Option<TransportKind>,
    devices: Seq<DeviceView>,
    serial: Seq<char>,
)
    requires
        forall|j: int| 0 <= j < devices.len() ==> (#[trigger] devices[j]).serial != serial,
    ensures
        ends_disconnect_wait(
            want,
            None,
            devices,
            WaitEventView::Lifecycle(LifecycleView::Disconnected(serial)),
        ),
        ends_disconnect_wait(
            want,
            None,
            devices,
            WaitEventView::Lifecycle(LifecycleView::TransportReset(serial)),
        ),
{
    none_with_serial(devices, serial);
}

} // verus!
