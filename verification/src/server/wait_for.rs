//! Requests that wait for a device to appear or for a transport to go down.
//!
//! A device that appears can only be seen by asking for the device list again and
//! again. A transport that goes down is told by an event: a device whose daemon
//! restarts often stays listed all the time.
use vstd::prelude::*;

use crate::protocol::{fail, fail_reply, okay_twice, okay_word};
use crate::server::backend::{
    device_views, device_with_serial, find_device, DeviceEntry, DeviceView, LifecycleEvent,
    LifecycleView, TransportKind,
};
use crate::server::transport::{kind_matches, kinds_fit, parse_transport_kind, parsed_kind};
use crate::text::{concat3, cut_last, opt_text, rsplit_once, str_eq};

verus! {

/// How long to sleep between two looks at the device list, in milliseconds.
pub const POLL_INTERVAL_MS: u64 = 200;

/// How long to wait for a device to appear, in milliseconds.
pub const MAX_WAIT_MS: u64 = 60_000;

/// After how long a transport is taken to be down without any sign of it, in
/// milliseconds.
pub const DISCONNECT_FALLBACK_MS: u64 = 10_000;

/// The kind and the state that `<transport>-<state>` or a bare `<state>` asks for.
pub open spec fn wait_parts(arg: Seq<char>) -> (Option<TransportKind>, Seq<char>) {
    match cut_last(arg, '-') {
        Some((transport, state)) => (parsed_kind(transport), state),
        None => (None, arg),
    }
}

/// Whether some device satisfies a request for `want`.
pub open spec fn kind_present(devices: Seq<DeviceView>, want: Option<TransportKind>) -> bool {
    exists|i: int| 0 <= i < devices.len() && kinds_fit(want, (#[trigger] devices[i]).kind)
}

/// Whether some device satisfies a request for `want`.
pub fn any_of_kind(devices: &Vec<DeviceEntry>, want: Option<TransportKind>) -> (r: bool)
    ensures
        r == kind_present(device_views(devices@), want),
{
    let ghost all = device_views(devices@);
    let mut i: usize = 0;
    while i < devices.len()
        invariant
            i <= devices.len(),
            all == device_views(devices@),
            forall|j: int| 0 <= j < i ==> !kinds_fit(want, (#[trigger] all[j]).kind),
        decreases devices.len() - i,
    {
        assert(all[i as int] == devices@[i as int]@);
        if kind_matches(want, devices[i].kind) {
            return true;
        }
        i += 1;
    }
    false
}

/// What a wait request leads to.
#[derive(Debug, PartialEq, Eq)]
pub enum Wait {
    /// Nothing to wait for: the reply.
    Refused(Vec<u8>),
    /// Wait for a device of a kind to be listed.
    Device(Option<TransportKind>),
    /// Wait for a transport to go down: that of the pinned serial, or of a kind.
    Disconnect { want: Option<TransportKind>, pinned: Option<String> },
}

/// The contents of a [`Wait`].
pub enum WaitView {
    Refused(Seq<u8>),
    Device(Option<TransportKind>),
    Disconnect { want: Option<TransportKind>, pinned: Option<Seq<char>> },
}

impl View for Wait {
    type V = WaitView;

    open spec fn view(&self) -> WaitView {
        match self {
            Wait::Refused(r) => WaitView::Refused(r@),
            Wait::Device(want) => WaitView::Device(*want),
            Wait::Disconnect { want, pinned } => WaitView::Disconnect {
                want: *want,
                pinned: opt_text(*pinned),
            },
        }
    }
}

/// The refusal of a state that the server cannot see.
pub open spec fn unobservable(state: Seq<char>) -> Seq<char> {
    "wait-for-"@ + state
        + " not supported (this server only observes the 'device' and 'disconnect' states)"@
}

/// What a wait request leads to.
pub open spec fn parsed_wait(arg: Seq<char>, pinned: Option<Seq<char>>) -> WaitView {
    let (want, state) = wait_parts(arg);
    if state == "disconnect"@ {
        WaitView::Disconnect { want, pinned }
    } else if state == "device"@ {
        WaitView::Device(want)
    } else {
        WaitView::Refused(fail_reply(unobservable(state)))
    }
}

/// Reads a wait request. `pinned` is the device that the request names, if it
/// names one.
pub fn start_wait(arg: &str, pinned: Option<String>) -> (r: Wait)
    ensures
        r@ == parsed_wait(arg@, opt_text(pinned)),
{
    let (want, state) = match rsplit_once(arg, '-') {
        Some((transport, state)) => (parse_transport_kind(transport), state),
        None => (None, arg),
    };
    if str_eq(state, "disconnect") {
        Wait::Disconnect { want, pinned }
    } else if str_eq(state, "device") {
        Wait::Device(want)
    } else {
        let reason = concat3(
            "wait-for-",
            state,
            " not supported (this server only observes the 'device' and 'disconnect' states)",
        );
        Wait::Refused(fail(reason.as_str()))
    }
}

/// What to do next in a wait.
#[derive(Debug, PartialEq, Eq)]
pub enum WaitStep {
    /// Reply, and close the connection.
    Done(Vec<u8>),
    /// Go on waiting.
    Continue,
}

/// The contents of a [`WaitStep`].
pub enum WaitStepView {
    Done(Seq<u8>),
    Continue,
}

impl View for WaitStep {
    type V = WaitStepView;

    open spec fn view(&self) -> WaitStepView {
        match self {
            WaitStep::Done(r) => WaitStepView::Done(r@),
            WaitStep::Continue => WaitStepView::Continue,
        }
    }
}

/// Two `OKAY`s: accepted and satisfied.
pub open spec fn satisfied() -> WaitStepView {
    WaitStepView::Done(okay_word() + okay_word())
}

/// One look at the device list, `elapsed_ms` after the wait began.
pub open spec fn device_wait(
    want: Option<TransportKind>,
    devices: Seq<DeviceView>,
    elapsed_ms: u64,
) -> WaitStepView {
    if kind_present(devices, want) {
        satisfied()
    } else if elapsed_ms >= MAX_WAIT_MS {
        WaitStepView::Done(fail_reply("wait-for timed out"@))
    } else {
        WaitStepView::Continue
    }
}

/// One look at the device list, `elapsed_ms` after the wait began. To continue is
/// to sleep for [`POLL_INTERVAL_MS`] and to look again.
pub fn device_wait_step(
    want: Option<TransportKind>,
    devices: &Vec<DeviceEntry>,
    elapsed_ms: u64,
) -> (r: WaitStep)
    ensures
        r@ == device_wait(want, device_views(devices@), elapsed_ms),
{
    if any_of_kind(devices, want) {
        WaitStep::Done(okay_twice())
    } else if elapsed_ms >= MAX_WAIT_MS {
        WaitStep::Done(fail("wait-for timed out"))
    } else {
        WaitStep::Continue
    }
}

/// What can happen while a wait for a disconnect lasts.
#[derive(Debug, PartialEq, Eq)]
pub enum WaitEvent {
    /// The answer, on entry, to whether the transport is alive.
    Alive(bool),
    /// A lifecycle event.
    Lifecycle(LifecycleEvent),
    /// There will be no more lifecycle events.
    StreamClosed,
    /// [`DISCONNECT_FALLBACK_MS`] have gone by.
    Deadline,
}

/// The contents of a [`WaitEvent`].
pub enum WaitEventView {
    Alive(bool),
    Lifecycle(LifecycleView),
    StreamClosed,
    Deadline,
}

impl View for WaitEvent {
    type V = WaitEventView;

    open spec fn view(&self) -> WaitEventView {
        match self {
            WaitEvent::Alive(a) => WaitEventView::Alive(*a),
            WaitEvent::Lifecycle(e) => WaitEventView::Lifecycle(e@),
            WaitEvent::StreamClosed => WaitEventView::StreamClosed,
            WaitEvent::Deadline => WaitEventView::Deadline,
        }
    }
}

/// The serial that a lifecycle event is about.
pub open spec fn event_serial(event: LifecycleView) -> Seq<char> {
    match event {
        LifecycleView::Disconnected(s) => s,
        LifecycleView::TransportReset(s) => s,
    }
}

/// The kind of a device, as far as the list tells it.
pub open spec fn listed_kind(devices: Seq<DeviceView>, serial: Seq<char>) -> Option<TransportKind> {
    match device_with_serial(devices, serial) {
        Some(d) => d.kind,
        None => None,
    }
}

/// Whether an event ends a wait for a disconnect: the transport was down already,
/// it went down or was reset, or nothing more is to be expected. Without a pinned
/// serial the events of the devices of the kind count; `devices` is the list when the
/// wait began, and a device of unknown kind is of every kind.
pub open spec fn ends_disconnect_wait(
    want: Option<TransportKind>,
    pinned: Option<Seq<char>>,
    devices: Seq<DeviceView>,
    event: WaitEventView,
) -> bool {
    match event {
        WaitEventView::Alive(alive) => !alive,
        WaitEventView::Lifecycle(e) => match pinned {
            Some(s) => event_serial(e) == s,
            None => kinds_fit(want, listed_kind(devices, event_serial(e))),
        },
        WaitEventView::StreamClosed => true,
        WaitEventView::Deadline => true,
    }
}

/// What one event makes of a wait for a disconnect.
pub open spec fn disconnect_look(
    want: Option<TransportKind>,
    pinned: Option<Seq<char>>,
    devices: Seq<DeviceView>,
    event: WaitEventView,
) -> WaitStepView {
    if ends_disconnect_wait(want, pinned, devices, event) {
        satisfied()
    } else {
        WaitStepView::Continue
    }
}

/// Handles one event in a wait for a disconnect. However it ends, it ends well: a
/// transport that shows no sign of going down is taken to be down in the end.
pub fn disconnect_wait_step(
    want: Option<TransportKind>,
    pinned: &Option<String>,
    devices: &Vec<DeviceEntry>,
    event: &WaitEvent,
) -> (r: WaitStep)
    ensures
        r@ == disconnect_look(want, opt_text(*pinned), device_views(devices@), event@),
{
    let ends = match event {
        WaitEvent::Alive(alive) => !*alive,
        WaitEvent::Lifecycle(e) => {
            let serial = match e {
                LifecycleEvent::Disconnected(s) => s,
                LifecycleEvent::TransportReset(s) => s,
            };
            match pinned {
                Some(p) => str_eq(serial.as_str(), p.as_str()),
                None => {
                    let kind = match find_device(devices, serial.as_str()) {
                        Some(d) => d.kind,
                        None => None,
                    };
                    kind_matches(want, kind)
                },
            }
        },
        WaitEvent::StreamClosed => true,
        WaitEvent::Deadline => true,
    };
    if ends {
        WaitStep::Done(okay_twice())
    } else {
        WaitStep::Continue
    }
}

/// What a row of events makes of a wait for a disconnect.
pub open spec fn disconnect_wait(
    want: Option<TransportKind>,
    pinned: Option<Seq<char>>,
    devices: Seq<DeviceView>,
    events: Seq<WaitEventView>,
) -> WaitStepView
    decreases events.len(),
{
    if events.len() == 0 {
        WaitStepView::Continue
    } else {
        match disconnect_look(want, pinned, devices, events[0]) {
            WaitStepView::Done(reply) => WaitStepView::Done(reply),
            WaitStepView::Continue => disconnect_wait(want, pinned, devices, events.skip(1)),
        }
    }
}

/// A wait for a disconnect never fails: it is satisfied as soon as one event ends
/// it, and goes on until then.
pub proof fn disconnect_wait_never_fails(
    want: Option<TransportKind>,
    pinned: Option<Seq<char>>,
    devices: Seq<DeviceView>,
    events: Seq<WaitEventView>,
)
    ensures
        disconnect_wait(want, pinned, devices, events) == (if exists|i: int|
            0 <= i < events.len() && ends_disconnect_wait(
                want,
                pinned,
                devices,
                #[trigger] events[i],
            ) {
            satisfied()
        } else {
            WaitStepView::Continue
        }),
    decreases events.len(),
{
    if events.len() > 0 && !ends_disconnect_wait(want, pinned, devices, events[0]) {
        let rest = events.skip(1);
        disconnect_wait_never_fails(want, pinned, devices, rest);
        if exists|i: int|
            0 <= i < events.len() && ends_disconnect_wait(
                want,
                pinned,
                devices,
                #[trigger] events[i],
            ) {
            let i = choose|i: int|
                0 <= i < events.len() && ends_disconnect_wait(
                    want,
                    pinned,
                    devices,
                    #[trigger] events[i],
                );
            assert(rest[i - 1] == events[i]);
        }
        if exists|i: int|
            0 <= i < rest.len() && ends_disconnect_wait(
                want,
                pinned,
                devices,
                #[trigger] rest[i],
            ) {
            let i = choose|i: int|
                0 <= i < rest.len() && ends_disconnect_wait(
                    want,
                    pinned,
                    devices,
                    #[trigger] rest[i],
                );
            assert(events[i + 1] == rest[i]);
        }
    }
}

/// A reset and a final disconnect of the pinned device both end the wait; neither
/// does so for another device.
pub proof fn pinned_wait_is_precise(
    want: Option<TransportKind>,
    pinned: Seq<char>,
    devices: Seq<DeviceView>,
    serial: Seq<char>,
)
    ensures
        ends_disconnect_wait(
            want,
            Some(pinned),
            devices,
            WaitEventView::Lifecycle(LifecycleView::TransportReset(serial)),
        ) <==> serial == pinned,
        ends_disconnect_wait(
            want,
            Some(pinned),
            devices,
            WaitEventView::Lifecycle(LifecycleView::Disconnected(serial)),
        ) <==> serial == pinned,
{
}

/// A wait for a kind is not ended by a device of the other kind, and every event ends a
/// wait for any kind.
pub proof fn unpinned_wait_is_by_kind(
    want: Option<TransportKind>,
    devices: Seq<DeviceView>,
    event: LifecycleView,
)
    ensures
        want is None ==> ends_disconnect_wait(
            want,
            None,
            devices,
            WaitEventView::Lifecycle(event),
        ),
        want is Some && listed_kind(devices, event_serial(event)) is Some ==> (
        ends_disconnect_wait(want, None, devices, WaitEventView::Lifecycle(event)) <==> want
            == listed_kind(devices, event_serial(event))),
{
}

/// A wait for a device ends in one of two ways, and after [`MAX_WAIT_MS`] it has
/// ended.
pub proof fn device_wait_is_bounded(
    want: Option<TransportKind>,
    devices: Seq<DeviceView>,
    elapsed_ms: u64,
)
    ensures
        device_wait(want, devices, elapsed_ms) == satisfied() <==> kind_present(devices, want),
        elapsed_ms >= MAX_WAIT_MS ==> !(device_wait(want, devices, elapsed_ms) is Continue),
{
    let timed_out = fail_reply("wait-for timed out"@);
    assert(timed_out[0] == 0x46u8);
    assert((okay_word() + okay_word())[0] == 0x4fu8);
}

} // verus!
