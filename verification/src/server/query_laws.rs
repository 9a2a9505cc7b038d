//! Questions to the server and what they are answered, spelled as clients spell them.
use vstd::prelude::*;

use crate::number::decimal;
use crate::protocol::{fail_reply, okay_word};
use crate::server::backend::{
    device_with_serial, serials_of, DeviceState, DeviceView, TransportKind,
};
use crate::server::capabilities::KillPolicy;
use crate::server::frontend::{host_outcome, local_outcome, FrontendView, Learned};
use crate::server::listing::device_listing;
use crate::server::request::{
    parsed_host, parsed_local_request, parsed_request, HostRequestView, LocalRequestView,
};
use crate::server::select_laws::a_serial_names_its_device;
use crate::server::service::{
    anchors_are_the_known_services, digits_follow_colons, host_serial_sub, parsed_sub,
    split_loses_nothing, split_serial, unknown_services_split_off, ForwardServiceView,
};
use crate::server::step::{data_reply, StepView};
use crate::server::transport::{any_means_the_only_one, resolved, SelectorView};
use crate::server::wire_laws::{
    connect_carries_the_address, host_prefix_is_found, host_serial_names_its_device,
    host_transport_id_names_its_device, spelled_out_services,
};
use crate::text::{has_prefix, joined, no_prefix, prefix_is_found};

verus! {

/// The first device with a serial is the one that is found.
pub proof fn first_with_serial(devices: Seq<DeviceView>, i: int)
    requires
        0 <= i < devices.len(),
        forall|j: int| 0 <= j < i ==> (#[trigger] devices[j]).serial != devices[i].serial,
    ensures
        device_with_serial(devices, devices[i].serial) == Some(devices[i]),
    decreases i,
{
    if i > 0 {
        let rest = devices.skip(1);
        assert(devices[0].serial != devices[i].serial);
        assert(rest[i - 1] == devices[i]);
        assert forall|j: int| 0 <= j < i - 1 implies (#[trigger] rest[j]).serial
            != rest[i - 1].serial by {
            assert(rest[j] == devices[j + 1]);
        }
        first_with_serial(rest, i - 1);
    }
}

/// Without a device with the serial, none is found.
pub proof fn none_with_serial(devices: Seq<DeviceView>, serial: Seq<char>)
    requires
        forall|j: int| 0 <= j < devices.len() ==> (#[trigger] devices[j]).serial != serial,
    ensures
        device_with_serial(devices, serial) is None,
        !serials_of(devices).contains(serial),
    decreases devices.len(),
{
    let s = serials_of(devices);
    assert forall|j: int| 0 <= j < s.len() implies s[j] != serial by {
        assert(s[j] == devices[j].serial);
    }
    if devices.len() > 0 {
        let rest = devices.skip(1);
        assert(devices[0].serial != serial);
        assert forall|j: int| 0 <= j < rest.len() implies (#[trigger] rest[j]).serial
            != serial by {
            assert(rest[j] == devices[j + 1]);
        }
        none_with_serial(rest, serial);
    }
}

// ---------------------------------------------------------------------------------
// About one device
// ---------------------------------------------------------------------------------

/// The services that can follow a device's name, by letters that tell them apart.
proof fn sub_words()
    ensures
        "get-state"@.len() == 9 && "get-state"@[0] == 'g' && "get-state"@[5] == 't',
        "get-serialno"@.len() == 12 && "get-serialno"@[0] == 'g',
        "features"@.len() == 8 && "features"@[0] == 'f' && "features"@[1] == 'e',
        "list-forward"@.len() == 12 && "list-forward"@[0] == 'l',
        "killforward-all"@.len() == 15 && "killforward-all"@[0] == 'k' && "killforward-all"@[11]
            == '-',
        "forward:"@.len() == 8 && "forward:"@[0] == 'f' && "forward:"@[1] == 'o',
        "killforward:"@.len() == 12 && "killforward:"@[0] == 'k' && "killforward:"@[11] == ':',
        "transport"@.len() == 9 && "transport"@[0] == 't' && "transport"@[1] == 'r',
        "tport"@.len() == 5 && "tport"@[0] == 't' && "tport"@[1] == 'p',
        "wait-for-"@.len() == 9 && "wait-for-"@[0] == 'w',
{
    reveal_strlit("get-state");
    reveal_strlit("get-serialno");
    reveal_strlit("features");
    reveal_strlit("list-forward");
    reveal_strlit("killforward-all");
    reveal_strlit("forward:");
    reveal_strlit("killforward:");
    reveal_strlit("transport");
    reveal_strlit("tport");
    reveal_strlit("wait-for-");
}

/// The services that stand alone are read as themselves, whatever names the device.
proof fn subs_are_read(more: Seq<char>)
    ensures
        parsed_sub("get-state"@) is GetState && host_serial_sub("get-state"@),
        parsed_sub("get-serialno"@) is GetSerialno && host_serial_sub("get-serialno"@),
        parsed_sub("features"@) is Features && host_serial_sub("features"@),
        parsed_sub("tport"@) is Transport && host_serial_sub("tport"@),
        parsed_sub("transport"@ + more) is Transport && host_serial_sub("transport"@ + more),
{
    sub_words();
    no_prefix("get-serialno"@, "forward:"@, 0);
    no_prefix("tport"@, "forward:"@, 0);
    no_prefix("tport"@, "killforward:"@, 0);
    let t = "transport"@ + more;
    prefix_is_found("transport"@, more);
    assert(t[0] == 't');
    no_prefix(t, "forward:"@, 0);
    no_prefix(t, "killforward:"@, 0);
}

/// A prefix that names a kind is told apart from those that name a serial or an id.
proof fn kind_prefix_is_found(sub: Seq<char>)
    ensures
        parsed_request("host-usb:"@ + sub) == HostRequestView::OnDevice(
            SelectorView::Kind(Some(TransportKind::Usb)),
            parsed_sub(sub),
        ),
        parsed_request("host-local:"@ + sub) == HostRequestView::OnDevice(
            SelectorView::Kind(Some(TransportKind::Local)),
            parsed_sub(sub),
        ),
{
    reveal_strlit("host-serial:");
    reveal_strlit("host-usb:");
    reveal_strlit("host-local:");
    let u = "host-usb:"@ + sub;
    let l = "host-local:"@ + sub;
    assert(u[5] == 'u');
    assert(l[5] == 'l');
    no_prefix(u, "host-serial:"@, 5);
    no_prefix(l, "host-serial:"@, 5);
    no_prefix(l, "host-usb:"@, 5);
    prefix_is_found("host-usb:"@, sub);
    prefix_is_found("host-local:"@, sub);
}

/// How clients read a state.
pub open spec fn spelled_state(state: DeviceState) -> Seq<char> {
    match state {
        DeviceState::Device => "device"@,
        DeviceState::Offline => "offline"@,
        DeviceState::Unauthorized => "unauthorized"@,
    }
}

/// Whoever asks for the serial of a device by its serial is told that serial, whether or
/// not the device is listed.
pub proof fn the_serial_is_told(f: FrontendView, devices: Seq<DeviceView>, serial: Seq<char>)
    requires
        digits_follow_colons(serial),
    ensures
        ({
            let o = host_outcome(
                f,
                "host-serial:"@ + (serial + seq![':'] + "get-serialno"@),
                Some(devices),
            );
            &&& o.step == StepView::Reply(data_reply(serial))
            &&& o.rules == f.rules
        }),
{
    subs_are_read(Seq::empty());
    host_serial_names_its_device(serial, "get-serialno"@);
}

/// Whoever asks for the serial of the device of a kind, or of that with a transport id, is
/// told the serial of the device that a selection would choose, or why there is none.
pub proof fn the_serial_of_the_chosen_is_told(f: FrontendView, devices: Seq<DeviceView>, id: u64)
    ensures
        host_outcome(f, "host-usb:"@ + "get-serialno"@, Some(devices)).step == StepView::Reply(
            match resolved(SelectorView::Kind(Some(TransportKind::Usb)), devices) {
                Ok(serial) => data_reply(serial),
                Err(reason) => fail_reply(reason),
            },
        ),
        host_outcome(f, "host-local:"@ + "get-serialno"@, Some(devices)).step == StepView::Reply(
            match resolved(SelectorView::Kind(Some(TransportKind::Local)), devices) {
                Ok(serial) => data_reply(serial),
                Err(reason) => fail_reply(reason),
            },
        ),
        host_outcome(
            f,
            "host-transport-id:"@ + (decimal(id as nat) + seq![':'] + "get-serialno"@),
            Some(devices),
        ).step == StepView::Reply(
            match resolved(SelectorView::Id(id), devices) {
                Ok(serial) => data_reply(serial),
                Err(reason) => fail_reply(reason),
            },
        ),
{
    subs_are_read(Seq::empty());
    kind_prefix_is_found("get-serialno"@);
    host_transport_id_names_its_device(id, "get-serialno"@);
}

/// Whoever asks for the state of a listed device is told the state that the device has.
pub proof fn the_state_is_told(f: FrontendView, devices: Seq<DeviceView>, i: int)
    requires
        0 <= i < devices.len(),
        forall|j: int| 0 <= j < i ==> (#[trigger] devices[j]).serial != devices[i].serial,
        digits_follow_colons(devices[i].serial),
    ensures
        ({
            let o = host_outcome(
                f,
                "host-serial:"@ + (devices[i].serial + seq![':'] + "get-state"@),
                Some(devices),
            );
            &&& o.step == StepView::Reply(data_reply(spelled_state(devices[i].state)))
            &&& o.rules == f.rules
        }),
{
    subs_are_read(Seq::empty());
    host_serial_names_its_device(devices[i].serial, "get-state"@);
    first_with_serial(devices, i);
}

/// A device that is not listed is told to be offline.
pub proof fn an_unlisted_device_is_offline(
    f: FrontendView,
    devices: Seq<DeviceView>,
    serial: Seq<char>,
)
    requires
        forall|j: int| 0 <= j < devices.len() ==> (#[trigger] devices[j]).serial != serial,
        digits_follow_colons(serial),
    ensures
        ({
            let o = host_outcome(
                f,
                "host-serial:"@ + (serial + seq![':'] + "get-state"@),
                Some(devices),
            );
            &&& o.step == StepView::Reply(data_reply("offline"@))
            &&& o.rules == f.rules
        }),
{
    subs_are_read(Seq::empty());
    host_serial_names_its_device(serial, "get-state"@);
    none_with_serial(devices, serial);
}

/// Whoever asks for the features of a device is told those of that device.
pub proof fn the_features_are_those_of_the_device(
    f: FrontendView,
    devices: Seq<DeviceView>,
    serial: Seq<char>,
    learned: Learned,
)
    requires
        digits_follow_colons(serial),
    ensures
        host_outcome(
            f,
            "host-serial:"@ + (serial + seq![':'] + "features"@),
            Some(devices),
        ).step == StepView::DeviceFeatures(serial),
        local_outcome(f, serial, "host:"@ + "features"@, learned).step == StepView::DeviceFeatures(
            serial,
        ),
{
    subs_are_read(Seq::empty());
    host_serial_names_its_device(serial, "features"@);
    local_host_requests_are_read(Seq::empty());
}

/// A request that names its device can also select it: the device if it is listed.
pub proof fn a_named_device_is_selected(
    f: FrontendView,
    devices: Seq<DeviceView>,
    serial: Seq<char>,
    more: Seq<char>,
)
    requires
        digits_follow_colons(serial),
    ensures
        ({
            let step = if exists|i: int|
                0 <= i < devices.len() && (#[trigger] devices[i]).serial == serial {
                StepView::Select { serial, reply: okay_word() }
            } else {
                StepView::Reply(fail_reply("device not found"@))
            };
            &&& host_outcome(
                f,
                "host-serial:"@ + (serial + seq![':'] + "tport"@),
                Some(devices),
            ).step == step
            &&& host_outcome(
                f,
                "host-serial:"@ + (serial + seq![':'] + ("transport"@ + more)),
                Some(devices),
            ).step == step
        }),
{
    subs_are_read(more);
    host_serial_names_its_device(serial, "tport"@);
    host_serial_names_its_device(serial, "transport"@ + more);
    a_serial_names_its_device(devices, serial);
}

/// It makes no difference whether a device is named by its kind, by its id or by its
/// serial: the answers are the same.
pub proof fn names_of_a_device_are_alike(
    f: FrontendView,
    devices: Seq<DeviceView>,
    serial: Seq<char>,
    sub: Seq<char>,
    id: u64,
)
    requires
        digits_follow_colons(serial),
        host_serial_sub(sub),
    ensures
        ({
            let by_serial = host_outcome(
                f,
                "host-serial:"@ + (serial + seq![':'] + sub),
                Some(devices),
            );
            &&& resolved(SelectorView::Kind(Some(TransportKind::Usb)), devices) == Ok::<
                Seq<char>,
                Seq<char>,
            >(serial) ==> host_outcome(f, "host-usb:"@ + sub, Some(devices)) == by_serial
            &&& resolved(SelectorView::Kind(Some(TransportKind::Local)), devices) == Ok::<
                Seq<char>,
                Seq<char>,
            >(serial) ==> host_outcome(f, "host-local:"@ + sub, Some(devices)) == by_serial
            &&& resolved(SelectorView::Id(id), devices) == Ok::<Seq<char>, Seq<char>>(serial)
                ==> host_outcome(
                f,
                "host-transport-id:"@ + (decimal(id as nat) + seq![':'] + sub),
                Some(devices),
            ) == by_serial
        }),
{
    host_serial_names_its_device(serial, sub);
    kind_prefix_is_found(sub);
    host_transport_id_names_its_device(id, sub);
}

/// Where a kind or an id names no device, the client is told why, whatever it asks, and no
/// rule changes.
pub proof fn no_device_no_answer(
    f: FrontendView,
    devices: Seq<DeviceView>,
    sub: Seq<char>,
    id: u64,
)
    ensures
        resolved(SelectorView::Kind(Some(TransportKind::Usb)), devices) matches Err(reason) ==> {
            let o = host_outcome(f, "host-usb:"@ + sub, Some(devices));
            o.step == StepView::Reply(fail_reply(reason)) && o.rules == f.rules
        },
        resolved(SelectorView::Kind(Some(TransportKind::Local)), devices) matches Err(reason)
            ==> {
            let o = host_outcome(f, "host-local:"@ + sub, Some(devices));
            o.step == StepView::Reply(fail_reply(reason)) && o.rules == f.rules
        },
        resolved(SelectorView::Id(id), devices) matches Err(reason) ==> {
            let o = host_outcome(
                f,
                "host-transport-id:"@ + (decimal(id as nat) + seq![':'] + sub),
                Some(devices),
            );
            o.step == StepView::Reply(fail_reply(reason)) && o.rules == f.rules
        },
{
    kind_prefix_is_found(sub);
    host_transport_id_names_its_device(id, sub);
}

/// What follows the name of a device and is no known service is refused by its name.
pub proof fn unknown_services_of_a_device_are_named(
    f: FrontendView,
    devices: Seq<DeviceView>,
    sub: Seq<char>,
    serial: Seq<char>,
)
    requires
        !host_serial_sub(sub),
        resolved(SelectorView::Kind(Some(TransportKind::Usb)), devices) == Ok::<
            Seq<char>,
            Seq<char>,
        >(serial),
    ensures
        host_outcome(f, "host-usb:"@ + sub, Some(devices)).step == StepView::Reply(
            fail_reply("unknown host-serial sub-service: "@ + sub),
        ),
{
    kind_prefix_is_found(sub);
    anchors_are_the_known_services(sub);
}

/// An unknown service behind a plain serial is named in full in the refusal: the serial ends
/// at the first colon.
pub proof fn unknown_services_behind_a_serial_are_named(
    f: FrontendView,
    devices: Seq<DeviceView>,
    serial: Seq<char>,
    sub: Seq<char>,
)
    requires
        !serial.contains(':'),
        !host_serial_sub(sub),
        forall|i: int|
            0 <= i < sub.len() && #[trigger] sub[i] == ':' ==> !host_serial_sub(
                sub.subrange(i + 1, sub.len() as int),
            ),
    ensures
        host_outcome(
            f,
            "host-serial:"@ + (serial + seq![':'] + sub),
            Some(devices),
        ).step == StepView::Reply(fail_reply("unknown host-serial sub-service: "@ + sub)),
{
    prefix_is_found("host-serial:"@, serial + seq![':'] + sub);
    unknown_services_split_off(serial, sub);
    anchors_are_the_known_services(sub);
}

/// A request that names a device and asks nothing of it is malformed.
pub proof fn nothing_asked_is_malformed(
    f: FrontendView,
    name: Seq<char>,
    devices: Option<Seq<DeviceView>>,
)
    requires
        !name.contains(':'),
    ensures
        host_outcome(f, "host-serial:"@ + name, devices).step == StepView::Reply(
            fail_reply("malformed host-serial request"@),
        ),
        host_outcome(f, "host-transport-id:"@ + name, devices).step == StepView::Reply(
            fail_reply("malformed host-transport-id request"@),
        ),
{
    prefix_is_found("host-serial:"@, name);
    split_loses_nothing(name);
    if let Some((serial, sub)) = split_serial(name) {
        assert(name[serial.len() as int] == ':');
    }
    let t = "host-transport-id:"@ + name;
    reveal_strlit("host-serial:");
    reveal_strlit("host-usb:");
    reveal_strlit("host-local:");
    reveal_strlit("host-transport-id:");
    assert(t[5] == 't');
    no_prefix(t, "host-serial:"@, 5);
    no_prefix(t, "host-usb:"@, 5);
    no_prefix(t, "host-local:"@, 5);
    prefix_is_found("host-transport-id:"@, name);
}

// ---------------------------------------------------------------------------------
// About the server
// ---------------------------------------------------------------------------------

/// The requests of one word, as they are read.
proof fn plain_words_are_read()
    ensures
        parsed_request("host:version"@) is Version,
        parsed_request("host:features"@) is Features,
        parsed_request("host:devices"@) == HostRequestView::Devices(false),
        parsed_request("host:devices-l"@) == HostRequestView::Devices(true),
        parsed_request("host:track-devices"@) == HostRequestView::TrackDevices(false),
        parsed_request("host:track-devices-l"@) == HostRequestView::TrackDevices(true),
        parsed_request("host:kill"@) is Kill,
        parsed_request("host:get-state"@) is GetState,
        parsed_request("host:reconnect-offline"@) is ReconnectOffline,
{
    reveal_strlit("host:");
    reveal_strlit("host:version");
    reveal_strlit("host:features");
    reveal_strlit("host:devices");
    reveal_strlit("host:devices-l");
    reveal_strlit("host:track-devices");
    reveal_strlit("host:track-devices-l");
    reveal_strlit("host:kill");
    reveal_strlit("host:get-state");
    reveal_strlit("host:reconnect-offline");
    reveal_strlit("version");
    reveal_strlit("features");
    reveal_strlit("devices");
    reveal_strlit("devices-l");
    reveal_strlit("track-devices");
    reveal_strlit("track-devices-l");
    reveal_strlit("kill");
    reveal_strlit("get-state");
    reveal_strlit("reconnect-offline");
    assert("host:version"@ =~= "host:"@ + "version"@);
    assert("host:features"@ =~= "host:"@ + "features"@);
    assert("host:devices"@ =~= "host:"@ + "devices"@);
    assert("host:devices-l"@ =~= "host:"@ + "devices-l"@);
    assert("host:track-devices"@ =~= "host:"@ + "track-devices"@);
    assert("host:track-devices-l"@ =~= "host:"@ + "track-devices-l"@);
    assert("host:kill"@ =~= "host:"@ + "kill"@);
    assert("host:get-state"@ =~= "host:"@ + "get-state"@);
    assert("host:reconnect-offline"@ =~= "host:"@ + "reconnect-offline"@);
    host_prefix_is_found("version"@);
    host_prefix_is_found("features"@);
    host_prefix_is_found("devices"@);
    host_prefix_is_found("devices-l"@);
    host_prefix_is_found("track-devices"@);
    host_prefix_is_found("track-devices-l"@);
    host_prefix_is_found("kill"@);
    host_prefix_is_found("get-state"@);
    host_prefix_is_found("reconnect-offline"@);
    spelled_out_services();
    no_prefix("get-state"@, "tport:"@, 0);
    no_prefix("get-state"@, "forward:"@, 0);
    no_prefix("reconnect-offline"@, "transport-id:"@, 0);
    no_prefix("reconnect-offline"@, "transport:"@, 0);
    no_prefix("reconnect-offline"@, "tport:"@, 0);
    no_prefix("reconnect-offline"@, "forward:"@, 0);
    no_prefix("reconnect-offline"@, "killforward:"@, 0);
}

/// The server tells its version and its features to everyone, with or without devices,
/// and nothing changes by it.
pub proof fn the_server_tells_of_itself(f: FrontendView, devices: Option<Seq<DeviceView>>)
    ensures
        host_outcome(f, "host:version"@, devices).step == StepView::Reply(
            data_reply(f.caps.version_hex),
        ),
        host_outcome(f, "host:version"@, devices).rules == f.rules,
        host_outcome(f, "host:features"@, devices).step == StepView::Reply(
            data_reply(joined(f.caps.features, ","@)),
        ),
        host_outcome(f, "host:features"@, devices).rules == f.rules,
        host_outcome(f, "host:reconnect-offline"@, devices).step == StepView::Reply(okay_word()),
        host_outcome(f, "host:reconnect-offline"@, devices).rules == f.rules,
{
    plain_words_are_read();
}

/// The server shuts down on request exactly where the policy lets it, and says `OKAY`
/// before; elsewhere it refuses and keeps running.
pub proof fn the_policy_decides_on_shutdown(f: FrontendView, devices: Option<Seq<DeviceView>>)
    ensures
        host_outcome(f, "host:kill"@, devices).step == (if f.caps.kill_policy
            == KillPolicy::Shutdown {
            StepView::Shutdown(okay_word())
        } else {
            StepView::Reply(fail_reply("kill not permitted"@))
        }),
        host_outcome(f, "host:kill"@, devices).rules == f.rules,
{
    plain_words_are_read();
}

/// The list of devices is what is listed, short or long as asked for; a stream of lists is
/// of the same form as the single list.
pub proof fn lists_are_of_the_form_asked_for(
    f: FrontendView,
    listed: Seq<DeviceView>,
    devices: Option<Seq<DeviceView>>,
)
    ensures
        host_outcome(f, "host:devices"@, Some(listed)).step == StepView::Reply(
            data_reply(device_listing(listed, false)),
        ),
        host_outcome(f, "host:devices-l"@, Some(listed)).step == StepView::Reply(
            data_reply(device_listing(listed, true)),
        ),
        host_outcome(f, "host:track-devices"@, devices).step == (StepView::Track {
            long: false,
            reply: okay_word(),
        }),
        host_outcome(f, "host:track-devices-l"@, devices).step == (StepView::Track {
            long: true,
            reply: okay_word(),
        }),
        host_outcome(f, "host:devices"@, None).step is NeedDevices,
        host_outcome(f, "host:devices-l"@, None).step is NeedDevices,
{
    plain_words_are_read();
}

/// The state without a device named is that of the only device, and the refusal with none
/// or several is that of a selection of any device.
pub proof fn the_bare_state_is_told(f: FrontendView, devices: Seq<DeviceView>)
    ensures
        devices.len() == 1 ==> host_outcome(f, "host:get-state"@, Some(devices)).step
            == StepView::Reply(data_reply(spelled_state(devices[0].state))),
        devices.len() == 0 ==> host_outcome(f, "host:get-state"@, Some(devices)).step
            == StepView::Reply(fail_reply("no devices/emulators found"@)),
        devices.len() > 1 ==> host_outcome(f, "host:get-state"@, Some(devices)).step
            == StepView::Reply(fail_reply("more than one device/emulator"@)),
{
    plain_words_are_read();
    any_means_the_only_one(devices);
    if devices.len() == 1 {
        first_with_serial(devices, 0);
    }
}

/// Whether a request behind `host:` is one of the protocol.
pub open spec fn known_host_service(svc: Seq<char>) -> bool {
    ||| svc == "version"@
    ||| svc == "features"@
    ||| svc == "devices"@
    ||| svc == "devices-l"@
    ||| svc == "track-devices"@
    ||| svc == "track-devices-l"@
    ||| svc == "kill"@
    ||| svc == "transport-any"@
    ||| svc == "transport-usb"@
    ||| svc == "transport-local"@
    ||| svc == "list-forward"@
    ||| svc == "killforward-all"@
    ||| svc == "get-state"@
    ||| svc == "reconnect-offline"@
    ||| has_prefix(svc, "transport-id:"@)
    ||| has_prefix(svc, "transport:"@)
    ||| has_prefix(svc, "tport:"@)
    ||| has_prefix(svc, "forward:"@)
    ||| has_prefix(svc, "killforward:"@)
    ||| has_prefix(svc, "wait-for-"@)
    ||| has_prefix(svc, "connect:"@)
    ||| has_prefix(svc, "disconnect:"@)
}

/// What is no request of the protocol is refused by its name, with or without `host:` in
/// front, and changes nothing.
pub proof fn other_requests_are_refused_by_name(
    f: FrontendView,
    svc: Seq<char>,
    service: Seq<char>,
    devices: Option<Seq<DeviceView>>,
)
    ensures
        !known_host_service(svc) ==> {
            let o = host_outcome(f, "host:"@ + svc, devices);
            o.step == StepView::Reply(fail_reply("unknown host service: "@ + svc)) && o.rules
                == f.rules
        },
        !has_prefix(service, "host:"@) && !has_prefix(service, "host-serial:"@) && !has_prefix(
            service,
            "host-usb:"@,
        ) && !has_prefix(service, "host-local:"@) && !has_prefix(service, "host-transport-id:"@)
            ==> {
            let o = host_outcome(f, service, devices);
            o.step == StepView::Reply(fail_reply("unknown service: "@ + service)) && o.rules
                == f.rules
        },
        known_host_service(svc) ==> !(parsed_host(svc) is Refused),
{
    host_prefix_is_found(svc);
}

/// Connecting and disconnecting are left to the backend, with the address as it was given.
pub proof fn addresses_reach_the_backend(
    f: FrontendView,
    addr: Seq<char>,
    devices: Option<Seq<DeviceView>>,
)
    ensures
        host_outcome(f, "host:"@ + ("connect:"@ + addr), devices).step == StepView::Connect(addr),
        host_outcome(f, "host:"@ + ("disconnect:"@ + addr), devices).step
            == StepView::Disconnect(addr),
        host_outcome(f, "host:"@ + ("connect:"@ + addr), devices).rules == f.rules,
        host_outcome(f, "host:"@ + ("disconnect:"@ + addr), devices).rules == f.rules,
{
    connect_carries_the_address(addr);
}

// ---------------------------------------------------------------------------------
// After the choice of a device
// ---------------------------------------------------------------------------------

/// The host requests that are answered after the choice of a device, as they are read.
pub proof fn local_host_requests_are_read(arg: Seq<char>)
    ensures
        parsed_local_request("host:"@ + "features"@) is Features,
        parsed_local_request("host:"@ + "version"@) is Version,
        parsed_local_request("host:"@ + "list-forward"@) == LocalRequestView::Forward(
            ForwardServiceView::List,
        ),
        parsed_local_request("host:"@ + "killforward-all"@) == LocalRequestView::Forward(
            ForwardServiceView::KillAll,
        ),
        parsed_local_request("host:"@ + ("forward:"@ + arg)) == LocalRequestView::Forward(
            ForwardServiceView::Add(arg),
        ),
        parsed_local_request("host:"@ + ("killforward:"@ + arg)) == LocalRequestView::Forward(
            ForwardServiceView::Kill(arg),
        ),
{
    spelled_out_services();
    prefix_is_found("host:"@, "features"@);
    prefix_is_found("host:"@, "version"@);
    prefix_is_found("host:"@, "list-forward"@);
    prefix_is_found("host:"@, "killforward-all"@);
    let a = "forward:"@ + arg;
    let k = "killforward:"@ + arg;
    prefix_is_found("host:"@, a);
    prefix_is_found("host:"@, k);
    prefix_is_found("forward:"@, arg);
    prefix_is_found("killforward:"@, arg);
    assert(a[0] == 'f');
    assert(k[0] == 'k' && k[11] == ':');
    no_prefix(k, "forward:"@, 0);
    no_prefix("features"@, "forward:"@, 1);
    no_prefix("version"@, "killforward:"@, 0);
}

/// The version is told after the choice of a device too.
pub proof fn the_version_is_told_after_the_choice(
    f: FrontendView,
    serial: Seq<char>,
    learned: Learned,
)
    ensures
        local_outcome(f, serial, "host:"@ + "version"@, learned).step == StepView::Reply(
            data_reply(f.caps.version_hex),
        ),
        local_outcome(f, serial, "host:"@ + "version"@, learned).rules == f.rules,
{
    local_host_requests_are_read(Seq::empty());
}

} // verus!
