//! Which device a client gets: every way to name one, and what each of them leads to.
use vstd::prelude::*;

use crate::number::{all_digits, decimal, digits_value, parse_of_decimal, parsed_unsigned};
use crate::order::{
    lex_less, sorted_set, sorted_set_is_no_longer, sorted_set_is_the_set, strictly_sorted,
};
use crate::protocol::{
    fail_reply, le_value, okay_tport_reply, okay_word, tport_reply_reads_back, transport_id,
    transport_ids_invert,
};
use crate::server::backend::{serials_of, DeviceView, TransportKind};
use crate::server::frontend::{host_outcome, FrontendView};
use crate::server::request::{parsed_request, HostRequestView};
use crate::server::step::StepView;
use crate::server::transport::{
    matching, resolved, resolved_is_listed, tport_selector, SelectorView,
};
use crate::server::wire_laws::{host_prefix_is_found, spelled_out_services, transport_selects_by_id};
use crate::text::{has_prefix, no_prefix, prefix_is_found};

verus! {

// ---------------------------------------------------------------------------------
// What a selector leads to
// ---------------------------------------------------------------------------------

/// Whether a device can be what a client means by a kind: one whose kind is not known can
/// be of every kind.
pub open spec fn can_be(d: DeviceView, want: Option<TransportKind>) -> bool {
    match want {
        None => true,
        Some(k) => d.kind == None::<TransportKind> || d.kind == Some(k),
    }
}

/// Of a list in which one place is kept, that place is what is left.
proof fn one_is_left(devices: Seq<DeviceView>, want: Option<TransportKind>, i: int)
    requires
        0 <= i < devices.len(),
        can_be(devices[i], want),
        forall|j: int| 0 <= j < devices.len() && j != i ==> !can_be(#[trigger] devices[j], want),
    ensures
        matching(devices, want) == seq![devices[i]],
    decreases devices.len(),
{
    reveal(Seq::filter);
    let init = devices.drop_last();
    if i < init.len() {
        assert(init[i] == devices[i]);
        assert forall|j: int| 0 <= j < init.len() && j != i implies !can_be(
            #[trigger] init[j],
            want,
        ) by {
            assert(init[j] == devices[j]);
        }
        one_is_left(init, want, i);
        assert(!can_be(devices[devices.len() - 1], want));
        assert(matching(devices, want) =~= matching(init, want));
    } else {
        assert forall|j: int| 0 <= j < init.len() implies !can_be(#[trigger] init[j], want) by {
            assert(init[j] == devices[j]);
        }
        none_is_left(init, want);
        assert(matching(devices, want) =~= seq![devices[i]]);
    }
}

/// Of a list in which no place is kept, nothing is left.
proof fn none_is_left(devices: Seq<DeviceView>, want: Option<TransportKind>)
    requires
        forall|j: int| 0 <= j < devices.len() ==> !can_be(#[trigger] devices[j], want),
    ensures
        matching(devices, want).len() == 0,
    decreases devices.len(),
{
    reveal(Seq::filter);
    if devices.len() > 0 {
        let init = devices.drop_last();
        assert forall|j: int| 0 <= j < init.len() implies !can_be(#[trigger] init[j], want) by {
            assert(init[j] == devices[j]);
        }
        none_is_left(init, want);
        assert(!can_be(devices[devices.len() - 1], want));
    }
}

/// Of a list in which a place is kept, something is left.
proof fn one_at_least_is_left(devices: Seq<DeviceView>, want: Option<TransportKind>, i: int)
    requires
        0 <= i < devices.len(),
        can_be(devices[i], want),
    ensures
        matching(devices, want).len() >= 1,
    decreases devices.len(),
{
    reveal(Seq::filter);
    let init = devices.drop_last();
    if i < init.len() {
        assert(init[i] == devices[i]);
        one_at_least_is_left(init, want, i);
    }
}

/// Of a list in which two places are kept, two things at least are left.
proof fn two_are_left(devices: Seq<DeviceView>, want: Option<TransportKind>, i: int, j: int)
    requires
        0 <= i < j < devices.len(),
        can_be(devices[i], want),
        can_be(devices[j], want),
    ensures
        matching(devices, want).len() >= 2,
    decreases devices.len(),
{
    reveal(Seq::filter);
    let init = devices.drop_last();
    assert(init[i] == devices[i]);
    if j < init.len() {
        assert(init[j] == devices[j]);
        two_are_left(init, want, i, j);
    } else {
        one_at_least_is_left(init, want, i);
    }
}

/// A kind names a device if it is the only one that can be of that kind.
pub proof fn a_kind_names_the_only_device(
    devices: Seq<DeviceView>,
    want: Option<TransportKind>,
    i: int,
)
    requires
        0 <= i < devices.len(),
        can_be(devices[i], want),
        forall|j: int| 0 <= j < devices.len() && j != i ==> !can_be(#[trigger] devices[j], want),
    ensures
        resolved(SelectorView::Kind(want), devices) == Ok::<Seq<char>, Seq<char>>(
            devices[i].serial,
        ),
{
    one_is_left(devices, want, i);
}

/// Where no device can be of the kind, the client is told so in the words of the kind.
pub proof fn no_device_of_a_kind(devices: Seq<DeviceView>, want: Option<TransportKind>)
    requires
        forall|j: int| 0 <= j < devices.len() ==> !can_be(#[trigger] devices[j], want),
    ensures
        resolved(SelectorView::Kind(want), devices) == Err::<Seq<char>, Seq<char>>(
            match want {
                None => "no devices/emulators found"@,
                Some(TransportKind::Usb) => "no devices found"@,
                Some(TransportKind::Local) => "no emulators found"@,
            },
        ),
{
    none_is_left(devices, want);
}

/// Where two devices can be of the kind, none is chosen for the client.
pub proof fn several_devices_of_a_kind(
    devices: Seq<DeviceView>,
    want: Option<TransportKind>,
    i: int,
    j: int,
)
    requires
        0 <= i < j < devices.len(),
        can_be(devices[i], want),
        can_be(devices[j], want),
    ensures
        resolved(SelectorView::Kind(want), devices) == Err::<Seq<char>, Seq<char>>(
            match want {
                None => "more than one device/emulator"@,
                Some(TransportKind::Usb) => "more than one USB device"@,
                Some(TransportKind::Local) => "more than one emulator"@,
            },
        ),
{
    two_are_left(devices, want, i, j);
}

/// A serial names the device that has it, and nothing else does.
pub proof fn a_serial_names_its_device(devices: Seq<DeviceView>, serial: Seq<char>)
    ensures
        (exists|i: int| 0 <= i < devices.len() && (#[trigger] devices[i]).serial == serial)
            ==> resolved(SelectorView::Serial(serial), devices) == Ok::<Seq<char>, Seq<char>>(
            serial,
        ),
        !(exists|i: int| 0 <= i < devices.len() && (#[trigger] devices[i]).serial == serial)
            ==> resolved(SelectorView::Serial(serial), devices) == Err::<Seq<char>, Seq<char>>(
            "device not found"@,
        ),
{
    let s = serials_of(devices);
    if exists|i: int| 0 <= i < devices.len() && (#[trigger] devices[i]).serial == serial {
        let i = choose|i: int| 0 <= i < devices.len() && (#[trigger] devices[i]).serial == serial;
        assert(s[i] == serial);
    }
    if s.contains(serial) {
        let i = choose|i: int| 0 <= i < s.len() && s[i] == serial;
        assert(devices[i].serial == serial);
    }
}

/// Transport ids count the different serials in their order, from one on: the first id is
/// that of the least serial, ids that follow each other are those of serials that do, and
/// there are as many as there are different serials.
pub proof fn transport_ids_count_from_one(devices: Seq<DeviceView>, id: u64)
    ensures
        ({
            let distinct = sorted_set(serials_of(devices));
            &&& strictly_sorted(distinct)
            &&& forall|s: Seq<char>|
                distinct.contains(s) <==> (exists|i: int|
                    0 <= i < devices.len() && (#[trigger] devices[i]).serial == s)
            &&& 1 <= id <= distinct.len() ==> resolved(SelectorView::Id(id), devices) == Ok::<
                Seq<char>,
                Seq<char>,
            >(distinct[id - 1])
            &&& !(1 <= id <= distinct.len()) ==> resolved(SelectorView::Id(id), devices) == Err::<
                Seq<char>,
                Seq<char>,
            >("no device for transport id"@)
        }),
{
    let serials = serials_of(devices);
    sorted_set_is_the_set(serials);
    assert forall|s: Seq<char>|
        sorted_set(serials).contains(s) <==> (exists|i: int|
            0 <= i < devices.len() && (#[trigger] devices[i]).serial == s) by {
        assert(sorted_set(serials).contains(s) <==> serials.contains(s));
        if serials.contains(s) {
            let i = choose|i: int| 0 <= i < serials.len() && serials[i] == s;
            assert(devices[i].serial == s);
        }
        if exists|i: int| 0 <= i < devices.len() && (#[trigger] devices[i]).serial == s {
            let i = choose|i: int| 0 <= i < devices.len() && (#[trigger] devices[i]).serial == s;
            assert(serials[i] == s);
        }
    }
}

/// A smaller id is that of a smaller serial.
pub proof fn smaller_ids_are_of_smaller_serials(devices: Seq<DeviceView>, a: u64, b: u64)
    requires
        a < b,
    ensures
        resolved(SelectorView::Id(a), devices) matches Ok(s) ==> resolved(
            SelectorView::Id(b),
            devices,
        ) matches Ok(t) ==> lex_less(s, t),
{
    sorted_set_is_the_set(serials_of(devices));
}

// ---------------------------------------------------------------------------------
// How a device is named
// ---------------------------------------------------------------------------------

/// A `tport` request is read by what follows `tport:`.
proof fn tport_is_found(rest: Seq<char>)
    ensures
        parsed_request("host:"@ + ("tport:"@ + rest)) == HostRequestView::Tport(
            tport_selector(rest),
        ),
{
    let svc = "tport:"@ + rest;
    host_prefix_is_found(svc);
    spelled_out_services();
    assert(svc[0] == 't' && svc[1] == 'p');
    no_prefix(svc, "transport-id:"@, 1);
    no_prefix(svc, "transport:"@, 1);
    prefix_is_found("tport:"@, rest);
}

/// The words behind `tport:` that are not a serial.
proof fn tport_words()
    ensures
        "any"@.len() == 3 && "any"@[0] == 'a',
        "-any"@.len() == 4 && "-any"@[0] == '-' && "-any"@[1] == 'a',
        "id:"@.len() == 3 && "id:"@[0] == 'i',
        "-id:"@.len() == 4 && "-id:"@[0] == '-' && "-id:"@[1] == 'i',
        "usb"@.len() == 3 && "usb"@[0] == 'u',
        "local"@.len() == 5 && "local"@[0] == 'l',
        "serial:"@.len() == 7 && "serial:"@[0] == 's',
        ""@.len() == 0,
{
    reveal_strlit("any");
    reveal_strlit("-any");
    reveal_strlit("id:");
    reveal_strlit("-id:");
    reveal_strlit("usb");
    reveal_strlit("local");
    reveal_strlit("serial:");
    reveal_strlit("");
}

/// `host:tport:id:<N>`, and the older `host:tport:-id:<N>`, name the device with that
/// transport id, as `host:transport-id:<N>` does.
pub proof fn tport_selects_by_id(id: u64)
    ensures
        parsed_request("host:"@ + ("tport:"@ + ("id:"@ + decimal(id as nat))))
            == HostRequestView::Tport(SelectorView::Id(id)),
        parsed_request("host:"@ + ("tport:"@ + ("-id:"@ + decimal(id as nat))))
            == HostRequestView::Tport(SelectorView::Id(id)),
{
    tport_words();
    parse_of_decimal(id as nat, u64::MAX as nat);
    let a = "id:"@ + decimal(id as nat);
    tport_is_found(a);
    prefix_is_found("id:"@, decimal(id as nat));
    assert(a[0] == 'i');
    let b = "-id:"@ + decimal(id as nat);
    tport_is_found(b);
    prefix_is_found("-id:"@, decimal(id as nat));
    assert(b[0] == '-' && b[1] == 'i');
    no_prefix(b, "id:"@, 0);
}

/// `host:tport:any`, also without `any` or with a dash before it, asks for the only
/// device, `host:tport:usb` and `host:tport:local` for the only one of the kind.
pub proof fn tport_selects_by_kind()
    ensures
        parsed_request("host:"@ + ("tport:"@ + ""@)) == HostRequestView::Tport(
            SelectorView::Kind(None),
        ),
        parsed_request("host:"@ + ("tport:"@ + "any"@)) == HostRequestView::Tport(
            SelectorView::Kind(None),
        ),
        parsed_request("host:"@ + ("tport:"@ + "-any"@)) == HostRequestView::Tport(
            SelectorView::Kind(None),
        ),
        parsed_request("host:"@ + ("tport:"@ + "usb"@)) == HostRequestView::Tport(
            SelectorView::Kind(Some(TransportKind::Usb)),
        ),
        parsed_request("host:"@ + ("tport:"@ + "local"@)) == HostRequestView::Tport(
            SelectorView::Kind(Some(TransportKind::Local)),
        ),
{
    tport_words();
    tport_is_found(""@);
    tport_is_found("any"@);
    tport_is_found("-any"@);
    tport_is_found("usb"@);
    no_prefix("usb"@, "id:"@, 0);
    tport_is_found("local"@);
    no_prefix("local"@, "id:"@, 0);
    no_prefix("local"@, "-id:"@, 0);
}

/// `host:tport:<serial>` names the device with that serial, unless the serial reads like
/// one of the other forms.
pub proof fn tport_selects_by_bare_serial(serial: Seq<char>)
    requires
        serial.len() > 0,
        serial != "any"@,
        serial != "-any"@,
        serial != "usb"@,
        serial != "local"@,
        !has_prefix(serial, "id:"@),
        !has_prefix(serial, "-id:"@),
        !has_prefix(serial, "serial:"@),
    ensures
        parsed_request("host:"@ + ("tport:"@ + serial)) == HostRequestView::Tport(
            SelectorView::Serial(serial),
        ),
{
    tport_is_found(serial);
}

/// `host:transport-any`, `host:transport-usb` and `host:transport-local` ask for the only
/// device, and for the only one of the kind.
pub proof fn transport_selects_by_kind()
    ensures
        parsed_request("host:transport-any"@) == HostRequestView::Transport(
            SelectorView::Kind(None),
        ),
        parsed_request("host:transport-usb"@) == HostRequestView::Transport(
            SelectorView::Kind(Some(TransportKind::Usb)),
        ),
        parsed_request("host:transport-local"@) == HostRequestView::Transport(
            SelectorView::Kind(Some(TransportKind::Local)),
        ),
{
    spelled_out_services();
    reveal_strlit("host:");
    reveal_strlit("host:transport-any");
    reveal_strlit("host:transport-usb");
    reveal_strlit("host:transport-local");
    reveal_strlit("transport-any");
    reveal_strlit("transport-usb");
    reveal_strlit("transport-local");
    assert("host:transport-any"@ =~= "host:"@ + "transport-any"@);
    assert("host:transport-usb"@ =~= "host:"@ + "transport-usb"@);
    assert("host:transport-local"@ =~= "host:"@ + "transport-local"@);
    host_prefix_is_found("transport-any"@);
    host_prefix_is_found("transport-usb"@);
    host_prefix_is_found("transport-local"@);
}

/// An id that is not a number in decimal, or is too large a one, names no device.
pub proof fn ids_are_numbers(f: FrontendView, id: Seq<char>, devices: Option<Seq<DeviceView>>)
    requires
        !(all_digits(id) && id.len() > 0 && digits_value(id) <= u64::MAX),
        id.len() == 0 || id[0] != '+',
    ensures
        host_outcome(f, "host:"@ + ("transport-id:"@ + id), devices).step == StepView::Reply(
            fail_reply("invalid transport id"@),
        ),
        host_outcome(f, "host:"@ + ("tport:"@ + ("id:"@ + id)), devices).step == StepView::Reply(
            fail_reply("invalid transport id"@),
        ),
{
    spelled_out_services();
    let svc = "transport-id:"@ + id;
    host_prefix_is_found(svc);
    assert(svc[0] == 't' && svc[3] == 'n' && svc[9] == '-' && svc[10] == 'i');
    prefix_is_found("transport-id:"@, id);
    tport_words();
    let rest = "id:"@ + id;
    tport_is_found(rest);
    prefix_is_found("id:"@, id);
    assert(rest[0] == 'i');
    assert(parsed_unsigned(id, u64::MAX as nat) is None);
}

// ---------------------------------------------------------------------------------
// What the client is told
// ---------------------------------------------------------------------------------

/// Whoever selects a device with a `transport` request gets a bare `OKAY` and that
/// device, or the reason why there is none.
pub proof fn transport_is_answered(
    f: FrontendView,
    service: Seq<char>,
    selector: SelectorView,
    devices: Seq<DeviceView>,
)
    requires
        parsed_request(service) == HostRequestView::Transport(selector),
    ensures
        host_outcome(f, service, Some(devices)).step == (match resolved(selector, devices) {
            Ok(serial) => StepView::Select { serial, reply: okay_word() },
            Err(reason) => StepView::Reply(fail_reply(reason)),
        }),
        host_outcome(f, service, Some(devices)).rules == f.rules,
{
}

/// Whoever selects a device with a `tport` request gets `OKAY` and the id of that device,
/// or the reason why there is none. The id selects the same device again, and gets the
/// same reply.
pub proof fn tport_is_answered(
    f: FrontendView,
    service: Seq<char>,
    selector: SelectorView,
    devices: Seq<DeviceView>,
)
    requires
        parsed_request(service) == HostRequestView::Tport(selector),
        devices.len() < u64::MAX,
    ensures
        host_outcome(f, service, Some(devices)).rules == f.rules,
        match resolved(selector, devices) {
            Ok(chosen) => {
                &&& host_outcome(f, service, Some(devices)).step matches StepView::Select {
                    serial,
                    reply,
                }
                &&& serial == chosen
                &&& reply.len() == 12
                &&& reply.take(4) == okay_word()
                &&& resolved(SelectorView::Id(le_value(reply.skip(4)) as u64), devices) == Ok::<
                    Seq<char>,
                    Seq<char>,
                >(chosen)
                &&& host_outcome(
                    f,
                    "host:"@ + ("tport:"@ + ("id:"@ + decimal(le_value(reply.skip(4))))),
                    Some(devices),
                ).step == (StepView::Select { serial, reply })
            },
            Err(reason) => host_outcome(f, service, Some(devices)).step == StepView::Reply(
                fail_reply(reason),
            ),
        },
{
    if let Ok(s) = resolved(selector, devices) {
        resolved_is_listed(selector, devices);
        let serials = serials_of(devices);
        sorted_set_is_no_longer(serials);
        sorted_set_is_the_set(serials);
        assert(sorted_set(serials).contains(s));
        let id = transport_id(s, serials)->0;
        transport_ids_invert(s, id, serials);
        let n = id as u64;
        assert(n as nat == id);
        tport_reply_reads_back(n);
        tport_selects_by_id(n);
        let reply = okay_tport_reply(n);
        assert(le_value(reply.skip(4)) == n);
        assert(decimal(le_value(reply.skip(4))) == decimal(n as nat));
    }
}

/// `tport` and `transport-id` with the same number choose the same device.
pub proof fn both_forms_of_an_id_agree(f: FrontendView, id: u64, devices: Seq<DeviceView>)
    requires
        devices.len() < u64::MAX,
    ensures
        match resolved(SelectorView::Id(id), devices) {
            Ok(chosen) => {
                &&& host_outcome(
                    f,
                    "host:"@ + ("transport-id:"@ + decimal(id as nat)),
                    Some(devices),
                ).step == (StepView::Select { serial: chosen, reply: okay_word() })
                &&& host_outcome(
                    f,
                    "host:"@ + ("tport:"@ + ("id:"@ + decimal(id as nat))),
                    Some(devices),
                ).step == (StepView::Select { serial: chosen, reply: okay_tport_reply(id) })
            },
            Err(reason) => {
                &&& host_outcome(
                    f,
                    "host:"@ + ("transport-id:"@ + decimal(id as nat)),
                    Some(devices),
                ).step == StepView::Reply(fail_reply(reason))
                &&& host_outcome(
                    f,
                    "host:"@ + ("tport:"@ + ("id:"@ + decimal(id as nat))),
                    Some(devices),
                ).step == StepView::Reply(fail_reply(reason))
            },
        },
{
    transport_selects_by_id(id);
    tport_selects_by_id(id);
    if let Ok(s) = resolved(SelectorView::Id(id), devices) {
        let serials = serials_of(devices);
        transport_ids_invert(s, id as nat, serials);
    }
}

} // verus!
