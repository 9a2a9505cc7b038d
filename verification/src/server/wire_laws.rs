//! What clients write is what the server reads: the spelling of the requests that
//! carry an argument.
use vstd::prelude::*;

use crate::number::{decimal, decimal_reads_back, is_digit, parse_of_decimal};
use crate::protocol::{fail_reply, okay_word};
use crate::server::backend::{serials_of, DeviceView};
use crate::server::frontend::{host_outcome, FrontendView};
use crate::server::request::{
    parsed_host, parsed_request, parsed_reverse, HostRequestView, ReverseView,
};
use crate::server::service::{
    digits_follow_colons, host_serial_sub, parsed_sub, tcp_serials_split_right, ForwardServiceView,
};
use crate::server::step::StepView;
use crate::server::transport::SelectorView;
use crate::text::{cut_first, first_index_unique, has_prefix, no_prefix, prefix_is_found};

verus! {

/// A request behind `host:` is read by what follows.
pub proof fn host_prefix_is_found(svc: Seq<char>)
    ensures
        parsed_request("host:"@ + svc) == parsed_host(svc),
{
    let service = "host:"@ + svc;
    reveal_strlit("host:");
    reveal_strlit("host-serial:");
    reveal_strlit("host-usb:");
    reveal_strlit("host-local:");
    reveal_strlit("host-transport-id:");
    assert(service[4] == ':');
    no_prefix(service, "host-serial:"@, 4);
    no_prefix(service, "host-usb:"@, 4);
    no_prefix(service, "host-local:"@, 4);
    no_prefix(service, "host-transport-id:"@, 4);
    prefix_is_found("host:"@, svc);
}

/// The services that are spelled out in full, by letters that tell them apart.
pub proof fn spelled_out_services()
    ensures
        "version"@.len() == 7 && "version"@[0] == 'v',
        "features"@.len() == 8 && "features"@[0] == 'f' && "features"@[1] == 'e',
        "devices"@.len() == 7 && "devices"@[0] == 'd' && "devices"@[1] == 'e',
        "devices-l"@.len() == 9 && "devices-l"@[0] == 'd' && "devices-l"@[1] == 'e',
        "track-devices"@.len() == 13 && "track-devices"@[0] == 't' && "track-devices"@[1] == 'r'
            && "track-devices"@[3] == 'c',
        "track-devices-l"@.len() == 15 && "track-devices-l"@[0] == 't' && "track-devices-l"@[1]
            == 'r' && "track-devices-l"@[3] == 'c',
        "kill"@.len() == 4 && "kill"@[0] == 'k',
        "transport-any"@.len() == 13 && "transport-any"@[0] == 't' && "transport-any"@[1] == 'r'
            && "transport-any"@[9] == '-' && "transport-any"@[10] == 'a',
        "transport-usb"@.len() == 13 && "transport-usb"@[0] == 't' && "transport-usb"@[1] == 'r'
            && "transport-usb"@[9] == '-' && "transport-usb"@[10] == 'u',
        "transport-local"@.len() == 15 && "transport-local"@[0] == 't' && "transport-local"@[1]
            == 'r' && "transport-local"@[9] == '-' && "transport-local"@[10] == 'l',
        "transport-id:"@.len() == 13 && "transport-id:"@[0] == 't' && "transport-id:"@[1] == 'r'
            && "transport-id:"@[3] == 'n' && "transport-id:"@[9] == '-' && "transport-id:"@[10]
            == 'i',
        "transport:"@.len() == 10 && "transport:"@[0] == 't' && "transport:"@[1] == 'r'
            && "transport:"@[3] == 'n' && "transport:"@[9] == ':',
        "tport:"@.len() == 6 && "tport:"@[0] == 't' && "tport:"@[1] == 'p',
        "list-forward"@.len() == 12 && "list-forward"@[0] == 'l',
        "killforward-all"@.len() == 15 && "killforward-all"@[0] == 'k' && "killforward-all"@[11]
            == '-',
        "forward:"@.len() == 8 && "forward:"@[0] == 'f' && "forward:"@[1] == 'o',
        "killforward:"@.len() == 12 && "killforward:"@[0] == 'k' && "killforward:"@[11] == ':',
        "get-state"@.len() == 9 && "get-state"@[0] == 'g',
        "reconnect-offline"@.len() == 17 && "reconnect-offline"@[0] == 'r',
        "wait-for-"@.len() == 9 && "wait-for-"@[0] == 'w',
        "connect:"@.len() == 8 && "connect:"@[0] == 'c',
        "disconnect:"@.len() == 11 && "disconnect:"@[0] == 'd' && "disconnect:"@[1] == 'i',
{
    reveal_strlit("version");
    reveal_strlit("features");
    reveal_strlit("devices");
    reveal_strlit("devices-l");
    reveal_strlit("track-devices");
    reveal_strlit("track-devices-l");
    reveal_strlit("kill");
    reveal_strlit("transport-any");
    reveal_strlit("transport-usb");
    reveal_strlit("transport-local");
    reveal_strlit("transport-id:");
    reveal_strlit("transport:");
    reveal_strlit("tport:");
    reveal_strlit("list-forward");
    reveal_strlit("killforward-all");
    reveal_strlit("forward:");
    reveal_strlit("killforward:");
    reveal_strlit("get-state");
    reveal_strlit("reconnect-offline");
    reveal_strlit("wait-for-");
    reveal_strlit("connect:");
    reveal_strlit("disconnect:");
}

/// `host:transport:<serial>` selects the device with that serial if it is listed,
/// and is refused otherwise.
pub proof fn transport_selects_by_serial(
    f: FrontendView,
    serial: Seq<char>,
    devices: Seq<DeviceView>,
)
    ensures
        host_outcome(f, "host:"@ + ("transport:"@ + serial), Some(devices)).step == (
        if serials_of(devices).contains(serial) {
            StepView::Select { serial, reply: okay_word() }
        } else {
            StepView::Reply(fail_reply("device not found"@))
        }),
{
    let svc = "transport:"@ + serial;
    host_prefix_is_found(svc);
    spelled_out_services();
    assert(svc[0] == 't' && svc[3] == 'n' && svc[9] == ':');
    no_prefix(svc, "transport-id:"@, 9);
    prefix_is_found("transport:"@, serial);
}

/// `host:transport-id:<N>` selects by transport id.
pub proof fn transport_selects_by_id(id: u64)
    ensures
        parsed_request("host:"@ + ("transport-id:"@ + decimal(id as nat)))
            == HostRequestView::Transport(SelectorView::Id(id)),
{
    let svc = "transport-id:"@ + decimal(id as nat);
    host_prefix_is_found(svc);
    spelled_out_services();
    assert(svc[0] == 't' && svc[3] == 'n' && svc[9] == '-' && svc[10] == 'i');
    prefix_is_found("transport-id:"@, decimal(id as nat));
    parse_of_decimal(id as nat, u64::MAX as nat);
}

/// `host:tport:serial:<serial>` selects by serial, even a device that is called like
/// a kind.
pub proof fn tport_selects_by_serial(serial: Seq<char>)
    ensures
        parsed_request("host:"@ + ("tport:"@ + ("serial:"@ + serial))) == HostRequestView::Tport(
            SelectorView::Serial(serial),
        ),
{
    let rest = "serial:"@ + serial;
    let svc = "tport:"@ + rest;
    host_prefix_is_found(svc);
    spelled_out_services();
    assert(svc[0] == 't' && svc[1] == 'p');
    no_prefix(svc, "transport-id:"@, 1);
    no_prefix(svc, "transport:"@, 1);
    prefix_is_found("tport:"@, rest);
    reveal_strlit("serial:");
    reveal_strlit("any");
    reveal_strlit("-any");
    reveal_strlit("id:");
    reveal_strlit("-id:");
    reveal_strlit("usb");
    reveal_strlit("local");
    assert(rest[0] == 's');
    no_prefix(rest, "id:"@, 0);
    no_prefix(rest, "-id:"@, 0);
    prefix_is_found("serial:"@, serial);
}

/// `host:connect:<addr>` and `host:disconnect:<addr>` carry the address as it is.
pub proof fn connect_carries_the_address(addr: Seq<char>)
    ensures
        parsed_request("host:"@ + ("connect:"@ + addr)) == HostRequestView::Connect(addr),
        parsed_request("host:"@ + ("disconnect:"@ + addr)) == HostRequestView::Disconnect(addr),
{
    spelled_out_services();
    let c = "connect:"@ + addr;
    host_prefix_is_found(c);
    assert(c[0] == 'c');
    no_prefix(c, "transport-id:"@, 0);
    no_prefix(c, "transport:"@, 0);
    no_prefix(c, "tport:"@, 0);
    no_prefix(c, "forward:"@, 0);
    no_prefix(c, "killforward:"@, 0);
    no_prefix(c, "wait-for-"@, 0);
    prefix_is_found("connect:"@, addr);
    let d = "disconnect:"@ + addr;
    host_prefix_is_found(d);
    assert(d[0] == 'd' && d[1] == 'i');
    no_prefix(d, "transport-id:"@, 0);
    no_prefix(d, "transport:"@, 0);
    no_prefix(d, "tport:"@, 0);
    no_prefix(d, "forward:"@, 0);
    no_prefix(d, "killforward:"@, 0);
    no_prefix(d, "wait-for-"@, 0);
    no_prefix(d, "connect:"@, 0);
    prefix_is_found("disconnect:"@, addr);
}

/// `host:wait-for-<what>` carries what to wait for as it is.
pub proof fn wait_for_carries_its_argument(arg: Seq<char>)
    ensures
        parsed_request("host:"@ + ("wait-for-"@ + arg)) == HostRequestView::WaitFor(arg),
{
    spelled_out_services();
    let w = "wait-for-"@ + arg;
    host_prefix_is_found(w);
    assert(w[0] == 'w');
    no_prefix(w, "transport-id:"@, 0);
    no_prefix(w, "transport:"@, 0);
    no_prefix(w, "tport:"@, 0);
    no_prefix(w, "forward:"@, 0);
    no_prefix(w, "killforward:"@, 0);
    prefix_is_found("wait-for-"@, arg);
}

/// `host:forward:<rule>` and `host:killforward:<end>` carry their argument as it is.
pub proof fn forward_carries_its_argument(arg: Seq<char>)
    ensures
        parsed_request("host:"@ + ("forward:"@ + arg)) == HostRequestView::Forward(
            ForwardServiceView::Add(arg),
        ),
        parsed_request("host:"@ + ("killforward:"@ + arg)) == HostRequestView::Forward(
            ForwardServiceView::Kill(arg),
        ),
{
    spelled_out_services();
    let a = "forward:"@ + arg;
    host_prefix_is_found(a);
    assert(a[0] == 'f' && a[1] == 'o');
    no_prefix(a, "transport-id:"@, 0);
    no_prefix(a, "transport:"@, 0);
    no_prefix(a, "tport:"@, 0);
    prefix_is_found("forward:"@, arg);
    let k = "killforward:"@ + arg;
    host_prefix_is_found(k);
    assert(k[0] == 'k' && k[11] == ':');
    assert(k.len() >= 12);
    no_prefix(k, "transport-id:"@, 0);
    no_prefix(k, "transport:"@, 0);
    no_prefix(k, "tport:"@, 0);
    no_prefix(k, "forward:"@, 0);
    prefix_is_found("killforward:"@, arg);
}

/// `host-serial:<serial>:<service>` is read as the known service on the device, also
/// for serials like `172.20.1.45:5555`.
pub proof fn host_serial_names_its_device(serial: Seq<char>, sub: Seq<char>)
    requires
        digits_follow_colons(serial),
        host_serial_sub(sub),
    ensures
        parsed_request("host-serial:"@ + (serial + seq![':'] + sub)) == HostRequestView::OnDevice(
            SelectorView::Serial(serial),
            parsed_sub(sub),
        ),
{
    prefix_is_found("host-serial:"@, serial + seq![':'] + sub);
    tcp_serials_split_right(serial, sub);
}

/// `host-transport-id:<N>:<service>` is read as the service on the device with that
/// transport id.
pub proof fn host_transport_id_names_its_device(id: u64, sub: Seq<char>)
    ensures
        parsed_request("host-transport-id:"@ + (decimal(id as nat) + seq![':'] + sub))
            == HostRequestView::OnDevice(SelectorView::Id(id), parsed_sub(sub)),
{
    let digits = decimal(id as nat);
    let rest = digits + seq![':'] + sub;
    let service = "host-transport-id:"@ + rest;
    reveal_strlit("host-serial:");
    reveal_strlit("host-usb:");
    reveal_strlit("host-local:");
    reveal_strlit("host-transport-id:");
    assert(service[5] == 't');
    no_prefix(service, "host-serial:"@, 5);
    no_prefix(service, "host-usb:"@, 5);
    no_prefix(service, "host-local:"@, 5);
    prefix_is_found("host-transport-id:"@, rest);
    decimal_reads_back(id as nat);
    assert forall|j: int| 0 <= j < digits.len() implies rest[j] != ':' by {
        assert(is_digit(digits[j]));
    }
    assert(rest[digits.len() as int] == ':');
    assert(rest.contains(':'));
    first_index_unique(rest, ':', digits.len() as int);
    let (a, b) = cut_first(rest, ':')->0;
    assert(a =~= digits);
    assert(b =~= sub);
    parse_of_decimal(id as nat, u64::MAX as nat);
}

/// `reverse:forward:<remote>;<local>` names the device end first.
pub proof fn reverse_names_the_device_end_first(remote: Seq<char>, local: Seq<char>)
    requires
        !remote.contains(';'),
        !has_prefix(remote + seq![';'] + local, "norebind:"@),
    ensures
        parsed_reverse("reverse:"@ + ("forward:"@ + (remote + seq![';'] + local)))
            == (ReverseView::Add { remote, local }),
{
    let arg = remote + seq![';'] + local;
    let rest = "forward:"@ + arg;
    prefix_is_found("reverse:"@, rest);
    prefix_is_found("forward:"@, arg);
    spelled_out_services();
    assert(rest[0] == 'f');
    no_prefix(rest, "killforward:"@, 0);
    assert(arg[remote.len() as int] == ';');
    assert(arg.contains(';'));
    assert forall|j: int| 0 <= j < remote.len() implies arg[j] != ';' by {
        assert(arg[j] == remote[j]);
    }
    first_index_unique(arg, ';', remote.len() as int);
    let (a, b) = cut_first(arg, ';')->0;
    assert(a =~= remote);
    assert(b =~= local);
}

} // verus!
