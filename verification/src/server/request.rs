//! Requests as values: the first request on a connection, and the one that follows
//! the choice of a device.
use vstd::prelude::*;

use crate::server::backend::TransportKind;
use crate::server::service::{
    parse_forward_service, parse_sub, parsed_forward_service, parsed_sub, split_host_serial,
    split_serial, ForwardService, ForwardServiceView, SubService, SubServiceView,
};
use crate::server::transport::{
    id_selector, parse_id_selector, parse_tport_selector, tport_selector, Selector, SelectorView,
};
use crate::text::{after_prefix, concat, cut_first, has_prefix, split_once, str_eq, strip_prefix};

verus! {

/// The first request on a connection.
#[derive(Debug, PartialEq, Eq)]
pub enum HostRequest {
    /// A request on the device that the request names.
    OnDevice(Selector, SubService),
    /// The protocol version.
    Version,
    /// The features of the server.
    Features,
    /// The device list, long or short.
    Devices(bool),
    /// The stream of device lists, long or short.
    TrackDevices(bool),
    /// Shut the server down.
    Kill,
    /// Select a device; the reply is a bare `OKAY`.
    Transport(Selector),
    /// Select a device; the reply has its transport id.
    Tport(Selector),
    /// A request on forwarding rules, for the only device.
    Forward(ForwardService),
    /// The state of the only device.
    GetState,
    /// Reconnect devices that are offline.
    ReconnectOffline,
    /// Wait for a state of some device.
    WaitFor(String),
    /// Connect a device over TCP.
    Connect(String),
    /// Disconnect a device that was connected over TCP.
    Disconnect(String),
    /// Not a request of the protocol, with the reason for the client.
    Refused(String),
}

/// The contents of a [`HostRequest`].
pub enum HostRequestView {
    OnDevice(SelectorView, SubServiceView),
    Version,
    Features,
    Devices(bool),
    TrackDevices(bool),
    Kill,
    Transport(SelectorView),
    Tport(SelectorView),
    Forward(ForwardServiceView),
    GetState,
    ReconnectOffline,
    WaitFor(Seq<char>),
    Connect(Seq<char>),
    Disconnect(Seq<char>),
    Refused(Seq<char>),
}

impl View for HostRequest {
    type V = HostRequestView;

    open spec fn view(&self) -> HostRequestView {
        match self {
            HostRequest::OnDevice(d, s) => HostRequestView::OnDevice(d@, s@),
            HostRequest::Version => HostRequestView::Version,
            HostRequest::Features => HostRequestView::Features,
            HostRequest::Devices(long) => HostRequestView::Devices(*long),
            HostRequest::TrackDevices(long) => HostRequestView::TrackDevices(*long),
            HostRequest::Kill => HostRequestView::Kill,
            HostRequest::Transport(s) => HostRequestView::Transport(s@),
            HostRequest::Tport(s) => HostRequestView::Tport(s@),
            HostRequest::Forward(f) => HostRequestView::Forward(f@),
            HostRequest::GetState => HostRequestView::GetState,
            HostRequest::ReconnectOffline => HostRequestView::ReconnectOffline,
            HostRequest::WaitFor(a) => HostRequestView::WaitFor(a@),
            HostRequest::Connect(a) => HostRequestView::Connect(a@),
            HostRequest::Disconnect(a) => HostRequestView::Disconnect(a@),
            HostRequest::Refused(r) => HostRequestView::Refused(r@),
        }
    }
}

/// A request whose prefix names a device, if `service` is one: by serial, by kind
/// or by transport id.
pub open spec fn parsed_pinned(service: Seq<char>) -> Option<HostRequestView> {
    if has_prefix(service, "host-serial:"@) {
        match split_serial(after_prefix(service, "host-serial:"@)) {
            Some((serial, sub)) => Some(
                HostRequestView::OnDevice(SelectorView::Serial(serial), parsed_sub(sub)),
            ),
            None => Some(HostRequestView::Refused("malformed host-serial request"@)),
        }
    } else if has_prefix(service, "host-usb:"@) {
        Some(
            HostRequestView::OnDevice(
                SelectorView::Kind(Some(TransportKind::Usb)),
                parsed_sub(after_prefix(service, "host-usb:"@)),
            ),
        )
    } else if has_prefix(service, "host-local:"@) {
        Some(
            HostRequestView::OnDevice(
                SelectorView::Kind(Some(TransportKind::Local)),
                parsed_sub(after_prefix(service, "host-local:"@)),
            ),
        )
    } else if has_prefix(service, "host-transport-id:"@) {
        match cut_first(after_prefix(service, "host-transport-id:"@), ':') {
            Some((id, sub)) => Some(HostRequestView::OnDevice(id_selector(id), parsed_sub(sub))),
            None => Some(HostRequestView::Refused("malformed host-transport-id request"@)),
        }
    } else {
        None
    }
}

/// The request that follows `host:`.
pub open spec fn parsed_host(svc: Seq<char>) -> HostRequestView {
    if svc == "version"@ {
        HostRequestView::Version
    } else if svc == "features"@ {
        HostRequestView::Features
    } else if svc == "devices"@ {
        HostRequestView::Devices(false)
    } else if svc == "devices-l"@ {
        HostRequestView::Devices(true)
    } else if svc == "track-devices"@ {
        HostRequestView::TrackDevices(false)
    } else if svc == "track-devices-l"@ {
        HostRequestView::TrackDevices(true)
    } else if svc == "kill"@ {
        HostRequestView::Kill
    } else if svc == "transport-any"@ {
        HostRequestView::Transport(SelectorView::Kind(None))
    } else if svc == "transport-usb"@ {
        HostRequestView::Transport(SelectorView::Kind(Some(TransportKind::Usb)))
    } else if svc == "transport-local"@ {
        HostRequestView::Transport(SelectorView::Kind(Some(TransportKind::Local)))
    } else if has_prefix(svc, "transport-id:"@) {
        HostRequestView::Transport(id_selector(after_prefix(svc, "transport-id:"@)))
    } else if has_prefix(svc, "transport:"@) {
        HostRequestView::Transport(SelectorView::Serial(after_prefix(svc, "transport:"@)))
    } else if has_prefix(svc, "tport:"@) {
        HostRequestView::Tport(tport_selector(after_prefix(svc, "tport:"@)))
    } else if let Some(f) = parsed_forward_service(svc) {
        HostRequestView::Forward(f)
    } else if svc == "get-state"@ {
        HostRequestView::GetState
    } else if svc == "reconnect-offline"@ {
        HostRequestView::ReconnectOffline
    } else if has_prefix(svc, "wait-for-"@) {
        HostRequestView::WaitFor(after_prefix(svc, "wait-for-"@))
    } else if has_prefix(svc, "connect:"@) {
        HostRequestView::Connect(after_prefix(svc, "connect:"@))
    } else if has_prefix(svc, "disconnect:"@) {
        HostRequestView::Disconnect(after_prefix(svc, "disconnect:"@))
    } else {
        HostRequestView::Refused("unknown host service: "@ + svc)
    }
}

/// The first request on a connection.
pub open spec fn parsed_request(service: Seq<char>) -> HostRequestView {
    match parsed_pinned(service) {
        Some(r) => r,
        None => if has_prefix(service, "host:"@) {
            parsed_host(after_prefix(service, "host:"@))
        } else {
            HostRequestView::Refused("unknown service: "@ + service)
        },
    }
}

/// Reads a request whose prefix names a device.
fn parse_pinned(service: &str) -> (r: Option<HostRequest>)
    ensures
        match r {
            Some(q) => parsed_pinned(service@) == Some(q@),
            None => parsed_pinned(service@) is None,
        },
{
    if let Some(rest) = strip_prefix(service, "host-serial:") {
        return match split_host_serial(rest) {
            Some((serial, sub)) => Some(
                HostRequest::OnDevice(Selector::Serial(serial.to_owned()), parse_sub(sub)),
            ),
            None => Some(HostRequest::Refused("malformed host-serial request".to_owned())),
        };
    }
    if let Some(sub) = strip_prefix(service, "host-usb:") {
        return Some(
            HostRequest::OnDevice(Selector::Kind(Some(TransportKind::Usb)), parse_sub(sub)),
        );
    }
    if let Some(sub) = strip_prefix(service, "host-local:") {
        return Some(
            HostRequest::OnDevice(Selector::Kind(Some(TransportKind::Local)), parse_sub(sub)),
        );
    }
    if let Some(rest) = strip_prefix(service, "host-transport-id:") {
        return match split_once(rest, ':') {
            Some((id, sub)) => Some(HostRequest::OnDevice(parse_id_selector(id), parse_sub(sub))),
            None => Some(HostRequest::Refused("malformed host-transport-id request".to_owned())),
        };
    }
    None
}

/// Reads the request that follows `host:`.
fn parse_host(svc: &str) -> (r: HostRequest)
    ensures
        r@ == parsed_host(svc@),
{
    if str_eq(svc, "version") {
        return HostRequest::Version;
    }
    if str_eq(svc, "features") {
        return HostRequest::Features;
    }
    if str_eq(svc, "devices") {
        return HostRequest::Devices(false);
    }
    if str_eq(svc, "devices-l") {
        return HostRequest::Devices(true);
    }
    if str_eq(svc, "track-devices") {
        return HostRequest::TrackDevices(false);
    }
    if str_eq(svc, "track-devices-l") {
        return HostRequest::TrackDevices(true);
    }
    if str_eq(svc, "kill") {
        return HostRequest::Kill;
    }
    if str_eq(svc, "transport-any") {
        return HostRequest::Transport(Selector::Kind(None));
    }
    if str_eq(svc, "transport-usb") {
        return HostRequest::Transport(Selector::Kind(Some(TransportKind::Usb)));
    }
    if str_eq(svc, "transport-local") {
        return HostRequest::Transport(Selector::Kind(Some(TransportKind::Local)));
    }
    if let Some(id) = strip_prefix(svc, "transport-id:") {
        return HostRequest::Transport(parse_id_selector(id));
    }
    if let Some(serial) = strip_prefix(svc, "transport:") {
        return HostRequest::Transport(Selector::Serial(serial.to_owned()));
    }
    if let Some(rest) = strip_prefix(svc, "tport:") {
        return HostRequest::Tport(parse_tport_selector(rest));
    }
    if let Some(f) = parse_forward_service(svc) {
        return HostRequest::Forward(f);
    }
    if str_eq(svc, "get-state") {
        return HostRequest::GetState;
    }
    if str_eq(svc, "reconnect-offline") {
        return HostRequest::ReconnectOffline;
    }
    if let Some(arg) = strip_prefix(svc, "wait-for-") {
        return HostRequest::WaitFor(arg.to_owned());
    }
    if let Some(addr) = strip_prefix(svc, "connect:") {
        return HostRequest::Connect(addr.to_owned());
    }
    if let Some(addr) = strip_prefix(svc, "disconnect:") {
        return HostRequest::Disconnect(addr.to_owned());
    }
    HostRequest::Refused(concat("unknown host service: ", svc))
}

/// Reads the first request on a connection.
pub fn parse_request(service: &str) -> (r: HostRequest)
    ensures
        r@ == parsed_request(service@),
{
    if let Some(r) = parse_pinned(service) {
        return r;
    }
    match strip_prefix(service, "host:") {
        Some(svc) => parse_host(svc),
        None => HostRequest::Refused(concat("unknown service: ", service)),
    }
}

/// A request on forwarding that the device initiates.
#[derive(Debug, PartialEq, Eq)]
pub enum ReverseRequest {
    /// List the rules.
    List,
    /// Remove all rules.
    KillAll,
    /// Remove the rule with this device end.
    Kill(String),
    /// Let the device listen on `remote` and connect what arrives to `local`.
    Add { remote: String, local: String },
    /// Not such a request, with the reason for the client.
    Refused(String),
}

/// The contents of a [`ReverseRequest`].
pub enum ReverseView {
    List,
    KillAll,
    Kill(Seq<char>),
    Add { remote: Seq<char>, local: Seq<char> },
    Refused(Seq<char>),
}

impl View for ReverseRequest {
    type V = ReverseView;

    open spec fn view(&self) -> ReverseView {
        match self {
            ReverseRequest::List => ReverseView::List,
            ReverseRequest::KillAll => ReverseView::KillAll,
            ReverseRequest::Kill(r) => ReverseView::Kill(r@),
            ReverseRequest::Add { remote, local } => ReverseView::Add {
                remote: remote@,
                local: local@,
            },
            ReverseRequest::Refused(r) => ReverseView::Refused(r@),
        }
    }
}

/// The reverse request that `service` (which begins with `reverse:`) is.
pub open spec fn parsed_reverse(service: Seq<char>) -> ReverseView {
    let rest = after_prefix(service, "reverse:"@);
    if rest == "list-forward"@ {
        ReverseView::List
    } else if rest == "killforward-all"@ {
        ReverseView::KillAll
    } else if has_prefix(rest, "killforward:"@) {
        ReverseView::Kill(after_prefix(rest, "killforward:"@))
    } else if has_prefix(rest, "forward:"@) {
        let given = after_prefix(rest, "forward:"@);
        let arg = if has_prefix(given, "norebind:"@) {
            after_prefix(given, "norebind:"@)
        } else {
            given
        };
        match cut_first(arg, ';') {
            Some((remote, local)) => ReverseView::Add { remote, local },
            None => ReverseView::Refused("bad reverse forward: "@ + arg),
        }
    } else {
        ReverseView::Refused("unsupported reverse service: "@ + service)
    }
}

/// Reads a reverse request.
fn parse_reverse(service: &str, rest: &str) -> (r: ReverseRequest)
    requires
        rest@ == after_prefix(service@, "reverse:"@),
    ensures
        r@ == parsed_reverse(service@),
{
    if str_eq(rest, "list-forward") {
        return ReverseRequest::List;
    }
    if str_eq(rest, "killforward-all") {
        return ReverseRequest::KillAll;
    }
    if let Some(remote) = strip_prefix(rest, "killforward:") {
        return ReverseRequest::Kill(remote.to_owned());
    }
    if let Some(given) = strip_prefix(rest, "forward:") {
        let arg = match strip_prefix(given, "norebind:") {
            Some(a) => a,
            None => given,
        };
        return match split_once(arg, ';') {
            Some((remote, local)) => ReverseRequest::Add {
                remote: remote.to_owned(),
                local: local.to_owned(),
            },
            None => ReverseRequest::Refused(concat("bad reverse forward: ", arg)),
        };
    }
    ReverseRequest::Refused(concat("unsupported reverse service: ", service))
}

/// The request that follows the choice of a device.
#[derive(Debug, PartialEq, Eq)]
pub enum LocalRequest {
    /// A request on forwarding rules, for the chosen device.
    Forward(ForwardService),
    /// The features that hold for the chosen device.
    Features,
    /// The protocol version.
    Version,
    /// A request on forwarding that the device initiates.
    Reverse(ReverseRequest),
    /// A service to bridge to the device.
    Service(String),
}

/// The contents of a [`LocalRequest`].
pub enum LocalRequestView {
    Forward(ForwardServiceView),
    Features,
    Version,
    Reverse(ReverseView),
    Service(Seq<char>),
}

impl View for LocalRequest {
    type V = LocalRequestView;

    open spec fn view(&self) -> LocalRequestView {
        match self {
            LocalRequest::Forward(f) => LocalRequestView::Forward(f@),
            LocalRequest::Features => LocalRequestView::Features,
            LocalRequest::Version => LocalRequestView::Version,
            LocalRequest::Reverse(r) => LocalRequestView::Reverse(r@),
            LocalRequest::Service(s) => LocalRequestView::Service(s@),
        }
    }
}

/// A host request that is also answered after the choice of a device, if `local` is
/// one.
pub open spec fn parsed_post_transport(local: Seq<char>) -> Option<LocalRequestView> {
    if has_prefix(local, "host:"@) {
        let svc = after_prefix(local, "host:"@);
        match parsed_forward_service(svc) {
            Some(f) => Some(LocalRequestView::Forward(f)),
            None => if svc == "features"@ {
                Some(LocalRequestView::Features)
            } else if svc == "version"@ {
                Some(LocalRequestView::Version)
            } else {
                None
            },
        }
    } else {
        None
    }
}

/// The request that follows the choice of a device.
pub open spec fn parsed_local_request(local: Seq<char>) -> LocalRequestView {
    match parsed_post_transport(local) {
        Some(r) => r,
        None => if has_prefix(local, "reverse:"@) {
            LocalRequestView::Reverse(parsed_reverse(local))
        } else {
            LocalRequestView::Service(local)
        },
    }
}

/// Reads the request that follows the choice of a device.
pub fn parse_local_request(local: &str) -> (r: LocalRequest)
    ensures
        r@ == parsed_local_request(local@),
{
    if let Some(svc) = strip_prefix(local, "host:") {
        if let Some(f) = parse_forward_service(svc) {
            return LocalRequest::Forward(f);
        }
        if str_eq(svc, "features") {
            return LocalRequest::Features;
        }
        if str_eq(svc, "version") {
            return LocalRequest::Version;
        }
    }
    if let Some(rest) = strip_prefix(local, "reverse:") {
        return LocalRequest::Reverse(parse_reverse(local, rest));
    }
    LocalRequest::Service(local.to_owned())
}

} // verus!
