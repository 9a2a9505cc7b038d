//! How connections to devices are kept: what one call leaves for the next.
use vstd::prelude::*;

use crate::models::{DeviceFeatureSet, LocalCommandView};
use crate::number::decimal;
use crate::server::backend::{DeviceState, DeviceView, TransportKind};
use crate::server::bridge_laws::commands_are_written_out;
use crate::server::capabilities::{negotiated, negotiation_is_honest};
use crate::server::default_backend::{
    all_devices, bridged, candidates, connect_failure, connected, connected_already, disconnected, engine_kept, engine_released, everything_optional,
    fresh_backend,
    features_told, known_usb_devices, lives, looked_up, published, reopen_decision, retry_decision,
    retryable, routed, service_text, shut_down, target, tcp_devices, tcp_number, usb_number, usb_devices, without_conn,
    BackendView, Conn, Lookup, OpenError, Retry, TransferFault,
};
use crate::server::table::{
    dropping_leaves_others, dropping_undoes_adding, one_per_device, replacing_keeps_one_per_device,
    row_found, row_of, row_of_others, RowView,
};
use crate::text::joined;

verus! {

// ---------------------------------------------------------------------------------
// Over USB
// ---------------------------------------------------------------------------------

/// All clients share one connection per device: the one that publishing says is to be used
/// is the one that the next look finds, for as long as it lives.
pub proof fn clients_share_a_connection(
    before: BackendView,
    serial: Seq<char>,
    conn: Conn,
    existing_alive: bool,
)
    requires
        one_per_device(before.conns),
    ensures
        ({
            let (used, after) = published(before, serial, conn, existing_alive);
            &&& looked_up(after, serial, true) == (Lookup::Use(used), after)
            &&& existing_alive && row_of(before.conns, serial) is Some ==> used == row_of(
                before.conns,
                serial,
            )->Some_0.number
            &&& !existing_alive ==> used == conn.number
            &&& row_of(before.conns, serial) is None ==> used == conn.number
        }),
{
    replacing_keeps_one_per_device(before.conns, RowView { serial, value: conn });
}

/// A connection that lives is not replaced: a second one that is published is not used.
pub proof fn the_first_connection_stays(
    before: BackendView,
    serial: Seq<char>,
    first: Conn,
    second: Conn,
)
    requires
        one_per_device(before.conns),
        row_of(before.conns, serial) is None,
    ensures
        ({
            let (_, one) = published(before, serial, first, false);
            &&& published(one, serial, second, true) == (first.number, one)
            &&& published(one, serial, second, false).0 == second.number
        }),
{
    replacing_keeps_one_per_device(before.conns, RowView { serial, value: first });
}

/// A dead connection is never used: the look that finds it dead drops it, and the device is
/// opened anew; so it is after the connection was dropped, and where there is none.
pub proof fn dead_connections_are_not_used(before: BackendView, serial: Seq<char>)
    ensures
        looked_up(before, serial, false).0 == Lookup::Open,
        row_of(looked_up(before, serial, false).1.conns, serial) is None,
        looked_up(without_conn(before, serial), serial, true).0 == Lookup::Open,
        row_of(before.conns, serial) is None ==> looked_up(before, serial, true).0 == Lookup::Open,
{
    dropping_leaves_others(before.conns, serial, serial);
}

/// What is done for one device leaves the connections of every other as they are, and those
/// over TCP, the engines and the key too.
pub proof fn devices_do_not_disturb_each_other(
    before: BackendView,
    serial: Seq<char>,
    conn: Conn,
    alive: bool,
    other: Seq<char>,
)
    requires
        one_per_device(before.conns),
        other != serial,
    ensures
        ({
            let a = looked_up(before, serial, alive).1;
            let b = published(before, serial, conn, alive).1;
            let c = without_conn(before, serial);
            &&& row_of(a.conns, other) == row_of(before.conns, other)
            &&& row_of(b.conns, other) == row_of(before.conns, other)
            &&& row_of(c.conns, other) == row_of(before.conns, other)
            &&& a == (BackendView { conns: a.conns, ..before })
            &&& b == (BackendView { conns: b.conns, ..before })
            &&& c == (BackendView { conns: c.conns, ..before })
        }),
{
    dropping_leaves_others(before.conns, serial, other);
    replacing_keeps_one_per_device(before.conns, RowView { serial, value: conn });
}

/// A USB device with a serial is listed as a ready device of its kind, behind those before
/// it; one without a serial is not listed.
pub proof fn usb_devices_are_listed(serials: Seq<Option<String>>, s: String)
    ensures
        usb_devices(Seq::empty()) == Seq::<DeviceView>::empty(),
        usb_devices(serials.push(None)) == usb_devices(serials),
        usb_devices(serials.push(Some(s))) == usb_devices(serials).push(
            DeviceView {
                serial: s@,
                state: DeviceState::Device,
                product: None,
                model: None,
                device: None,
                capabilities: None,
                kind: Some(TransportKind::Usb),
            },
        ),
{
    assert(serials.push(None).drop_last() =~= serials);
    assert(serials.push(Some(s)).drop_last() =~= serials);
}

/// What is known of a USB device changes nothing but its features in the list.
pub proof fn usb_devices_stay_in_place(
    conns: Seq<RowView<Conn>>,
    alive: Seq<u64>,
    serials: Seq<Option<String>>,
    i: int,
)
    requires
        0 <= i < usb_devices(serials).len(),
    ensures
        known_usb_devices(conns, alive, serials).len() == usb_devices(serials).len(),
        known_usb_devices(conns, alive, serials)[i] == (DeviceView {
            capabilities: known_usb_devices(conns, alive, serials)[i].capabilities,
            ..usb_devices(serials)[i]
        }),
{
}

// ---------------------------------------------------------------------------------
// Over TCP
// ---------------------------------------------------------------------------------

/// A device is connected once: the first connection is kept and told of, a second one is
/// not kept and changes nothing.
pub proof fn a_device_is_connected_once(
    before: BackendView,
    serial: Seq<char>,
    first: Conn,
    second: Conn,
)
    requires
        row_of(before.tcp, serial) is None,
    ensures
        ({
            let (kept, told, after) = connected(before, serial, first);
            &&& kept
            &&& told == "connected to "@ + serial
            &&& row_of(after.tcp, serial) == Some(first)
            &&& connected(after, serial, second) == (
                false,
                "already connected to "@ + serial,
                after,
            )
        }),
{
    dropping_undoes_adding(before.tcp, RowView { serial, value: first });
}

/// Disconnecting undoes connecting: the client is told, the device is among the gone, and
/// the backend is as it was before.
pub proof fn disconnecting_undoes_connecting(
    before: BackendView,
    addr: Seq<char>,
    serial: Seq<char>,
    conn: Conn,
)
    requires
        row_of(before.tcp, serial) is None,
        addr.len() > 0,
    ensures
        disconnected(
            connected(before, serial, conn).2,
            addr,
            Ok(serial),
        ) == (
            Ok::<Seq<char>, Seq<char>>("disconnected "@ + serial),
            seq![serial],
            before,
        ),
        disconnected(before, addr, Ok(serial)) == (
            Err::<Seq<char>, Seq<char>>("no such device "@ + serial),
            Seq::<Seq<char>>::empty(),
            before,
        ),
{
    dropping_undoes_adding(before.tcp, RowView { serial, value: conn });
}

/// An address that stands for no device disconnects none, and the client is told why.
pub proof fn unresolved_addresses_disconnect_nothing(
    before: BackendView,
    addr: Seq<char>,
    reason: Seq<char>,
)
    requires
        addr.len() > 0,
    ensures
        disconnected(before, addr, Err(reason)) == (
            Err::<Seq<char>, Seq<char>>(reason),
            Seq::<Seq<char>>::empty(),
            before,
        ),
{
}

/// Without an address everything that is connected over TCP is disconnected: each device is
/// among the gone, none is left, and their number is told. Connections over USB stay.
pub proof fn everything_is_disconnected(
    before: BackendView,
    resolved: Result<Seq<char>, Seq<char>>,
    s: Seq<char>,
)
    ensures
        ({
            let (told, gone, after) = disconnected(before, Seq::empty(), resolved);
            &&& told == Ok::<Seq<char>, Seq<char>>(
                "disconnected everything ("@ + decimal(gone.len()) + " device(s))"@,
            )
            &&& gone.contains(s) <==> row_of(before.tcp, s) is Some
            &&& gone.len() == before.tcp.len()
            &&& row_of(after.tcp, s) is None
            &&& after == (BackendView { tcp: after.tcp, ..before })
        }),
{
    row_found(before.tcp, s);
    let gone = before.tcp.map_values(|c: RowView<Conn>| c.serial);
    if gone.contains(s) {
        let i = choose|i: int| 0 <= i < gone.len() && gone[i] == s;
        assert(before.tcp[i].serial == s);
    }
    if row_of(before.tcp, s) is Some {
        let i = choose|i: int|
            0 <= i < before.tcp.len() && (#[trigger] before.tcp[i]).serial == s;
        assert(gone[i] == s);
    }
}

/// Connecting and disconnecting a device leaves every other one connected as it was.
pub proof fn other_devices_stay_connected(
    before: BackendView,
    addr: Seq<char>,
    serial: Seq<char>,
    conn: Conn,
    other: Seq<char>,
)
    requires
        other != serial,
        addr.len() > 0,
    ensures
        row_of(connected(before, serial, conn).2.tcp, other) == row_of(before.tcp, other),
        row_of(disconnected(before, addr, Ok(serial)).2.tcp, other) == row_of(before.tcp, other),
{
    row_of_others(before.tcp, RowView { serial, value: conn }, other);
    dropping_leaves_others(before.tcp, serial, other);
}

/// A device that is connected over TCP is listed last, as a ready device that is not on
/// USB, with the features of its banner.
pub proof fn connected_devices_are_listed(
    before: BackendView,
    serial: Seq<char>,
    conn: Conn,
    serials: Seq<Option<String>>,
    alive: Seq<u64>,
)
    requires
        row_of(before.tcp, serial) is None,
    ensures
        all_devices(connected(before, serial, conn).2, serials, alive) == all_devices(
            before,
            serials,
            alive,
        ).push(
            DeviceView {
                serial,
                state: DeviceState::Device,
                product: None,
                model: None,
                device: None,
                capabilities: Some(conn.features),
                kind: Some(TransportKind::Local),
            },
        ),
        before.tcp.len() == 0 ==> all_devices(before, serials, alive) == known_usb_devices(
            before.conns,
            alive,
            serials,
        ),
{
    let after = connected(before, serial, conn).2;
    assert(tcp_devices(after.tcp) =~= tcp_devices(before.tcp).push(
        DeviceView {
            serial,
            state: DeviceState::Device,
            product: None,
            model: None,
            device: None,
            capabilities: Some(conn.features),
            kind: Some(TransportKind::Local),
        },
    ));
    assert(all_devices(after, serials, alive) =~= known_usb_devices(before.conns, alive, serials)
        + tcp_devices(after.tcp));
    if before.tcp.len() == 0 {
        assert(all_devices(before, serials, alive) =~= known_usb_devices(
            before.conns,
            alive,
            serials,
        ));
    }
}

/// A target is tried as it is, and then with the port of devices over TCP behind it. The
/// first that the system knows is the device; a target that it knows in neither form is
/// named in the refusal.
pub proof fn targets_are_resolved(addr: Seq<char>, a: Seq<char>, b: Seq<char>)
    ensures
        candidates(addr) == (addr, addr + ":"@ + decimal(5555)),
        target(addr, Some(a), None) == Ok::<Seq<char>, Seq<char>>(a),
        target(addr, Some(a), Some(b)) == Ok::<Seq<char>, Seq<char>>(a),
        target(addr, None, Some(b)) == Ok::<Seq<char>, Seq<char>>(b),
        target(addr, None, None) == Err::<Seq<char>, Seq<char>>(
            "could not resolve address '"@ + addr + "'"@,
        ),
{
}

// ---------------------------------------------------------------------------------
// Services and features
// ---------------------------------------------------------------------------------

/// A service on a device that is connected over TCP goes over that connection while it
/// lives, and over USB otherwise; its name is the same either way.
pub proof fn services_go_over_the_connection(
    before: BackendView,
    serial: Seq<char>,
    conn: Conn,
    cmd: LocalCommandView,
    other: Seq<char>,
)
    requires
        row_of(before.tcp, serial) is None,
        bridged(cmd),
    ensures
        ({
            let after = connected(before, serial, conn).2;
            &&& routed(after, serial, cmd, true) == Ok::<(Option<u64>, Seq<char>), Seq<char>>(
                (Some(conn.number), service_text(cmd)),
            )
            &&& routed(after, serial, cmd, false) == Ok::<(Option<u64>, Seq<char>), Seq<char>>(
                (None, service_text(cmd)),
            )
            &&& routed(before, serial, cmd, true) == Ok::<(Option<u64>, Seq<char>), Seq<char>>(
                (None, service_text(cmd)),
            )
            &&& other != serial ==> routed(after, other, cmd, true) == routed(
                before,
                other,
                cmd,
                true,
            )
        }),
{
    dropping_undoes_adding(before.tcp, RowView { serial, value: conn });
    if other != serial {
        row_of_others(before.tcp, RowView { serial, value: conn }, other);
    }
}

/// What is opened on a device is a command without arguments of its own, a port, or a
/// service as it is; the rest is refused by its name.
pub proof fn what_is_opened(
    b: BackendView,
    serial: Seq<char>,
    c: Seq<char>,
    args: Seq<Seq<char>>,
    port: u16,
    tcp_alive: bool,
)
    ensures
        routed(b, serial, LocalCommandView::ShellCommand(c, Seq::empty()), tcp_alive)
            matches Ok((_, service)) && service == "shell:"@ + c,
        routed(b, serial, LocalCommandView::TcpConnect(port), tcp_alive) matches Ok((_, service))
            && service == "tcp:"@ + decimal(port as nat),
        routed(b, serial, LocalCommandView::Raw(c), tcp_alive) matches Ok((_, service)) && service
            == c,
        args.len() > 0 ==> routed(
            b,
            serial,
            LocalCommandView::ShellCommand(c, args),
            tcp_alive,
        ) == Err::<(Option<u64>, Seq<char>), Seq<char>>(
            "DefaultDeviceBackend: unsupported local service: "@ + ("shell:"@ + joined(
                seq![c] + args,
                " "@,
            )),
        ),
        routed(b, serial, LocalCommandView::Shell, tcp_alive) == Err::<
            (Option<u64>, Seq<char>),
            Seq<char>,
        >("DefaultDeviceBackend: unsupported local service: "@ + "shell:"@),
        routed(b, serial, LocalCommandView::TcpIp(port), tcp_alive) == Err::<
            (Option<u64>, Seq<char>),
            Seq<char>,
        >("DefaultDeviceBackend: unsupported local service: "@ + ("tcpip:"@ + decimal(
            port as nat,
        ))),
{
    commands_are_written_out(c, args, port);
    commands_are_written_out(c, Seq::empty(), port);
    assert(seq![c] + Seq::<Seq<char>>::empty() =~= seq![c]);
    assert(joined(seq![c], " "@) == c);
}

/// The features of a device are those of the connection that lives, that over TCP before
/// that over USB; without one they are not known.
pub proof fn features_are_those_of_the_living_connection(
    before: BackendView,
    serial: Seq<char>,
    tcp: Conn,
    usb: Conn,
)
    requires
        one_per_device(before.conns),
        row_of(before.tcp, serial) is None,
        row_of(before.conns, serial) is None,
    ensures
        ({
            let with_usb = published(before, serial, usb, false).1;
            let with_both = connected(with_usb, serial, tcp).2;
            &&& features_told(with_both, serial, true, true) == Some(tcp.features)
            &&& features_told(with_both, serial, true, false) == Some(tcp.features)
            &&& features_told(with_both, serial, false, true) == Some(usb.features)
            &&& features_told(with_both, serial, false, false) == None::<DeviceFeatureSet>
            &&& features_told(with_usb, serial, true, true) == Some(usb.features)
            &&& features_told(before, serial, true, true) == None::<DeviceFeatureSet>
        }),
{
    replacing_keeps_one_per_device(before.conns, RowView { serial, value: usb });
    dropping_undoes_adding(before.tcp, RowView { serial, value: tcp });
}

/// A connection that is known decides whether a device's transport lives, that over USB
/// first; the list of devices decides only where there is none.
pub proof fn known_connections_decide(usb: bool, tcp: Option<bool>, over: bool, listed: bool)
    ensures
        lives(Some(usb), tcp, listed) == usb,
        lives(None, Some(over), listed) == over,
        lives(None, None, listed) == listed,
{
}

/// A device has one engine for its own rules: the first that is kept is the one to use. A
/// device that has gone has none, and the one it had is handed back; other devices keep
/// theirs.
pub proof fn a_device_has_one_engine(
    before: BackendView,
    serial: Seq<char>,
    first: u64,
    second: u64,
    other: Seq<char>,
)
    requires
        row_of(before.reverse, serial) is None,
    ensures
        ({
            let (used, after) = engine_kept(before, serial, first);
            &&& used == first
            &&& row_of(after.reverse, serial) == Some(first)
            &&& engine_kept(after, serial, second) == (first, after)
            &&& engine_released(after, serial) == (Some(first), before)
            &&& other != serial ==> row_of(after.reverse, other) == row_of(before.reverse, other)
            &&& engine_released(before, serial).0 == None::<u64>
        }),
{
    dropping_undoes_adding(before.reverse, RowView { serial, value: first });
    if other != serial {
        row_of_others(before.reverse, RowView { serial, value: first }, other);
    }
}

/// At the end every connection is handed back, and nothing is kept but the key.
pub proof fn everything_is_handed_back(before: BackendView, i: int, s: Seq<char>)
    ensures
        ({
            let (numbers, after) = shut_down(before);
            &&& numbers.len() == before.conns.len() + before.tcp.len()
            &&& 0 <= i < before.conns.len() ==> numbers[i] == before.conns[i].value.number
            &&& 0 <= i < before.tcp.len() ==> numbers[before.conns.len() + i]
                == before.tcp[i].value.number
            &&& row_of(after.conns, s) is None
            &&& row_of(after.tcp, s) is None
            &&& row_of(after.reverse, s) is None
            &&& after.private_key == before.private_key
        }),
{
}

// ---------------------------------------------------------------------------------
// Trying again
// ---------------------------------------------------------------------------------

/// An error that a device shows while it enumerates anew is overcome by trying again for
/// ten seconds: a stalled endpoint, a device that is gone for now or not yet listed, a
/// handshake that was given up, and every code of the system that has no name here.
pub proof fn passing_errors_are_tried_again(elapsed_ms: u64, code: u32, text: String)
    ensures
        ({
            let budget = 10_000u64;
            let expected = if elapsed_ms < 10_000 {
                Retry::Again
            } else {
                Retry::GiveUp
            };
            &&& retry_decision(
                budget,
                elapsed_ms,
                retryable(OpenError::UsbTransfer(TransferFault::Stall)),
            ) == expected
            &&& retry_decision(
                budget,
                elapsed_ms,
                retryable(OpenError::UsbTransfer(TransferFault::Disconnected)),
            ) == expected
            &&& retry_decision(
                budget,
                elapsed_ms,
                retryable(OpenError::UsbTransfer(TransferFault::Unknown(code))),
            ) == expected
            &&& retry_decision(budget, elapsed_ms, retryable(OpenError::RequestFailed(text)))
                == expected
            &&& retry_decision(budget, elapsed_ms, retryable(OpenError::DeviceNotFound(text)))
                == expected
            &&& retry_decision(budget, elapsed_ms, retryable(OpenError::Other(text)))
                == Retry::GiveUp
        }),
{
}

/// A session that fails to open is tried on a new connection only if the failure killed the
/// old one, and for ten seconds at most.
pub proof fn a_refusal_is_not_tried_again(elapsed_ms: u64)
    ensures
        reopen_decision(true, elapsed_ms) == Retry::GiveUp,
        reopen_decision(false, elapsed_ms) == Retry::Again <==> elapsed_ms < 10_000,
{
}

/// A backend starts without a connection or an engine for any device, with the key that it
/// was given, and can do everything that is optional: with it, a server serves both
/// services that have a framing of their own.
pub proof fn backends_start_out_empty(
    private_key: Option<Seq<char>>,
    features: Seq<Seq<char>>,
    s: Seq<char>,
)
    ensures
        row_of(fresh_backend(private_key).conns, s) is None,
        row_of(fresh_backend(private_key).tcp, s) is None,
        row_of(fresh_backend(private_key).reverse, s) is None,
        fresh_backend(private_key).private_key == private_key,
        looked_up(fresh_backend(private_key), s, true).0 == Lookup::Open,
        negotiated(features, everything_optional()).contains("sync_v2"@),
        negotiated(features, everything_optional()).contains("shell_v2"@),
        everything_optional().reverse,
{
    negotiation_is_honest(features, everything_optional(), "sync_v2"@);
    negotiation_is_honest(features, everything_optional(), "shell_v2"@);
}

/// A client learns which device it could not be connected to, and why.
pub proof fn failed_connections_are_told(serial: Seq<char>, error: Seq<char>)
    ensures
        connect_failure(serial, error) == "failed to connect to "@ + serial + ": "@ + error,
{
}

/// A device is found under the number of its connection, each way its own; one over TCP only
/// while it lives. Whoever asks to be connected again is told so.
pub proof fn connections_are_found_by_their_device(
    before: BackendView,
    serial: Seq<char>,
    usb: Conn,
    tcp: Conn,
)
    requires
        one_per_device(before.conns),
        row_of(before.conns, serial) is None,
        row_of(before.tcp, serial) is None,
    ensures
        ({
            let with_usb = published(before, serial, usb, false).1;
            let with_both = connected(with_usb, serial, tcp).2;
            &&& usb_number(before, serial) == None::<u64>
            &&& tcp_number(before, serial, true) == None::<u64>
            &&& usb_number(with_usb, serial) == Some(usb.number)
            &&& tcp_number(with_usb, serial, true) == None::<u64>
            &&& usb_number(with_both, serial) == Some(usb.number)
            &&& tcp_number(with_both, serial, true) == Some(tcp.number)
            &&& tcp_number(with_both, serial, false) == None::<u64>
            &&& connected_already(with_usb, serial) == None::<Seq<char>>
            &&& connected_already(with_both, serial) == Some("already connected to "@ + serial)
        }),
{
    replacing_keeps_one_per_device(before.conns, RowView { serial, value: usb });
    dropping_undoes_adding(before.tcp, RowView { serial, value: tcp });
}

} // verus!
