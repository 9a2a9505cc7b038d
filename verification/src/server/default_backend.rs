//! The bundled backend's decisions: which connection serves a device, when an open
//! is tried again, and what clients are told about devices connected over TCP.
//!
//! Connections are named by numbers; whoever owns them says whether they are alive.
use vstd::prelude::*;

use crate::models::{ADBLocalCommand, DeviceFeatureSet, LocalCommandView};
use crate::number::{decimal, decimal_string};
use crate::order::list_contains;
use crate::server::backend::{
    device_views, BackendCapabilities, DeviceEntry, DeviceState, DeviceView, TransportKind,
};
use crate::server::table::{
    dropping_leaves_others, dropping_undoes_adding, filter_keeps_distinct, one_per_device,
    replacing_keeps_one_per_device, row_found, row_of, without_row, RowView, Table,
};
use crate::text::{concat, concat3, join_strings, joined, opt_text, result_text, texts};

verus! {

/// How long an open is tried again, in milliseconds.
pub const OPEN_RETRY_BUDGET_MS: u64 = 10_000;

/// How long to sleep between two attempts to open, in milliseconds.
pub const OPEN_RETRY_POLL_MS: u64 = 500;

/// The port of devices over TCP that is meant where none is given.
pub const DEFAULT_ADB_TCP_PORT: u16 = 5555;

/// How a USB transfer can fail.
#[derive(Clone, Copy, Debug, PartialEq, Eq, Structural)]
pub enum TransferFault {
    /// The transfer was cancelled.
    Cancelled,
    /// The endpoint is stalled.
    Stall,
    /// The device is gone.
    Disconnected,
    /// A hardware fault or a violation of the protocol.
    Fault,
    /// The request is not one that the host can make.
    InvalidArgument,
    /// A code of the operating system that has no name here.
    Unknown(u32),
}

/// How the opening of a device can fail.
#[derive(Debug, PartialEq, Eq)]
pub enum OpenError {
    /// A USB transfer failed.
    UsbTransfer(TransferFault),
    /// The device refused, or its handshake was given up.
    RequestFailed(String),
    /// No such device is listed.
    DeviceNotFound(String),
    /// Another process holds the device.
    DeviceBusy,
    /// Anything else.
    Other(String),
}

/// An error that a fresh attempt can overcome: what is seen while a device
/// enumerates anew.
pub open spec fn retryable(e: OpenError) -> bool {
    match e {
        OpenError::UsbTransfer(t) => t is Stall || t is Disconnected || t is Unknown,
        OpenError::RequestFailed(_) => true,
        OpenError::DeviceNotFound(_) => true,
        OpenError::DeviceBusy => false,
        OpenError::Other(_) => false,
    }
}

/// Whether an error is one that a fresh attempt can overcome.
pub fn is_retryable_open_error(e: &OpenError) -> (r: bool)
    ensures
        r == retryable(*e),
{
    match e {
        OpenError::UsbTransfer(t) => match t {
            TransferFault::Stall => true,
            TransferFault::Disconnected => true,
            TransferFault::Unknown(_) => true,
            _ => false,
        },
        OpenError::RequestFailed(_) => true,
        OpenError::DeviceNotFound(_) => true,
        OpenError::DeviceBusy => false,
        OpenError::Other(_) => false,
    }
}

/// What to do after a failed attempt.
#[derive(Clone, Copy, Debug, PartialEq, Eq, Structural)]
pub enum Retry {
    /// Sleep and try again.
    Again,
    /// Report the error.
    GiveUp,
}

/// What to do after an attempt failed, `elapsed_ms` after the first one began.
pub open spec fn retry_decision(budget_ms: u64, elapsed_ms: u64, is_retryable: bool) -> Retry {
    if is_retryable && elapsed_ms < budget_ms {
        Retry::Again
    } else {
        Retry::GiveUp
    }
}

/// Whether to try again after an attempt failed, `elapsed_ms` after the first one
/// began: only if the error can be overcome and the budget is not used up.
pub fn retry_within(budget_ms: u64, elapsed_ms: u64, is_retryable: bool) -> (r: Retry)
    ensures
        r == retry_decision(budget_ms, elapsed_ms, is_retryable),
{
    if !is_retryable || elapsed_ms >= budget_ms {
        Retry::GiveUp
    } else {
        Retry::Again
    }
}

/// What to do after a session on a connection failed to open.
pub open spec fn reopen_decision(alive: bool, elapsed_ms: u64) -> Retry {
    retry_decision(OPEN_RETRY_BUDGET_MS, elapsed_ms, !alive)
}

/// Whether to drop a connection and open the device again after a session on it
/// failed to open: only if the failure killed the connection and the budget is not
/// used up. A failure on a connection that lives is the device's own refusal.
pub fn reopen_after(alive: bool, elapsed_ms: u64) -> (r: Retry)
    ensures
        r == reopen_decision(alive, elapsed_ms),
{
    retry_within(OPEN_RETRY_BUDGET_MS, elapsed_ms, !alive)
}

/// Retrying ends: the attempt that fails after so many sleeps that these alone fill
/// the budget is the last one.
pub proof fn retries_are_bounded(
    budget_ms: u64,
    poll_ms: u64,
    sleeps: nat,
    elapsed_ms: u64,
    is_retryable: bool,
)
    requires
        elapsed_ms >= sleeps * poll_ms,
        sleeps * poll_ms >= budget_ms,
    ensures
        retry_decision(budget_ms, elapsed_ms, is_retryable) == Retry::GiveUp,
{
}

/// An error that cannot be overcome is reported at once, whatever is left of the
/// budget.
pub proof fn fatal_errors_are_not_retried(budget_ms: u64, elapsed_ms: u64, fault: TransferFault)
    ensures
        fault is InvalidArgument || fault is Fault || fault is Cancelled ==> retry_decision(
            budget_ms,
            elapsed_ms,
            retryable(OpenError::UsbTransfer(fault)),
        ) == Retry::GiveUp,
        retry_decision(budget_ms, elapsed_ms, retryable(OpenError::DeviceBusy)) == Retry::GiveUp,
{
}

/// A connection.
#[derive(Clone, Copy, Debug, PartialEq, Eq, Structural)]
pub struct Conn {
    /// Its number.
    pub number: u64,
    /// The features from the device's banner.
    pub features: DeviceFeatureSet,
}

/// A ready device that is reached over USB.
pub open spec fn usb_device(serial: Seq<char>) -> DeviceView {
    DeviceView {
        serial,
        state: DeviceState::Device,
        product: None,
        model: None,
        device: None,
        capabilities: None,
        kind: Some(TransportKind::Usb),
    }
}

/// A device that is connected over TCP: its features are known.
pub open spec fn tcp_device(c: RowView<Conn>) -> DeviceView {
    DeviceView {
        serial: c.serial,
        state: DeviceState::Device,
        product: None,
        model: None,
        device: None,
        capabilities: Some(c.value.features),
        kind: Some(TransportKind::Local),
    }
}

/// The devices among the USB serials: one without a serial cannot be addressed and
/// is left out.
pub open spec fn usb_devices(serials: Seq<Option<String>>) -> Seq<DeviceView>
    decreases serials.len(),
{
    if serials.len() == 0 {
        Seq::empty()
    } else {
        match serials.last() {
            Some(s) => usb_devices(serials.drop_last()).push(usb_device(s@)),
            None => usb_devices(serials.drop_last()),
        }
    }
}

/// The device entries for the USB devices that were found.
pub fn enumerate_usb(serials: &Vec<Option<String>>) -> (r: Vec<DeviceEntry>)
    ensures
        device_views(r@) == usb_devices(serials@),
{
    let mut r: Vec<DeviceEntry> = Vec::new();
    let mut i: usize = 0;
    assert(device_views(r@) =~= usb_devices(serials@.take(0)));
    while i < serials.len()
        invariant
            i <= serials.len(),
            device_views(r@) == usb_devices(serials@.take(i as int)),
        decreases serials.len() - i,
    {
        let ghost before = r@;
        assert(serials@.take(i + 1).drop_last() =~= serials@.take(i as int));
        assert(serials@.take(i + 1).last() == serials@[i as int]);
        match &serials[i] {
            Some(s) => {
                let d = DeviceEntry::new(s.as_str()).with_kind(TransportKind::Usb);
                r.push(d);
                assert(device_views(r@) =~= device_views(before).push(usb_device(s@)));
            },
            None => {},
        }
        i += 1;
    }
    assert(serials@.take(serials.len() as int) =~= serials@);
    r
}

/// The USB devices and then the devices connected over TCP, as one list.
pub fn merge_device_sets(usb: Vec<DeviceEntry>, tcp: Vec<DeviceEntry>) -> (r: Vec<DeviceEntry>)
    ensures
        r@ == usb@ + tcp@,
{
    let mut all = usb;
    let mut more = tcp;
    all.append(&mut more);
    all
}

/// The serials that were there before and are not there now.
pub fn disconnected_since(before: &Vec<String>, now: &Vec<String>) -> (r: Vec<String>)
    ensures
        forall|s: Seq<char>|
            texts(r@).contains(s) <==> texts(before@).contains(s) && !texts(now@).contains(s),
        texts(r@).no_duplicates(),
{
    let mut r: Vec<String> = Vec::new();
    let mut i: usize = 0;
    assert(texts(r@) =~= Seq::empty());
    while i < before.len()
        invariant
            i <= before.len(),
            forall|s: Seq<char>|
                texts(r@).contains(s) <==> texts(before@).take(i as int).contains(s) && !texts(
                    now@,
                ).contains(s),
            texts(r@).no_duplicates(),
        decreases before.len() - i,
    {
        let ghost old_r = texts(r@);
        let ghost x = before@[i as int]@;
        let fresh = !list_contains(now, before[i].as_str()) && !list_contains(
            &r,
            before[i].as_str(),
        );
        if fresh {
            r.push(before[i].clone());
            assert(texts(r@) =~= old_r.push(x));
        }
        proof {
            let all = texts(before@);
            assert(all.take(i + 1) =~= all.take(i as int).push(x));
            assert forall|s: Seq<char>|
                texts(r@).contains(s) <==> all.take(i + 1).contains(s) && !texts(now@).contains(
                    s,
                ) by {
                push_contains(all.take(i as int), x, s);
                if fresh {
                    push_contains(old_r, x, s);
                }
                assert(old_r.contains(s) <==> all.take(i as int).contains(s) && !texts(
                    now@,
                ).contains(s));
            }
        }
        i += 1;
    }
    assert(texts(before@).take(before.len() as int) =~= texts(before@));
    r
}

/// A longer list holds one thing more.
proof fn push_contains(t: Seq<Seq<char>>, x: Seq<char>, s: Seq<char>)
    ensures
        t.push(x).contains(s) <==> t.contains(s) || s == x,
{
    let u = t.push(x);
    if t.contains(s) {
        let i = choose|i: int| 0 <= i < t.len() && t[i] == s;
        assert(u[i] == s);
    }
    if s == x {
        assert(u[t.len() as int] == s);
    }
    if u.contains(s) && s != x {
        let i = choose|i: int| 0 <= i < u.len() && u[i] == s;
        assert(t[i] == s);
    }
}

/// The text of a service.
pub open spec fn service_text(cmd: LocalCommandView) -> Seq<char> {
    match cmd {
        LocalCommandView::Shell => "shell:"@,
        LocalCommandView::ShellCommand(c, args) => if args.len() == 0 {
            "shell:"@ + c
        } else {
            "shell:"@ + c + " "@ + joined(args, " "@)
        },
        LocalCommandView::TcpConnect(p) => "tcp:"@ + decimal(p as nat),
        LocalCommandView::TcpIp(p) => "tcpip:"@ + decimal(p as nat),
        LocalCommandView::Raw(s) => s,
    }
}

/// The text of a service.
pub fn service_string(cmd: &ADBLocalCommand) -> (r: String)
    ensures
        r@ == service_text(cmd@),
{
    match cmd {
        ADBLocalCommand::Shell => "shell:".to_owned(),
        ADBLocalCommand::ShellCommand(c, args) => {
            let mut r = concat("shell:", c.as_str());
            if args.len() > 0 {
                r.append(" ");
                r.append(join_strings(args, " ").as_str());
            }
            r
        },
        ADBLocalCommand::TcpConnect(p) => concat("tcp:", decimal_string(*p as u64).as_str()),
        ADBLocalCommand::TcpIp(p) => concat("tcpip:", decimal_string(*p as u64).as_str()),
        ADBLocalCommand::Raw(s) => s.clone(),
    }
}

/// The services that the backend opens: a shell command without arguments of its
/// own, a TCP port, or a service string as it is.
pub open spec fn bridged(cmd: LocalCommandView) -> bool {
    match cmd {
        LocalCommandView::ShellCommand(_, args) => args.len() == 0,
        LocalCommandView::TcpConnect(_) => true,
        LocalCommandView::Raw(_) => true,
        _ => false,
    }
}

/// Refuses the services that the backend does not open.
pub fn check_local_service(cmd: &ADBLocalCommand) -> (r: Result<(), String>)
    ensures
        match r {
            Ok(_) => bridged(cmd@),
            Err(reason) => !bridged(cmd@) && reason@
                == "DefaultDeviceBackend: unsupported local service: "@ + service_text(cmd@),
        },
{
    let supported = match cmd {
        ADBLocalCommand::ShellCommand(_, args) => args.len() == 0,
        ADBLocalCommand::TcpConnect(_) => true,
        ADBLocalCommand::Raw(_) => true,
        _ => false,
    };
    if supported {
        Ok(())
    } else {
        Err(
            concat(
                "DefaultDeviceBackend: unsupported local service: ",
                service_string(cmd).as_str(),
            ),
        )
    }
}

/// The addresses to try for a target, in this order: as it is, then with the
/// default port.
pub open spec fn candidates(addr: Seq<char>) -> (Seq<char>, Seq<char>) {
    (addr, addr + ":"@ + decimal(DEFAULT_ADB_TCP_PORT as nat))
}

/// The addresses to try for a target, in this order: as it is, then with the
/// default port.
pub fn tcp_candidates(addr: &str) -> (r: (String, String))
    ensures
        (r.0@, r.1@) == candidates(addr@),
{
    (
        addr.to_owned(),
        concat3(addr, ":", decimal_string(DEFAULT_ADB_TCP_PORT as u64).as_str()),
    )
}

/// The serial of a target: the address that the first candidate stands for, else
/// that of the second, else the reason for the client.
pub open spec fn target(
    addr: Seq<char>,
    direct: Option<Seq<char>>,
    with_port: Option<Seq<char>>,
) -> Result<Seq<char>, Seq<char>> {
    match (direct, with_port) {
        (Some(d), _) => Ok(d),
        (None, Some(w)) => Ok(w),
        (None, None) => Err("could not resolve address '"@ + addr + "'"@),
    }
}

/// The serial of a target: the address that the first candidate stands for, else
/// that of the second; the error is the reason for the client.
pub fn resolve_tcp_target(addr: &str, direct: Option<String>, with_port: Option<String>) -> (r:
    Result<String, String>)
    ensures
        result_text(r) == target(addr@, opt_text(direct), opt_text(with_port)),
{
    match direct {
        Some(d) => Ok(d),
        None => match with_port {
            Some(w) => Ok(w),
            None => Err(concat3("could not resolve address '", addr, "'")),
        },
    }
}

/// Which connection is to be used for a device, or that one has to be opened.
#[derive(Clone, Copy, Debug, PartialEq, Eq, Structural)]
pub enum Lookup {
    /// This one.
    Use(u64),
    /// A new one.
    Open,
}

/// Whether a number is in a list.
fn number_listed(list: &Vec<u64>, n: u64) -> (r: bool)
    ensures
        r == list@.contains(n),
{
    let mut i: usize = 0;
    while i < list.len()
        invariant
            i <= list.len(),
            forall|j: int| 0 <= j < i ==> list@[j] != n,
        decreases list.len() - i,
    {
        if list[i] == n {
            return true;
        }
        i += 1;
    }
    false
}

/// A device that was found over USB: its features are known if it has a living
/// connection.
pub open spec fn known_usb_device(
    conns: Seq<RowView<Conn>>,
    alive: Seq<u64>,
    d: DeviceView,
) -> DeviceView {
    match row_of(conns, d.serial) {
        Some(c) if alive.contains(c.number) => DeviceView {
            capabilities: Some(c.features),
            ..d
        },
        _ => d,
    }
}

/// The devices that were found over USB, with what is known of them.
pub open spec fn known_usb_devices(
    conns: Seq<RowView<Conn>>,
    alive: Seq<u64>,
    serials: Seq<Option<String>>,
) -> Seq<DeviceView> {
    usb_devices(serials).map_values(|d: DeviceView| known_usb_device(conns, alive, d))
}

/// A device that was opened over USB is listed with its features for as long as its
/// connection lives, like a device that is connected over TCP.
pub proof fn opened_devices_list_their_features(
    conns: Seq<RowView<Conn>>,
    alive: Seq<u64>,
    serials: Seq<Option<String>>,
    i: int,
)
    requires
        0 <= i < usb_devices(serials).len(),
    ensures
        ({
            let d = known_usb_devices(conns, alive, serials)[i];
            &&& d.serial == usb_devices(serials)[i].serial
            &&& d.capabilities == (match row_of(conns, d.serial) {
                Some(c) if alive.contains(c.number) => Some(c.features),
                _ => None,
            })
        }),
{
    usb_devices_are_plain(serials, i);
}

/// Of a device that was only found, no features are known.
proof fn usb_devices_are_plain(serials: Seq<Option<String>>, i: int)
    requires
        0 <= i < usb_devices(serials).len(),
    ensures
        usb_devices(serials)[i].capabilities is None,
    decreases serials.len(),
{
    if serials.len() > 0 {
        let before = usb_devices(serials.drop_last());
        if i < before.len() {
            usb_devices_are_plain(serials.drop_last(), i);
        }
    }
}

/// How a service on a device is opened.
#[derive(Debug, PartialEq, Eq)]
pub struct ServiceRoute {
    /// The connection over TCP that it is opened on; without one, the device is reached
    /// over USB.
    pub over: Option<u64>,
    /// The service.
    pub service: String,
}

/// The backend's connections, and what it keeps for them.
pub struct DefaultDeviceBackend {
    conns: Table<Conn>,
    tcp_devices: Table<Conn>,
    reverse: Table<u64>,
    private_key: Option<String>,
}

/// The contents of a [`DefaultDeviceBackend`].
pub struct BackendView {
    /// The connections over USB.
    pub conns: Seq<RowView<Conn>>,
    /// The connections over TCP.
    pub tcp: Seq<RowView<Conn>>,
    /// The numbers of the engines that run the rules which devices initiate.
    pub reverse: Seq<RowView<u64>>,
    /// The file with the key for every device, if it is not the usual one.
    pub private_key: Option<Seq<char>>,
}

impl View for DefaultDeviceBackend {
    type V = BackendView;

    closed spec fn view(&self) -> BackendView {
        BackendView {
            conns: self.conns@,
            tcp: self.tcp_devices@,
            reverse: self.reverse@,
            private_key: opt_text(self.private_key),
        }
    }
}

/// The number of a connection.
pub open spec fn number_of(c: Option<Conn>) -> Option<u64> {
    match c {
        Some(c) => Some(c.number),
        None => None,
    }
}

/// The number of a device's connection over USB.
pub open spec fn usb_number(b: BackendView, serial: Seq<char>) -> Option<u64> {
    number_of(row_of(b.conns, serial))
}

/// The number of a device's connection over TCP, while it lives.
pub open spec fn tcp_number(b: BackendView, serial: Seq<char>, alive: bool) -> Option<u64> {
    if alive {
        number_of(row_of(b.tcp, serial))
    } else {
        None
    }
}

/// What a client is told that asks for a connection which there is already.
pub open spec fn connected_already(b: BackendView, serial: Seq<char>) -> Option<Seq<char>> {
    match row_of(b.tcp, serial) {
        Some(_) => Some("already connected to "@ + serial),
        None => None,
    }
}

/// The numbers of connections.
pub open spec fn numbers_of(rows: Seq<RowView<Conn>>) -> Seq<u64> {
    rows.map_values(|c: RowView<Conn>| c.value.number)
}

/// Adds the numbers of connections to a list.
fn push_numbers(list: &mut Vec<u64>, table: &Table<Conn>)
    ensures
        final(list)@ == old(list)@ + numbers_of(table@),
{
    let ghost all = numbers_of(table@);
    let mut i: usize = 0;
    assert(list@ =~= old(list)@ + all.take(0));
    while i < table.len()
        invariant
            i <= table@.len(),
            all == numbers_of(table@),
            list@ == old(list)@ + all.take(i as int),
        decreases table@.len() - i,
    {
        let (_, conn) = table.row(i);
        list.push(conn.number);
        assert(list@ =~= old(list)@ + all.take(i + 1));
        i += 1;
    }
    assert(all.take(i as int) =~= all);
}

/// What becomes of a look for a device's connection over USB: the one that lives, or a
/// new one in place of one that is dead.
pub open spec fn looked_up(
    before: BackendView,
    serial: Seq<char>,
    alive: bool,
) -> (Lookup, BackendView) {
    match row_of(before.conns, serial) {
        Some(c) => if alive {
            (Lookup::Use(c.number), before)
        } else {
            (Lookup::Open, without_conn(before, serial))
        },
        None => (Lookup::Open, before),
    }
}

/// What the backend can bridge.
pub open spec fn everything_optional() -> BackendCapabilities {
    BackendCapabilities { sync: true, shell_v2: true, reverse: true }
}

/// A backend without connections.
pub open spec fn fresh_backend(private_key: Option<Seq<char>>) -> BackendView {
    BackendView { conns: Seq::empty(), tcp: Seq::empty(), reverse: Seq::empty(), private_key }
}

/// The backend without a device's connection over USB.
pub open spec fn without_conn(before: BackendView, serial: Seq<char>) -> BackendView {
    BackendView { conns: without_row(before.conns, serial), ..before }
}

/// What becomes of a connection over USB that is published: which one is to be used.
pub open spec fn published(
    before: BackendView,
    serial: Seq<char>,
    conn: Conn,
    existing_alive: bool,
) -> (u64, BackendView) {
    match row_of(before.conns, serial) {
        Some(c) if existing_alive => (c.number, before),
        _ => (
            conn.number,
            BackendView {
                conns: without_row(before.conns, serial).push(RowView { serial, value: conn }),
                ..before
            },
        ),
    }
}

/// How a service is opened: over which connection, and under which name.
pub open spec fn routed(
    b: BackendView,
    serial: Seq<char>,
    cmd: LocalCommandView,
    tcp_alive: bool,
) -> Result<(Option<u64>, Seq<char>), Seq<char>> {
    if bridged(cmd) {
        Ok(
            (
                if tcp_alive {
                    number_of(row_of(b.tcp, serial))
                } else {
                    None
                },
                service_text(cmd),
            ),
        )
    } else {
        Err("DefaultDeviceBackend: unsupported local service: "@ + service_text(cmd))
    }
}

/// The contents of a route, or of the reason why there is none.
pub open spec fn route_view(
    r: Result<ServiceRoute, String>,
) -> Result<(Option<u64>, Seq<char>), Seq<char>> {
    match r {
        Ok(route) => Ok((route.over, route.service@)),
        Err(reason) => Err(reason@),
    }
}

/// Whether a transport lives, by what its connections or else the list of devices say.
pub open spec fn lives(usb_alive: Option<bool>, tcp_alive: Option<bool>, listed: bool) -> bool {
    match (usb_alive, tcp_alive) {
        (Some(a), _) => a,
        (None, Some(a)) => a,
        (None, None) => listed,
    }
}

/// The features of a device, as far as a living connection tells them.
pub open spec fn features_told(
    b: BackendView,
    serial: Seq<char>,
    tcp_alive: bool,
    usb_alive: bool,
) -> Option<DeviceFeatureSet> {
    match row_of(b.tcp, serial) {
        Some(c) if tcp_alive => Some(c.features),
        _ => match row_of(b.conns, serial) {
            Some(c) if usb_alive => Some(c.features),
            _ => None,
        },
    }
}

/// All devices: those found over USB, then those connected over TCP.
pub open spec fn all_devices(
    b: BackendView,
    serials: Seq<Option<String>>,
    alive: Seq<u64>,
) -> Seq<DeviceView> {
    known_usb_devices(b.conns, alive, serials) + tcp_devices(b.tcp)
}

/// The devices that are connected over TCP.
pub open spec fn tcp_devices(rows: Seq<RowView<Conn>>) -> Seq<DeviceView> {
    rows.map_values(|c: RowView<Conn>| tcp_device(c))
}

/// What becomes of a device that is connected over TCP: whether its connection is kept,
/// and what the client is told.
pub open spec fn connected(before: BackendView, serial: Seq<char>, conn: Conn) -> (
    bool,
    Seq<char>,
    BackendView,
) {
    match row_of(before.tcp, serial) {
        Some(_) => (false, "already connected to "@ + serial, before),
        None => (
            true,
            "connected to "@ + serial,
            BackendView { tcp: before.tcp.push(RowView { serial, value: conn }), ..before },
        ),
    }
}

/// What becomes of a request to disconnect: what the client is told, which devices are
/// gone, and what is left.
pub open spec fn disconnected(
    before: BackendView,
    addr: Seq<char>,
    resolved: Result<Seq<char>, Seq<char>>,
) -> (Result<Seq<char>, Seq<char>>, Seq<Seq<char>>, BackendView) {
    if addr.len() == 0 {
        (
            Ok("disconnected everything ("@ + decimal(before.tcp.len()) + " device(s))"@),
            before.tcp.map_values(|c: RowView<Conn>| c.serial),
            BackendView { tcp: Seq::empty(), ..before },
        )
    } else {
        match resolved {
            Err(e) => (Err(e), Seq::empty(), before),
            Ok(serial) => if row_of(before.tcp, serial) is Some {
                (
                    Ok("disconnected "@ + serial),
                    seq![serial],
                    BackendView { tcp: without_row(before.tcp, serial), ..before },
                )
            } else {
                (Err("no such device "@ + serial), Seq::empty(), before)
            },
        }
    }
}

/// What becomes of a new engine: which one is to be used.
pub open spec fn engine_kept(before: BackendView, serial: Seq<char>, engine: u64) -> (
    u64,
    BackendView,
) {
    match row_of(before.reverse, serial) {
        Some(existing) => (existing, before),
        None => (
            engine,
            BackendView { reverse: before.reverse.push(RowView { serial, value: engine }), ..before },
        ),
    }
}

/// What becomes of the engine of a device that has gone: it is handed back.
pub open spec fn engine_released(before: BackendView, serial: Seq<char>) -> (
    Option<u64>,
    BackendView,
) {
    (
        row_of(before.reverse, serial),
        BackendView { reverse: without_row(before.reverse, serial), ..before },
    )
}

/// The end: all connections are handed back.
pub open spec fn shut_down(before: BackendView) -> (Seq<u64>, BackendView) {
    (
        numbers_of(before.conns) + numbers_of(before.tcp),
        BackendView {
            conns: Seq::empty(),
            tcp: Seq::empty(),
            reverse: Seq::empty(),
            ..before
        },
    )
}

impl DefaultDeviceBackend {
    /// No device has two connections of the same kind, nor two engines.
    pub open spec fn wf(&self) -> bool {
        one_per_device(self@.conns) && one_per_device(self@.tcp) && one_per_device(self@.reverse)
    }

    /// A backend without connections, with the usual key.
    #[must_use]
    pub fn new() -> (r: Self)
        ensures
            r.wf(),
            r@ == fresh_backend(None),
    {
        DefaultDeviceBackend {
            conns: Table::new(),
            tcp_devices: Table::new(),
            reverse: Table::new(),
            private_key: None,
        }
    }

    /// A backend without connections, with the key in this file for every device.
    #[must_use]
    pub fn with_private_key(private_key_path: String) -> (r: Self)
        ensures
            r.wf(),
            r@ == fresh_backend(Some(private_key_path@)),
    {
        DefaultDeviceBackend {
            conns: Table::new(),
            tcp_devices: Table::new(),
            reverse: Table::new(),
            private_key: Some(private_key_path),
        }
    }

    /// The file with the key, which every connection is opened with.
    pub fn private_key(&self) -> (r: Option<String>)
        ensures
            opt_text(r) == self@.private_key,
    {
        match &self.private_key {
            Some(path) => Some(path.clone()),
            None => None,
        }
    }

    /// What the backend can bridge: everything optional.
    pub fn capabilities(&self) -> (r: BackendCapabilities)
        ensures
            r == everything_optional(),
    {
        BackendCapabilities { sync: true, shell_v2: true, reverse: true }
    }

    /// The device's connection over USB, if one is cached.
    pub fn usb_conn(&self, serial: &str) -> (r: Option<u64>)
        ensures
            r == usb_number(self@, serial@),
    {
        match self.conns.get(serial) {
            Some(conn) => Some(conn.number),
            None => None,
        }
    }

    /// The device's connection over TCP, if it is registered, whether or not it lives.
    pub fn registered_conn(&self, serial: &str) -> (r: Option<u64>)
        ensures
            r == number_of(row_of(self@.tcp, serial@)),
    {
        match self.tcp_devices.get(serial) {
            Some(conn) => Some(conn.number),
            None => None,
        }
    }

    /// The device's connection over TCP, if it is registered and lives.
    pub fn tcp_conn(&self, serial: &str, alive: bool) -> (r: Option<u64>)
        ensures
            r == tcp_number(self@, serial@, alive),
    {
        if alive {
            self.registered_conn(serial)
        } else {
            None
        }
    }

    /// How a service on a device is opened: over the device's connection over TCP if
    /// that lives, else over USB. A service that is not bridged is refused.
    pub fn open_local_service(&self, serial: &str, cmd: &ADBLocalCommand, tcp_alive: bool) -> (r:
        Result<ServiceRoute, String>)
        ensures
            route_view(r) == routed(self@, serial@, cmd@, tcp_alive),
    {
        match check_local_service(cmd) {
            Ok(_) => Ok(
                ServiceRoute {
                    over: self.tcp_conn(serial, tcp_alive),
                    service: service_string(cmd),
                },
            ),
            Err(reason) => Err(reason),
        }
    }

    /// Looks a device's connection up. `alive` says whether the cached one lives; a
    /// dead one is dropped, and the device has to be opened.
    pub fn get_or_open(&mut self, serial: &str, alive: bool) -> (r: Lookup)
        requires
            old(self).wf(),
        ensures
            final(self).wf(),
            (r, final(self)@) == looked_up(old(self)@, serial@, alive),
    {
        proof {
            filter_keeps_distinct(self@.conns, |r: RowView<Conn>| r.serial != serial@);
        }
        match self.conns.get(serial) {
            Some(conn) => if alive {
                Lookup::Use(conn.number)
            } else {
                self.conns.remove(serial);
                Lookup::Open
            },
            None => Lookup::Open,
        }
    }

    /// Publishes a connection that was opened. If another one was published in the
    /// meantime and lives, that one is to be used and the new one dropped, so that
    /// all clients share one connection per device.
    pub fn publish(
        &mut self,
        serial: &str,
        conn: u64,
        features: DeviceFeatureSet,
        existing_alive: bool,
    ) -> (r: u64)
        requires
            old(self).wf(),
        ensures
            final(self).wf(),
            (r, final(self)@) == published(
                old(self)@,
                serial@,
                Conn { number: conn, features },
                existing_alive,
            ),
    {
        proof {
            replacing_keeps_one_per_device(
                self@.conns,
                RowView { serial: serial@, value: Conn { number: conn, features } },
            );
        }
        if let Some(existing) = self.conns.get(serial) {
            if existing_alive {
                return existing.number;
            }
        }
        self.conns.remove(serial);
        self.conns.insert(serial, Conn { number: conn, features });
        conn
    }

    /// Drops the device's cached connection, which died on its first use.
    pub fn drop_conn(&mut self, serial: &str)
        requires
            old(self).wf(),
        ensures
            final(self).wf(),
            final(self)@ == without_conn(old(self)@, serial@),
    {
        proof {
            filter_keeps_distinct(self@.conns, |r: RowView<Conn>| r.serial != serial@);
        }
        self.conns.remove(serial);
    }

    /// Whether a device's transport is alive: a connection that is known decides,
    /// whether or not the device is still listed.
    pub fn transport_alive(&self, usb_alive: Option<bool>, tcp_alive: Option<bool>, listed: bool)
        -> (r: bool)
        ensures
            r == lives(usb_alive, tcp_alive, listed),
    {
        match usb_alive {
            Some(a) => a,
            None => match tcp_alive {
                Some(a) => a,
                None => listed,
            },
        }
    }

    /// The device's features as far as a live connection tells them; `None` if the
    /// device has to be opened to learn them.
    pub fn known_features(&self, serial: &str, tcp_alive: bool, usb_alive: bool) -> (r: Option<
        DeviceFeatureSet,
    >)
        ensures
            r == features_told(self@, serial@, tcp_alive, usb_alive),
    {
        if let Some(conn) = self.tcp_devices.get(serial) {
            if tcp_alive {
                return Some(conn.features);
            }
        }
        if let Some(conn) = self.conns.get(serial) {
            if usb_alive {
                return Some(conn.features);
            }
        }
        None
    }

    /// The entries of the USB devices that were found, with the features of those that
    /// have a living connection; `alive` lists the living connections.
    pub fn usb_device_entries(&self, serials: &Vec<Option<String>>, alive: &Vec<u64>) -> (r: Vec<
        DeviceEntry,
    >)
        ensures
            device_views(r@) == known_usb_devices(self@.conns, alive@, serials@),
    {
        let found = enumerate_usb(serials);
        let ghost plain = device_views(found@);
        let ghost all = known_usb_devices(self@.conns, alive@, serials@);
        let mut r: Vec<DeviceEntry> = Vec::new();
        let mut i: usize = 0;
        assert(device_views(r@) =~= all.take(0));
        while i < found.len()
            invariant
                i <= found.len(),
                plain == device_views(found@),
                plain == usb_devices(serials@),
                all == known_usb_devices(self@.conns, alive@, serials@),
                all.len() == plain.len(),
                device_views(r@) == all.take(i as int),
            decreases found.len() - i,
        {
            let ghost before = r@;
            assert(plain[i as int] == found@[i as int]@);
            let d = found[i].clone();
            let d = match self.conns.get(d.serial.as_str()) {
                Some(conn) => if number_listed(alive, conn.number) {
                    d.with_capabilities(conn.features)
                } else {
                    d
                },
                None => d,
            };
            r.push(d);
            proof {
                assert(d@ == all[i as int]);
                assert(device_views(r@) =~= device_views(before).push(all[i as int]));
                assert(all.take(i + 1) =~= all.take(i as int).push(all[i as int]));
            }
            i += 1;
        }
        assert(device_views(r@) =~= all);
        r
    }

    /// All devices: those that were found over USB, then those connected over TCP.
    pub fn enumerate_all(&self, serials: &Vec<Option<String>>, alive: &Vec<u64>) -> (r: Vec<
        DeviceEntry,
    >)
        ensures
            device_views(r@) == all_devices(self@, serials@, alive@),
    {
        let usb = self.usb_device_entries(serials, alive);
        let tcp = self.tcp_device_entries();
        let ghost parts = (usb@, tcp@);
        let r = merge_device_sets(usb, tcp);
        assert(device_views(r@) =~= device_views(parts.0) + device_views(parts.1));
        r
    }

    /// The entries of the devices connected over TCP.
    pub fn tcp_device_entries(&self) -> (r: Vec<DeviceEntry>)
        ensures
            device_views(r@) == tcp_devices(self@.tcp),
    {
        let ghost rows = self@.tcp;
        let ghost all = rows.map_values(|c: RowView<Conn>| tcp_device(c));
        let mut r: Vec<DeviceEntry> = Vec::new();
        let mut i: usize = 0;
        while i < self.tcp_devices.len()
            invariant
                i <= self.tcp_devices@.len(),
                rows == self.tcp_devices@,
                all == rows.map_values(|c: RowView<Conn>| tcp_device(c)),
                device_views(r@) == all.take(i as int),
            decreases self.tcp_devices@.len() - i,
        {
            let ghost before = r@;
            let (serial, conn) = self.tcp_devices.row(i);
            let d = DeviceEntry::new(serial).with_kind(TransportKind::Local).with_capabilities(
                conn.features,
            );
            r.push(d);
            proof {
                assert(d@ == all[i as int]);
                assert(device_views(r@) =~= device_views(before).push(all[i as int]));
                assert(all.take(i + 1) =~= all.take(i as int).push(all[i as int]));
            }
            i += 1;
        }
        assert(device_views(r@) =~= all);
        r
    }

    /// The status for a device that is registered already; `None` if it has to be
    /// connected.
    pub fn connect_status(&self, serial: &str) -> (r: Option<String>)
        ensures
            opt_text(r) == connected_already(self@, serial@),
    {
        match self.tcp_devices.get(serial) {
            Some(_) => Some(concat("already connected to ", serial)),
            None => None,
        }
    }

    /// Registers a device that was connected over TCP. If it was registered in the
    /// meantime, that stays and the new connection is to be dropped.
    pub fn connect(&mut self, serial: &str, conn: u64, features: DeviceFeatureSet) -> (r: (
        bool,
        String,
    ))
        requires
            old(self).wf(),
        ensures
            final(self).wf(),
            (r.0, r.1@, final(self)@) == connected(
                old(self)@,
                serial@,
                Conn { number: conn, features },
            ),
    {
        proof {
            row_found(self@.tcp, serial@);
        }
        match self.tcp_devices.get(serial) {
            Some(_) => (false, concat("already connected to ", serial)),
            None => {
                self.tcp_devices.insert(serial, Conn { number: conn, features });
                (true, concat("connected to ", serial))
            },
        }
    }

    /// Disconnects one device: whether it was registered.
    fn disconnect_one(&mut self, serial: &str) -> (r: bool)
        requires
            old(self).wf(),
        ensures
            final(self).wf(),
            r == (row_of(old(self)@.tcp, serial@) is Some),
            final(self)@ == (if r {
                BackendView { tcp: without_row(old(self)@.tcp, serial@), ..old(self)@ }
            } else {
                old(self)@
            }),
    {
        proof {
            filter_keeps_distinct(self@.tcp, |r: RowView<Conn>| r.serial != serial@);
        }
        match self.tcp_devices.get(serial) {
            Some(_) => {
                self.tcp_devices.remove(serial);
                true
            },
            None => false,
        }
    }

    /// Disconnects the device that the target stands for, or all devices connected over
    /// TCP where the target is empty: the status or the reason why not, and the devices
    /// that are gone. `resolved` is the serial of a target that is not empty.
    pub fn disconnect(&mut self, addr: &str, resolved: Result<String, String>) -> (r: (
        Result<String, String>,
        Vec<String>,
    ))
        requires
            old(self).wf(),
        ensures
            final(self).wf(),
            (result_text(r.0), texts(r.1@), final(self)@) == disconnected(
                old(self)@,
                addr@,
                result_text(resolved),
            ),
    {
        let mut gone: Vec<String> = Vec::new();
        assert(texts(gone@) =~= Seq::empty());
        if addr.unicode_len() == 0 {
            gone = self.tcp_devices.serials();
            assert(texts(gone@).len() == gone.len());
            self.tcp_devices.clear();
            let status = concat3(
                "disconnected everything (",
                decimal_string(gone.len() as u64).as_str(),
                " device(s))",
            );
            return (Ok(status), gone);
        }
        match resolved {
            Err(e) => (Err(e), gone),
            Ok(serial) => {
                if self.disconnect_one(serial.as_str()) {
                    let status = concat("disconnected ", serial.as_str());
                    gone.push(serial);
                    assert(texts(gone@) =~= seq![serial@]);
                    (Ok(status), gone)
                } else {
                    (Err(concat("no such device ", serial.as_str())), gone)
                }
            },
        }
    }

    /// The engine that runs the rules which a device initiates; without one there are
    /// no such rules.
    pub fn reverse_engine(&self, serial: &str) -> (r: Option<u64>)
        ensures
            r == row_of(self@.reverse, serial@),
    {
        self.reverse.get(serial)
    }

    /// Keeps a new engine for a device, unless it has one by now: the engine to use.
    pub fn keep_reverse_engine(&mut self, serial: &str, engine: u64) -> (r: u64)
        requires
            old(self).wf(),
        ensures
            final(self).wf(),
            (r, final(self)@) == engine_kept(old(self)@, serial@, engine),
    {
        proof {
            row_found(self@.reverse, serial@);
        }
        match self.reverse.get(serial) {
            Some(existing) => existing,
            None => {
                self.reverse.insert(serial, engine);
                engine
            },
        }
    }

    /// Drops the engine of a device that has gone, and hands it back. The device is not
    /// opened for it.
    pub fn release_reverse(&mut self, serial: &str) -> (r: Option<u64>)
        requires
            old(self).wf(),
        ensures
            final(self).wf(),
            (r, final(self)@) == engine_released(old(self)@, serial@),
    {
        proof {
            filter_keeps_distinct(self@.reverse, |r: RowView<u64>| r.serial != serial@);
        }
        let engine = self.reverse.get(serial);
        self.reverse.remove(serial);
        engine
    }

    /// Drops all connections and hands their numbers back, those over USB first. The
    /// engines go with them.
    pub fn shutdown(&mut self) -> (r: Vec<u64>)
        requires
            old(self).wf(),
        ensures
            final(self).wf(),
            (r@, final(self)@) == shut_down(old(self)@),
    {
        let mut all: Vec<u64> = Vec::new();
        push_numbers(&mut all, &self.conns);
        push_numbers(&mut all, &self.tcp_devices);
        assert(all@ =~= numbers_of(self@.conns) + numbers_of(self@.tcp));
        self.conns.clear();
        self.tcp_devices.clear();
        self.reverse.clear();
        all
    }
}

/// The reason for the client when a connection over TCP fails.
pub open spec fn connect_failure(serial: Seq<char>, error: Seq<char>) -> Seq<char> {
    "failed to connect to "@ + serial + ": "@ + error
}

/// The reason for the client when a connection over TCP fails.
pub fn connect_failed(serial: &str, error: &str) -> (r: String)
    ensures
        r@ == connect_failure(serial@, error@),
{
    let mut r = concat3("failed to connect to ", serial, ": ");
    r.append(error);
    r
}

/// A device that was connected can be disconnected, and then all is as before.
pub proof fn disconnect_undoes_connect(before: BackendView, new: RowView<Conn>)
    requires
        row_of(before.tcp, new.serial) is None,
    ensures
        ({
            let connected = BackendView { tcp: before.tcp.push(new), ..before };
            &&& row_of(connected.tcp, new.serial) == Some(new.value)
            &&& (BackendView { tcp: without_row(connected.tcp, new.serial), ..connected })
                == before
        }),
{
    dropping_undoes_adding(before.tcp, new);
}

/// A device whose engine was released has no rules that it initiates any more, and other
/// devices keep theirs.
pub proof fn released_devices_list_no_reverse_rules(
    before: BackendView,
    gone: Seq<char>,
    other: Seq<char>,
)
    ensures
        row_of(without_row(before.reverse, gone), gone) is None,
        other != gone ==> row_of(without_row(before.reverse, gone), other) == row_of(
            before.reverse,
            other,
        ),
{
    dropping_leaves_others(before.reverse, gone, other);
}

} // verus!
