//! What the server knows of devices and of the backend that reaches them.
use vstd::prelude::*;

use crate::models::DeviceFeatureSet;
use crate::text::{clone_opt, concat, opt_text, str_eq, texts};

verus! {

/// How a device's transport is reached: the filter behind `adb -d` and `adb -e`.
#[derive(Clone, Copy, Debug, PartialEq, Eq, Structural)]
pub enum TransportKind {
    /// A physically attached USB device, the target of `adb -d`.
    Usb,
    /// An emulator or a device connected over TCP, the target of `adb -e`.
    Local,
}

/// A device's connection state.
#[derive(Clone, Copy, Debug, PartialEq, Eq, Structural)]
pub enum DeviceState {
    /// Ready for commands.
    Device,
    /// Known but not reachable at present.
    Offline,
    /// Connected, but the host key is not authorized yet.
    Unauthorized,
}

impl DeviceState {
    /// The state as replies spell it.
    pub open spec fn wire(self) -> Seq<char> {
        match self {
            DeviceState::Device => "device"@,
            DeviceState::Offline => "offline"@,
            DeviceState::Unauthorized => "unauthorized"@,
        }
    }

    /// The state as replies spell it.
    #[must_use]
    pub fn as_wire(&self) -> (r: &'static str)
        ensures
            r@ == self.wire(),
    {
        match self {
            DeviceState::Device => "device",
            DeviceState::Offline => "offline",
            DeviceState::Unauthorized => "unauthorized",
        }
    }
}

/// One device that clients can see.
#[derive(Debug, PartialEq, Eq)]
#[non_exhaustive]
pub struct DeviceEntry {
    /// The serial, which identifies the device.
    pub serial: String,
    /// The state reported to clients.
    pub state: DeviceState,
    /// The product, for long listings.
    pub product: Option<String>,
    /// The model, for long listings.
    pub model: Option<String>,
    /// The device name, for long listings.
    pub device: Option<String>,
    /// The features from the device's banner; `None` while they are not known.
    pub capabilities: Option<DeviceFeatureSet>,
    /// How the device is reached; `None` if the backend does not say, which
    /// matches every requested kind.
    pub kind: Option<TransportKind>,
}

/// The contents of a [`DeviceEntry`].
pub struct DeviceView {
    pub serial: Seq<char>,
    pub state: DeviceState,
    pub product: Option<Seq<char>>,
    pub model: Option<Seq<char>>,
    pub device: Option<Seq<char>>,
    pub capabilities: Option<DeviceFeatureSet>,
    pub kind: Option<TransportKind>,
}

impl View for DeviceEntry {
    type V = DeviceView;

    open spec fn view(&self) -> DeviceView {
        DeviceView {
            serial: self.serial@,
            state: self.state,
            product: opt_text(self.product),
            model: opt_text(self.model),
            device: opt_text(self.device),
            capabilities: self.capabilities,
            kind: self.kind,
        }
    }
}

impl Clone for DeviceEntry {
    fn clone(&self) -> (r: Self)
        ensures
            r@ == self@,
    {
        DeviceEntry {
            serial: self.serial.clone(),
            state: self.state,
            product: clone_opt(&self.product),
            model: clone_opt(&self.model),
            device: clone_opt(&self.device),
            capabilities: self.capabilities,
            kind: self.kind,
        }
    }
}

/// A ready device of which only the serial is known.
pub open spec fn plain_device(serial: Seq<char>) -> DeviceView {
    DeviceView {
        serial,
        state: DeviceState::Device,
        product: None,
        model: None,
        device: None,
        capabilities: None,
        kind: None,
    }
}

impl DeviceEntry {
    /// A ready device of which only the serial is known.
    #[must_use]
    pub fn new(serial: &str) -> (r: Self)
        ensures
            r@ == plain_device(serial@),
    {
        DeviceEntry {
            serial: serial.to_owned(),
            state: DeviceState::Device,
            product: None,
            model: None,
            device: None,
            capabilities: None,
            kind: None,
        }
    }

    /// The entry with the features from the device's banner.
    #[must_use]
    pub fn with_capabilities(self, capabilities: DeviceFeatureSet) -> (r: Self)
        ensures
            r@ == (DeviceView { capabilities: Some(capabilities), ..self@ }),
    {
        let mut r = self;
        r.capabilities = Some(capabilities);
        r
    }

    /// The entry with its transport kind.
    #[must_use]
    pub fn with_kind(self, kind: TransportKind) -> (r: Self)
        ensures
            r@ == (DeviceView { kind: Some(kind), ..self@ }),
    {
        let mut r = self;
        r.kind = Some(kind);
        r
    }
}

/// Something that happened to a device's transport.
#[derive(Debug, PartialEq, Eq)]
pub enum LifecycleEvent {
    /// The transport of this serial is gone for good: unplugged or disconnected.
    Disconnected(String),
    /// The connection of this serial died, but the device is expected back: its
    /// daemon restarts.
    TransportReset(String),
}

/// The contents of a [`LifecycleEvent`].
pub enum LifecycleView {
    Disconnected(Seq<char>),
    TransportReset(Seq<char>),
}

impl View for LifecycleEvent {
    type V = LifecycleView;

    open spec fn view(&self) -> LifecycleView {
        match self {
            LifecycleEvent::Disconnected(s) => LifecycleView::Disconnected(s@),
            LifecycleEvent::TransportReset(s) => LifecycleView::TransportReset(s@),
        }
    }
}

impl Clone for LifecycleEvent {
    fn clone(&self) -> (r: Self)
        ensures
            r@ == self@,
    {
        match self {
            LifecycleEvent::Disconnected(s) => LifecycleEvent::Disconnected(s.clone()),
            LifecycleEvent::TransportReset(s) => LifecycleEvent::TransportReset(s.clone()),
        }
    }
}

/// What a backend can bridge beyond plain shell and TCP services.
#[derive(Clone, Copy, Debug, PartialEq, Eq, Structural)]
pub struct BackendCapabilities {
    /// File transfer sessions.
    pub sync: bool,
    /// Shell sessions with separate streams and an exit code.
    pub shell_v2: bool,
    /// Forwarding that the device initiates.
    pub reverse: bool,
}

impl Default for BackendCapabilities {
    /// Nothing optional.
    fn default() -> (r: Self)
        ensures
            r == (BackendCapabilities { sync: false, shell_v2: false, reverse: false }),
    {
        BackendCapabilities { sync: false, shell_v2: false, reverse: false }
    }
}

/// The optional requests to a backend.
#[derive(Clone, Copy, Debug, PartialEq, Eq, Structural)]
pub enum OptionalCall {
    Sync,
    ShellV2,
    Reverse,
    Connect,
    Disconnect,
}

impl OptionalCall {
    /// The name of the request in a refusal.
    pub open spec fn name(self) -> Seq<char> {
        match self {
            OptionalCall::Sync => "sync"@,
            OptionalCall::ShellV2 => "shell_v2"@,
            OptionalCall::Reverse => "reverse"@,
            OptionalCall::Connect => "connect"@,
            OptionalCall::Disconnect => "disconnect"@,
        }
    }
}

/// Why a backend that does not implement `call` refuses it.
pub open spec fn unsupported_text(call: OptionalCall) -> Seq<char> {
    call.name() + " not supported by this backend"@
}

/// Why a backend that does not implement `call` refuses it.
pub fn unsupported_reason(call: OptionalCall) -> (r: String)
    ensures
        r@ == unsupported_text(call),
{
    let name = match call {
        OptionalCall::Sync => "sync",
        OptionalCall::ShellV2 => "shell_v2",
        OptionalCall::Reverse => "reverse",
        OptionalCall::Connect => "connect",
        OptionalCall::Disconnect => "disconnect",
    };
    concat(name, " not supported by this backend")
}

/// The contents of a list of devices.
pub open spec fn device_views(v: Seq<DeviceEntry>) -> Seq<DeviceView> {
    v.map_values(|d: DeviceEntry| d@)
}

/// The serials of a list of devices, in its order.
pub open spec fn serials_of(devices: Seq<DeviceView>) -> Seq<Seq<char>> {
    devices.map_values(|d: DeviceView| d.serial)
}

/// The first device with this serial.
pub open spec fn device_with_serial(
    devices: Seq<DeviceView>,
    serial: Seq<char>,
) -> Option<DeviceView>
    decreases devices.len(),
{
    if devices.len() == 0 {
        None
    } else if devices[0].serial == serial {
        Some(devices[0])
    } else {
        device_with_serial(devices.skip(1), serial)
    }
}

/// A device with the serial is found exactly if the serial is listed.
pub proof fn device_found_iff_listed(devices: Seq<DeviceView>, serial: Seq<char>)
    ensures
        device_with_serial(devices, serial) is Some <==> serials_of(devices).contains(serial),
        device_with_serial(devices, serial) matches Some(d) ==> d.serial == serial
            && devices.contains(d),
    decreases devices.len(),
{
    let s = serials_of(devices);
    if devices.len() > 0 {
        let rest = devices.skip(1);
        assert(serials_of(rest) =~= s.skip(1));
        device_found_iff_listed(rest, serial);
        if devices[0].serial == serial {
            assert(s[0] == serial);
            assert(devices.contains(devices[0]));
        } else {
            if s.contains(serial) {
                let i = choose|i: int| 0 <= i < s.len() && s[i] == serial;
                assert(s.skip(1)[i - 1] == serial);
            }
            if s.skip(1).contains(serial) {
                let i = choose|i: int| 0 <= i < s.skip(1).len() && s.skip(1)[i] == serial;
                assert(s[i + 1] == serial);
            }
            if let Some(d) = device_with_serial(rest, serial) {
                let i = choose|i: int| 0 <= i < rest.len() && rest[i] == d;
                assert(devices[i + 1] == d);
            }
        }
    }
}

/// The first device with this serial.
pub fn find_device<'a>(devices: &'a Vec<DeviceEntry>, serial: &str) -> (r: Option<&'a DeviceEntry>)
    ensures
        match r {
            Some(d) => device_with_serial(device_views(devices@), serial@) == Some(d@),
            None => device_with_serial(device_views(devices@), serial@) is None,
        },
{
    let ghost all = device_views(devices@);
    let mut i: usize = 0;
    assert(all.skip(0) =~= all);
    while i < devices.len()
        invariant
            i <= devices.len(),
            all == device_views(devices@),
            device_with_serial(all, serial@) == device_with_serial(all.skip(i as int), serial@),
        decreases devices.len() - i,
    {
        assert(all.skip(i as int)[0] == devices@[i as int]@);
        assert(all.skip(i as int).skip(1) =~= all.skip(i + 1));
        if str_eq(devices[i].serial.as_str(), serial) {
            return Some(&devices[i]);
        }
        i += 1;
    }
    None
}

/// Whether a device with this serial is listed: what a backend that does not
/// watch its connections answers when asked whether a transport is alive.
pub fn transport_alive(devices: &Vec<DeviceEntry>, serial: &str) -> (r: bool)
    ensures
        r == serials_of(device_views(devices@)).contains(serial@),
{
    proof {
        device_found_iff_listed(device_views(devices@), serial@);
    }
    find_device(devices, serial).is_some()
}

/// The serials of a list of devices, in its order.
pub fn collect_serials(devices: &Vec<DeviceEntry>) -> (r: Vec<String>)
    ensures
        texts(r@) == serials_of(device_views(devices@)),
{
    let mut r: Vec<String> = Vec::new();
    let mut i: usize = 0;
    while i < devices.len()
        invariant
            i <= devices.len(),
            texts(r@) == serials_of(device_views(devices@)).take(i as int),
        decreases devices.len() - i,
    {
        let ghost before = r@;
        r.push(devices[i].serial.clone());
        proof {
            let all = serials_of(device_views(devices@));
            assert(texts(r@) =~= texts(before).push(all[i as int]));
            assert(all.take(i + 1) =~= all.take(i as int).push(all[i as int]));
        }
        i += 1;
    }
    assert(texts(r@) =~= serials_of(device_views(devices@)));
    r
}

/// A refusal names the request that is not implemented.
pub proof fn refusals_name_the_request()
    ensures
        unsupported_text(OptionalCall::Sync) == "sync not supported by this backend"@,
        unsupported_text(OptionalCall::ShellV2) == "shell_v2 not supported by this backend"@,
        unsupported_text(OptionalCall::Reverse) == "reverse not supported by this backend"@,
        unsupported_text(OptionalCall::Connect) == "connect not supported by this backend"@,
        unsupported_text(OptionalCall::Disconnect) == "disconnect not supported by this backend"@,
{
    reveal_strlit("sync");
    reveal_strlit("shell_v2");
    reveal_strlit("reverse");
    reveal_strlit("connect");
    reveal_strlit("disconnect");
    reveal_strlit(" not supported by this backend");
    reveal_strlit("sync not supported by this backend");
    reveal_strlit("shell_v2 not supported by this backend");
    reveal_strlit("reverse not supported by this backend");
    reveal_strlit("connect not supported by this backend");
    reveal_strlit("disconnect not supported by this backend");
    assert(unsupported_text(OptionalCall::Sync) =~= "sync not supported by this backend"@);
    assert(unsupported_text(OptionalCall::ShellV2) =~= "shell_v2 not supported by this backend"@);
    assert(unsupported_text(OptionalCall::Reverse) =~= "reverse not supported by this backend"@);
    assert(unsupported_text(OptionalCall::Connect) =~= "connect not supported by this backend"@);
    assert(unsupported_text(OptionalCall::Disconnect)
        =~= "disconnect not supported by this backend"@);
}

/// The serials of a list stand in its order, one for each device.
pub proof fn serials_are_those_of_the_devices(devices: Seq<DeviceView>, i: int)
    requires
        0 <= i < devices.len(),
    ensures
        serials_of(devices).len() == devices.len(),
        serials_of(devices)[i] == devices[i].serial,
        serials_of(devices).contains(devices[i].serial),
        device_with_serial(devices, devices[i].serial) is Some,
        device_with_serial(devices, devices[i].serial)->Some_0.serial == devices[i].serial,
{
    assert(serials_of(devices)[i] == devices[i].serial);
    device_found_iff_listed(devices, devices[i].serial);
}

/// A device of which only the serial is known is ready, and nothing else is made up of it:
/// neither what it is, nor what it can do, nor how it is connected.
pub proof fn plain_devices_are_ready(serial: Seq<char>)
    ensures
        plain_device(serial).serial == serial,
        plain_device(serial).state == DeviceState::Device,
        plain_device(serial).product is None,
        plain_device(serial).model is None,
        plain_device(serial).device is None,
        plain_device(serial).capabilities is None,
        plain_device(serial).kind is None,
{
}

} // verus!
