//! The frontend: from a client's request to what the server does next.
//!
//! The frontend holds what outlives a connection (capabilities, forwarding rules
//! and the disconnect policy) and decides; whoever owns the sockets and the
//! backend carries the decisions out.
use vstd::prelude::*;

use crate::models::{ADBLocalCommand, DeviceFeatureSet, LocalCommandView, LocalSocketSpec};
use crate::number::{decimal, decimal_string, parse_unsigned, parsed_unsigned};
use crate::order::strictly_sorted;
use crate::protocol::{
    fail, fail_reply, okay, okay_twice, okay_twice_with_port, okay_twice_with_port_reply, okay_word,
};
use crate::server::backend::{
    device_found_iff_listed, device_views, device_with_serial, find_device, serials_of,
    BackendCapabilities, DeviceEntry, DeviceView, LifecycleEvent,
};
use crate::server::capabilities::{
    default_capabilities, device_caps, device_features, device_supports, negotiated, CapabilitiesView,
    KillPolicy, ServerCapabilities,
};
use crate::server::forward::{
    all_tasks, has_rule, listing, parse_forward, parse_killforward, parsed_forward, tasks_of,
    without_serial, ForwardRegistry, ForwardRequest, RuleView,
};
use crate::server::forward_handle::{release, release_all, Released};
use crate::server::listing::{device_listing, format_devices};
use crate::server::on_disconnect::{
    action_fits, handle_disconnect, rules_after, DisconnectAction, OnDisconnect,
};
use crate::server::request::{
    parse_local_request, parse_request, parsed_local_request, parsed_request, HostRequest,
    HostRequestView, LocalRequest, LocalRequestView, ReverseRequest, ReverseView,
};
use crate::server::service::{
    control_service, is_control_service, ForwardService, ForwardServiceView, SubService,
    SubServiceView,
};
use crate::server::step::{data_reply, reply_with, Step, StepView};
use crate::server::transport::{
    resolve, resolved, select_tport, select_transport, tport_selection, transport_selection,
    Selection, SelectionView, Selector, SelectorView,
};
use crate::server::wait_for::{parsed_wait, start_wait};
use crate::text::{
    after_prefix, concat, concat3, has_prefix, join_strings, joined, opt_str, starts_with, str_eq,
    strip_prefix, texts,
};

verus! {

/// The port that servers listen on unless told otherwise.
pub const DEFAULT_PORT: u16 = 5037;

/// How long the server may spend on learning a device's features, in milliseconds.
pub const DEVICE_CAPS_TIMEOUT_MS: u64 = 2_000;

/// The address of a socket.
#[derive(Clone, Copy, Debug, PartialEq, Eq)]
pub enum SocketAddress {
    V4 { ip: [u8; 4], port: u16 },
    V6 { ip: [u8; 16], port: u16, flowinfo: u32, scope_id: u32 },
}

/// Whether an address is the one that servers listen on unless told otherwise:
/// `127.0.0.1` and [`DEFAULT_PORT`].
pub open spec fn is_default_address(a: SocketAddress) -> bool {
    a matches SocketAddress::V4 { ip, port } && ip@ == seq![127u8, 0, 0, 1] && port
        == DEFAULT_PORT
}

/// Builds an [`AdbServerFrontend`].
#[derive(Debug, PartialEq, Eq)]
pub struct AdbServerFrontendBuilder {
    addr: SocketAddress,
    caps: ServerCapabilities,
    on_disconnect: OnDisconnect,
}

/// The server's state across connections.
pub struct AdbServerFrontend {
    addr: SocketAddress,
    caps: ServerCapabilities,
    forwards: ForwardRegistry,
    on_disconnect: OnDisconnect,
}

/// The contents of an [`AdbServerFrontend`].
pub struct FrontendView {
    pub addr: SocketAddress,
    pub caps: CapabilitiesView,
    pub rules: Map<u16, RuleView>,
    pub on_disconnect: OnDisconnect,
}

impl View for AdbServerFrontendBuilder {
    type V = FrontendView;

    closed spec fn view(&self) -> FrontendView {
        FrontendView {
            addr: self.addr,
            caps: self.caps@,
            rules: Map::empty(),
            on_disconnect: self.on_disconnect,
        }
    }
}

impl View for AdbServerFrontend {
    type V = FrontendView;

    closed spec fn view(&self) -> FrontendView {
        FrontendView {
            addr: self.addr,
            caps: self.caps@,
            rules: self.forwards@,
            on_disconnect: self.on_disconnect,
        }
    }
}

impl AdbServerFrontendBuilder {
    /// Sets the address to listen on.
    #[must_use]
    pub fn addr(self, addr: SocketAddress) -> (r: Self)
        ensures
            r@ == (FrontendView { addr, ..self@ }),
    {
        let mut r = self;
        r.addr = addr;
        r
    }

    /// Sets the advertised capabilities.
    #[must_use]
    pub fn capabilities(self, caps: ServerCapabilities) -> (r: Self)
        ensures
            r@ == (FrontendView { caps: caps@, ..self@ }),
    {
        let mut r = self;
        r.caps = caps;
        r
    }

    /// Sets what happens to a device's rules when it disconnects.
    #[must_use]
    pub fn on_disconnect(self, policy: OnDisconnect) -> (r: Self)
        ensures
            r@ == (FrontendView { on_disconnect: policy, ..self@ }),
    {
        let mut r = self;
        r.on_disconnect = policy;
        r
    }

    /// The frontend, with no rules yet.
    #[must_use]
    pub fn build(self) -> (r: AdbServerFrontend)
        ensures
            r.wf(),
            r@ == self@,
    {
        AdbServerFrontend {
            addr: self.addr,
            caps: self.caps,
            forwards: ForwardRegistry::new(),
            on_disconnect: self.on_disconnect,
        }
    }
}

/// The service to open on a device for a client's request, or the reason why the
/// request is refused. The two services with a framing of their own are accepted
/// only if the server advertises them and the device can serve them.
pub open spec fn local_command(
    features: Seq<Seq<char>>,
    service: Seq<char>,
    device: Option<DeviceFeatureSet>,
) -> Result<LocalCommandView, Seq<char>> {
    let refused = Err::<LocalCommandView, Seq<char>>("service not supported: "@ + service);
    if service == "sync:"@ {
        if features.contains("sync_v2"@) && device_supports("sync_v2"@, device) {
            Ok(LocalCommandView::Raw(service))
        } else {
            refused
        }
    } else if has_prefix(service, "shell,"@) {
        if features.contains("shell_v2"@) && device_supports("shell_v2"@, device) {
            Ok(LocalCommandView::Raw(service))
        } else {
            refused
        }
    } else if has_prefix(service, "shell:"@) {
        Ok(LocalCommandView::ShellCommand(after_prefix(service, "shell:"@), Seq::empty()))
    } else if has_prefix(service, "tcp:"@) {
        match parsed_unsigned(after_prefix(service, "tcp:"@), u16::MAX as nat) {
            Some(p) => Ok(LocalCommandView::TcpConnect(p as u16)),
            None => Err("invalid tcp port: "@ + service),
        }
    } else if control_service(service) {
        Ok(LocalCommandView::Raw(service))
    } else {
        refused
    }
}

/// Whether the device's features decide on the request.
pub open spec fn asks_capabilities(service: Seq<char>) -> bool {
    service == "sync:"@ || has_prefix(service, "shell,"@)
}

/// A step, and the forwarding rules after it.
pub struct Outcome {
    pub step: StepView,
    pub rules: Map<u16, RuleView>,
}

/// A step that leaves the rules as they are.
pub open spec fn same_rules(rules: Map<u16, RuleView>, step: StepView) -> Outcome {
    Outcome { step, rules }
}

/// A request on forwarding rules for a device.
pub open spec fn forward_outcome(
    rules: Map<u16, RuleView>,
    serial: Seq<char>,
    f: ForwardServiceView,
) -> Outcome {
    match f {
        ForwardServiceView::List => same_rules(rules, StepView::Reply(data_reply(listing(rules)))),
        ForwardServiceView::KillAll => Outcome {
            step: StepView::Stop {
                listeners: all_tasks(rules),
                reply: okay_word() + okay_word(),
            },
            rules: Map::empty(),
        },
        ForwardServiceView::Add(arg) => match parsed_forward(arg) {
            None => same_rules(rules, StepView::Reply(fail_reply("bad forward: "@ + arg))),
            Some(request) => if request.norebind && rules.contains_key(request.local.port()) {
                same_rules(rules, StepView::Reply(fail_reply("cannot rebind existing socket"@)))
            } else {
                same_rules(rules, StepView::Bind { serial, request })
            },
        },
        ForwardServiceView::Kill(arg) => match LocalSocketSpec::parsed(arg) {
            None => same_rules(rules, StepView::Reply(fail_reply("bad killforward: "@ + arg))),
            Some(local) => if rules.contains_key(local.port()) {
                Outcome {
                    step: StepView::Stop {
                        listeners: seq![rules[local.port()].task],
                        reply: okay_word() + okay_word(),
                    },
                    rules: rules.remove(local.port()),
                }
            } else {
                same_rules(
                    rules,
                    StepView::Reply(
                        fail_reply(
                            "listener 'tcp:"@ + decimal(local.port() as nat) + "' not found"@,
                        ),
                    ),
                )
            },
        },
    }
}

/// A choice of device as a step.
pub open spec fn selection_step(s: SelectionView) -> StepView {
    match s.serial {
        Some(serial) => StepView::Select { serial, reply: s.reply },
        None => StepView::Reply(s.reply),
    }
}

/// The state that is reported for a serial: that of the device, or `offline` for a
/// device that is not listed.
pub open spec fn reported_state(devices: Seq<DeviceView>, serial: Seq<char>) -> Seq<char> {
    match device_with_serial(devices, serial) {
        Some(d) => d.state.wire(),
        None => "offline"@,
    }
}

/// A request on the device with this serial.
pub open spec fn sub_outcome(
    rules: Map<u16, RuleView>,
    devices: Seq<DeviceView>,
    serial: Seq<char>,
    sub: SubServiceView,
) -> Outcome {
    match sub {
        SubServiceView::GetState => same_rules(
            rules,
            StepView::Reply(data_reply(reported_state(devices, serial))),
        ),
        SubServiceView::GetSerialno => same_rules(rules, StepView::Reply(data_reply(serial))),
        SubServiceView::Features => same_rules(rules, StepView::DeviceFeatures(serial)),
        SubServiceView::Forward(f) => if (f is Add || f is Kill) && !serials_of(devices).contains(
            serial,
        ) {
            same_rules(rules, StepView::Reply(fail_reply("device not found"@)))
        } else {
            forward_outcome(rules, serial, f)
        },
        SubServiceView::Transport => same_rules(
            rules,
            selection_step(transport_selection(SelectorView::Serial(serial), devices)),
        ),
        SubServiceView::WaitFor(arg) => same_rules(
            rules,
            StepView::Wait(parsed_wait(arg, Some(serial))),
        ),
        SubServiceView::Unknown(s) => same_rules(
            rules,
            StepView::Reply(fail_reply("unknown host-serial sub-service: "@ + s)),
        ),
    }
}

/// The serial that a request on a device is about: a serial that is spelled out
/// is taken as it is, listed or not.
pub open spec fn pinned_serial(
    selector: SelectorView,
    devices: Seq<DeviceView>,
) -> Result<Seq<char>, Seq<char>> {
    match selector {
        SelectorView::Serial(s) => Ok(s),
        _ => resolved(selector, devices),
    }
}

/// Whether the device list is needed for the answer.
pub open spec fn needs_devices(request: HostRequestView) -> bool {
    match request {
        HostRequestView::OnDevice(selector, _) => !(selector is BadId),
        HostRequestView::Devices(_) => true,
        HostRequestView::Transport(selector) => !(selector is BadId),
        HostRequestView::Tport(selector) => !(selector is BadId),
        HostRequestView::Forward(f) => f is Add || f is Kill,
        HostRequestView::GetState => true,
        _ => false,
    }
}

/// The answer to a request, given the device list where it is needed.
pub open spec fn answered(
    f: FrontendView,
    devices: Seq<DeviceView>,
    request: HostRequestView,
) -> Outcome {
    let rules = f.rules;
    match request {
        HostRequestView::OnDevice(selector, sub) => match pinned_serial(selector, devices) {
            Ok(serial) => sub_outcome(rules, devices, serial, sub),
            Err(reason) => same_rules(rules, StepView::Reply(fail_reply(reason))),
        },
        HostRequestView::Version => same_rules(
            rules,
            StepView::Reply(data_reply(f.caps.version_hex)),
        ),
        HostRequestView::Features => same_rules(
            rules,
            StepView::Reply(data_reply(joined(f.caps.features, ","@))),
        ),
        HostRequestView::Devices(long) => same_rules(
            rules,
            StepView::Reply(data_reply(device_listing(devices, long))),
        ),
        HostRequestView::TrackDevices(long) => same_rules(
            rules,
            StepView::Track { long, reply: okay_word() },
        ),
        HostRequestView::Kill => match f.caps.kill_policy {
            KillPolicy::Reject => same_rules(
                rules,
                StepView::Reply(fail_reply("kill not permitted"@)),
            ),
            KillPolicy::Shutdown => same_rules(rules, StepView::Shutdown(okay_word())),
        },
        HostRequestView::Transport(selector) => same_rules(
            rules,
            selection_step(transport_selection(selector, devices)),
        ),
        HostRequestView::Tport(selector) => same_rules(
            rules,
            selection_step(tport_selection(selector, devices)),
        ),
        HostRequestView::Forward(fs) => if fs is Add || fs is Kill {
            match resolved(SelectorView::Kind(None), devices) {
                Ok(serial) => forward_outcome(rules, serial, fs),
                Err(reason) => same_rules(rules, StepView::Reply(fail_reply(reason))),
            }
        } else {
            forward_outcome(rules, Seq::empty(), fs)
        },
        HostRequestView::GetState => match resolved(SelectorView::Kind(None), devices) {
            Ok(serial) => sub_outcome(rules, devices, serial, SubServiceView::GetState),
            Err(reason) => same_rules(rules, StepView::Reply(fail_reply(reason))),
        },
        HostRequestView::ReconnectOffline => same_rules(rules, StepView::Reply(okay_word())),
        HostRequestView::WaitFor(arg) => same_rules(
            rules,
            StepView::Wait(parsed_wait(arg, None)),
        ),
        HostRequestView::Connect(addr) => same_rules(rules, StepView::Connect(addr)),
        HostRequestView::Disconnect(addr) => same_rules(rules, StepView::Disconnect(addr)),
        HostRequestView::Refused(reason) => same_rules(rules, StepView::Reply(fail_reply(reason))),
    }
}

/// The contents of an optional device list.
pub open spec fn opt_devices(devices: Option<&Vec<DeviceEntry>>) -> Option<Seq<DeviceView>> {
    match devices {
        Some(v) => Some(device_views(v@)),
        None => None,
    }
}

/// The answer to a service string, or the demand for the device list.
pub open spec fn host_outcome(
    f: FrontendView,
    service: Seq<char>,
    devices: Option<Seq<DeviceView>>,
) -> Outcome {
    let request = parsed_request(service);
    match devices {
        Some(d) => answered(f, d, request),
        None => if needs_devices(request) {
            same_rules(f.rules, StepView::NeedDevices)
        } else {
            answered(f, Seq::empty(), request)
        },
    }
}

/// What the server has learned of the chosen device's features.
#[derive(Clone, Copy, Debug, PartialEq, Eq, Structural)]
pub enum Learned {
    /// It has not asked.
    NotAsked,
    /// It has asked, and this is the answer; `None` if the device did not say in
    /// time.
    Answer(Option<DeviceFeatureSet>),
}

/// The answer to the request that follows the choice of a device, or the demand
/// for the device's features.
pub open spec fn local_outcome(
    f: FrontendView,
    serial: Seq<char>,
    local: Seq<char>,
    learned: Learned,
) -> Outcome {
    let rules = f.rules;
    match parsed_local_request(local) {
        LocalRequestView::Forward(fs) => forward_outcome(rules, serial, fs),
        LocalRequestView::Features => same_rules(rules, StepView::DeviceFeatures(serial)),
        LocalRequestView::Version => same_rules(
            rules,
            StepView::Reply(data_reply(f.caps.version_hex)),
        ),
        LocalRequestView::Reverse(r) => match r {
            ReverseView::Refused(reason) => same_rules(
                rules,
                StepView::Reply(fail_reply(reason)),
            ),
            _ => same_rules(rules, StepView::Reverse(r)),
        },
        LocalRequestView::Service(service) => if asks_capabilities(service) && learned is NotAsked {
            same_rules(rules, StepView::NeedCapabilities)
        } else {
            let device = match learned {
                Learned::Answer(d) => d,
                Learned::NotAsked => None,
            };
            match local_command(f.caps.features, service, device) {
                Ok(cmd) => same_rules(rules, StepView::Open(cmd)),
                Err(reason) => same_rules(rules, StepView::Reject(reason)),
            }
        },
    }
}

/// What a request on a connection gives, the first one or the one that follows the choice
/// of a device.
pub open spec fn client_outcome(
    f: FrontendView,
    selected: Option<Seq<char>>,
    text: Seq<char>,
    devices: Option<Seq<DeviceView>>,
    learned: Learned,
) -> Outcome {
    match selected {
        None => host_outcome(f, text, devices),
        Some(serial) => local_outcome(f, serial, text, learned),
    }
}

/// The frontend after its features were widened by what the backend implements.
pub open spec fn after_negotiation(
    before: FrontendView,
    backend: BackendCapabilities,
) -> FrontendView {
    FrontendView {
        caps: CapabilitiesView {
            features: negotiated(before.caps.features, backend),
            ..before.caps
        },
        ..before
    }
}

/// What registering the rule of a listener gives: the listener to stop, the reply, and the
/// frontend afterwards.
pub open spec fn rule_added(
    before: FrontendView,
    serial: Seq<char>,
    request: ForwardRequest,
    port: u16,
    task: u64,
) -> (Option<u64>, Seq<u8>, FrontendView) {
    let rule = RuleView { remote: request.remote, serial, task };
    (
        if before.rules.contains_key(port) {
            Some(before.rules[port].task)
        } else {
            None
        },
        if request.local_is_zero {
            okay_twice_with_port_reply(port)
        } else {
            okay_word() + okay_word()
        },
        FrontendView { rules: before.rules.insert(port, rule), ..before },
    )
}

/// The reply with the features that hold for a device.
pub open spec fn features_reply(f: FrontendView, device: Option<DeviceFeatureSet>) -> Seq<u8> {
    data_reply(joined(device_features(f.caps.features, device), ","@))
}

/// The reply for a listener that could not be bound.
pub open spec fn bind_failure(error: Seq<char>) -> Seq<u8> {
    fail_reply("cannot bind listener: "@ + error)
}

/// The reply for a service that could not be opened on the device.
pub open spec fn open_failure(error: Seq<char>) -> Seq<u8> {
    fail_reply("open session failed: "@ + error)
}

/// A frontend at this address, with nothing else set.
pub open spec fn fresh_frontend(addr: SocketAddress) -> FrontendView {
    FrontendView {
        addr,
        caps: default_capabilities(),
        rules: Map::empty(),
        on_disconnect: OnDisconnect::ReleaseAll,
    }
}

/// A choice of device as a step.
fn step_of_selection(s: Selection) -> (r: Step)
    ensures
        r@ == selection_step(s@),
{
    match s.serial {
        Some(serial) => Step::Select { serial, reply: s.reply },
        None => Step::Reply(s.reply),
    }
}

impl AdbServerFrontend {
    /// The table of rules is in order. Every frontend that the methods make has
    /// this property.
    pub closed spec fn wf(&self) -> bool {
        self.forwards.wf()
    }

    /// A builder with the default address, the default capabilities and the default
    /// policy.
    pub fn builder() -> (r: AdbServerFrontendBuilder)
        ensures
            is_default_address(r@.addr),
            r@ == fresh_frontend(r@.addr),
    {
        AdbServerFrontendBuilder {
            addr: SocketAddress::V4 { ip: [127, 0, 0, 1], port: DEFAULT_PORT },
            caps: ServerCapabilities::default(),
            on_disconnect: OnDisconnect::default(),
        }
    }

    /// The address to listen on.
    #[must_use]
    pub fn addr(&self) -> (r: SocketAddress)
        ensures
            r == self@.addr,
    {
        self.addr
    }

    /// The advertised capabilities.
    pub fn capabilities(&self) -> (r: &ServerCapabilities)
        ensures
            r@ == self@.caps,
    {
        &self.caps
    }

    /// The disconnect policy.
    pub fn on_disconnect(&self) -> (r: OnDisconnect)
        ensures
            r == self@.on_disconnect,
    {
        self.on_disconnect
    }

    /// Widens the advertised features by what the backend implements. To be called
    /// once, before the first client is served.
    pub fn negotiate(&mut self, backend: BackendCapabilities)
        requires
            old(self).wf(),
        ensures
            final(self).wf(),
            final(self)@ == after_negotiation(old(self)@, backend),
    {
        let caps = self.caps.clone();
        self.caps = caps.negotiated_with(backend);
    }

    /// The service to open on a device for a client's request, or the reason why
    /// the request is refused.
    pub fn map_local_service(&self, service: &str, device: Option<&DeviceFeatureSet>) -> (r: Result<
        ADBLocalCommand,
        String,
    >)
        ensures
            match r {
                Ok(cmd) => local_command(self@.caps.features, service@, device_caps(device)) == Ok::<
                    LocalCommandView,
                    Seq<char>,
                >(cmd@),
                Err(reason) => local_command(self@.caps.features, service@, device_caps(device))
                    == Err::<LocalCommandView, Seq<char>>(reason@),
            },
    {
        if str_eq(service, "sync:") {
            return if self.caps.device_has_feature("sync_v2", device) {
                Ok(ADBLocalCommand::Raw(service.to_owned()))
            } else {
                Err(concat("service not supported: ", service))
            };
        }
        if starts_with(service, "shell,") {
            return if self.caps.device_has_feature("shell_v2", device) {
                Ok(ADBLocalCommand::Raw(service.to_owned()))
            } else {
                Err(concat("service not supported: ", service))
            };
        }
        if let Some(cmd) = strip_prefix(service, "shell:") {
            let args: Vec<String> = Vec::new();
            assert(texts(args@) =~= Seq::empty());
            return Ok(ADBLocalCommand::ShellCommand(cmd.to_owned(), args));
        }
        if let Some(port) = strip_prefix(service, "tcp:") {
            return match parse_unsigned(port, u16::MAX as u64) {
                Some(p) => Ok(ADBLocalCommand::TcpConnect(p as u16)),
                None => Err(concat("invalid tcp port: ", service)),
            };
        }
        if is_control_service(service) {
            return Ok(ADBLocalCommand::Raw(service.to_owned()));
        }
        Err(concat("service not supported: ", service))
    }

    /// Answers a request on forwarding rules for a device.
    fn serve_forward_family(&mut self, serial: &str, f: ForwardService) -> (r: Step)
        requires
            old(self).wf(),
        ensures
            final(self).wf(),
            r@ == forward_outcome(old(self)@.rules, serial@, f@).step,
            final(self)@ == (FrontendView {
                rules: forward_outcome(old(self)@.rules, serial@, f@).rules,
                ..old(self)@
            }),
    {
        match f {
            ForwardService::List => Step::Reply(reply_with(self.forwards.list().as_str())),
            ForwardService::KillAll => {
                let listeners = self.forwards.remove_all();
                Step::Stop { listeners, reply: okay_twice() }
            },
            ForwardService::Add(arg) => match parse_forward(arg.as_str()) {
                Err(reason) => Step::Reply(fail(reason.as_str())),
                Ok(request) => if request.norebind && self.forwards.contains(
                    request.local.tcp_port(),
                ) {
                    Step::Reply(fail("cannot rebind existing socket"))
                } else {
                    Step::Bind { serial: serial.to_owned(), request }
                },
            },
            ForwardService::Kill(arg) => match parse_killforward(arg.as_str()) {
                Err(reason) => Step::Reply(fail(reason.as_str())),
                Ok(local) => {
                    let ghost rules = self.forwards@;
                    let port = local.tcp_port();
                    match self.forwards.remove(port) {
                        Some(task) => {
                            let mut listeners: Vec<u64> = Vec::new();
                            listeners.push(task);
                            assert(listeners@ =~= seq![task]);
                            Step::Stop { listeners, reply: okay_twice() }
                        },
                        None => {
                            assert(rules.remove(port) =~= rules);
                            let reason = concat3(
                                "listener 'tcp:",
                                decimal_string(port as u64).as_str(),
                                "' not found",
                            );
                            Step::Reply(fail(reason.as_str()))
                        },
                    }
                },
            },
        }
    }

    /// Answers a request on the device with this serial.
    fn dispatch_host_serial(&mut self, devices: &Vec<DeviceEntry>, serial: &str, sub: SubService)
        -> (r: Step)
        requires
            old(self).wf(),
        ensures
            final(self).wf(),
            r@ == sub_outcome(old(self)@.rules, device_views(devices@), serial@, sub@).step,
            final(self)@ == (FrontendView {
                rules: sub_outcome(old(self)@.rules, device_views(devices@), serial@, sub@).rules,
                ..old(self)@
            }),
    {
        proof {
            device_found_iff_listed(device_views(devices@), serial@);
        }
        match sub {
            SubService::GetState => {
                let state = match find_device(devices, serial) {
                    Some(d) => d.state.as_wire(),
                    None => "offline",
                };
                Step::Reply(reply_with(state))
            },
            SubService::GetSerialno => Step::Reply(reply_with(serial)),
            SubService::Features => Step::DeviceFeatures(serial.to_owned()),
            SubService::Forward(f) => {
                let per_rule = match &f {
                    ForwardService::Add(_) => true,
                    ForwardService::Kill(_) => true,
                    _ => false,
                };
                if per_rule && find_device(devices, serial).is_none() {
                    Step::Reply(fail("device not found"))
                } else {
                    self.serve_forward_family(serial, f)
                }
            },
            SubService::Transport => step_of_selection(
                select_transport(&Selector::Serial(serial.to_owned()), devices),
            ),
            SubService::WaitFor(arg) => Step::Wait(
                start_wait(arg.as_str(), Some(serial.to_owned())),
            ),
            SubService::Unknown(s) => {
                let reason = concat("unknown host-serial sub-service: ", s.as_str());
                Step::Reply(fail(reason.as_str()))
            },
        }
    }

    /// Answers a request, given the device list where it is needed.
    fn answer(&mut self, devices: &Vec<DeviceEntry>, request: HostRequest) -> (r: Step)
        requires
            old(self).wf(),
        ensures
            final(self).wf(),
            r@ == answered(old(self)@, device_views(devices@), request@).step,
            final(self)@ == (FrontendView {
                rules: answered(old(self)@, device_views(devices@), request@).rules,
                ..old(self)@
            }),
    {
        match request {
            HostRequest::OnDevice(selector, sub) => match selector {
                Selector::Serial(serial) => self.dispatch_host_serial(
                    devices,
                    serial.as_str(),
                    sub,
                ),
                other => match resolve(&other, devices) {
                    Ok(serial) => self.dispatch_host_serial(devices, serial.as_str(), sub),
                    Err(reason) => Step::Reply(fail(reason)),
                },
            },
            HostRequest::Version => Step::Reply(reply_with(self.caps.version_hex())),
            HostRequest::Features => Step::Reply(reply_with(self.caps.features_csv().as_str())),
            HostRequest::Devices(long) => Step::Reply(
                reply_with(format_devices(devices, long).as_str()),
            ),
            HostRequest::TrackDevices(long) => Step::Track { long, reply: okay() },
            HostRequest::Kill => match self.caps.kill_policy() {
                KillPolicy::Reject => Step::Reply(fail("kill not permitted")),
                KillPolicy::Shutdown => Step::Shutdown(okay()),
            },
            HostRequest::Transport(selector) => step_of_selection(
                select_transport(&selector, devices),
            ),
            HostRequest::Tport(selector) => step_of_selection(select_tport(&selector, devices)),
            HostRequest::Forward(f) => {
                let per_rule = match &f {
                    ForwardService::Add(_) => true,
                    ForwardService::Kill(_) => true,
                    _ => false,
                };
                if per_rule {
                    match resolve(&Selector::Kind(None), devices) {
                        Ok(serial) => self.serve_forward_family(serial.as_str(), f),
                        Err(reason) => Step::Reply(fail(reason)),
                    }
                } else {
                    self.serve_forward_family("", f)
                }
            },
            HostRequest::GetState => match resolve(&Selector::Kind(None), devices) {
                Ok(serial) => self.dispatch_host_serial(
                    devices,
                    serial.as_str(),
                    SubService::GetState,
                ),
                Err(reason) => Step::Reply(fail(reason)),
            },
            HostRequest::ReconnectOffline => Step::Reply(okay()),
            HostRequest::WaitFor(arg) => Step::Wait(start_wait(arg.as_str(), None)),
            HostRequest::Connect(addr) => Step::Connect(addr),
            HostRequest::Disconnect(addr) => Step::Disconnect(addr),
            HostRequest::Refused(reason) => Step::Reply(fail(reason.as_str())),
        }
    }

    /// Answers the first request on a connection. The device list is asked for only
    /// where the answer depends on it: the caller then gets it and asks again.
    pub fn dispatch_host_service(&mut self, service: &str, devices: Option<&Vec<DeviceEntry>>)
        -> (r: Step)
        requires
            old(self).wf(),
        ensures
            final(self).wf(),
            r@ == host_outcome(old(self)@, service@, opt_devices(devices)).step,
            final(self)@ == (FrontendView {
                rules: host_outcome(old(self)@, service@, opt_devices(devices)).rules,
                ..old(self)@
            }),
    {
        let request = parse_request(service);
        match devices {
            Some(d) => self.answer(d, request),
            None => {
                let needed = match &request {
                    HostRequest::OnDevice(Selector::BadId, _) => false,
                    HostRequest::OnDevice(_, _) => true,
                    HostRequest::Devices(_) => true,
                    HostRequest::Transport(Selector::BadId) => false,
                    HostRequest::Transport(_) => true,
                    HostRequest::Tport(Selector::BadId) => false,
                    HostRequest::Tport(_) => true,
                    HostRequest::Forward(ForwardService::Add(_)) => true,
                    HostRequest::Forward(ForwardService::Kill(_)) => true,
                    HostRequest::GetState => true,
                    _ => false,
                };
                if needed {
                    Step::NeedDevices
                } else {
                    let none: Vec<DeviceEntry> = Vec::new();
                    assert(device_views(none@) =~= Seq::empty());
                    self.answer(&none, request)
                }
            },
        }
    }

    /// Answers the request that follows the choice of the device `serial`. The
    /// device's features are asked for only where the answer depends on them.
    pub fn dispatch_local_service(&mut self, serial: &str, local: &str, learned: Learned) -> (r:
        Step)
        requires
            old(self).wf(),
        ensures
            final(self).wf(),
            r@ == local_outcome(old(self)@, serial@, local@, learned).step,
            final(self)@ == (FrontendView {
                rules: local_outcome(old(self)@, serial@, local@, learned).rules,
                ..old(self)@
            }),
    {
        match parse_local_request(local) {
            LocalRequest::Forward(f) => self.serve_forward_family(serial, f),
            LocalRequest::Features => Step::DeviceFeatures(serial.to_owned()),
            LocalRequest::Version => Step::Reply(reply_with(self.caps.version_hex())),
            LocalRequest::Reverse(r) => match r {
                ReverseRequest::Refused(reason) => Step::Reply(
                    fail(reason.as_str()),
                ),
                other => Step::Reverse(other),
            },
            LocalRequest::Service(service) => {
                let asks = str_eq(service.as_str(), "sync:") || starts_with(
                    service.as_str(),
                    "shell,",
                );
                let device: Option<DeviceFeatureSet> = match learned {
                    Learned::Answer(d) => d,
                    Learned::NotAsked => {
                        if asks {
                            return Step::NeedCapabilities;
                        }
                        None
                    },
                };
                match self.map_local_service(service.as_str(), device.as_ref()) {
                    Ok(cmd) => Step::Open(cmd),
                    Err(reason) => Step::Reject(reason),
                }
            },
        }
    }

    /// Answers a request on a connection, the first one or the one that follows the
    /// choice of a device. A client that has hung up gets no answer.
    pub fn handle_client(
        &mut self,
        selected: Option<&str>,
        request: Option<&str>,
        devices: Option<&Vec<DeviceEntry>>,
        learned: Learned,
    ) -> (r: Option<Step>)
        requires
            old(self).wf(),
        ensures
            final(self).wf(),
            match request {
                None => r is None && final(self)@ == old(self)@,
                Some(text) => {
                    let outcome = client_outcome(
                        old(self)@,
                        opt_str(selected),
                        text@,
                        opt_devices(devices),
                        learned,
                    );
                    &&& r matches Some(step)
                    &&& step@ == outcome.step
                    &&& final(self)@ == (FrontendView { rules: outcome.rules, ..old(self)@ })
                },
            },
    {
        match (request, selected) {
            (None, _) => None,
            (Some(text), None) => Some(self.dispatch_host_service(text, devices)),
            (Some(text), Some(serial)) => Some(self.dispatch_local_service(serial, text, learned)),
        }
    }

    /// Registers the rule of a listener that was bound, under the port that it got.
    /// The listener of a rule that is replaced is handed back. The client is told
    /// the port if it had left the choice to the system.
    pub fn finish_forward_add(
        &mut self,
        serial: &str,
        request: &ForwardRequest,
        port: u16,
        task: u64,
    ) -> (r: (Option<u64>, Vec<u8>))
        requires
            old(self).wf(),
        ensures
            final(self).wf(),
            (r.0, r.1@, final(self)@) == rule_added(old(self)@, serial@, *request, port, task),
    {
        let replaced = self.forwards.insert(port, request.remote, serial.to_owned(), task);
        let reply = if request.local_is_zero {
            okay_twice_with_port(port)
        } else {
            okay_twice()
        };
        (replaced, reply)
    }

    /// The reply with the features that hold for a device, separated by commas.
    pub fn device_features_reply(&self, device: Option<&DeviceFeatureSet>) -> (r: Vec<u8>)
        ensures
            r@ == features_reply(self@, device_caps(device)),
    {
        let features = self.caps.intersected_with_device(device);
        reply_with(join_strings(&features, ",").as_str())
    }

    /// Handles a lifecycle event by the disconnect policy.
    pub fn handle_disconnect(&mut self, event: &LifecycleEvent) -> (r:
        DisconnectAction)
        requires
            old(self).wf(),
        ensures
            final(self).wf(),
            final(self)@ == (FrontendView {
                rules: rules_after(
                    old(self)@.on_disconnect,
                    old(self)@.rules,
                    event@,
                ),
                ..old(self)@
            }),
            action_fits(
                old(self)@.on_disconnect,
                old(self)@.rules,
                event@,
                r,
            ),
    {
        handle_disconnect(self.on_disconnect, &mut self.forwards, event)
    }

    /// Releases the rules of one device.
    pub fn release(&mut self, serial: &str) -> (r: Released)
        requires
            old(self).wf(),
        ensures
            final(self).wf(),
            final(self)@ == (FrontendView {
                rules: without_serial(old(self)@.rules, serial@),
                ..old(self)@
            }),
            r.listeners@ == tasks_of(old(self)@.rules, serial@),
            texts(r.reverse@) == seq![serial@],
    {
        release(&mut self.forwards, serial)
    }

    /// Releases all rules.
    pub fn release_all(&mut self) -> (r: Released)
        requires
            old(self).wf(),
        ensures
            final(self).wf(),
            final(self)@ == (FrontendView { rules: Map::empty(), ..old(self)@ }),
            r.listeners@ == all_tasks(old(self)@.rules),
            strictly_sorted(texts(r.reverse@)),
            forall|s: Seq<char>|
                texts(r.reverse@).contains(s)
                    <==> has_rule(old(self)@.rules, s),
    {
        release_all(&mut self.forwards)
    }
}

/// The reply for a listener that could not be bound.
pub fn bind_failed_reply(error: &str) -> (r: Vec<u8>)
    ensures
        r@ == bind_failure(error@),
{
    fail(concat("cannot bind listener: ", error).as_str())
}

/// The reply for a service that could not be opened on the device.
pub fn open_failed_reply(error: &str) -> (r: Vec<u8>)
    ensures
        r@ == open_failure(error@),
{
    fail(concat("open session failed: ", error).as_str())
}

} // verus!
