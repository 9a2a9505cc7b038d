//! The commands: how a device is chosen, what is said before and after a request.
use vstd::prelude::*;

use crate::text::{clone_opt, concat, concat3, join_strings, joined, opt_text, texts};

verus! {

/// The version of this package.
pub fn long_version() -> (r: &'static str)
    ensures
        r@ == "3.2.2"@,
{
    "3.2.2"
}

/// The line that tells the version.
pub fn version_line() -> (r: String)
    ensures
        r@ == "adboost_cli "@ + "3.2.2"@,
{
    concat("adboost_cli ", long_version())
}

/// What is logged where nothing else was asked for.
pub open spec fn log_level(debug: bool) -> Seq<char> {
    if debug {
        "debug"@
    } else {
        "info"@
    }
}

/// What is logged where nothing else was asked for.
pub fn default_log_filter(debug: bool) -> (r: &'static str)
    ensures
        r@ == log_level(debug),
{
    if debug {
        "debug"
    } else {
        "info"
    }
}

/// Something to say.
#[derive(Debug, PartialEq, Eq)]
pub enum Line {
    /// To the log.
    Log(String),
    /// To the output.
    Print(String),
}

/// The contents of a [`Line`].
pub enum LineView {
    Log(Seq<char>),
    Print(Seq<char>),
}

impl View for Line {
    type V = LineView;

    open spec fn view(&self) -> LineView {
        match self {
            Line::Log(t) => LineView::Log(t@),
            Line::Print(t) => LineView::Print(t@),
        }
    }
}

/// The contents of a list of lines.
pub open spec fn lines_view(v: Seq<Line>) -> Seq<LineView> {
    v.map_values(|l: Line| l@)
}

/// Lines to the log.
pub open spec fn logged(v: Seq<Seq<char>>) -> Seq<LineView> {
    v.map_values(|t: Seq<char>| LineView::Log(t))
}

/// One line to the log.
fn log_line(text: String) -> (r: Vec<Line>)
    ensures
        lines_view(r@) == seq![LineView::Log(text@)],
{
    let mut r: Vec<Line> = Vec::new();
    r.push(Line::Log(text));
    assert(lines_view(r@) =~= seq![LineView::Log(r@[0]->Log_0@)]);
    r
}

/// One line to the output.
fn print_line(text: String) -> (r: Vec<Line>)
    ensures
        lines_view(r@) == seq![LineView::Print(text@)],
{
    let mut r: Vec<Line> = Vec::new();
    r.push(Line::Print(text));
    assert(lines_view(r@) =~= seq![LineView::Print(r@[0]->Print_0@)]);
    r
}

/// No line.
fn no_lines() -> (r: Vec<Line>)
    ensures
        lines_view(r@) == Seq::<LineView>::empty(),
{
    let r: Vec<Line> = Vec::new();
    assert(lines_view(r@) =~= Seq::<LineView>::empty());
    r
}

/// The texts as lines to the log.
fn log_all(v: &Vec<String>) -> (r: Vec<Line>)
    ensures
        lines_view(r@) == logged(texts(v@)),
{
    let mut r: Vec<Line> = Vec::new();
    let mut i: usize = 0;
    assert(lines_view(r@) =~= logged(texts(v@).take(0)));
    while i < v.len()
        invariant
            i <= v@.len(),
            lines_view(r@) == logged(texts(v@).take(i as int)),
        decreases v@.len() - i,
    {
        let ghost before = lines_view(r@);
        r.push(Line::Log(v[i].clone()));
        assert(lines_view(r@) =~= before.push(LineView::Log(v@[i as int]@)));
        assert(logged(texts(v@).take(i + 1)) =~= logged(texts(v@).take(i as int)).push(
            LineView::Log(v@[i as int]@),
        ));
        i += 1;
    }
    assert(texts(v@).take(i as int) =~= texts(v@));
    r
}

// ---------------------------------------------------------------------------------
// Through a server
// ---------------------------------------------------------------------------------

/// Any loopback address, and the one that stands for all.
pub open spec fn own_server(ip: [u8; 4]) -> bool {
    ip[0] == 127 || (ip[0] == 0 && ip[1] == 0 && ip[2] == 0 && ip[3] == 0)
}

/// Whether the server at the address is this machine's own, and so may have to be
/// started.
pub fn is_own_server(ip: [u8; 4]) -> (r: bool)
    ensures
        r == own_server(ip),
{
    ip[0] == 127 || (ip[0] == 0 && ip[1] == 0 && ip[2] == 0 && ip[3] == 0)
}

/// Which device a server is asked for.
#[derive(Debug, PartialEq, Eq)]
pub enum ProxyChoice {
    /// The one with this transport id.
    TransportId(u32),
    /// The one with this serial.
    Serial(String),
    /// The only one.
    Autodetect,
}

/// Whether this is the device that is asked for: a transport id comes before a serial.
pub open spec fn chosen_device(
    transport_id: Option<u32>,
    serial: Option<Seq<char>>,
    choice: ProxyChoice,
) -> bool {
    match (transport_id, serial) {
        (Some(id), _) => choice == ProxyChoice::TransportId(id),
        (None, Some(s)) => choice matches ProxyChoice::Serial(t) && t@ == s,
        (None, None) => choice is Autodetect,
    }
}

/// Chooses a device.
pub fn choose_proxy_device(transport_id: Option<u32>, serial: &Option<String>) -> (r: ProxyChoice)
    ensures
        chosen_device(transport_id, opt_text(*serial), r),
{
    match (transport_id, serial) {
        (Some(id), _) => ProxyChoice::TransportId(id),
        (None, Some(s)) => ProxyChoice::Serial(s.clone()),
        (None, None) => ProxyChoice::Autodetect,
    }
}

/// A command that goes through a server, with the server and the device to use.
#[derive(Debug, PartialEq, Eq)]
pub struct ProxyCommand<T> {
    /// The server's address.
    pub ip: [u8; 4],
    /// The server's port.
    pub port: u16,
    /// The serial of the device.
    pub serial: Option<String>,
    /// The transport id of the device.
    pub transport_id: Option<u32>,
    /// The command.
    pub command: T,
}

/// What is to be done before a command that goes through a server.
#[derive(Debug, PartialEq, Eq)]
pub struct ProxyPlan {
    /// Whether the server may have to be started.
    pub start_server: bool,
    /// The device to ask for.
    pub device: ProxyChoice,
}

impl<T> ProxyCommand<T> {
    /// Plans the command.
    pub fn plan(&self) -> (r: ProxyPlan)
        ensures
            r.start_server == own_server(self.ip),
            chosen_device(self.transport_id, opt_text(self.serial), r.device),
    {
        ProxyPlan {
            start_server: is_own_server(self.ip),
            device: choose_proxy_device(self.transport_id, &self.serial),
        }
    }
}

/// The two ends of a forward in the order in which a device is asked for one.
pub open spec fn forward_ends(local: Seq<char>, remote: Seq<char>) -> (Seq<char>, Seq<char>) {
    (remote, local)
}

/// The two ends of a forward in the order in which a device is asked for one: the
/// command line has the local end first, the request the remote end.
pub fn forward_library_args(local: String, remote: String) -> (r: (String, String))
    ensures
        (r.0@, r.1@) == forward_ends(local@, remote@),
{
    (remote, local)
}

/// The line on the features of a server.
pub open spec fn host_features_text(features: Seq<Seq<char>>) -> Seq<char> {
    "Available host features: "@ + joined(features, ","@)
}

/// The line on the features of a server.
pub fn host_features_line(features: &Vec<String>) -> (r: String)
    ensures
        r@ == host_features_text(texts(features@)),
{
    concat("Available host features: ", join_strings(features, ",").as_str())
}

/// A command on a device that a server is asked for.
#[derive(Debug, PartialEq, Eq)]
pub enum LocalDeviceCommand {
    HostFeatures,
    Logcat { path: Option<String> },
    Forward(ForwardCommand),
    Reverse(ReverseCommand),
}

/// A command on rules that the host initiates.
#[derive(Debug, PartialEq, Eq)]
pub enum ForwardCommand {
    Add { local: String, remote: String },
    Remove { local: String },
    RemoveAll,
}

/// A command on rules that the device initiates.
#[derive(Debug, PartialEq, Eq)]
pub enum ReverseCommand {
    Add { remote: String, local: String },
    Remove { local: String },
    RemoveAll,
}

/// A call on a device, with its arguments in their order.
#[derive(Debug, PartialEq, Eq)]
pub enum LocalCall {
    HostFeatures,
    /// Copies the log to this file, or to the output.
    Logs(Option<String>),
    ForwardRemoveAll,
    ForwardRemove(String),
    Forward(String, String),
    ReverseRemoveAll,
    ReverseRemove(String),
    Reverse(String, String),
}

/// The contents of a [`LocalCall`].
pub enum LocalCallView {
    HostFeatures,
    Logs(Option<Seq<char>>),
    ForwardRemoveAll,
    ForwardRemove(Seq<char>),
    Forward(Seq<char>, Seq<char>),
    ReverseRemoveAll,
    ReverseRemove(Seq<char>),
    Reverse(Seq<char>, Seq<char>),
}

impl View for LocalCall {
    type V = LocalCallView;

    open spec fn view(&self) -> LocalCallView {
        match self {
            LocalCall::HostFeatures => LocalCallView::HostFeatures,
            LocalCall::Logs(p) => LocalCallView::Logs(opt_text(*p)),
            LocalCall::ForwardRemoveAll => LocalCallView::ForwardRemoveAll,
            LocalCall::ForwardRemove(l) => LocalCallView::ForwardRemove(l@),
            LocalCall::Forward(a, b) => LocalCallView::Forward(a@, b@),
            LocalCall::ReverseRemoveAll => LocalCallView::ReverseRemoveAll,
            LocalCall::ReverseRemove(l) => LocalCallView::ReverseRemove(l@),
            LocalCall::Reverse(a, b) => LocalCallView::Reverse(a@, b@),
        }
    }
}

/// The call that a command on a device stands for.
pub open spec fn local_call_view(command: LocalDeviceCommand) -> LocalCallView {
    match command {
        LocalDeviceCommand::HostFeatures => LocalCallView::HostFeatures,
        LocalDeviceCommand::Logcat { path } => LocalCallView::Logs(opt_text(path)),
        LocalDeviceCommand::Forward(ForwardCommand::RemoveAll) => LocalCallView::ForwardRemoveAll,
        LocalDeviceCommand::Forward(ForwardCommand::Remove { local }) => {
            LocalCallView::ForwardRemove(local@)
        },
        LocalDeviceCommand::Forward(ForwardCommand::Add { local, remote }) => {
            LocalCallView::Forward(remote@, local@)
        },
        LocalDeviceCommand::Reverse(ReverseCommand::RemoveAll) => LocalCallView::ReverseRemoveAll,
        LocalDeviceCommand::Reverse(ReverseCommand::Remove { local }) => {
            LocalCallView::ReverseRemove(local@)
        },
        LocalDeviceCommand::Reverse(ReverseCommand::Add { remote, local }) => {
            LocalCallView::Reverse(remote@, local@)
        },
    }
}

/// The call that a command stands for. A new rule is asked for with the remote end
/// first, whichever side initiates it.
pub fn handle_local_commands(command: LocalDeviceCommand) -> (r: LocalCall)
    ensures
        r@ == local_call_view(command),
{
    match command {
        LocalDeviceCommand::HostFeatures => LocalCall::HostFeatures,
        LocalDeviceCommand::Logcat { path } => LocalCall::Logs(path),
        LocalDeviceCommand::Forward(f) => match f {
            ForwardCommand::RemoveAll => LocalCall::ForwardRemoveAll,
            ForwardCommand::Remove { local } => LocalCall::ForwardRemove(local),
            ForwardCommand::Add { local, remote } => {
                let (first, second) = forward_library_args(local, remote);
                LocalCall::Forward(first, second)
            },
        },
        LocalDeviceCommand::Reverse(c) => match c {
            ReverseCommand::RemoveAll => LocalCall::ReverseRemoveAll,
            ReverseCommand::Remove { local } => LocalCall::ReverseRemove(local),
            ReverseCommand::Add { remote, local } => LocalCall::Reverse(remote, local),
        },
    }
}

/// A request to a server.
#[derive(Debug, PartialEq, Eq)]
pub enum HostCommand {
    Version,
    Kill,
    Devices { long: bool },
    TrackDevices,
    Pair { address: String, code: String },
    Connect { address: String },
    Disconnect { address: String },
    MdnsCheck,
    MdnsServices,
    ServerStatus,
    WaitForDevice { transport: WaitTransport },
}

/// Over what a device is waited for.
#[derive(Clone, Copy, Debug, PartialEq, Eq, Structural)]
pub enum WaitTransport {
    Any,
    Usb,
    Local,
}

/// A call on a server, with its arguments in their order.
#[derive(Debug, PartialEq, Eq)]
pub enum HostCall {
    Version,
    Kill,
    Devices,
    DevicesLong,
    /// Tells of every device that changes.
    TrackDevices,
    /// Pairs the device at this address, with this code.
    Pair(String, String),
    Connect(String),
    Disconnect(String),
    /// Asks whether devices are found on the network.
    MdnsCheck,
    MdnsServices,
    ServerStatus,
    /// Waits until a device is there over this.
    WaitForDevice(WaitTransport),
}

/// The contents of a [`HostCall`].
pub enum HostCallView {
    Version,
    Kill,
    Devices,
    DevicesLong,
    TrackDevices,
    Pair(Seq<char>, Seq<char>),
    Connect(Seq<char>),
    Disconnect(Seq<char>),
    MdnsCheck,
    MdnsServices,
    ServerStatus,
    WaitForDevice(WaitTransport),
}

impl View for HostCall {
    type V = HostCallView;

    open spec fn view(&self) -> HostCallView {
        match self {
            HostCall::Version => HostCallView::Version,
            HostCall::Kill => HostCallView::Kill,
            HostCall::Devices => HostCallView::Devices,
            HostCall::DevicesLong => HostCallView::DevicesLong,
            HostCall::TrackDevices => HostCallView::TrackDevices,
            HostCall::Pair(address, code) => HostCallView::Pair(address@, code@),
            HostCall::Connect(address) => HostCallView::Connect(address@),
            HostCall::Disconnect(address) => HostCallView::Disconnect(address@),
            HostCall::MdnsCheck => HostCallView::MdnsCheck,
            HostCall::MdnsServices => HostCallView::MdnsServices,
            HostCall::ServerStatus => HostCallView::ServerStatus,
            HostCall::WaitForDevice(transport) => HostCallView::WaitForDevice(*transport),
        }
    }
}

/// The first call that a command stands for.
pub open spec fn first_host_call(command: HostCommand) -> HostCallView {
    match command {
        HostCommand::Version => HostCallView::Version,
        HostCommand::Kill => HostCallView::Kill,
        HostCommand::Devices { long } => if long {
            HostCallView::DevicesLong
        } else {
            HostCallView::Devices
        },
        HostCommand::TrackDevices => HostCallView::TrackDevices,
        HostCommand::Pair { address, code } => HostCallView::Pair(address@, code@),
        HostCommand::Connect { address } => HostCallView::Connect(address@),
        HostCommand::Disconnect { address } => HostCallView::Disconnect(address@),
        HostCommand::MdnsCheck => HostCallView::MdnsCheck,
        HostCommand::MdnsServices => HostCallView::MdnsServices,
        HostCommand::ServerStatus => HostCallView::ServerStatus,
        HostCommand::WaitForDevice { transport } => HostCallView::WaitForDevice(transport),
    }
}

/// The calls that a command stands for, in their order: one, but for the question how
/// devices are found on the network, which is followed by one for the server's status.
pub open spec fn host_call_views(command: HostCommand) -> Seq<HostCallView> {
    if command is MdnsCheck {
        seq![HostCallView::MdnsCheck, HostCallView::ServerStatus]
    } else {
        seq![first_host_call(command)]
    }
}

/// The calls that a command stands for, in their order.
pub fn host_calls(command: &HostCommand) -> (r: Vec<HostCall>)
    ensures
        r@.map_values(|c: HostCall| c@) == host_call_views(*command),
{
    let first = match command {
        HostCommand::Version => HostCall::Version,
        HostCommand::Kill => HostCall::Kill,
        HostCommand::Devices { long } => if *long {
            HostCall::DevicesLong
        } else {
            HostCall::Devices
        },
        HostCommand::TrackDevices => HostCall::TrackDevices,
        HostCommand::Pair { address, code } => HostCall::Pair(address.clone(), code.clone()),
        HostCommand::Connect { address } => HostCall::Connect(address.clone()),
        HostCommand::Disconnect { address } => HostCall::Disconnect(address.clone()),
        HostCommand::MdnsCheck => HostCall::MdnsCheck,
        HostCommand::MdnsServices => HostCall::MdnsServices,
        HostCommand::ServerStatus => HostCall::ServerStatus,
        HostCommand::WaitForDevice { transport } => HostCall::WaitForDevice(*transport),
    };
    let mut r: Vec<HostCall> = Vec::new();
    r.push(first);
    if let HostCommand::MdnsCheck = command {
        r.push(HostCall::ServerStatus);
    }
    assert(r@.map_values(|c: HostCall| c@) =~= host_call_views(*command));
    r
}

/// How a server finds devices on the network.
#[derive(Clone, Copy, Debug, PartialEq, Eq, Structural)]
pub enum MdnsBackend {
    Unknown,
    Bonjour,
    OpenScreen,
}

/// What a server replied to a call.
#[derive(Debug, PartialEq, Eq)]
pub enum HostReply {
    /// Nothing but that it was done.
    Done,
    /// A text.
    Text(String),
    /// A list.
    List(Vec<String>),
    /// Whether it finds devices on the network.
    Check(bool),
    /// Its status, in which it tells how it finds devices on the network.
    Status { text: String, mdns_backend: MdnsBackend },
}

/// The line before the request.
pub open spec fn host_announcement(command: HostCommand) -> Option<Seq<char>> {
    match command {
        HostCommand::Devices { long } => if long {
            Some("List of devices attached (extended)"@)
        } else {
            Some("List of devices attached"@)
        },
        HostCommand::TrackDevices => Some("Live list of devices attached"@),
        HostCommand::MdnsServices => Some("List of discovered mdns services"@),
        HostCommand::WaitForDevice { transport } => Some("waiting for device to be connected..."@),
        _ => None,
    }
}

/// The line before the request.
pub fn announce_host_command(command: &HostCommand) -> (r: Option<String>)
    ensures
        opt_text(r) == host_announcement(*command),
{
    match command {
        HostCommand::Devices { long } => if *long {
            Some("List of devices attached (extended)".to_owned())
        } else {
            Some("List of devices attached".to_owned())
        },
        HostCommand::TrackDevices => Some("Live list of devices attached".to_owned()),
        HostCommand::MdnsServices => Some("List of discovered mdns services".to_owned()),
        HostCommand::WaitForDevice { transport } => Some(
            "waiting for device to be connected...".to_owned(),
        ),
        _ => None,
    }
}

/// What is said of how a server finds devices.
pub open spec fn mdns_text(check: bool, backend: MdnsBackend) -> Seq<char> {
    match backend {
        MdnsBackend::Unknown => "unknown mdns backend..."@,
        MdnsBackend::Bonjour => if check {
            "mdns daemon version [Bonjour]"@
        } else {
            "ERROR: mdns daemon unavailable"@
        },
        MdnsBackend::OpenScreen => "mdns daemon version [Openscreen discovery 0.0.0]"@,
    }
}

/// What is said of how a server finds devices.
fn mdns_line(check: bool, backend: MdnsBackend) -> (r: &'static str)
    ensures
        r@ == mdns_text(check, backend),
{
    match backend {
        MdnsBackend::Unknown => "unknown mdns backend...",
        MdnsBackend::Bonjour => if check {
            "mdns daemon version [Bonjour]"
        } else {
            "ERROR: mdns daemon unavailable"
        },
        MdnsBackend::OpenScreen => "mdns daemon version [Openscreen discovery 0.0.0]",
    }
}

/// The lines after the reply to a call.
pub open spec fn host_report_one(command: HostCommand, reply: HostReply) -> Seq<LineView> {
    match (command, reply) {
        (HostCommand::Version, HostReply::Text(v)) => seq![
            LineView::Log("Android Debug Bridge version "@ + v@),
            LineView::Log("Package version "@ + "3.2.2"@ + "-rust"@),
        ],
        (HostCommand::Devices { long }, HostReply::List(v)) => logged(texts(v@)),
        (HostCommand::TrackDevices, HostReply::Text(d)) => seq![LineView::Log(d@)],
        (HostCommand::Pair { address, code }, HostReply::Done) => seq![
            LineView::Log("Paired device "@ + address@),
        ],
        (HostCommand::Connect { address }, HostReply::Done) => seq![
            LineView::Log("Connected to "@ + address@),
        ],
        (HostCommand::Disconnect { address }, HostReply::Done) => seq![
            LineView::Log("Disconnected "@ + address@),
        ],
        (HostCommand::MdnsServices, HostReply::List(v)) => logged(texts(v@)),
        (HostCommand::ServerStatus, HostReply::Status { text, mdns_backend }) => seq![
            LineView::Log(text@),
        ],
        _ => Seq::empty(),
    }
}

/// The lines after the replies to the calls that a command stands for. While devices are
/// tracked, each that is told of is a reply.
pub open spec fn host_report(command: HostCommand, replies: Seq<HostReply>) -> Seq<LineView> {
    if replies.len() == 1 {
        host_report_one(command, replies[0])
    } else if replies.len() == 2 {
        match (command, replies[0], replies[1]) {
            (
                HostCommand::MdnsCheck,
                HostReply::Check(check),
                HostReply::Status { text, mdns_backend },
            ) => seq![LineView::Log(mdns_text(check, mdns_backend))],
            _ => Seq::empty(),
        }
    } else {
        Seq::empty()
    }
}

/// The lines after the reply to a call.
fn report_host_reply(command: &HostCommand, reply: &HostReply) -> (r: Vec<Line>)
    ensures
        lines_view(r@) == host_report_one(*command, *reply),
{
    match (command, reply) {
        (HostCommand::Version, HostReply::Text(v)) => {
            let mut r: Vec<Line> = Vec::new();
            r.push(Line::Log(concat("Android Debug Bridge version ", v.as_str())));
            r.push(Line::Log(concat3("Package version ", long_version(), "-rust")));
            assert(lines_view(r@) =~= host_report_one(*command, *reply));
            r
        },
        (HostCommand::Devices { long }, HostReply::List(v)) => log_all(v),
        (HostCommand::TrackDevices, HostReply::Text(d)) => log_line(d.clone()),
        (HostCommand::Pair { address, code }, HostReply::Done) => log_line(
            concat("Paired device ", address.as_str()),
        ),
        (HostCommand::Connect { address }, HostReply::Done) => log_line(
            concat("Connected to ", address.as_str()),
        ),
        (HostCommand::Disconnect { address }, HostReply::Done) => log_line(
            concat("Disconnected ", address.as_str()),
        ),
        (HostCommand::MdnsServices, HostReply::List(v)) => log_all(v),
        (HostCommand::ServerStatus, HostReply::Status { text, mdns_backend }) => log_line(
            text.clone(),
        ),
        _ => no_lines(),
    }
}

/// The lines after the replies to the calls that a command stands for.
pub fn handle_host_commands(command: &HostCommand, replies: &Vec<HostReply>) -> (r: Vec<Line>)
    ensures
        lines_view(r@) == host_report(*command, replies@),
{
    if replies.len() == 1 {
        report_host_reply(command, &replies[0])
    } else if replies.len() == 2 {
        match (command, &replies[0], &replies[1]) {
            (
                HostCommand::MdnsCheck,
                HostReply::Check(check),
                HostReply::Status { text, mdns_backend },
            ) => log_line(mdns_line(*check, *mdns_backend).to_owned()),
            _ => no_lines(),
        }
    } else {
        no_lines()
    }
}

// ---------------------------------------------------------------------------------
// On a device
// ---------------------------------------------------------------------------------

/// A request to a device.
#[derive(Debug, PartialEq, Eq)]
pub enum DeviceCommand {
    Shell { commands: Vec<String> },
    Pull { source: String, destination: String },
    Stat { path: String },
    StatExtended { path: String },
    Reboot { mode: String },
    Push { filename: String, path: String },
    Root,
    Run { package: String, activity: String },
    Install { path: String, user: Option<String> },
    Uninstall { package: String, user: Option<String> },
    Framebuffer { path: String },
    List { path: String },
}

/// What a device replied.
#[derive(Debug, PartialEq, Eq)]
pub enum DeviceReply {
    /// Nothing but that it was done.
    Done,
    /// A text.
    Text(String),
    /// That there is nothing of that name.
    Missing,
    /// A list.
    List(Vec<String>),
}

/// How a shell is run.
#[derive(Debug, PartialEq, Eq)]
pub enum ShellMode {
    /// With the terminal.
    Interactive,
    /// For this command.
    Command(String),
}

/// The command that a shell is run for: the words with blanks between them, or none where
/// no words are given.
pub open spec fn shell_words(words: Seq<Seq<char>>) -> Option<Seq<char>> {
    if words.len() == 0 {
        None
    } else {
        Some(joined(words, " "@))
    }
}

/// How a shell is run: with the terminal where no words are given, else for the words
/// with blanks between them.
pub fn shell_mode(commands: &Vec<String>) -> (r: ShellMode)
    ensures
        match shell_words(texts(commands@)) {
            None => r is Interactive,
            Some(words) => r matches ShellMode::Command(t) && t@ == words,
        },
{
    if commands.len() == 0 {
        ShellMode::Interactive
    } else {
        ShellMode::Command(join_strings(commands, " "))
    }
}

/// A call on a device, with its arguments in their order.
#[derive(Debug, PartialEq, Eq)]
pub enum DeviceCall {
    /// A shell with the terminal.
    Interact,
    /// A shell for this command, whose output is copied to the output.
    Shell(String),
    /// Copies this file of the device into this one of the host.
    Pull(String, String),
    /// Copies this file of the host to this one of the device.
    Push(String, String),
    Stat(String),
    StatExtended(String),
    Reboot(String),
    Root,
    /// Runs this package's activity, and copies what it says to the output.
    RunActivity(String, String),
    /// Installs this file, for this user.
    Install(String, Option<String>),
    /// Uninstalls this package, for this user.
    Uninstall(String, Option<String>),
    Framebuffer(String),
    List(String),
}

/// The contents of a [`DeviceCall`].
pub enum DeviceCallView {
    Interact,
    Shell(Seq<char>),
    Pull(Seq<char>, Seq<char>),
    Push(Seq<char>, Seq<char>),
    Stat(Seq<char>),
    StatExtended(Seq<char>),
    Reboot(Seq<char>),
    Root,
    RunActivity(Seq<char>, Seq<char>),
    Install(Seq<char>, Option<Seq<char>>),
    Uninstall(Seq<char>, Option<Seq<char>>),
    Framebuffer(Seq<char>),
    List(Seq<char>),
}

impl View for DeviceCall {
    type V = DeviceCallView;

    open spec fn view(&self) -> DeviceCallView {
        match self {
            DeviceCall::Interact => DeviceCallView::Interact,
            DeviceCall::Shell(words) => DeviceCallView::Shell(words@),
            DeviceCall::Pull(source, to) => DeviceCallView::Pull(source@, to@),
            DeviceCall::Push(source, to) => DeviceCallView::Push(source@, to@),
            DeviceCall::Stat(path) => DeviceCallView::Stat(path@),
            DeviceCall::StatExtended(path) => DeviceCallView::StatExtended(path@),
            DeviceCall::Reboot(mode) => DeviceCallView::Reboot(mode@),
            DeviceCall::Root => DeviceCallView::Root,
            DeviceCall::RunActivity(package, activity) => DeviceCallView::RunActivity(
                package@,
                activity@,
            ),
            DeviceCall::Install(path, user) => DeviceCallView::Install(path@, opt_text(*user)),
            DeviceCall::Uninstall(package, user) => DeviceCallView::Uninstall(
                package@,
                opt_text(*user),
            ),
            DeviceCall::Framebuffer(path) => DeviceCallView::Framebuffer(path@),
            DeviceCall::List(path) => DeviceCallView::List(path@),
        }
    }
}

/// The call that a command stands for.
pub open spec fn device_call_view(command: DeviceCommand) -> DeviceCallView {
    match command {
        DeviceCommand::Shell { commands } => match shell_words(texts(commands@)) {
            None => DeviceCallView::Interact,
            Some(words) => DeviceCallView::Shell(words),
        },
        DeviceCommand::Pull { source, destination } => DeviceCallView::Pull(source@, destination@),
        DeviceCommand::Stat { path } => DeviceCallView::Stat(path@),
        DeviceCommand::StatExtended { path } => DeviceCallView::StatExtended(path@),
        DeviceCommand::Reboot { mode } => DeviceCallView::Reboot(mode@),
        DeviceCommand::Push { filename, path } => DeviceCallView::Push(filename@, path@),
        DeviceCommand::Root => DeviceCallView::Root,
        DeviceCommand::Run { package, activity } => DeviceCallView::RunActivity(
            package@,
            activity@,
        ),
        DeviceCommand::Install { path, user } => DeviceCallView::Install(path@, opt_text(user)),
        DeviceCommand::Uninstall { package, user } => DeviceCallView::Uninstall(
            package@,
            opt_text(user),
        ),
        DeviceCommand::Framebuffer { path } => DeviceCallView::Framebuffer(path@),
        DeviceCommand::List { path } => DeviceCallView::List(path@),
    }
}

/// The call that a command stands for.
pub fn device_call(command: &DeviceCommand) -> (r: DeviceCall)
    ensures
        r@ == device_call_view(*command),
{
    match command {
        DeviceCommand::Shell { commands } => match shell_mode(commands) {
            ShellMode::Interactive => DeviceCall::Interact,
            ShellMode::Command(words) => DeviceCall::Shell(words),
        },
        DeviceCommand::Pull { source, destination } => DeviceCall::Pull(
            source.clone(),
            destination.clone(),
        ),
        DeviceCommand::Stat { path } => DeviceCall::Stat(path.clone()),
        DeviceCommand::StatExtended { path } => DeviceCall::StatExtended(path.clone()),
        DeviceCommand::Reboot { mode } => DeviceCall::Reboot(mode.clone()),
        DeviceCommand::Push { filename, path } => DeviceCall::Push(filename.clone(), path.clone()),
        DeviceCommand::Root => DeviceCall::Root,
        DeviceCommand::Run { package, activity } => DeviceCall::RunActivity(
            package.clone(),
            activity.clone(),
        ),
        DeviceCommand::Install { path, user } => DeviceCall::Install(path.clone(), clone_opt(user)),
        DeviceCommand::Uninstall { package, user } => DeviceCall::Uninstall(
            package.clone(),
            clone_opt(user),
        ),
        DeviceCommand::Framebuffer { path } => DeviceCall::Framebuffer(path.clone()),
        DeviceCommand::List { path } => DeviceCall::List(path.clone()),
    }
}

/// The line before the request.
pub open spec fn device_announcement(command: DeviceCommand) -> Option<Seq<char>> {
    match command {
        DeviceCommand::Reboot { mode } => Some("Reboots device in mode "@ + mode@),
        DeviceCommand::Install { path, user } => Some(
            "Starting installation of APK "@ + path@ + "..."@,
        ),
        DeviceCommand::Uninstall { package, user } => Some(
            "Uninstalling the package "@ + package@ + "..."@,
        ),
        _ => None,
    }
}

/// The line before the request.
pub fn announce_device_command(command: &DeviceCommand) -> (r: Option<String>)
    ensures
        opt_text(r) == device_announcement(*command),
{
    match command {
        DeviceCommand::Reboot { mode } => Some(concat("Reboots device in mode ", mode.as_str())),
        DeviceCommand::Install { path, user } => Some(
            concat3("Starting installation of APK ", path.as_str(), "..."),
        ),
        DeviceCommand::Uninstall { package, user } => Some(
            concat3("Uninstalling the package ", package.as_str(), "..."),
        ),
        _ => None,
    }
}

/// The lines after the reply.
pub open spec fn device_report(command: DeviceCommand, reply: DeviceReply) -> Seq<LineView> {
    match (command, reply) {
        (DeviceCommand::Pull { source, destination }, DeviceReply::Done) => seq![
            LineView::Log("Downloaded "@ + source@ + " as "@ + destination@),
        ],
        (DeviceCommand::Stat { path }, DeviceReply::Text(t)) => seq![LineView::Print(t@)],
        (DeviceCommand::StatExtended { path }, DeviceReply::Text(t)) => seq![LineView::Print(t@)],
        (DeviceCommand::StatExtended { path }, DeviceReply::Missing) => seq![
            LineView::Print("No such file or directory"@),
        ],
        (DeviceCommand::Push { filename, path }, DeviceReply::Done) => seq![
            LineView::Log("Uploaded "@ + filename@ + " to "@ + path@),
        ],
        (DeviceCommand::Root, DeviceReply::Done) => seq![LineView::Log("Restarted adbd as root"@)],
        (DeviceCommand::Framebuffer { path }, DeviceReply::Done) => seq![
            LineView::Log("Successfully dumped framebuffer at path "@ + path@),
        ],
        (DeviceCommand::List { path }, DeviceReply::List(v)) => logged(texts(v@)),
        _ => Seq::empty(),
    }
}

/// The lines after the reply.
pub fn run_command(command: &DeviceCommand, reply: &DeviceReply) -> (r: Vec<Line>)
    ensures
        lines_view(r@) == device_report(*command, *reply),
{
    match (command, reply) {
        (DeviceCommand::Pull { source, destination }, DeviceReply::Done) => {
            let mut text = concat3("Downloaded ", source.as_str(), " as ");
            text.append(destination.as_str());
            log_line(text)
        },
        (DeviceCommand::Stat { path }, DeviceReply::Text(t)) => print_line(t.clone()),
        (DeviceCommand::StatExtended { path }, DeviceReply::Text(t)) => print_line(t.clone()),
        (DeviceCommand::StatExtended { path }, DeviceReply::Missing) => print_line(
            "No such file or directory".to_owned(),
        ),
        (DeviceCommand::Push { filename, path }, DeviceReply::Done) => {
            let mut text = concat3("Uploaded ", filename.as_str(), " to ");
            text.append(path.as_str());
            log_line(text)
        },
        (DeviceCommand::Root, DeviceReply::Done) => log_line("Restarted adbd as root".to_owned()),
        (DeviceCommand::Framebuffer { path }, DeviceReply::Done) => log_line(
            concat("Successfully dumped framebuffer at path ", path.as_str()),
        ),
        (DeviceCommand::List { path }, DeviceReply::List(v)) => log_all(v),
        _ => no_lines(),
    }
}

// ---------------------------------------------------------------------------------
// On an emulator
// ---------------------------------------------------------------------------------

/// A request to an emulator.
#[derive(Debug, PartialEq, Eq)]
pub enum EmuCommand {
    Sms { phone_number: String, content: String },
    Rotate,
    AvdDiscoveryPath,
    AvdGrpcPort,
    Raw { command: String },
}

/// A call on an emulator, with its arguments in their order.
#[derive(Debug, PartialEq, Eq)]
pub enum EmuCall {
    /// Sends a message with this number and this text.
    SendSms(String, String),
    Rotate,
    AvdDiscoveryPath,
    AvdGrpcPort,
    /// Sends this command as it is.
    SendRawCommand(String),
}

/// The contents of an [`EmuCall`].
pub enum EmuCallView {
    SendSms(Seq<char>, Seq<char>),
    Rotate,
    AvdDiscoveryPath,
    AvdGrpcPort,
    SendRawCommand(Seq<char>),
}

impl View for EmuCall {
    type V = EmuCallView;

    open spec fn view(&self) -> EmuCallView {
        match self {
            EmuCall::SendSms(number, content) => EmuCallView::SendSms(number@, content@),
            EmuCall::Rotate => EmuCallView::Rotate,
            EmuCall::AvdDiscoveryPath => EmuCallView::AvdDiscoveryPath,
            EmuCall::AvdGrpcPort => EmuCallView::AvdGrpcPort,
            EmuCall::SendRawCommand(command) => EmuCallView::SendRawCommand(command@),
        }
    }
}

/// The call that a command stands for.
pub open spec fn emu_call_view(command: EmuCommand) -> EmuCallView {
    match command {
        EmuCommand::Sms { phone_number, content } => EmuCallView::SendSms(phone_number@, content@),
        EmuCommand::Rotate => EmuCallView::Rotate,
        EmuCommand::AvdDiscoveryPath => EmuCallView::AvdDiscoveryPath,
        EmuCommand::AvdGrpcPort => EmuCallView::AvdGrpcPort,
        EmuCommand::Raw { command: text } => EmuCallView::SendRawCommand(text@),
    }
}

/// The call that a command stands for.
pub fn emulator_call(command: &EmuCommand) -> (r: EmuCall)
    ensures
        r@ == emu_call_view(*command),
{
    match command {
        EmuCommand::Sms { phone_number, content } => EmuCall::SendSms(
            phone_number.clone(),
            content.clone(),
        ),
        EmuCommand::Rotate => EmuCall::Rotate,
        EmuCommand::AvdDiscoveryPath => EmuCall::AvdDiscoveryPath,
        EmuCommand::AvdGrpcPort => EmuCall::AvdGrpcPort,
        EmuCommand::Raw { command: text } => EmuCall::SendRawCommand(text.clone()),
    }
}

/// The lines after the reply, which is empty where the emulator has nothing to say.
pub open spec fn emulator_report(command: EmuCommand, reply: Seq<char>) -> Seq<LineView> {
    match command {
        EmuCommand::Sms { phone_number, content } => seq![
            LineView::Log("SMS sent to "@ + phone_number@),
        ],
        EmuCommand::Rotate => Seq::empty(),
        EmuCommand::AvdDiscoveryPath => seq![
            LineView::Log("AVD discovery path: "@ + reply),
            LineView::Print(reply),
        ],
        EmuCommand::AvdGrpcPort => seq![
            LineView::Log("gRPC port: "@ + reply),
            LineView::Print(reply),
        ],
        EmuCommand::Raw { command: text } => seq![LineView::Print(reply)],
    }
}

/// A line to the log and the reply to the output.
fn log_and_print(head: &str, reply: &str) -> (r: Vec<Line>)
    ensures
        lines_view(r@) == seq![LineView::Log(head@ + reply@), LineView::Print(reply@)],
{
    let mut r: Vec<Line> = Vec::new();
    r.push(Line::Log(concat(head, reply)));
    r.push(Line::Print(reply.to_owned()));
    assert(lines_view(r@) =~= seq![LineView::Log(head@ + reply@), LineView::Print(reply@)]);
    r
}

/// The lines after the reply.
pub fn handle_emulator_commands(command: &EmuCommand, reply: &str) -> (r: Vec<Line>)
    ensures
        lines_view(r@) == emulator_report(*command, reply@),
{
    match command {
        EmuCommand::Sms { phone_number, content } => log_line(
            concat("SMS sent to ", phone_number.as_str()),
        ),
        EmuCommand::Rotate => no_lines(),
        EmuCommand::AvdDiscoveryPath => log_and_print("AVD discovery path: ", reply),
        EmuCommand::AvdGrpcPort => log_and_print("gRPC port: ", reply),
        EmuCommand::Raw { command: text } => print_line(reply.to_owned()),
    }
}

/// The line on a device that was found on the network.
pub open spec fn mdns_device_text(
    fullname: Seq<char>,
    ipv4: Seq<char>,
    ipv6: Seq<char>,
) -> Seq<char> {
    "Found device fullname='"@ + fullname + "' with ipv4 addresses="@ + ipv4
        + " and ipv6 addresses="@ + ipv6
}

/// The line on a device that was found on the network.
pub fn mdns_device_line(fullname: &str, ipv4: &str, ipv6: &str) -> (r: String)
    ensures
        r@ == mdns_device_text(fullname@, ipv4@, ipv6@),
{
    let mut r = concat3("Found device fullname='", fullname, "' with ipv4 addresses=");
    r.append(ipv4);
    r.append(" and ipv6 addresses=");
    r.append(ipv6);
    r
}

} // verus!
