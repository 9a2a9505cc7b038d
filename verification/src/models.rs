//! Values of the device protocol that the server handles: the services it opens
//! on a device, the features of a device, and forwarding endpoints.
use vstd::prelude::*;

use crate::number::{
    decimal, decimal_reads_back, decimal_string, is_digit, parse_of_decimal, parse_unsigned,
    parsed_unsigned,
};
use crate::text::{
    after_prefix, concat, cut_first, first_index_unique, has_prefix, split_once, strip_prefix,
    texts,
};

verus! {

/// What a device said in its connection banner that it can do.
#[derive(Clone, Copy, Debug, PartialEq, Eq, Structural)]
pub struct DeviceFeatureSet {
    /// The `shell,v2` service with separate streams and an exit code.
    pub shell_v2: bool,
    /// The second version of the file transfer requests.
    pub stat_v2: bool,
    /// Windowed writes with delayed acknowledgement.
    pub delayed_ack: bool,
}

impl Default for DeviceFeatureSet {
    /// Every feature.
    fn default() -> (r: Self)
        ensures
            r == (DeviceFeatureSet { shell_v2: true, stat_v2: true, delayed_ack: true }),
    {
        DeviceFeatureSet { shell_v2: true, stat_v2: true, delayed_ack: true }
    }
}

/// A service to open on a device.
#[derive(Debug, PartialEq, Eq)]
pub enum ADBLocalCommand {
    /// An interactive shell.
    Shell,
    /// A shell command and its arguments.
    ShellCommand(String, Vec<String>),
    /// A connection to a TCP port of the device.
    TcpConnect(u16),
    /// A restart of the device's daemon on a TCP port.
    TcpIp(u16),
    /// A service string that is sent as it is.
    Raw(String),
}

/// The contents of an [`ADBLocalCommand`].
pub enum LocalCommandView {
    Shell,
    ShellCommand(Seq<char>, Seq<Seq<char>>),
    TcpConnect(u16),
    TcpIp(u16),
    Raw(Seq<char>),
}

impl View for ADBLocalCommand {
    type V = LocalCommandView;

    open spec fn view(&self) -> LocalCommandView {
        match self {
            ADBLocalCommand::Shell => LocalCommandView::Shell,
            ADBLocalCommand::ShellCommand(c, a) => LocalCommandView::ShellCommand(
                c@,
                texts(a@),
            ),
            ADBLocalCommand::TcpConnect(p) => LocalCommandView::TcpConnect(*p),
            ADBLocalCommand::TcpIp(p) => LocalCommandView::TcpIp(*p),
            ADBLocalCommand::Raw(s) => LocalCommandView::Raw(s@),
        }
    }
}

/// The host end of a forwarding rule.
#[derive(Clone, Copy, Debug, PartialEq, Eq, Structural)]
pub enum LocalSocketSpec {
    /// A TCP port of the host.
    Tcp(u16),
}

/// The device end of a forwarding rule.
#[derive(Clone, Copy, Debug, PartialEq, Eq, Structural)]
pub enum RemoteSocketSpec {
    /// A TCP port of the device.
    Tcp(u16),
    /// A virtual socket that the device can reach.
    Vsock { cid: u32, port: u32 },
}

/// `tcp:` and a port number.
pub open spec fn parsed_tcp(s: Seq<char>) -> Option<u16> {
    if has_prefix(s, "tcp:"@) {
        match parsed_unsigned(after_prefix(s, "tcp:"@), u16::MAX as nat) {
            Some(n) => Some(n as u16),
            None => None,
        }
    } else {
        None
    }
}

/// A context id and a port with a colon between them.
pub open spec fn parsed_vsock(s: Seq<char>) -> Option<RemoteSocketSpec> {
    match cut_first(s, ':') {
        Some((c, p)) => match (
            parsed_unsigned(c, u32::MAX as nat),
            parsed_unsigned(p, u32::MAX as nat),
        ) {
            (Some(cid), Some(port)) => Some(
                RemoteSocketSpec::Vsock { cid: cid as u32, port: port as u32 },
            ),
            _ => None,
        },
        None => None,
    }
}

impl LocalSocketSpec {
    /// What `s` names as a host end: `tcp:<port>`.
    pub open spec fn parsed(s: Seq<char>) -> Option<LocalSocketSpec> {
        match parsed_tcp(s) {
            Some(p) => Some(LocalSocketSpec::Tcp(p)),
            None => None,
        }
    }

    /// The host end written out.
    pub open spec fn text(self) -> Seq<char> {
        match self {
            LocalSocketSpec::Tcp(p) => "tcp:"@ + decimal(p as nat),
        }
    }

    /// The TCP port.
    pub open spec fn port(self) -> u16 {
        match self {
            LocalSocketSpec::Tcp(p) => p,
        }
    }

    /// Reads a host end.
    pub fn parse(s: &str) -> (r: Option<LocalSocketSpec>)
        ensures
            r == LocalSocketSpec::parsed(s@),
    {
        match parse_tcp(s) {
            Some(p) => Some(LocalSocketSpec::Tcp(p)),
            None => None,
        }
    }

    /// The TCP port of the host end.
    pub fn tcp_port(&self) -> (r: u16)
        ensures
            r == self.port(),
    {
        match self {
            LocalSocketSpec::Tcp(p) => *p,
        }
    }

    /// The host end written out.
    pub fn to_text(&self) -> (r: String)
        ensures
            r@ == self.text(),
    {
        match self {
            LocalSocketSpec::Tcp(p) => concat("tcp:", decimal_string(*p as u64).as_str()),
        }
    }
}

impl RemoteSocketSpec {
    /// What `s` names as a device end: `tcp:<port>` or `vsock:<cid>:<port>`.
    pub open spec fn parsed(s: Seq<char>) -> Option<RemoteSocketSpec> {
        if has_prefix(s, "vsock:"@) {
            parsed_vsock(after_prefix(s, "vsock:"@))
        } else {
            match parsed_tcp(s) {
                Some(p) => Some(RemoteSocketSpec::Tcp(p)),
                None => None,
            }
        }
    }

    /// The device end written out, which is also the service that reaches it.
    pub open spec fn text(self) -> Seq<char> {
        match self {
            RemoteSocketSpec::Tcp(p) => "tcp:"@ + decimal(p as nat),
            RemoteSocketSpec::Vsock { cid, port } => "vsock:"@ + decimal(cid as nat) + ":"@
                + decimal(port as nat),
        }
    }

    /// Reads a device end.
    pub fn parse(s: &str) -> (r: Option<RemoteSocketSpec>)
        ensures
            r == RemoteSocketSpec::parsed(s@),
    {
        match strip_prefix(s, "vsock:") {
            Some(rest) => match split_once(rest, ':') {
                Some((c, p)) => match (
                    parse_unsigned(c, u32::MAX as u64),
                    parse_unsigned(p, u32::MAX as u64),
                ) {
                    (Some(cid), Some(port)) => Some(
                        RemoteSocketSpec::Vsock { cid: cid as u32, port: port as u32 },
                    ),
                    _ => None,
                },
                None => None,
            },
            None => match parse_tcp(s) {
                Some(p) => Some(RemoteSocketSpec::Tcp(p)),
                None => None,
            },
        }
    }

    /// The device end written out.
    pub fn to_text(&self) -> (r: String)
        ensures
            r@ == self.text(),
    {
        match self {
            RemoteSocketSpec::Tcp(p) => concat("tcp:", decimal_string(*p as u64).as_str()),
            RemoteSocketSpec::Vsock { cid, port } => {
                let mut r = concat("vsock:", decimal_string(*cid as u64).as_str());
                r.append(":");
                r.append(decimal_string(*port as u64).as_str());
                r
            },
        }
    }
}

/// Reads `tcp:` and a port number.
fn parse_tcp(s: &str) -> (r: Option<u16>)
    ensures
        r == parsed_tcp(s@),
{
    match strip_prefix(s, "tcp:") {
        Some(p) => match parse_unsigned(p, u16::MAX as u64) {
            Some(n) => Some(n as u16),
            None => None,
        },
        None => None,
    }
}

/// A host end that is written out reads back as itself.
pub proof fn local_spec_reads_back(spec: LocalSocketSpec)
    ensures
        LocalSocketSpec::parsed(spec.text()) == Some(spec),
{
    tcp_reads_back(spec.port());
}

/// `tcp:` and a port reads back as the port.
proof fn tcp_reads_back(port: u16)
    ensures
        parsed_tcp("tcp:"@ + decimal(port as nat)) == Some(port),
{
    let s = "tcp:"@ + decimal(port as nat);
    assert(s.subrange(0, "tcp:"@.len() as int) =~= "tcp:"@);
    assert(after_prefix(s, "tcp:"@) =~= decimal(port as nat));
    parse_of_decimal(port as nat, u16::MAX as nat);
}

/// A device end that is written out reads back as itself.
pub proof fn remote_spec_reads_back(spec: RemoteSocketSpec)
    ensures
        RemoteSocketSpec::parsed(spec.text()) == Some(spec),
{
    reveal_strlit("tcp:");
    reveal_strlit("vsock:");
    reveal_strlit(":");
    let s = spec.text();
    match spec {
        RemoteSocketSpec::Tcp(p) => {
            tcp_reads_back(p);
            assert(s[0] == 't');
            if has_prefix(s, "vsock:"@) {
                assert(s.subrange(0, 6)[0] == 'v');
            }
        },
        RemoteSocketSpec::Vsock { cid, port } => {
            assert(s.subrange(0, 6) =~= "vsock:"@);
            let rest = after_prefix(s, "vsock:"@);
            let c = decimal(cid as nat);
            let p = decimal(port as nat);
            assert(rest =~= c + ":"@ + p);
            decimal_reads_back(cid as nat);
            assert forall|j: int| 0 <= j < c.len() implies rest[j] != ':' by {
                assert(is_digit(c[j]));
            }
            assert(rest[c.len() as int] == ':');
            first_index_unique(rest, ':', c.len() as int);
            assert(rest.contains(':'));
            let (a, b) = cut_first(rest, ':')->0;
            assert(a =~= c);
            assert(b =~= p);
            parse_of_decimal(cid as nat, u32::MAX as nat);
            parse_of_decimal(port as nat, u32::MAX as nat);
        },
    }
}

} // verus!
