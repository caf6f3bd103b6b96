use vstd::prelude::*;

verus! {

/// Address family of an IP address.
#[derive(Clone, Copy, Debug, PartialEq, Eq, Structural)]
pub enum Family {
    V4,
    V6,
}

/// An IP address held as plain integers: an IPv4 address as its 32 bits,
/// an IPv6 address as its 128 bits, both in network order.
#[derive(Clone, Copy, Debug, PartialEq, Eq, Structural)]
pub enum IpAddress {
    V4(u32),
    V6(u128),
}

impl IpAddress {
    pub open spec fn family_spec(self) -> Family {
        match self {
            IpAddress::V4(_) => Family::V4,
            IpAddress::V6(_) => Family::V6,
        }
    }

    pub fn family(&self) -> (r: Family)
        ensures
            r == self.family_spec(),
    {
        match self {
            IpAddress::V4(_) => Family::V4,
            IpAddress::V6(_) => Family::V6,
        }
    }

    /// The wildcard ("all interfaces") address of a family.
    pub fn unspecified(family: Family) -> (r: IpAddress)
        ensures
            r.family_spec() == family,
            family == Family::V4 ==> r == IpAddress::V4(0),
            family == Family::V6 ==> r == IpAddress::V6(0),
    {
        match family {
            Family::V4 => IpAddress::V4(0),
            Family::V6 => IpAddress::V6(0),
        }
    }
}

/// An IP address together with a port.
#[derive(Clone, Copy, Debug, PartialEq, Eq, Structural)]
pub struct SocketAddress {
    pub ip: IpAddress,
    pub port: u16,
}

impl SocketAddress {
    pub open spec fn family_spec(self) -> Family {
        self.ip.family_spec()
    }

    pub fn new(ip: IpAddress, port: u16) -> (r: SocketAddress)
        ensures
            r.ip == ip,
            r.port == port,
    {
        SocketAddress { ip, port }
    }

    pub fn is_ipv4(&self) -> (r: bool)
        ensures
            r == (self.family_spec() == Family::V4),
    {
        match self.ip {
            IpAddress::V4(_) => true,
            IpAddress::V6(_) => false,
        }
    }
}

/// The local endpoint that probes are sent from: one bind address per
/// family and a shared source port (0 lets the system pick one).
#[derive(Clone, Copy, Debug, PartialEq, Eq, Structural)]
pub struct IpPort {
    pub ipv4: IpAddress,
    pub ipv6: IpAddress,
    pub port: u16,
}

/// Which address families of a resolved host are probed.
#[derive(Clone, Copy, Debug, PartialEq, Eq, Structural)]
pub enum IpProtocol {
    All,
    V4,
    V6,
}

/// Transport used by a probe.
#[derive(Clone, Copy, Debug, PartialEq, Eq, Structural)]
pub enum ConnectMethod {
    TCP,
    UDP,
}

/// Classified outcome of one probe attempt.
#[derive(Clone, Copy, Debug, PartialEq, Eq, Structural)]
pub enum ConnectResult {
    Pong,
    Timeout,
    ConnectionRefused,
    BindError,
    Unreachable,
    Unknown,
}

/// Category of a transport failure reported by the operating system before
/// the probe's own deadline. A timeout reported by the system is such a
/// failure too, and is not confused with the probe's deadline elapsing.
#[derive(Clone, Copy, Debug, PartialEq, Eq, Structural)]
pub enum IoFailure {
    ConnectionRefused,
    ConnectionReset,
    NetworkUnreachable,
    HostUnreachable,
    AddrNotAvailable,
    TimedOut,
    Other,
}

/// The outcome class that a transport failure is reported as.
pub open spec fn failure_class(kind: IoFailure) -> ConnectResult {
    match kind {
        IoFailure::ConnectionRefused => ConnectResult::ConnectionRefused,
        IoFailure::ConnectionReset => ConnectResult::ConnectionRefused,
        IoFailure::NetworkUnreachable => ConnectResult::Unreachable,
        IoFailure::HostUnreachable => ConnectResult::Unreachable,
        IoFailure::AddrNotAvailable => ConnectResult::Unreachable,
        IoFailure::TimedOut => ConnectResult::Unknown,
        IoFailure::Other => ConnectResult::Unknown,
    }
}

/// Maps a transport failure to the outcome it is reported as.
pub fn io_error_switch_handler(kind: IoFailure) -> (r: ConnectResult)
    ensures
        r == failure_class(kind),
        r == ConnectResult::ConnectionRefused || r == ConnectResult::Unreachable || r
            == ConnectResult::Unknown,
{
    match kind {
        IoFailure::ConnectionRefused => ConnectResult::ConnectionRefused,
        IoFailure::ConnectionReset => ConnectResult::ConnectionRefused,
        IoFailure::NetworkUnreachable => ConnectResult::Unreachable,
        IoFailure::HostUnreachable => ConnectResult::Unreachable,
        IoFailure::AddrNotAvailable => ConnectResult::Unreachable,
        IoFailure::TimedOut => ConnectResult::Unknown,
        IoFailure::Other => ConnectResult::Unknown,
    }
}

/// The outcome of one probe attempt. `time` is the round trip in
/// microseconds, present exactly when the probe succeeded.
#[derive(Clone, Debug)]
pub struct ConnectRecord {
    pub result: ConnectResult,
    pub protocol: ConnectMethod,
    pub source: SocketAddress,
    pub destination: SocketAddress,
    pub time: Option<u64>,
    pub success: bool,
    pub error_msg: Option<String>,
}

impl ConnectRecord {
    /// A record is consistent when it succeeded exactly when the peer
    /// answered, and carries a time exactly when it succeeded.
    pub open spec fn wf(self) -> bool {
        &&& self.success <==> self.result == ConnectResult::Pong
        &&& self.time.is_some() <==> self.success
    }
}

/// Hostname together with the sockets that it resolved to, by family,
/// in the order the resolver gave them.
#[derive(Clone, Debug)]
pub struct HostRecord {
    pub host: String,
    pub port: u16,
    pub ipv4_sockets: Vec<SocketAddress>,
    pub ipv6_sockets: Vec<SocketAddress>,
}

/// The records of one fan-out pass over the sockets of one host.
#[derive(Clone, Debug)]
pub struct HostResults {
    pub host: String,
    pub results: Vec<ConnectRecord>,
}

/// Repeat and timing settings of a run. `repeat` 0 means: until cancelled.
/// `interval` and `timeout` are in milliseconds.
#[derive(Clone, Copy, Debug, PartialEq, Eq, Structural)]
pub struct PingOptions {
    pub repeat: u16,
    pub interval: u64,
    pub timeout: u64,
    pub nk_peer_messaging: bool,
}

/// Address family selection of a run.
#[derive(Clone, Copy, Debug, PartialEq, Eq, Structural)]
pub struct IpOptions {
    pub ip_protocol: IpProtocol,
}

/// Logging settings of a TCP client: an optional log file for per-probe
/// lines, and whether they are left off the terminal.
#[derive(Clone, Debug)]
pub struct LoggingOptions {
    pub log_file: Option<String>,
    pub quiet: bool,
}

/// Output settings of a UDP client: an optional log file for per-probe
/// lines, and whether they are left off the terminal.
#[derive(Clone, Debug)]
pub struct OutputOptions {
    pub log_file: Option<String>,
    pub quiet: bool,
}

} // verus!
