use vstd::prelude::*;

use crate::model::{
    Family, IpAddress, IpOptions, IpPort, LoggingOptions, OutputOptions, PingOptions,
};

verus! {

/// Default source address of a UDP client: every IPv4 interface.
pub open spec fn udp_default_source() -> Seq<char> {
    "0.0.0.0"@
}

/// A TCP prober of one destination. The source addresses default to the
/// wildcard address of each family, the source port to 0 (any free port).
#[derive(Debug)]
pub struct TcpClient {
    pub dst_ip: String,
    pub dst_port: u16,
    pub src_ipv4: IpAddress,
    pub src_ipv6: IpAddress,
    pub src_port: u16,
    pub logging_options: LoggingOptions,
    pub ping_options: PingOptions,
    pub ip_options: IpOptions,
}

impl TcpClient {
    #[allow(clippy::too_many_arguments)]
    pub fn new(
        dst_ip: String,
        dst_port: u16,
        src_ipv4: Option<IpAddress>,
        src_ipv6: Option<IpAddress>,
        src_port: Option<u16>,
        logging_options: LoggingOptions,
        ping_options: PingOptions,
        ip_options: IpOptions,
    ) -> (r: TcpClient)
        ensures
            r.dst_ip == dst_ip,
            r.dst_port == dst_port,
            r.src_ipv4 == match src_ipv4 {
                Some(ip) => ip,
                None => IpAddress::V4(0),
            },
            r.src_ipv6 == match src_ipv6 {
                Some(ip) => ip,
                None => IpAddress::V6(0),
            },
            r.src_port == match src_port {
                Some(p) => p,
                None => 0u16,
            },
            r.logging_options == logging_options,
            r.ping_options == ping_options,
            r.ip_options == ip_options,
    {
        let src_ipv4 = match src_ipv4 {
            Some(ip) => ip,
            None => IpAddress::unspecified(Family::V4),
        };
        let src_ipv6 = match src_ipv6 {
            Some(ip) => ip,
            None => IpAddress::unspecified(Family::V6),
        };
        let src_port = match src_port {
            Some(p) => p,
            None => 0,
        };
        TcpClient {
            dst_ip,
            dst_port,
            src_ipv4,
            src_ipv6,
            src_port,
            logging_options,
            ping_options,
            ip_options,
        }
    }

    /// The local endpoint that probes are bound to.
    pub fn ip_port(&self) -> (r: IpPort)
        ensures
            r == (IpPort { ipv4: self.src_ipv4, ipv6: self.src_ipv6, port: self.src_port }),
    {
        IpPort { ipv4: self.src_ipv4, ipv6: self.src_ipv6, port: self.src_port }
    }
}

/// A UDP echo prober of one destination. The source address defaults to
/// `0.0.0.0`, the source port to 0 (any free port).
#[derive(Debug)]
pub struct UdpClient {
    pub dst_ip: String,
    pub dst_port: u16,
    pub src_ip: String,
    pub src_port: u16,
    pub output_options: OutputOptions,
    pub ping_options: PingOptions,
}

impl UdpClient {
    pub fn new(
        dst_ip: String,
        dst_port: u16,
        src_ip: Option<String>,
        src_port: Option<u16>,
        output_options: OutputOptions,
        ping_options: PingOptions,
    ) -> (r: UdpClient)
        ensures
            r.dst_ip == dst_ip,
            r.dst_port == dst_port,
            r.src_ip@ == match src_ip {
                Some(s) => s@,
                None => udp_default_source(),
            },
            r.src_port == match src_port {
                Some(p) => p,
                None => 0u16,
            },
            r.output_options == output_options,
            r.ping_options == ping_options,
    {
        let src_ip = match src_ip {
            Some(s) => s,
            None => {
                proof {
                    reveal_strlit("0.0.0.0");
                }
                "0.0.0.0".to_owned()
            },
        };
        let src_port = match src_port {
            Some(p) => p,
            None => 0,
        };
        UdpClient { dst_ip, dst_port, src_ip, src_port, output_options, ping_options }
    }

    /// The local endpoint that probes are bound to, given the parsed source
    /// address: it serves its own family, the other family binds to its
    /// wildcard address.
    pub fn ip_port(&self, src: IpAddress) -> (r: IpPort)
        ensures
            r.port == self.src_port,
            r.ipv4 == match src {
                IpAddress::V4(_) => src,
                IpAddress::V6(_) => IpAddress::V4(0),
            },
            r.ipv6 == match src {
                IpAddress::V6(_) => src,
                IpAddress::V4(_) => IpAddress::V6(0),
            },
    {
        match src {
            IpAddress::V4(_) => IpPort {
                ipv4: src,
                ipv6: IpAddress::unspecified(Family::V6),
                port: self.src_port,
            },
            IpAddress::V6(_) => IpPort {
                ipv4: IpAddress::unspecified(Family::V4),
                ipv6: src,
                port: self.src_port,
            },
        }
    }
}

} // verus!
