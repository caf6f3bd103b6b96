use vstd::prelude::*;

use crate::model::{
    ConnectMethod, ConnectRecord, ConnectResult, Family, IoFailure, IpPort, SocketAddress,
    failure_class, io_error_switch_handler,
};

verus! {

/// Payload of a UDP echo request.
pub const PING_MSG: &'static str = "ping";

/// Local address a probe to `dst` is bound to: the source address of the
/// destination's family, with the configured source port.
pub open spec fn bind_address_spec(src: IpPort, dst: SocketAddress) -> SocketAddress {
    if dst.family_spec() == Family::V4 {
        SocketAddress { ip: src.ipv4, port: src.port }
    } else {
        SocketAddress { ip: src.ipv6, port: src.port }
    }
}

pub fn bind_address(src: &IpPort, dst: &SocketAddress) -> (r: SocketAddress)
    ensures
        r == bind_address_spec(*src, *dst),
{
    if dst.is_ipv4() {
        SocketAddress::new(src.ipv4, src.port)
    } else {
        SocketAddress::new(src.ipv6, src.port)
    }
}

/// Microseconds between two readings of a monotonic clock; a reading that
/// goes backwards counts as no time.
pub open spec fn elapsed_spec(before: u64, after: u64) -> u64 {
    if after >= before {
        (after - before) as u64
    } else {
        0
    }
}

pub fn calc_connect_us(before: u64, after: u64) -> (r: u64)
    ensures
        r == elapsed_spec(before, after),
{
    if after >= before {
        after - before
    } else {
        0
    }
}

/// What happened to one probe attempt, as seen by the code driving it.
/// Clock readings are in microseconds.
#[derive(Clone, Debug)]
pub enum ProbeOutcome {
    /// The local endpoint could not be bound.
    BindFailed,
    /// The peer completed the handshake, or echoed the datagram.
    Answered { local: SocketAddress, sent_at: u64, received_at: u64 },
    /// The transport reported a failure before the deadline.
    Failed { local: SocketAddress, kind: IoFailure, message: String },
    /// The deadline elapsed first.
    TimedOut { local: SocketAddress, message: String },
}

/// The error text of a bind failure.
pub open spec fn bind_error_text() -> Seq<char> {
    "Error binding to socket"@
}

/// Turns the outcome of one attempt into its record.
pub fn connect_record(
    protocol: ConnectMethod,
    bind: SocketAddress,
    dst: SocketAddress,
    outcome: ProbeOutcome,
) -> (r: ConnectRecord)
    ensures
        r.wf(),
        r.protocol == protocol,
        r.destination == dst,
        match outcome {
            ProbeOutcome::BindFailed => {
                &&& r.result == ConnectResult::BindError
                &&& r.source == bind
                &&& r.error_msg.is_some() && r.error_msg.unwrap()@ == bind_error_text()
            },
            ProbeOutcome::Answered { local, sent_at, received_at } => {
                &&& r.result == ConnectResult::Pong
                &&& r.source == local
                &&& r.time == Some(elapsed_spec(sent_at, received_at))
                &&& r.error_msg.is_none()
            },
            ProbeOutcome::Failed { local, kind, message } => {
                &&& r.result == failure_class(kind)
                &&& (r.result == ConnectResult::ConnectionRefused || r.result == ConnectResult::Unreachable
                    || r.result == ConnectResult::Unknown)
                &&& r.source == local
                &&& r.error_msg == Some(message)
            },
            ProbeOutcome::TimedOut { local, message } => {
                &&& r.result == ConnectResult::Timeout
                &&& r.source == local
                &&& r.error_msg == Some(message)
            },
        },
{
    match outcome {
        ProbeOutcome::BindFailed => {
            proof {
                reveal_strlit("Error binding to socket");
            }
            ConnectRecord {
                result: ConnectResult::BindError,
                protocol,
                source: bind,
                destination: dst,
                time: None,
                success: false,
                error_msg: Some("Error binding to socket".to_owned()),
            }
        },
        ProbeOutcome::Answered { local, sent_at, received_at } => {
            ConnectRecord {
                result: ConnectResult::Pong,
                protocol,
                source: local,
                destination: dst,
                time: Some(calc_connect_us(sent_at, received_at)),
                success: true,
                error_msg: None,
            }
        },
        ProbeOutcome::Failed { local, kind, message } => {
            ConnectRecord {
                result: io_error_switch_handler(kind),
                protocol,
                source: local,
                destination: dst,
                time: None,
                success: false,
                error_msg: Some(message),
            }
        },
        ProbeOutcome::TimedOut { local, message } => {
            ConnectRecord {
                result: ConnectResult::Timeout,
                protocol,
                source: local,
                destination: dst,
                time: None,
                success: false,
                error_msg: Some(message),
            }
        },
    }
}

/// A timed-out probe never succeeds, and a successful probe always carries
/// a measured time.
pub proof fn lemma_timeout_never_succeeds(r: ConnectRecord)
    requires
        r.wf(),
    ensures
        r.result == ConnectResult::Timeout ==> !r.success,
        r.success ==> r.time.is_some(),
{
}

} // verus!
