use netprobe::client::{TcpClient, UdpClient};
use netprobe::fanout::{FanOut, FanOutAction};
use netprobe::model::{
    ConnectMethod, ConnectRecord, ConnectResult, HostRecord, HostResults, IoFailure, IpAddress,
    IpOptions, IpPort, IpProtocol, LoggingOptions, OutputOptions, PingOptions, SocketAddress,
    io_error_switch_handler,
};
use netprobe::probe::{bind_address, calc_connect_us, connect_record, ProbeOutcome};
use netprobe::resolve::check_resolved;
use netprobe::scheduler::{Scheduler, Step};
use netprobe::summary::client_summary_result;

const V4_A: IpAddress = IpAddress::V4(0x0a00_0001);
const V6_A: IpAddress = IpAddress::V6(0x2001_0db8_0000_0000_0000_0000_0000_0001);

fn sock(ip: IpAddress, port: u16) -> SocketAddress {
    SocketAddress::new(ip, port)
}

fn opts(repeat: u16, interval: u64) -> PingOptions {
    PingOptions { repeat, interval, timeout: 50, nk_peer_messaging: false }
}

fn local() -> SocketAddress {
    sock(IpAddress::V4(0x7f00_0001), 40000)
}

fn refused(dst: SocketAddress) -> ConnectRecord {
    connect_record(
        ConnectMethod::TCP,
        sock(IpAddress::V4(0), 0),
        dst,
        ProbeOutcome::Failed {
            local: local(),
            kind: IoFailure::ConnectionRefused,
            message: "Connection refused".to_owned(),
        },
    )
}

fn answered(dst: SocketAddress, sent_at: u64, received_at: u64) -> ConnectRecord {
    connect_record(
        ConnectMethod::TCP,
        sock(IpAddress::V4(0), 0),
        dst,
        ProbeOutcome::Answered { local: local(), sent_at, received_at },
    )
}

fn timed_out(dst: SocketAddress) -> ConnectRecord {
    connect_record(
        ConnectMethod::UDP,
        sock(IpAddress::V4(0), 0),
        dst,
        ProbeOutcome::TimedOut { local: local(), message: "deadline has elapsed".to_owned() },
    )
}

/// Runs one fan-out pass over `targets` with `limit`, probing with `probe`,
/// finishing the oldest probe in flight whenever the dispatcher says wait.
/// Returns the records and the largest number of probes seen in flight.
fn run_pass(
    host: &str,
    targets: Vec<SocketAddress>,
    limit: usize,
    probe: &dyn Fn(SocketAddress) -> ConnectRecord,
) -> (HostResults, usize) {
    let mut f = FanOut::new(targets, limit);
    let mut pending: Vec<(usize, SocketAddress)> = Vec::new();
    let mut most = 0;
    loop {
        match f.next_action() {
            FanOutAction::Start(index, dst) => {
                assert_eq!(f.targets[index], dst);
                pending.push((index, dst));
                most = most.max(pending.len());
            }
            FanOutAction::Wait => {
                let (index, dst) = pending.remove(0);
                assert!(f.is_pending(index));
                f.complete(index, probe(dst));
                assert!(!f.is_pending(index));
            }
            FanOutAction::Done => break,
        }
        assert!(f.in_flight <= f.limit);
    }
    assert!(f.is_done());
    (f.finish(host.to_owned()), most)
}

fn one_v4_host() -> HostRecord {
    HostRecord::from_addresses("example.test".to_owned(), 80, &vec![V4_A])
}

#[test]
fn refused_three_times_gives_full_loss() {
    let hosts = vec![one_v4_host()];
    check_resolved(&hosts).unwrap();
    let mut s = Scheduler::new(&hosts, &opts(3, 0));
    let mut all: Vec<ConnectRecord> = Vec::new();
    loop {
        match s.loop_handler(false) {
            Step::Stop => break,
            Step::Run { wait } => {
                assert_eq!(wait, 0);
                let cands = hosts[0].candidate_sockets(IpProtocol::All);
                let (res, _) = run_pass("example.test", cands, 4, &refused);
                all.extend(res.results.iter().cloned());
                s.record_round(&vec![res]);
            }
        }
    }
    assert_eq!(all.len(), 3);
    for r in &all {
        assert!(matches!(r.result, ConnectResult::ConnectionRefused | ConnectResult::Unreachable));
        assert!(!r.success);
        assert_eq!(r.time, None);
    }
    let sums = s.summaries(ConnectMethod::TCP);
    assert_eq!(sums.len(), 1);
    assert_eq!(sums[0].destination, sock(V4_A, 80));
    assert_eq!(sums[0].sent, 3);
    assert_eq!(sums[0].received, 0);
    assert_eq!(sums[0].lost, 3);
    assert_eq!(sums[0].loss_percent, 100);
    assert_eq!(sums[0].min, None);
    assert_eq!(sums[0].avg, None);
    assert_eq!(sums[0].max, None);
}

#[test]
fn two_families_are_summarised_apart() {
    let host = HostRecord::from_addresses("dual.test".to_owned(), 443, &vec![V6_A, V4_A]);
    let host = host.filter_protocol(IpProtocol::All);
    let hosts = vec![host];
    let mut s = Scheduler::new(&hosts, &opts(2, 10));
    let probe = |dst: SocketAddress| {
        if dst.is_ipv4() { answered(dst, 1_000, 1_250) } else { refused(dst) }
    };
    let mut waits = Vec::new();
    while let Step::Run { wait } = s.loop_handler(false) {
        waits.push(wait);
        let (res, _) = run_pass("dual.test", hosts[0].candidate_sockets(IpProtocol::All), 8, &probe);
        s.record_round(&vec![res]);
    }
    assert_eq!(waits, vec![0, 10]);
    let sums = s.summaries(ConnectMethod::TCP);
    assert_eq!(sums.len(), 2);
    assert_eq!(sums[0].destination, sock(V4_A, 443));
    assert_eq!((sums[0].sent, sums[0].received, sums[0].lost), (2, 2, 0));
    assert_eq!((sums[0].min, sums[0].avg, sums[0].max), (Some(250), Some(250), Some(250)));
    assert_eq!(sums[0].loss_percent, 0);
    assert_eq!(sums[1].destination, sock(V6_A, 443));
    assert_eq!((sums[1].sent, sums[1].received, sums[1].lost), (2, 0, 2));
    assert_eq!(sums[1].loss_percent, 100);
}

#[test]
fn cancellation_stops_after_completed_rounds() {
    let hosts = vec![one_v4_host()];
    let mut s = Scheduler::new(&hosts, &opts(10, 0));
    let mut cancelled = false;
    loop {
        match s.loop_handler(cancelled) {
            Step::Stop => break,
            Step::Run { .. } => {
                let (res, _) = run_pass("example.test", hosts[0].candidate_sockets(IpProtocol::All), 2, &refused);
                s.record_round(&vec![res]);
                if s.rounds() == 2 {
                    cancelled = true;
                }
            }
        }
    }
    assert_eq!(s.rounds(), 2);
    let sums = s.summaries(ConnectMethod::TCP);
    assert_eq!(sums[0].sent, 2);
    assert_eq!(s.results.series[0].latencies.len(), 2);
}

#[test]
fn repeat_count_bounds_rounds() {
    let hosts = vec![one_v4_host()];
    let mut s = Scheduler::new(&hosts, &opts(4, 5));
    let mut n = 0;
    while let Step::Run { .. } = s.loop_handler(false) {
        s.record_round(&vec![]);
        n += 1;
        assert!(n <= 4);
    }
    assert_eq!(s.rounds(), 4);
    assert_eq!(s.loop_handler(false), Step::Stop);
}

#[test]
fn unlimited_repeat_runs_until_cancelled() {
    let hosts = vec![one_v4_host()];
    let mut s = Scheduler::new(&hosts, &opts(0, 1));
    for _ in 0..50 {
        assert_eq!(s.loop_handler(false), if s.rounds() == 0 { Step::Run { wait: 0 } } else { Step::Run { wait: 1 } });
        s.record_round(&vec![]);
    }
    assert_eq!(s.loop_handler(true), Step::Stop);
    assert_eq!(s.rounds(), 50);
}

#[test]
fn series_length_equals_rounds_even_with_missing_records() {
    let host = HostRecord::from_addresses("h.test".to_owned(), 7, &vec![V4_A, V6_A]);
    let hosts = vec![host];
    let mut s = Scheduler::new(&hosts, &opts(5, 0));
    // first round: only the IPv4 destination reported
    s.record_round(&vec![HostResults {
        host: "h.test".to_owned(),
        results: vec![answered(sock(V4_A, 7), 10, 40)],
    }]);
    // second round: nothing reported at all
    s.record_round(&vec![]);
    // third round: both reported
    s.record_round(&vec![HostResults {
        host: "h.test".to_owned(),
        results: vec![refused(sock(V6_A, 7)), answered(sock(V4_A, 7), 0, 90)],
    }]);
    for d in &s.results.series {
        assert_eq!(d.latencies.len(), 3);
    }
    assert_eq!(s.results.series[0].latencies, vec![Some(30), None, Some(90)]);
    assert_eq!(s.results.series[1].latencies, vec![None, None, None]);
}

#[test]
fn fan_out_never_exceeds_limit() {
    let targets: Vec<SocketAddress> = (0..7u16).map(|p| sock(V4_A, 1000 + p)).collect();
    let (res, most) = run_pass("many.test", targets.clone(), 3, &refused);
    assert_eq!(most, 3);
    assert_eq!(res.results.len(), 7);
    let seen: Vec<SocketAddress> = res.results.iter().map(|r| r.destination).collect();
    assert_eq!(seen, targets);
}

#[test]
fn fan_out_records_follow_targets_whatever_the_finish_order() {
    let targets = vec![sock(V4_A, 1), sock(V6_A, 2), sock(V4_A, 3)];
    let mut f = FanOut::new(targets.clone(), 3);
    let mut started = Vec::new();
    while let FanOutAction::Start(index, dst) = f.next_action() {
        started.push((index, dst));
    }
    assert_eq!(started.len(), 3);
    assert!(!f.is_pending(3));
    for (index, dst) in started.into_iter().rev() {
        f.complete(index, refused(dst));
    }
    assert_eq!(f.next_action(), FanOutAction::Done);
    let res = f.finish("o.test".to_owned());
    let dests: Vec<SocketAddress> = res.results.iter().map(|r| r.destination).collect();
    assert_eq!(dests, targets);
}

#[test]
fn fan_out_limit_zero_still_progresses() {
    let targets = vec![sock(V4_A, 1), sock(V4_A, 2)];
    let (res, most) = run_pass("z.test", targets, 0, &refused);
    assert_eq!(most, 1);
    assert_eq!(res.results.len(), 2);
}

#[test]
fn fan_out_of_nothing_is_done_at_once() {
    let mut f = FanOut::new(vec![], 4);
    assert_eq!(f.next_action(), FanOutAction::Done);
    assert_eq!(f.finish("e".to_owned()).results.len(), 0);
}

#[test]
fn v4_filter_clears_v6_and_keeps_v4() {
    let h = HostRecord::from_addresses("d.test".to_owned(), 22, &vec![V4_A, V6_A, IpAddress::V4(5)]);
    let f = h.filter_protocol(IpProtocol::V4);
    assert!(f.ipv6_sockets.is_empty());
    assert_eq!(f.ipv4_sockets, h.ipv4_sockets);
    assert_eq!(f.ipv4_sockets, vec![sock(V4_A, 22), sock(IpAddress::V4(5), 22)]);
    assert_eq!(f.host, "d.test");
    let g = h.filter_protocol(IpProtocol::V6);
    assert!(g.ipv4_sockets.is_empty());
    assert_eq!(g.ipv6_sockets, vec![sock(V6_A, 22)]);
    assert_eq!(h.candidate_sockets(IpProtocol::All), vec![sock(V4_A, 22), sock(IpAddress::V4(5), 22), sock(V6_A, 22)]);
    assert_eq!(h.candidate_sockets(IpProtocol::V6), vec![sock(V6_A, 22)]);
}

#[test]
fn filter_to_absent_family_leaves_nothing_to_probe() {
    let h = one_v4_host().filter_protocol(IpProtocol::V6);
    assert!(h.is_empty());
    let mut s = Scheduler::new(&vec![h], &opts(1, 0));
    assert_eq!(s.results.series.len(), 0);
    s.record_round(&vec![]);
    assert!(s.summaries(ConnectMethod::TCP).is_empty());
}

#[test]
fn unresolved_host_is_an_error() {
    let good = one_v4_host();
    let bad = HostRecord::from_addresses("nowhere.test".to_owned(), 80, &vec![]);
    assert!(check_resolved(&vec![good.clone()]).is_ok());
    let e = check_resolved(&vec![good, bad]).unwrap_err();
    assert_eq!(e.host, "nowhere.test");
}

#[test]
fn timeout_never_succeeds_and_success_has_time() {
    let t = timed_out(sock(V4_A, 9));
    assert_eq!(t.result, ConnectResult::Timeout);
    assert!(!t.success);
    assert_eq!(t.time, None);
    assert_eq!(t.error_msg.as_deref(), Some("deadline has elapsed"));
    let a = answered(sock(V4_A, 9), 5_000, 6_500);
    assert!(a.success);
    assert_eq!(a.result, ConnectResult::Pong);
    assert_eq!(a.time, Some(1_500));
    assert_eq!(a.source, local());
}

#[test]
fn bind_failure_is_recorded() {
    let bind = sock(IpAddress::V4(0x0102_0304), 5555);
    let r = connect_record(ConnectMethod::TCP, bind, sock(V4_A, 80), ProbeOutcome::BindFailed);
    assert_eq!(r.result, ConnectResult::BindError);
    assert_eq!(r.source, bind);
    assert!(!r.success);
    assert_eq!(r.time, None);
    assert_eq!(r.error_msg.as_deref(), Some("Error binding to socket"));
}

#[test]
fn failure_kinds_are_classified() {
    assert_eq!(io_error_switch_handler(IoFailure::ConnectionRefused), ConnectResult::ConnectionRefused);
    assert_eq!(io_error_switch_handler(IoFailure::ConnectionReset), ConnectResult::ConnectionRefused);
    assert_eq!(io_error_switch_handler(IoFailure::NetworkUnreachable), ConnectResult::Unreachable);
    assert_eq!(io_error_switch_handler(IoFailure::HostUnreachable), ConnectResult::Unreachable);
    assert_eq!(io_error_switch_handler(IoFailure::AddrNotAvailable), ConnectResult::Unreachable);
    assert_eq!(io_error_switch_handler(IoFailure::TimedOut), ConnectResult::Unknown);
    assert_eq!(io_error_switch_handler(IoFailure::Other), ConnectResult::Unknown);
}

#[test]
fn elapsed_time_in_microseconds() {
    assert_eq!(calc_connect_us(1_000, 3_345), 2_345);
    assert_eq!(calc_connect_us(7, 7), 0);
    assert_eq!(calc_connect_us(10, 3), 0);
}

#[test]
fn bind_address_follows_destination_family() {
    let src = IpPort { ipv4: IpAddress::V4(9), ipv6: IpAddress::V6(9), port: 1234 };
    assert_eq!(bind_address(&src, &sock(V4_A, 80)), sock(IpAddress::V4(9), 1234));
    assert_eq!(bind_address(&src, &sock(V6_A, 80)), sock(IpAddress::V6(9), 1234));
}

#[test]
fn summary_counts_and_statistics() {
    let d = sock(V4_A, 53);
    let r = client_summary_result(d, ConnectMethod::UDP, &vec![Some(100), None, Some(301), Some(200)]);
    assert_eq!(r.sent, 4);
    assert_eq!(r.received, 3);
    assert_eq!(r.lost, 1);
    assert_eq!(r.sent, r.received + r.lost);
    assert_eq!(r.loss_percent, 25);
    assert_eq!(r.min, Some(100));
    assert_eq!(r.max, Some(301));
    assert_eq!(r.avg, Some(200));
    assert_eq!(r.protocol, ConnectMethod::UDP);
    let third = client_summary_result(d, ConnectMethod::UDP, &vec![None, Some(1), Some(2)]);
    assert_eq!(third.loss_percent, 33);
    assert_eq!(third.avg, Some(1));
}

#[test]
fn summary_of_empty_series() {
    let r = client_summary_result(sock(V4_A, 1), ConnectMethod::TCP, &vec![]);
    assert_eq!((r.sent, r.received, r.lost, r.loss_percent), (0, 0, 0, 0));
    assert_eq!((r.min, r.avg, r.max), (None, None, None));
}

#[test]
fn summary_of_largest_times() {
    let m = u64::MAX;
    let r = client_summary_result(sock(V4_A, 1), ConnectMethod::TCP, &vec![Some(m), Some(m), Some(m - 2)]);
    assert_eq!(r.avg, Some(m - 1));
    assert_eq!(r.min, Some(m - 2));
    assert_eq!(r.max, Some(m));
}

#[test]
fn resolved_addresses_split_by_family_in_order() {
    let h = HostRecord::from_addresses(
        "r.test".to_owned(),
        8080,
        &vec![V6_A, IpAddress::V4(1), IpAddress::V6(2), IpAddress::V4(3)],
    );
    assert_eq!(h.port, 8080);
    assert_eq!(h.ipv4_sockets, vec![sock(IpAddress::V4(1), 8080), sock(IpAddress::V4(3), 8080)]);
    assert_eq!(h.ipv6_sockets, vec![sock(V6_A, 8080), sock(IpAddress::V6(2), 8080)]);
    assert!(!h.is_empty());
}

#[test]
fn udp_client_defaults() {
    let out = OutputOptions { log_file: None, quiet: false };
    let c = UdpClient::new("h".to_owned(), 53, None, None, out.clone(), opts(1, 0));
    assert_eq!(c.src_ip, "0.0.0.0");
    assert_eq!(c.src_port, 0);
    assert_eq!(c.dst_ip, "h");
    assert_eq!(c.dst_port, 53);
    let c2 = UdpClient::new("h".to_owned(), 53, Some("10.0.0.1".to_owned()), Some(999), out, opts(1, 0));
    assert_eq!(c2.src_ip, "10.0.0.1");
    assert_eq!(c2.src_port, 999);
    let p = c2.ip_port(IpAddress::V4(0x0a00_0001));
    assert_eq!(p, IpPort { ipv4: IpAddress::V4(0x0a00_0001), ipv6: IpAddress::V6(0), port: 999 });
}

#[test]
fn tcp_client_defaults() {
    let log = LoggingOptions { log_file: None, quiet: true };
    let ip = IpOptions { ip_protocol: IpProtocol::V4 };
    let c = TcpClient::new("h".to_owned(), 80, None, None, None, log.clone(), opts(2, 3), ip);
    assert_eq!(c.ip_port(), IpPort { ipv4: IpAddress::V4(0), ipv6: IpAddress::V6(0), port: 0 });
    let c2 = TcpClient::new("h".to_owned(), 80, Some(IpAddress::V4(7)), Some(V6_A), Some(5), log, opts(2, 3), ip);
    assert_eq!(c2.ip_port(), IpPort { ipv4: IpAddress::V4(7), ipv6: V6_A, port: 5 });
    assert_eq!(c2.ping_options, opts(2, 3));
    assert_eq!(c2.ip_options, ip);
}

#[test]
fn repeated_address_gets_one_series() {
    let host = HostRecord::from_addresses("twice.test".to_owned(), 80, &vec![V4_A, V4_A, V6_A]);
    assert_eq!(host.ipv4_sockets.len(), 2);
    let hosts = vec![host];
    let mut s = Scheduler::new(&hosts, &opts(1, 0));
    assert_eq!(s.results.series.len(), 2);
    assert_eq!(s.results.series[0].destination, sock(V4_A, 80));
    assert_eq!(s.results.series[1].destination, sock(V6_A, 80));
    s.record_round(&vec![HostResults {
        host: "twice.test".to_owned(),
        results: vec![answered(sock(V4_A, 80), 0, 12), refused(sock(V6_A, 80))],
    }]);
    let sums = s.summaries(ConnectMethod::TCP);
    assert_eq!(sums.len(), 2);
    assert_eq!((sums[0].sent, sums[0].received), (1, 1));
    assert_eq!((sums[1].sent, sums[1].lost), (1, 1));
}
