use vstd::prelude::*;

use crate::model::{ConnectMethod, SocketAddress};

verus! {

/// Number of answered probes in a latency series.
pub open spec fn received_count(s: Seq<Option<u64>>) -> nat
    decreases s.len(),
{
    if s.len() == 0 {
        0
    } else {
        received_count(s.drop_last()) + if s.last() is Some { 1nat } else { 0nat }
    }
}

/// Number of unanswered probes (absent times) in a latency series.
pub open spec fn lost_count(s: Seq<Option<u64>>) -> nat
    decreases s.len(),
{
    if s.len() == 0 {
        0
    } else {
        lost_count(s.drop_last()) + if s.last() is None { 1nat } else { 0nat }
    }
}

/// Sum of the measured times of a latency series.
pub open spec fn total_time(s: Seq<Option<u64>>) -> nat
    decreases s.len(),
{
    if s.len() == 0 {
        0
    } else {
        total_time(s.drop_last()) + match s.last() {
            Some(t) => t as nat,
            None => 0nat,
        }
    }
}

/// Least measured time of a series, if any probe was answered.
pub open spec fn min_time(s: Seq<Option<u64>>) -> Option<u64>
    decreases s.len(),
{
    if s.len() == 0 {
        None
    } else {
        match (min_time(s.drop_last()), s.last()) {
            (None, t) => t,
            (m, None) => m,
            (Some(a), Some(b)) => Some(if b < a { b } else { a }),
        }
    }
}

/// Greatest measured time of a series, if any probe was answered.
pub open spec fn max_time(s: Seq<Option<u64>>) -> Option<u64>
    decreases s.len(),
{
    if s.len() == 0 {
        None
    } else {
        match (max_time(s.drop_last()), s.last()) {
            (None, t) => t,
            (m, None) => m,
            (Some(a), Some(b)) => Some(if b > a { b } else { a }),
        }
    }
}

/// Summary of the probes sent to one destination. Times are in
/// microseconds; the average is rounded down, and so is the loss in percent.
#[derive(Clone, Copy, Debug, PartialEq, Eq, Structural)]
pub struct ClientResult {
    pub destination: SocketAddress,
    pub protocol: ConnectMethod,
    pub sent: u64,
    pub received: u64,
    pub lost: u64,
    pub loss_percent: u64,
    pub min: Option<u64>,
    pub avg: Option<u64>,
    pub max: Option<u64>,
}

/// Every probe of a series is either answered or lost.
pub proof fn lemma_sent_is_received_plus_lost(s: Seq<Option<u64>>)
    ensures
        s.len() == received_count(s) + lost_count(s),
    decreases s.len(),
{
    if s.len() > 0 {
        lemma_sent_is_received_plus_lost(s.drop_last());
    }
}

/// A series answered at every entry has every probe received and none lost.
pub proof fn lemma_all_answered(s: Seq<Option<u64>>)
    requires
        forall|i: int| 0 <= i < s.len() ==> (#[trigger] s[i]) is Some,
    ensures
        received_count(s) == s.len(),
        lost_count(s) == 0,
    decreases s.len(),
{
    if s.len() > 0 {
        lemma_all_answered(s.drop_last());
    }
}

/// A series answered at no entry has every probe lost and none received.
pub proof fn lemma_none_answered(s: Seq<Option<u64>>)
    requires
        forall|i: int| 0 <= i < s.len() ==> (#[trigger] s[i]) is None,
    ensures
        received_count(s) == 0,
        lost_count(s) == s.len(),
    decreases s.len(),
{
    if s.len() > 0 {
        lemma_none_answered(s.drop_last());
    }
}

proof fn lemma_total_bounded(s: Seq<Option<u64>>)
    ensures
        total_time(s) <= received_count(s) * 0xffff_ffff_ffff_ffffnat,
    decreases s.len(),
{
    if s.len() > 0 {
        lemma_total_bounded(s.drop_last());
    }
}

proof fn lemma_min_none(s: Seq<Option<u64>>)
    ensures
        (min_time(s) is None) <==> received_count(s) == 0,
        (max_time(s) is None) <==> received_count(s) == 0,
    decreases s.len(),
{
    if s.len() > 0 {
        lemma_min_none(s.drop_last());
    }
}

/// The summary of the latency series `s` of `destination`: sent is the
/// length of the series, received the measured entries, lost the absent ones.
pub open spec fn summary_spec(
    destination: SocketAddress,
    protocol: ConnectMethod,
    s: Seq<Option<u64>>,
) -> ClientResult {
    let sent = s.len();
    let received = received_count(s);
    let lost = lost_count(s);
    ClientResult {
        destination,
        protocol,
        sent: sent as u64,
        received: received as u64,
        lost: lost as u64,
        loss_percent: if sent == 0 { 0 } else { (lost * 100 / sent) as u64 },
        min: min_time(s),
        avg: if received == 0 { None } else { Some((total_time(s) / received) as u64) },
        max: max_time(s),
    }
}

pub fn client_summary_result(
    destination: SocketAddress,
    protocol: ConnectMethod,
    latencies: &Vec<Option<u64>>,
) -> (r: ClientResult)
    ensures
        r == summary_spec(destination, protocol, latencies@),
        r.sent == r.received + r.lost,
        r.lost == lost_count(latencies@),
        r.min is None <==> r.received == 0,
        r.max is None <==> r.received == 0,
{
    let mut received: u64 = 0;
    let mut lost: u64 = 0;
    let mut total: u128 = 0;
    let mut min: Option<u64> = None;
    let mut max: Option<u64> = None;
    let mut i: usize = 0;
    while i < latencies.len()
        invariant
            i <= latencies@.len(),
            received == received_count(latencies@.subrange(0, i as int)),
            lost == lost_count(latencies@.subrange(0, i as int)),
            total == total_time(latencies@.subrange(0, i as int)),
            min == min_time(latencies@.subrange(0, i as int)),
            max == max_time(latencies@.subrange(0, i as int)),
            i == received + lost,
        decreases latencies@.len() - i,
    {
        let ghost pre = latencies@.subrange(0, i as int);
        let ghost next = latencies@.subrange(0, i as int + 1);
        proof {
            assert(next.drop_last() =~= pre);
            lemma_total_bounded(pre);
            lemma_sent_is_received_plus_lost(pre);
            assert(received_count(pre) * 0xffff_ffff_ffff_ffffnat <= 0xffff_ffff_ffff_ffffnat
                * 0xffff_ffff_ffff_ffffnat) by (nonlinear_arith)
                requires
                    received_count(pre) <= 0xffff_ffff_ffff_ffffnat,
            ;
        }
        match latencies[i] {
            Some(t) => {
                received = received + 1;
                total = total + t as u128;
                min = match min {
                    None => Some(t),
                    Some(a) => Some(if t < a { t } else { a }),
                };
                max = match max {
                    None => Some(t),
                    Some(a) => Some(if t > a { t } else { a }),
                };
            },
            None => {
                lost = lost + 1;
            },
        }
        i = i + 1;
    }
    proof {
        assert(latencies@.subrange(0, latencies@.len() as int) =~= latencies@);
        lemma_total_bounded(latencies@);
        lemma_sent_is_received_plus_lost(latencies@);
        lemma_min_none(latencies@);
    }
    let sent = received + lost;
    let avg = if received == 0 {
        None
    } else {
        proof {
            assert(total / (received as u128) <= 0xffff_ffff_ffff_ffffnat) by (nonlinear_arith)
                requires
                    total <= received * 0xffff_ffff_ffff_ffffnat,
                    received > 0,
            ;
        }
        Some((total / (received as u128)) as u64)
    };
    let loss_percent = if sent == 0 {
        0
    } else {
        ((lost as u128) * 100 / (sent as u128)) as u64
    };
    proof {
        if sent != 0 {
            assert((lost as int) * 100 / (sent as int) <= 100) by (nonlinear_arith)
                requires
                    lost <= sent,
                    sent > 0,
            ;
        }
    }
    ClientResult {
        destination,
        protocol,
        sent,
        received,
        lost,
        loss_percent,
        min,
        avg,
        max,
    }
}

} // verus!
