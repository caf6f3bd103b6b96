use vstd::prelude::*;

use crate::model::{ConnectMethod, ConnectRecord, HostRecord, HostResults, IpProtocol, SocketAddress};
use crate::summary::{ClientResult, client_summary_result, summary_spec};

verus! {

/// The (host position, destination) pairs probed for `hosts`: for each
/// host in order, its IPv4 sockets and then its IPv6 sockets.
pub open spec fn host_entries(hosts: Seq<HostRecord>) -> Seq<(int, SocketAddress)>
    decreases hosts.len(),
{
    if hosts.len() == 0 {
        Seq::empty()
    } else {
        let h = (hosts.len() - 1) as int;
        host_entries(hosts.drop_last()) + hosts.last().candidates_spec(IpProtocol::All).map_values(
            |d: SocketAddress| (h, d),
        )
    }
}

/// Time of the first record for `d` among `recs`; absent if there is none.
pub open spec fn first_time(recs: Seq<ConnectRecord>, d: SocketAddress) -> Option<u64>
    decreases recs.len(),
{
    if recs.len() == 0 {
        None
    } else if recs[0].destination == d {
        recs[0].time
    } else {
        first_time(recs.drop_first(), d)
    }
}

/// The entry of one round for destination `d` of the host at position `h`:
/// the time of its record in that host's results, absent when it has none.
pub open spec fn round_time(batch: Seq<HostResults>, h: int, d: SocketAddress) -> Option<u64> {
    if 0 <= h < batch.len() {
        first_time(batch[h].results@, d)
    } else {
        None
    }
}

/// The latency series of one destination of one host.
pub struct DestSeries {
    pub host_index: usize,
    pub destination: SocketAddress,
    pub latencies: Vec<Option<u64>>,
}

/// The (host position, destination) key of each series.
pub open spec fn series_keys(s: Seq<DestSeries>) -> Seq<(int, SocketAddress)> {
    s.map_values(|x: DestSeries| (x.host_index as int, x.destination))
}

/// Latency series of every destination, one entry per completed round.
/// `history` holds the batches of the completed rounds, oldest first.
pub struct ResultsMap {
    pub rounds: u64,
    pub series: Vec<DestSeries>,
    pub history: Ghost<Seq<Seq<HostResults>>>,
}

impl ResultsMap {
    pub open spec fn keys(self) -> Seq<(int, SocketAddress)> {
        series_keys(self.series@)
    }

    /// The series that round-by-round records give the destination `d` of
    /// the host at position `h`.
    pub open spec fn expected_series(self, h: int, d: SocketAddress) -> Seq<Option<u64>> {
        Seq::new(self.history@.len(), |r: int| round_time(self.history@[r], h, d))
    }

    /// Each key appears once, and each series holds, for every completed
    /// round, the time of its own destination's record in that round.
    pub open spec fn wf(self) -> bool {
        &&& self.history@.len() == self.rounds
        &&& self.keys().no_duplicates()
        &&& forall|k: int|
            0 <= k < self.series@.len() ==> (#[trigger] self.series@[k]).latencies@.len() == self.rounds
                && self.series@[k].latencies@ == self.expected_series(
                self.series@[k].host_index as int,
                self.series@[k].destination,
            )
    }

    /// One empty series for each distinct destination of each host; a
    /// destination that the resolver gave twice gets one series.
    pub fn new(hosts: &Vec<HostRecord>) -> (r: ResultsMap)
        ensures
            r.wf(),
            r.rounds == 0,
            forall|e: (int, SocketAddress)| r.keys().contains(e) <==> host_entries(hosts@).contains(e),
    {
        let mut series: Vec<DestSeries> = Vec::new();
        let mut i: usize = 0;
        while i < hosts.len()
            invariant
                i <= hosts@.len(),
                series_keys(series@).no_duplicates(),
                forall|e: (int, SocketAddress)|
                    series_keys(series@).contains(e) <==> host_entries(hosts@.subrange(0, i as int)).contains(e),
                forall|k: int| 0 <= k < series@.len() ==> (#[trigger] series@[k]).latencies@.len() == 0,
            decreases hosts@.len() - i,
        {
            let cands = hosts[i].candidate_sockets(IpProtocol::All);
            let ghost pre = hosts@.subrange(0, i as int);
            let ghost tail = cands@.map_values(|d: SocketAddress| (i as int, d));
            let mut j: usize = 0;
            while j < cands.len()
                invariant
                    i < hosts@.len(),
                    j <= cands@.len(),
                    tail == cands@.map_values(|d: SocketAddress| (i as int, d)),
                    series_keys(series@).no_duplicates(),
                    forall|e: (int, SocketAddress)|
                        series_keys(series@).contains(e) <==> (host_entries(pre).contains(e)
                            || tail.subrange(0, j as int).contains(e)),
                    forall|k: int| 0 <= k < series@.len() ==> (#[trigger] series@[k]).latencies@.len() == 0,
                decreases cands@.len() - j,
            {
                let d = cands[j];
                let ghost e = (i as int, d);
                let ghost old_keys = series_keys(series@);
                assert(tail.subrange(0, j as int + 1) =~= tail.subrange(0, j as int).push(e));
                let ghost old_sub = tail.subrange(0, j as int);
                let ghost new_sub = tail.subrange(0, j as int + 1);
                assert(forall|x: (int, SocketAddress)|
                    #[trigger] old_keys.contains(x) <==> (host_entries(pre).contains(x) || old_sub.contains(x)));
                if !has_key(&series, i, &d) {
                    series.push(DestSeries { host_index: i, destination: d, latencies: Vec::new() });
                    proof {
                        assert(series_keys(series@) =~= old_keys.push(e));
                        assert forall|a: int, b: int|
                            0 <= a < series_keys(series@).len() && 0 <= b < series_keys(series@).len()
                                && a != b implies series_keys(series@)[a] != series_keys(series@)[b] by {
                            if a < old_keys.len() && b < old_keys.len() {
                            } else if a < old_keys.len() {
                                assert(old_keys.contains(old_keys[a]));
                            } else {
                                assert(old_keys.contains(old_keys[b]));
                            }
                        }
                        assert forall|x: (int, SocketAddress)|
                            series_keys(series@).contains(x) <==> (host_entries(pre).contains(x)
                                || tail.subrange(0, j as int + 1).contains(x)) by {
                            lemma_push_contains(old_keys, e, x);
                            lemma_push_contains(old_sub, e, x);
                            assert(old_keys.contains(x) <==> (host_entries(pre).contains(x) || old_sub.contains(x)));
                        }
                    }
                } else {
                    proof {
                        assert(tail[j as int] == e);
                        assert forall|x: (int, SocketAddress)|
                            series_keys(series@).contains(x) <==> (host_entries(pre).contains(x)
                                || tail.subrange(0, j as int + 1).contains(x)) by {
                            lemma_push_contains(old_sub, e, x);
                            assert(old_keys.contains(x) <==> (host_entries(pre).contains(x) || old_sub.contains(x)));
                            assert(old_keys.contains(e));
                        }
                    }
                }
                assert(forall|x: (int, SocketAddress)|
                    #[trigger] series_keys(series@).contains(x) <==> (host_entries(pre).contains(x)
                        || new_sub.contains(x)));
                j = j + 1;
                assert(new_sub == tail.subrange(0, j as int));
            }
            proof {
                let post = hosts@.subrange(0, i as int + 1);
                assert(post.drop_last() =~= pre);
                assert(post.last() == hosts@[i as int]);
                assert(host_entries(post) == host_entries(pre) + tail);
                assert(tail.subrange(0, tail.len() as int) =~= tail);
                assert forall|x: (int, SocketAddress)|
                    series_keys(series@).contains(x) <==> host_entries(post).contains(x) by {
                    let he = host_entries(pre);
                    if he.contains(x) {
                        let w = choose|w: int| 0 <= w < he.len() && (#[trigger] he[w]) == x;
                        assert((he + tail)[w] == x);
                    }
                    if tail.contains(x) {
                        let w = choose|w: int| 0 <= w < tail.len() && (#[trigger] tail[w]) == x;
                        assert((he + tail)[he.len() + w] == x);
                    }
                    if (he + tail).contains(x) {
                        let w = choose|w: int| 0 <= w < (he + tail).len() && (#[trigger] (he + tail)[w]) == x;
                        if w < he.len() {
                            assert(he[w] == x);
                        } else {
                            assert(tail[w - he.len()] == x);
                        }
                    }
                }
            }
            i = i + 1;
        }
        assert(hosts@.subrange(0, hosts@.len() as int) =~= hosts@);
        let r = ResultsMap { rounds: 0, series, history: Ghost(Seq::empty()) };
        proof {
            assert forall|k: int| 0 <= k < r.series@.len() implies (#[trigger] r.series@[k]).latencies@
                == r.expected_series(r.series@[k].host_index as int, r.series@[k].destination) by {
                assert(r.series@[k].latencies@ =~= r.expected_series(
                    r.series@[k].host_index as int,
                    r.series@[k].destination,
                ));
            }
        }
        r
    }
}

proof fn lemma_push_contains<A>(s: Seq<A>, v: A, x: A)
    ensures
        s.push(v).contains(x) <==> (s.contains(x) || x == v),
{
    if s.contains(x) {
        let w = choose|w: int| 0 <= w < s.len() && (#[trigger] s[w]) == x;
        assert(s.push(v)[w] == x);
    }
    if x == v {
        assert(s.push(v)[s.len() as int] == v);
    }
    if s.push(v).contains(x) {
        let w = choose|w: int| 0 <= w < s.len() + 1 && (#[trigger] s.push(v)[w]) == x;
        if w < s.len() {
            assert(s[w] == x);
        }
    }
}

fn has_key(series: &Vec<DestSeries>, h: usize, d: &SocketAddress) -> (r: bool)
    ensures
        r == series_keys(series@).contains((h as int, *d)),
{
    let mut k: usize = 0;
    while k < series.len()
        invariant
            k <= series@.len(),
            forall|m: int| 0 <= m < k ==> series_keys(series@)[m] != (h as int, *d),
        decreases series@.len() - k,
    {
        if series[k].host_index == h && series[k].destination == *d {
            assert(series_keys(series@)[k as int] == (h as int, *d));
            return true;
        }
        k = k + 1;
    }
    false
}

fn find_time(recs: &Vec<ConnectRecord>, d: &SocketAddress) -> (r: Option<u64>)
    ensures
        r == first_time(recs@, *d),
{
    let mut i: usize = 0;
    assert(recs@.subrange(0, recs@.len() as int) =~= recs@);
    while i < recs.len()
        invariant
            i <= recs@.len(),
            first_time(recs@, *d) == first_time(recs@.subrange(i as int, recs@.len() as int), *d),
        decreases recs@.len() - i,
    {
        let ghost rest = recs@.subrange(i as int, recs@.len() as int);
        assert(rest.drop_first() =~= recs@.subrange(i as int + 1, recs@.len() as int));
        if recs[i].destination == *d {
            return recs[i].time;
        }
        i = i + 1;
    }
    None
}

fn batch_time(batch: &Vec<HostResults>, h: usize, d: &SocketAddress) -> (r: Option<u64>)
    ensures
        r == round_time(batch@, h as int, *d),
{
    if h < batch.len() {
        find_time(&batch[h].results, d)
    } else {
        None
    }
}

impl ResultsMap {
    /// Appends one round: each destination gets the time of its record in
    /// the results of its host, or an absent entry when it has none.
    pub fn record_round(&mut self, batch: &Vec<HostResults>)
        requires
            old(self).wf(),
            old(self).rounds < u64::MAX,
        ensures
            final(self).wf(),
            final(self).rounds == old(self).rounds + 1,
            final(self).keys() == old(self).keys(),
            final(self).series@.len() == old(self).series@.len(),
            final(self).history@ == old(self).history@.push(batch@),
            forall|k: int|
                0 <= k < final(self).series@.len() ==> (#[trigger] final(self).series@[k]).latencies@
                    == old(self).series@[k].latencies@.push(
                    round_time(batch@, old(self).series@[k].host_index as int, old(self).series@[k].destination),
                ),
    {
        let ghost before = self.series@;
        let mut k: usize = 0;
        while k < self.series.len()
            invariant
                self.series@.len() == before.len(),
                k <= before.len(),
                self.rounds == old(self).rounds,
                self.history == old(self).history,
                before == old(self).series@,
                forall|m: int| 0 <= m < before.len() ==> (#[trigger] self.series@[m]).host_index == before[m].host_index
                    && self.series@[m].destination == before[m].destination,
                forall|m: int| 0 <= m < k ==> (#[trigger] self.series@[m]).latencies@ == before[m].latencies@.push(
                    round_time(batch@, before[m].host_index as int, before[m].destination),
                ),
                forall|m: int| k <= m < before.len() ==> (#[trigger] self.series@[m]).latencies@ == before[m].latencies@,
            decreases before.len() - k,
        {
            let v = batch_time(batch, self.series[k].host_index, &self.series[k].destination);
            self.series[k].latencies.push(v);
            k = k + 1;
        }
        self.rounds = self.rounds + 1;
        self.history = Ghost(self.history@.push(batch@));
        proof {
            assert(self.keys() =~= old(self).keys());
            assert forall|k: int| 0 <= k < self.series@.len() implies (#[trigger] self.series@[k]).latencies@
                == self.expected_series(self.series@[k].host_index as int, self.series@[k].destination) by {
                assert(self.series@[k].latencies@ =~= self.expected_series(
                    self.series@[k].host_index as int,
                    self.series@[k].destination,
                ));
            }
        }
    }

    /// The summary of every destination, in the order of the series.
    pub fn summaries(&self, protocol: ConnectMethod) -> (r: Vec<ClientResult>)
        ensures
            r@.len() == self.series@.len(),
            forall|k: int|
                0 <= k < r@.len() ==> #[trigger] r@[k] == summary_spec(
                    self.series@[k].destination,
                    protocol,
                    self.series@[k].latencies@,
                ),
    {
        let mut r: Vec<ClientResult> = Vec::new();
        let mut k: usize = 0;
        while k < self.series.len()
            invariant
                k <= self.series@.len(),
                r@.len() == k,
                forall|m: int|
                    0 <= m < k ==> #[trigger] r@[m] == summary_spec(
                        self.series@[m].destination,
                        protocol,
                        self.series@[m].latencies@,
                    ),
            decreases self.series@.len() - k,
        {
            r.push(client_summary_result(self.series[k].destination, protocol, &self.series[k].latencies));
            k = k + 1;
        }
        r
    }
}

} // verus!
