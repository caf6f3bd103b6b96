use vstd::prelude::*;

use crate::model::{ConnectMethod, HostRecord, HostResults, PingOptions, SocketAddress};
use crate::results::{ResultsMap, host_entries, round_time};
use crate::summary::{ClientResult, lemma_all_answered, lemma_none_answered, summary_spec};

verus! {

/// What the loop does next.
#[derive(Clone, Copy, Debug, PartialEq, Eq, Structural)]
pub enum Step {
    /// Leave the loop and summarise.
    Stop,
    /// Wait `wait` milliseconds, then run one round over every host.
    Run { wait: u64 },
}

/// Drives the rounds of a run: how many, how far apart, and what they
/// measured.
pub struct Scheduler {
    pub repeat: u16,
    pub interval: u64,
    pub results: ResultsMap,
}

impl Scheduler {
    pub open spec fn wf(self) -> bool {
        &&& self.results.wf()
        &&& self.repeat == 0 || self.results.rounds <= self.repeat
    }

    /// Another round may start: the repeat count (0 for none) is not
    /// reached and the round counter can still grow.
    pub open spec fn may_run(self) -> bool {
        &&& self.repeat == 0 || self.results.rounds < self.repeat
        &&& self.results.rounds < u64::MAX
    }

    pub open spec fn step_spec(self, cancelled: bool) -> Step {
        if cancelled || !self.may_run() {
            Step::Stop
        } else if self.results.rounds == 0 {
            Step::Run { wait: 0 }
        } else {
            Step::Run { wait: self.interval }
        }
    }

    /// A scheduler with one empty series per destination of `hosts`.
    pub fn new(hosts: &Vec<HostRecord>, ping_options: &PingOptions) -> (r: Scheduler)
        ensures
            r.wf(),
            r.repeat == ping_options.repeat,
            r.interval == ping_options.interval,
            r.results.rounds == 0,
            forall|e: (int, SocketAddress)| r.results.keys().contains(e) <==> host_entries(hosts@).contains(e),
    {
        Scheduler {
            repeat: ping_options.repeat,
            interval: ping_options.interval,
            results: ResultsMap::new(hosts),
        }
    }

    /// Decides the next step at a round boundary: stop once cancelled or
    /// once the repeat count is reached, else run a round, after the
    /// interval unless it is the first.
    pub fn loop_handler(&self, cancelled: bool) -> (r: Step)
        requires
            self.wf(),
        ensures
            r == self.step_spec(cancelled),
            r matches Step::Run { .. } ==> self.may_run(),
    {
        if cancelled {
            Step::Stop
        } else if self.repeat != 0 && self.results.rounds >= self.repeat as u64 {
            Step::Stop
        } else if self.results.rounds == u64::MAX {
            Step::Stop
        } else if self.results.rounds == 0 {
            Step::Run { wait: 0 }
        } else {
            Step::Run { wait: self.interval }
        }
    }

    /// Records the results of a finished round.
    pub fn record_round(&mut self, batch: &Vec<HostResults>)
        requires
            old(self).wf(),
            old(self).may_run(),
        ensures
            final(self).wf(),
            final(self).repeat == old(self).repeat,
            final(self).interval == old(self).interval,
            final(self).results.rounds == old(self).results.rounds + 1,
            final(self).results.keys() == old(self).results.keys(),
            final(self).results.series@.len() == old(self).results.series@.len(),
            forall|k: int|
                0 <= k < final(self).results.series@.len() ==> (#[trigger] final(self).results.series@[k]).latencies@ == old(self).results.series@[k].latencies@.push(
                    round_time(
                        batch@,
                        old(self).results.series@[k].host_index as int,
                        old(self).results.series@[k].destination,
                    ),
                ),
    {
        self.results.record_round(batch);
    }

    /// Number of completed rounds.
    pub fn rounds(&self) -> (r: u64)
        ensures
            r == self.results.rounds,
    {
        self.results.rounds
    }

    /// The summary of every destination, in the order of the series.
    pub fn summaries(&self, protocol: ConnectMethod) -> (r: Vec<ClientResult>)
        requires
            self.wf(),
        ensures
            r@.len() == self.results.series@.len(),
            forall|k: int|
                0 <= k < r@.len() ==> #[trigger] r@[k] == summary_spec(
                    self.results.series@[k].destination,
                    protocol,
                    self.results.series@[k].latencies@,
                ),
            forall|k: int| 0 <= k < r@.len() ==> (#[trigger] r@[k]).sent == self.results.rounds,
    {
        self.results.summaries(protocol)
    }
}

/// Every destination's series holds one entry per completed round, so each
/// summary counts exactly the rounds that were run.
pub proof fn lemma_series_match_rounds(s: Scheduler, protocol: ConnectMethod)
    requires
        s.wf(),
    ensures
        forall|k: int|
            0 <= k < s.results.series@.len() ==> (#[trigger] s.results.series@[k]).latencies@.len()
                == s.results.rounds,
        forall|k: int|
            0 <= k < s.results.series@.len() ==> (#[trigger] summary_spec(
                s.results.series@[k].destination,
                protocol,
                s.results.series@[k].latencies@,
            )).sent == s.results.rounds,
{
}

/// Destinations are summarised apart. Each destination has one series, and
/// it holds, round by round, the time of that destination's own record. So a
/// destination that answered in every completed round shows every probe
/// received and none lost, and one that answered in none shows every probe
/// lost, whatever the other destinations did.
pub proof fn lemma_destinations_apart(s: Scheduler, k: int, protocol: ConnectMethod)
    requires
        s.wf(),
        0 <= k < s.results.series@.len(),
    ensures
        s.results.keys().no_duplicates(),
        s.results.series@[k].latencies@ == s.results.expected_series(
            s.results.series@[k].host_index as int,
            s.results.series@[k].destination,
        ),
        (forall|r: int|
            0 <= r < s.results.rounds ==> (#[trigger] round_time(
                s.results.history@[r],
                s.results.series@[k].host_index as int,
                s.results.series@[k].destination,
            )) is Some) ==> {
            let sum = summary_spec(s.results.series@[k].destination, protocol, s.results.series@[k].latencies@);
            sum.sent == s.results.rounds && sum.received == s.results.rounds && sum.lost == 0
        },
        (forall|r: int|
            0 <= r < s.results.rounds ==> (#[trigger] round_time(
                s.results.history@[r],
                s.results.series@[k].host_index as int,
                s.results.series@[k].destination,
            )) is None) ==> {
            let sum = summary_spec(s.results.series@[k].destination, protocol, s.results.series@[k].latencies@);
            sum.sent == s.results.rounds && sum.received == 0 && sum.lost == s.results.rounds
        },
{
    let h = s.results.series@[k].host_index as int;
    let d = s.results.series@[k].destination;
    let lat = s.results.series@[k].latencies@;
    if forall|r: int| 0 <= r < s.results.rounds ==> (#[trigger] round_time(s.results.history@[r], h, d)) is Some {
        assert forall|i: int| 0 <= i < lat.len() implies (#[trigger] lat[i]) is Some by {
            assert(lat[i] == round_time(s.results.history@[i], h, d));
        }
        lemma_all_answered(lat);
    }
    if forall|r: int| 0 <= r < s.results.rounds ==> (#[trigger] round_time(s.results.history@[r], h, d)) is None {
        assert forall|i: int| 0 <= i < lat.len() implies (#[trigger] lat[i]) is None by {
            assert(lat[i] == round_time(s.results.history@[i], h, d));
        }
        lemma_none_answered(lat);
    }
}

/// A run with a repeat count never completes more rounds than that count,
/// and stops at once when cancelled.
pub proof fn lemma_rounds_within_repeat(s: Scheduler)
    requires
        s.wf(),
    ensures
        s.repeat != 0 ==> s.results.rounds <= s.repeat,
        s.repeat != 0 && s.results.rounds == s.repeat ==> s.step_spec(false) == Step::Stop,
        s.step_spec(true) == Step::Stop,
{
}

} // verus!
