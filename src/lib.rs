// Decision core of a network reachability prober: resolution results,
// the per-probe outcome record, bounded fan-out dispatch, the repeat loop
// controller and the latency aggregator. Sockets, clocks and signals are
// handled by the caller, which feeds their outcomes in as plain values.
use vstd::prelude::*;

pub mod client;
pub mod fanout;
pub mod model;
pub mod probe;
pub mod resolve;
pub mod results;
pub mod scheduler;
pub mod summary;

verus! {

} // verus!
