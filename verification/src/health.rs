//! The active health sweep: how one probe outcome is classified and how a
//! full sweep rewrites the registry's health flags.
//!
//! The probes themselves are network I/O performed by the embedding: it
//! connects to each upstream, sends a GET request for the configured
//! health-check path, reads one response, and hands the outcome of each
//! probe back here as a plain value.

use vstd::prelude::*;
use crate::registry::Registry;

verus! {

/// The status code that marks an upstream healthy.
pub const STATUS_OK: u16 = 200;

/// What one health probe of one upstream came to.
#[derive(Clone, Copy, Debug, PartialEq, Eq, Structural)]
pub enum ProbeOutcome {
    /// The connect to the upstream failed.
    ConnectFailed,
    /// The probe request could not be written.
    WriteFailed,
    /// No response could be read.
    ReadFailed,
    /// A response was read, carrying this status code.
    Responded(u16),
}

/// How a probe outcome is classified: healthy exactly when a response was
/// read and its status code is 200.
pub open spec fn spec_probe_healthy(o: ProbeOutcome) -> bool {
    match o {
        ProbeOutcome::Responded(status) => status == STATUS_OK,
        _ => false,
    }
}

/// The health vector a sweep produces: a function of the probe outcomes
/// alone, independent of the previously recorded health.
pub open spec fn sweep_result(outcomes: Seq<ProbeOutcome>) -> Seq<bool> {
    outcomes.map_values(|o: ProbeOutcome| spec_probe_healthy(o))
}

/// Classifies one probe outcome.
pub fn classify_probe(o: &ProbeOutcome) -> (healthy: bool)
    ensures
        healthy == spec_probe_healthy(*o),
{
    match o {
        ProbeOutcome::Responded(status) => *status == STATUS_OK,
        _ => false,
    }
}

/// Applies one full health sweep: every health flag is rewritten from the
/// outcome of that upstream's probe, a full resync rather than an
/// incremental update. Probing a fixed set of upstreams twice therefore
/// yields the same health vector twice, whatever was recorded before.
pub fn health_sweep(reg: &mut Registry, outcomes: &Vec<ProbeOutcome>)
    requires
        old(reg).wf(),
        outcomes@.len() == old(reg).health@.len(),
    ensures
        final(reg).wf(),
        final(reg).addresses@ == old(reg).addresses@,
        final(reg).health@ == sweep_result(outcomes@),
{
    let n = outcomes.len();
    let mut health: Vec<bool> = Vec::new();
    let mut i: usize = 0;
    while i < n
        invariant
            i <= n,
            n == outcomes@.len(),
            health@.len() == i,
            forall|j: int| 0 <= j < i ==> health@[j] == spec_probe_healthy(outcomes@[j]),
        decreases n - i,
    {
        health.push(classify_probe(&outcomes[i]));
        i = i + 1;
    }
    reg.health = health;
    proof {
        assert(reg.health@ =~= sweep_result(outcomes@));
    }
}

/// A health sweep is idempotent: the health vector it installs depends on
/// the probe outcomes alone, so two sweeps over the same outcomes install
/// the same vector, from any two starting states.
pub proof fn lemma_sweep_idempotent(outcomes: Seq<ProbeOutcome>, h1: Seq<bool>, h2: Seq<bool>)
    requires
        h1 == sweep_result(outcomes),
        h2 == sweep_result(outcomes),
    ensures
        h1 == h2,
        forall|i: int| 0 <= i < outcomes.len() ==> h1[i] == spec_probe_healthy(outcomes[i]),
{
}

} // verus!
