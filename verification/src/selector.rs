//! Upstream selection and failover: pick a random healthy upstream, demote
//! upstreams whose connects fail, and report when none is left.

use vstd::prelude::*;
use crate::registry::Registry;
use rand::Rng;
use rand::SeedableRng;

verus! {

/// Relies on rand's `Rng::gen_range` over the range `0..n`: the sample lies
/// inside the range, and a non-empty range does not panic.
#[verifier::external_body]
fn random_index(n: usize) -> (r: usize)
    requires
        n > 0,
    ensures
        r < n,
{
    let mut rng = rand::rngs::StdRng::from_entropy();
    rng.gen_range(0..n)
}

/// The number of `true` flags in a health vector.
pub open spec fn count_healthy(s: Seq<bool>) -> nat
    decreases s.len(),
{
    if s.len() == 0 {
        0
    } else {
        (if s[0] {
            1nat
        } else {
            0nat
        }) + count_healthy(s.drop_first())
    }
}

/// Demoting one healthy upstream strictly lowers the healthy count.
proof fn lemma_count_healthy_update(s: Seq<bool>, i: int)
    requires
        0 <= i < s.len(),
        s[i],
    ensures
        count_healthy(s.update(i, false)) + 1 == count_healthy(s),
    decreases s.len(),
{
    let t = s.update(i, false);
    if i == 0 {
        assert(t.drop_first() =~= s.drop_first());
    } else {
        assert(t.drop_first() =~= s.drop_first().update(i - 1, false));
        lemma_count_healthy_update(s.drop_first(), i - 1);
    }
}

/// Reports whether any upstream is currently marked healthy.
pub fn any_healthy(reg: &Registry) -> (b: bool)
    requires
        reg.wf(),
    ensures
        b == exists|j: int| 0 <= j < reg.health@.len() && reg.health@[j],
{
    let n = reg.health.len();
    let mut i: usize = 0;
    while i < n
        invariant
            i <= n,
            n == reg.health@.len(),
            forall|j: int| 0 <= j < i ==> !reg.health@[j],
        decreases n - i,
    {
        if reg.health[i] {
            return true;
        }
        i = i + 1;
    }
    false
}

/// Picks an upstream for one connection attempt: a uniformly random healthy
/// index, or `None` exactly when no upstream is healthy. Sampling directly
/// among the healthy indices draws from the same distribution as resampling
/// the full range until a healthy index appears, without the unbounded spin.
pub fn select_upstream(reg: &Registry) -> (r: Option<usize>)
    requires
        reg.wf(),
    ensures
        match r {
            Some(i) => i < reg.health@.len() && reg.health@[i as int],
            None => forall|j: int| 0 <= j < reg.health@.len() ==> !reg.health@[j],
        },
{
    let n = reg.health.len();
    let mut healthy: Vec<usize> = Vec::new();
    let mut i: usize = 0;
    while i < n
        invariant
            i <= n,
            n == reg.health@.len(),
            forall|k: int| 0 <= k < healthy@.len()
                ==> healthy@[k] < n && reg.health@[healthy@[k] as int],
            healthy@.len() == 0 ==> forall|j: int| 0 <= j < i ==> !reg.health@[j],
        decreases n - i,
    {
        if reg.health[i] {
            healthy.push(i);
        }
        i = i + 1;
    }
    if healthy.len() == 0 {
        None
    } else {
        let k = random_index(healthy.len());
        Some(healthy[k])
    }
}

/// The failover policy of one connection attempt, run against a connect
/// oracle: `accepts[i]` records whether a connect to upstream `i` succeeds.
/// The policy repeatedly selects a random healthy upstream; a refused
/// connect demotes that upstream and selection retries; the sole exit with
/// `None` is the selector finding no healthy upstream at all. Callers that
/// perform real network connects drive the same policy step by step with
/// `select_upstream` and `Registry::mark_unhealthy`.
pub fn connect_upstream(reg: &mut Registry, accepts: &Vec<bool>) -> (r: Option<usize>)
    requires
        old(reg).wf(),
        accepts@.len() == old(reg).health@.len(),
    ensures
        final(reg).wf(),
        final(reg).addresses@ == old(reg).addresses@,
        final(reg).health@.len() == old(reg).health@.len(),
        // health flags only ever degrade here: nothing is marked healthy
        forall|j: int| 0 <= j < final(reg).health@.len() && final(reg).health@[j]
            ==> old(reg).health@[j],
        // an upstream that accepts connects is never demoted
        forall|j: int| 0 <= j < final(reg).health@.len()
            && old(reg).health@[j] && accepts@[j] ==> final(reg).health@[j],
        match r {
            Some(i) => i < accepts@.len() && accepts@[i as int]
                && old(reg).health@[i as int] && final(reg).health@[i as int],
            None => forall|j: int| 0 <= j < final(reg).health@.len()
                ==> !final(reg).health@[j],
        },
        // some healthy upstream accepts: a connection is obtained
        (exists|j: int| 0 <= j < old(reg).health@.len()
            && old(reg).health@[j] && accepts@[j]) ==> r is Some,
        // every upstream refuses: the attempt reports unavailability
        (forall|j: int| 0 <= j < accepts@.len() ==> !accepts@[j]) ==> r is None,
{
    loop
        invariant
            reg.wf(),
            accepts@.len() == reg.health@.len(),
            reg.addresses@ == old(reg).addresses@,
            reg.health@.len() == old(reg).health@.len(),
            forall|j: int| 0 <= j < reg.health@.len() && reg.health@[j]
                ==> old(reg).health@[j],
            forall|j: int| 0 <= j < reg.health@.len()
                && old(reg).health@[j] && accepts@[j] ==> reg.health@[j],
        decreases count_healthy(reg.health@),
    {
        match select_upstream(reg) {
            None => {
                return None;
            },
            Some(i) => {
                if accepts[i] {
                    return Some(i);
                }
                proof {
                    lemma_count_healthy_update(reg.health@, i as int);
                }
                reg.mark_unhealthy(i);
            },
        }
    }
}

} // verus!
