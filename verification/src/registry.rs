//! The upstream registry: the fixed list of upstream addresses and a
//! parallel liveness flag per address.

use vstd::prelude::*;

verus! {

/// The list of configured upstream addresses together with one health flag
/// per address. The addresses are fixed after construction; the health flags
/// are rewritten by the health sweep and demoted on failed connects.
pub struct Registry {
    /// Addresses of the upstream servers, fixed after startup.
    pub addresses: Vec<String>,
    /// `health[i]` records whether upstream `i` is currently believed alive.
    pub health: Vec<bool>,
}

impl Registry {
    /// The registry's invariant: one health flag per address, and at least
    /// one upstream is configured.
    pub open spec fn wf(self) -> bool {
        &&& self.health@.len() == self.addresses@.len()
        &&& self.addresses@.len() >= 1
    }

    /// Creates a registry over the given addresses, every upstream initially
    /// marked healthy.
    pub fn new(addresses: Vec<String>) -> (r: Registry)
        requires
            addresses@.len() >= 1,
        ensures
            r.wf(),
            r.addresses@ == addresses@,
            forall|i: int| 0 <= i < r.health@.len() ==> r.health@[i],
    {
        let n = addresses.len();
        let mut health: Vec<bool> = Vec::new();
        let mut i: usize = 0;
        while i < n
            invariant
                i <= n,
                health@.len() == i,
                forall|j: int| 0 <= j < i ==> health@[j],
            decreases n - i,
        {
            health.push(true);
            i = i + 1;
        }
        Registry { addresses, health }
    }

    /// Builds the registry the process starts with. Configuring no upstream
    /// at all is a fatal startup error, reported as `None`; otherwise every
    /// upstream starts out healthy.
    pub fn from_config(addresses: Vec<String>) -> (r: Option<Registry>)
        ensures
            match r {
                Some(reg) => addresses@.len() >= 1 && reg.wf()
                    && reg.addresses@ == addresses@
                    && forall|i: int| 0 <= i < reg.health@.len() ==> reg.health@[i],
                None => addresses@.len() == 0,
            },
    {
        if addresses.len() == 0 {
            None
        } else {
            Some(Registry::new(addresses))
        }
    }

    /// The number of configured upstreams.
    pub fn len(&self) -> (n: usize)
        requires
            self.wf(),
        ensures
            n == self.addresses@.len(),
            n >= 1,
    {
        self.addresses.len()
    }

    /// Demotes upstream `i` after a failed connect. Never marks anything
    /// healthy.
    pub fn mark_unhealthy(&mut self, i: usize)
        requires
            old(self).wf(),
            i < old(self).health@.len(),
        ensures
            final(self).wf(),
            final(self).addresses@ == old(self).addresses@,
            final(self).health@ == old(self).health@.update(i as int, false),
    {
        self.health[i] = false;
    }
}

} // verus!
