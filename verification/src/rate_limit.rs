//! Per-client rate limiting: a mapping from client-IP string to a request
//! count for the current window, and the window reset that clears it.

use vstd::prelude::*;

verus! {

/// The limiter's verdict on one request.
#[derive(Clone, Copy, Debug, PartialEq, Eq, Structural)]
pub enum RateDecision {
    /// The request may proceed to an upstream.
    Allowed,
    /// The client exceeded the configured maximum; the request is refused.
    Rejected,
}

/// The request count recorded for `ip`: the value of the first entry whose
/// key is `ip`, or zero when no entry carries that key.
pub open spec fn count_of(entries: Seq<(String, usize)>, ip: Seq<char>) -> usize
    decreases entries.len(),
{
    if entries.len() == 0 {
        0
    } else if entries[0].0@ == ip {
        entries[0].1
    } else {
        count_of(entries.drop_first(), ip)
    }
}

proof fn lemma_count_of_found(entries: Seq<(String, usize)>, ip: Seq<char>, i: int)
    requires
        0 <= i < entries.len(),
        forall|j: int| 0 <= j < i ==> entries[j].0@ != ip,
        entries[i].0@ == ip,
    ensures
        count_of(entries, ip) == entries[i].1,
    decreases entries.len(),
{
    if i > 0 {
        lemma_count_of_found(entries.drop_first(), ip, i - 1);
    }
}

proof fn lemma_count_of_update(entries: Seq<(String, usize)>, i: int, e: (String, usize))
    requires
        0 <= i < entries.len(),
        e.0@ == entries[i].0@,
    ensures
        forall|q: Seq<char>| q != e.0@
            ==> count_of(entries.update(i, e), q) == count_of(entries, q),
    decreases entries.len(),
{
    let t = entries.update(i, e);
    if i == 0 {
        assert(t.drop_first() =~= entries.drop_first());
    } else {
        assert(t.drop_first() =~= entries.drop_first().update(i - 1, e));
        lemma_count_of_update(entries.drop_first(), i - 1, e);
        assert forall|q: Seq<char>| q != e.0@
            implies count_of(t, q) == count_of(entries, q) by {
            if entries[0].0@ != q {
                assert(count_of(t.drop_first(), q) == count_of(entries.drop_first(), q));
            }
        }
    }
}

proof fn lemma_count_of_push(entries: Seq<(String, usize)>, e: (String, usize))
    requires
        forall|j: int| 0 <= j < entries.len() ==> entries[j].0@ != e.0@,
    ensures
        count_of(entries.push(e), e.0@) == e.1,
        forall|q: Seq<char>| q != e.0@
            ==> count_of(entries.push(e), q) == count_of(entries, q),
    decreases entries.len(),
{
    let t = entries.push(e);
    if entries.len() == 0 {
        assert(t[0] == e);
        assert(t.drop_first() =~= Seq::<(String, usize)>::empty());
        assert forall|q: Seq<char>| q != e.0@
            implies count_of(t, q) == count_of(entries, q) by {
            assert(count_of(t, q) == count_of(t.drop_first(), q));
        }
    } else {
        assert(t[0] == entries[0]);
        assert(t.drop_first() =~= entries.drop_first().push(e));
        lemma_count_of_push(entries.drop_first(), e);
        assert forall|q: Seq<char>| q != e.0@
            implies count_of(t, q) == count_of(entries, q) by {
            if entries[0].0@ != q {
                assert(count_of(t.drop_first(), q) == count_of(entries.drop_first(), q));
            }
        }
    }
}

proof fn lemma_count_of_absent(entries: Seq<(String, usize)>, ip: Seq<char>)
    requires
        forall|j: int| 0 <= j < entries.len() ==> entries[j].0@ != ip,
    ensures
        count_of(entries, ip) == 0,
    decreases entries.len(),
{
    if entries.len() > 0 {
        lemma_count_of_absent(entries.drop_first(), ip);
    }
}

/// Finds the first entry recorded for `ip`, if any.
fn find_entry(counts: &Vec<(String, usize)>, ip: &String) -> (r: Option<usize>)
    ensures
        match r {
            Some(i) => i < counts@.len() && counts@[i as int].0@ == ip@
                && forall|j: int| 0 <= j < i ==> counts@[j].0@ != ip@,
            None => forall|j: int| 0 <= j < counts@.len() ==> counts@[j].0@ != ip@,
        },
{
    let n = counts.len();
    let mut i: usize = 0;
    while i < n
        invariant
            i <= n,
            n == counts@.len(),
            forall|j: int| 0 <= j < i ==> counts@[j].0@ != ip@,
        decreases n - i,
    {
        if counts[i].0 == *ip {
            return Some(i);
        }
        i = i + 1;
    }
    None
}

/// The per-window request counts, one entry per client IP seen in the
/// current window, together with the configured maximum (0 = disabled;
/// the limiter is then never invoked).
pub struct RateLimiter {
    /// Maximum requests one client may make per window; 0 disables limiting.
    pub max_requests: usize,
    /// One `(client IP, request count)` entry per client, keys distinct.
    pub counts: Vec<(String, usize)>,
}

impl RateLimiter {
    /// The limiter's invariant: no client IP appears in two entries.
    pub open spec fn wf(self) -> bool {
        forall|i: int, j: int| 0 <= i < j < self.counts@.len()
            ==> self.counts@[i].0@ != self.counts@[j].0@
    }

    /// The count currently recorded for `ip` (zero when unseen).
    pub open spec fn count(self, ip: Seq<char>) -> usize {
        count_of(self.counts@, ip)
    }

    /// An empty limiter for the given per-window maximum.
    pub fn new(max_requests: usize) -> (r: RateLimiter)
        ensures
            r.wf(),
            r.max_requests == max_requests,
            forall|q: Seq<char>| r.count(q) == 0,
    {
        RateLimiter { max_requests, counts: Vec::new() }
    }

    /// Records one request from `ip` and decides it: the count is
    /// incremented (an unseen client starts from zero, and the count pins
    /// at `usize::MAX` rather than wrapping), and the request is rejected
    /// exactly when the new count exceeds the configured maximum.
    pub fn check_and_count(&mut self, ip: &String) -> (r: RateDecision)
        requires
            old(self).wf(),
        ensures
            final(self).wf(),
            final(self).max_requests == old(self).max_requests,
            final(self).count(ip@) == (if old(self).count(ip@) == usize::MAX {
                usize::MAX as int
            } else {
                old(self).count(ip@) + 1
            }),
            forall|q: Seq<char>| q != ip@ ==> final(self).count(q) == old(self).count(q),
            (r is Rejected) <==> final(self).count(ip@) > old(self).max_requests,
    {
        let new_count: usize;
        match find_entry(&self.counts, ip) {
            Some(i) => {
                let c = self.counts[i].1;
                new_count = if c == usize::MAX {
                    c
                } else {
                    c + 1
                };
                let key = self.counts[i].0.clone();
                proof {
                    lemma_count_of_found(old(self).counts@, ip@, i as int);
                    lemma_count_of_found(
                        old(self).counts@.update(i as int, (key, new_count)),
                        ip@,
                        i as int,
                    );
                    lemma_count_of_update(old(self).counts@, i as int, (key, new_count));
                }
                self.counts[i] = (key, new_count);
            },
            None => {
                new_count = 1;
                let key = ip.clone();
                proof {
                    lemma_count_of_absent(old(self).counts@, ip@);
                    lemma_count_of_push(old(self).counts@, (key, 1));
                }
                self.counts.push((key, 1));
            },
        }
        if new_count > self.max_requests {
            RateDecision::Rejected
        } else {
            RateDecision::Allowed
        }
    }

    /// Clears every entry: the start of a fresh rate-limit window.
    pub fn reset(&mut self)
        requires
            old(self).wf(),
        ensures
            final(self).wf(),
            final(self).max_requests == old(self).max_requests,
            final(self).counts@.len() == 0,
            forall|q: Seq<char>| final(self).count(q) == 0,
    {
        self.counts.clear();
    }
}

} // verus!
