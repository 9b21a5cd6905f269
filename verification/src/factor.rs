//! A work queue of numbers to factor into primes, and the worker that
//! drains it. The embedding may share the queue among several workers
//! behind a lock and print each factorization; the queue discipline and
//! the factoring itself are verified here.

use vstd::prelude::*;
use vstd::arithmetic::div_mod::lemma_div_decreases;
use vstd::arithmetic::div_mod::lemma_fundamental_div_mod;
use vstd::arithmetic::div_mod::lemma_mod_multiples_basic;
use vstd::arithmetic::div_mod::lemma_mod_self_0;
use std::collections::VecDeque;

verus! {

/// Primality over the integers: at least 2, with no divisor between 2 and
/// itself.
pub open spec fn spec_is_prime(n: int) -> bool {
    n >= 2 && forall|d: int| 2 <= d < n ==> #[trigger] (n % d) != 0
}

/// The product of a sequence of factors.
pub open spec fn product(s: Seq<u32>) -> int
    decreases s.len(),
{
    if s.len() == 0 {
        1
    } else {
        s[0] * product(s.drop_first())
    }
}

proof fn lemma_product_push(s: Seq<u32>, x: u32)
    ensures
        product(s.push(x)) == product(s) * x,
    decreases s.len(),
{
    assert(s.push(x)[0] == if s.len() == 0 {
        x
    } else {
        s[0]
    });
    if s.len() == 0 {
        assert(s.push(x).drop_first() =~= Seq::<u32>::empty());
        assert(product(s.push(x).drop_first()) == 1);
    } else {
        assert(s.push(x).drop_first() =~= s.drop_first().push(x));
        lemma_product_push(s.drop_first(), x);
        assert(s[0] * (product(s.drop_first()) * x) == (s[0] * product(s.drop_first())) * x)
            by (nonlinear_arith);
    }
}

/// A divisor of a multiple: if `k` divides `a`, it divides `f * a`.
proof fn lemma_mul_keeps_divisor(a: int, f: int, k: int)
    requires
        a >= 0,
        k >= 1,
        a % k == 0,
    ensures
        (f * a) % k == 0,
{
    lemma_fundamental_div_mod(a, k);
    assert(f * a == (f * (a / k)) * k) by (nonlinear_arith)
        requires
            a == k * (a / k),
    ;
    lemma_mod_multiples_basic(f * (a / k), k);
}

/// Divisibility is transitive: if `d` divides `f` and `f` divides `c`,
/// then `d` divides `c`.
proof fn lemma_divides_trans(c: int, f: int, d: int)
    requires
        c >= 0,
        f >= 1,
        d >= 1,
        c % f == 0,
        f % d == 0,
    ensures
        c % d == 0,
{
    lemma_fundamental_div_mod(c, f);
    lemma_fundamental_div_mod(f, d);
    assert(c == ((c / f) * (f / d)) * d) by (nonlinear_arith)
        requires
            c == f * (c / f),
            f == d * (f / d),
    ;
    lemma_mod_multiples_basic((c / f) * (f / d), d);
}

/// Determines whether a number is prime.
pub fn is_prime(num: u32) -> (r: bool)
    ensures
        r == spec_is_prime(num as int),
{
    if num <= 1 {
        return false;
    }
    let mut d: u32 = 2;
    while d < num
        invariant
            2 <= d <= num,
            forall|k: int| 2 <= k < d ==> #[trigger] (num as int % k) != 0,
        decreases num - d,
    {
        if num % d == 0 {
            return false;
        }
        d = d + 1;
    }
    true
}

/// What `factor_number` guarantees of its result for input `n`: the factors
/// multiply back to `n`, are prime whenever `n` has a proper factorization
/// to offer (`n >= 2`), and come in ascending order. Zero has no
/// factorization and yields nothing; one yields itself.
pub open spec fn factored(n: u32, fs: Seq<u32>) -> bool {
    &&& (n == 0 ==> fs.len() == 0)
    &&& (n == 1 ==> fs == seq![1u32])
    &&& (n >= 1 ==> product(fs) == n as int)
    &&& (n >= 2 ==> forall|i: int| 0 <= i < fs.len() ==> spec_is_prime(#[trigger] fs[i] as int))
    &&& (forall|i: int, j: int| 0 <= i <= j < fs.len() ==> fs[i] <= fs[j])
}

/// Determines the prime factors of a number, in ascending order. A prime
/// (or one) is its own whole answer; anything composite is split by trial
/// division with every prime factor divided out as it is found.
pub fn factor_number(num: u32) -> (r: Vec<u32>)
    ensures
        factored(num, r@),
{
    if num == 0 {
        let empty: Vec<u32> = Vec::new();
        return empty;
    }
    if num == 1 || is_prime(num) {
        let mut whole: Vec<u32> = Vec::new();
        whole.push(num);
        proof {
            assert(whole@[0] == num);
            assert(whole@.drop_first() =~= Seq::<u32>::empty());
            assert(product(whole@.drop_first()) == 1);
            if num == 1 {
                assert(whole@ =~= seq![1u32]);
            }
        }
        return whole;
    }
    let mut factors: Vec<u32> = Vec::new();
    let mut curr: u32 = num;
    let mut f: u32 = 2;
    while f < num
        invariant
            2 <= f <= num,
            1 <= curr <= num,
            num >= 2,
            product(factors@) * curr == num as int,
            forall|k: int| 2 <= k < f ==> #[trigger] (curr as int % k) != 0,
            forall|i: int| 0 <= i < factors@.len() ==> spec_is_prime(#[trigger] factors@[i] as int),
            forall|i: int| 0 <= i < factors@.len() ==> #[trigger] factors@[i] <= f,
            forall|i: int, j: int| 0 <= i <= j < factors@.len() ==> factors@[i] <= factors@[j],
        decreases num - f,
    {
        while curr % f == 0
            invariant
                2 <= f <= num,
                1 <= curr <= num,
                num >= 2,
                product(factors@) * curr == num as int,
                forall|k: int| 2 <= k < f ==> #[trigger] (curr as int % k) != 0,
                forall|i: int| 0 <= i < factors@.len()
                    ==> spec_is_prime(#[trigger] factors@[i] as int),
                forall|i: int| 0 <= i < factors@.len() ==> #[trigger] factors@[i] <= f,
                forall|i: int, j: int| 0 <= i <= j < factors@.len()
                    ==> factors@[i] <= factors@[j],
            decreases curr,
        {
            proof {
                let c = curr as int;
                let fi = f as int;
                lemma_fundamental_div_mod(c, fi);
                // the factor about to be recorded is prime: a proper divisor
                // of f would also divide curr, which the invariant rules out
                assert forall|d: int| 2 <= d < fi implies #[trigger] (fi % d) != 0 by {
                    if fi % d == 0 {
                        lemma_divides_trans(c, fi, d);
                    }
                }
                lemma_product_push(factors@, f);
                assert(c / fi >= 1 && c / fi <= num as int) by (nonlinear_arith)
                    requires
                        c == fi * (c / fi),
                        1 <= c <= num as int,
                        2 <= fi,
                ;
                assert((product(factors@) * fi) * (c / fi) == product(factors@) * c)
                    by (nonlinear_arith)
                    requires
                        c == fi * (c / fi),
                ;
                // no divisor below f reappears in the reduced number
                assert forall|k: int| 2 <= k < fi implies #[trigger] ((c / fi) % k) != 0 by {
                    if (c / fi) % k == 0 {
                        lemma_mul_keeps_divisor(c / fi, fi, k);
                    }
                }
                lemma_div_decreases(c, fi);
            }
            factors.push(f);
            curr = curr / f;
        }
        f = f + 1;
    }
    proof {
        let c = curr as int;
        if curr >= 2 {
            if curr < num {
                lemma_mod_self_0(c);
                assert(false);
            } else {
                // curr == num would mean nothing below num divides num,
                // making num prime, which this branch already excluded
                let d = choose|d: int| 2 <= d < num as int && #[trigger] (num as int % d) == 0;
                assert(false);
            }
        }
    }
    factors
}

/// Pops the next number off the shared work queue, front first.
pub fn pop_front_from_queue(nums: &mut VecDeque<u32>) -> (r: Option<u32>)
    ensures
        match r {
            Some(n) => old(nums)@.len() > 0 && n == old(nums)@[0]
                && final(nums)@ == old(nums)@.drop_first(),
            None => old(nums)@.len() == 0 && final(nums)@ == old(nums)@,
        },
{
    let r = nums.pop_front();
    proof {
        if old(nums)@.len() > 0 {
            assert(old(nums)@.subrange(1, old(nums)@.len() as int) =~= old(nums)@.drop_first());
        }
    }
    r
}

/// Drains the queue, factoring each number in turn until the queue is
/// empty, and returns each number with its factorization, in queue order.
pub fn worker_thread(nums: &mut VecDeque<u32>) -> (r: Vec<(u32, Vec<u32>)>)
    ensures
        final(nums)@.len() == 0,
        r@.len() == old(nums)@.len(),
        forall|i: int| 0 <= i < r@.len()
            ==> #[trigger] r@[i].0 == old(nums)@[i] && factored(r@[i].0, r@[i].1@),
{
    let mut results: Vec<(u32, Vec<u32>)> = Vec::new();
    loop
        invariant
            nums@ == old(nums)@.skip(results@.len() as int),
            results@.len() <= old(nums)@.len(),
            forall|i: int| 0 <= i < results@.len()
                ==> #[trigger] results@[i].0 == old(nums)@[i]
                    && factored(results@[i].0, results@[i].1@),
        ensures
            nums@.len() == 0,
            results@.len() == old(nums)@.len(),
            forall|i: int| 0 <= i < results@.len()
                ==> #[trigger] results@[i].0 == old(nums)@[i]
                    && factored(results@[i].0, results@[i].1@),
        decreases nums@.len(),
    {
        let ghost done = results@.len() as int;
        if let Some(num) = pop_front_from_queue(nums) {
            proof {
                assert(old(nums)@.skip(done).drop_first() =~= old(nums)@.skip(done + 1));
            }
            let fs = factor_number(num);
            results.push((num, fs));
        } else {
            break;
        }
    }
    results
}

} // verus!
