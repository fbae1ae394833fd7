//! The factors of a number, and whether it is prime.

use vstd::prelude::*;

verus! {

/// Whether `d` is a factor of `n`: a number from 1 to `n` that divides `n`.
/// So 0 has no factors.
pub open spec fn is_factor(d: int, n: int) -> bool {
    1 <= d <= n && n % d == 0
}

/// Whether `n` is prime: at least 2, with no factor but 1 and itself.
pub open spec fn is_prime(n: int) -> bool {
    n >= 2 && forall|d: int| #[trigger] is_factor(d, n) ==> d == 1 || d == n
}

/// Whether `list` holds the factors of `n`, each once, in ascending order.
pub open spec fn is_factor_list(list: Seq<u64>, n: u64) -> bool {
    &&& forall|k: int| 0 <= k < list.len() ==> is_factor(#[trigger] list[k] as int, n as int)
    &&& forall|d: u64| #[trigger] is_factor(d as int, n as int) ==> list.contains(d)
    &&& forall|i: int, j: int| 0 <= i < j < list.len() ==> list[i] < list[j]
}

/// `primal::is_prime`: a deterministic Miller-Rabin test over the whole of
/// `u64`, so the answer is whether `n` is prime.
pub assume_specification[ primal::is_prime ](n: u64) -> (prime: bool)
    ensures
        prime == is_prime(n as int),
;

/// The factor that goes with `d`: `n / d`.
pub open spec fn cofactor(n: u64, d: u64) -> int {
    n as int / d as int
}

proof fn lemma_product(d: int, n: int)
    requires
        d > 0,
        n >= 0,
        n % d == 0,
    ensures
        d * (n / d) == n,
        (n / d) * d == n,
        n > 0 ==> 1 <= n / d <= n,
        n > 0 ==> n % (n / d) == 0,
        n > 0 ==> n / (n / d) == d,
{
    let q = n / d;
    assert(n == d * q + n % d) by {
        vstd::arithmetic::div_mod::lemma_fundamental_div_mod(n, d);
    }
    assert(d * q == q * d) by (nonlinear_arith);
    if n > 0 {
        assert(q >= 1) by (nonlinear_arith)
            requires
                d * q == n,
                n > 0,
                d > 0,
        ;
        assert(q <= n) by (nonlinear_arith)
            requires
                d * q == n,
                q >= 1,
                d >= 1,
        ;
        vstd::arithmetic::div_mod::lemma_fundamental_div_mod_converse(n, q, d, 0);
    }
}

proof fn lemma_root_test(n: int, i: int)
    requires
        n >= 0,
        i >= 1,
    ensures
        i <= n / i <==> i * i <= n,
{
    vstd::arithmetic::div_mod::lemma_fundamental_div_mod(n, i);
    let q = n / i;
    let r = n % i;
    if i <= q {
        assert(i * i <= n) by (nonlinear_arith)
            requires
                n == i * q + r,
                r >= 0,
                i <= q,
                i >= 1,
        ;
    } else {
        assert(i * i > n) by (nonlinear_arith)
            requires
                n == i * q + r,
                r < i,
                q < i,
                i >= 1,
        ;
    }
}

proof fn lemma_square_order(a: int, b: int)
    requires
        0 <= a <= b,
    ensures
        a * a <= b * b,
        a < b ==> a * a < b * b,
{
    assert(a * a <= b * b) by (nonlinear_arith)
        requires
            0 <= a <= b,
    ;
    if a < b {
        assert(a * a < b * b) by (nonlinear_arith)
            requires
                0 <= a < b,
        ;
    }
}

proof fn lemma_cofactor_order(d1: int, d2: int, n: int)
    requires
        0 < d1 < d2,
        n > 0,
        n % d1 == 0,
        n % d2 == 0,
    ensures
        n / d1 > n / d2,
{
    lemma_product(d1, n);
    lemma_product(d2, n);
    let q1 = n / d1;
    let q2 = n / d2;
    assert(q1 > q2) by (nonlinear_arith)
        requires
            d1 * q1 == n,
            d2 * q2 == n,
            0 < d1 < d2,
            n > 0,
            q1 >= 1,
            q2 >= 1,
    ;
}

/// The factors of `n` in ascending order: empty for 0, `[1]` for 1.
pub fn factors(n: u64) -> (result: Vec<u64>)
    ensures
        is_factor_list(result@, n),
        n == 0 ==> result@.len() == 0,
{
    let mut low: Vec<u64> = Vec::new();
    let mut high: Vec<u64> = Vec::new();
    let mut i: u64 = 1;
    proof {
        assert forall|d: u64| is_factor(d as int, n as int) implies cofactor(n, d) >= 1 by {
            lemma_product(d as int, n as int);
        }
    }
    while i <= n / i
        invariant
            1 <= i <= 0x1_0000_0000,
            (i - 1) * (i - 1) <= n,
            forall|k: int| 0 <= k < low@.len() ==> is_factor(#[trigger] low@[k] as int, n as int) && low@[k] < i,
            forall|d: u64| is_factor(d as int, n as int) && d < i ==> low@.contains(d),
            forall|a: int, b: int| 0 <= a < b < low@.len() ==> low@[a] < low@[b],
            forall|k: int| 0 <= k < high@.len() ==> is_factor(#[trigger] high@[k] as int, n as int) && high@[k] >= i
                && cofactor(n, high@[k]) < i,
            forall|d: u64| is_factor(d as int, n as int) && d >= i && cofactor(n, d) < i ==> high@.contains(d),
            forall|a: int, b: int| 0 <= a < b < high@.len() ==> high@[a] > high@[b],
        decreases 0x1_0000_0001 - i,
    {
        proof {
            // i <= n / i gives i * i <= n, so i stays below 2^32
            lemma_root_test(n as int, i as int);
            if i >= 0x1_0000_0000 {
                lemma_square_order(0x1_0000_0000, i as int);
                assert(0x1_0000_0000int * 0x1_0000_0000int > u64::MAX) by (nonlinear_arith);
            }
        }
        let ghost old_low = low@;
        let ghost old_high = high@;
        if n % i == 0 {
            let q = n / i;
            proof {
                lemma_product(i as int, n as int);
            }
            low.push(i);
            assert(low@[low@.len() - 1] == i);
            assert forall|d: u64| is_factor(d as int, n as int) && d < i + 1 implies low@.contains(
                d,
            ) by {
                if d < i {
                    let k = choose|k: int| 0 <= k < old_low.len() && old_low[k] == d;
                    assert(low@[k] == d);
                } else {
                    assert(low@[low@.len() - 1] == d);
                }
            }
            if i != q {
                proof {
                    assert forall|k: int| 0 <= k < high@.len() implies high@[k] > q by {
                        let h = high@[k];
                        lemma_product(h as int, n as int);
                        let c = cofactor(n, h);
                        // c < i, both divide n: their cofactors h and q are in order
                        lemma_cofactor_order(c, i as int, n as int);
                    }
                }
                high.push(q);
                assert(high@[high@.len() - 1] == q);
                assert forall|k: int| 0 <= k < high@.len() implies is_factor(
                    #[trigger] high@[k] as int,
                    n as int,
                ) && high@[k] >= i + 1 && cofactor(n, high@[k]) < i + 1 by {
                    if k < old_high.len() {
                        assert(high@[k] == old_high[k]);
                        assert(high@[k] > q);
                    }
                }
                assert forall|d: u64|
                    is_factor(d as int, n as int) && d >= i + 1 && cofactor(n, d)
                        < i + 1 implies high@.contains(d) by {
                    lemma_product(d as int, n as int);
                    if cofactor(n, d) == i {
                        assert(high@[high@.len() - 1] == d);
                    } else {
                        let k = choose|k: int| 0 <= k < old_high.len() && old_high[k] == d;
                        assert(high@[k] == d);
                    }
                }
            } else {
                assert forall|k: int| 0 <= k < high@.len() implies high@[k] >= i + 1 by {
                    let h = high@[k];
                    if h == i {
                        lemma_product(h as int, n as int);
                    }
                }
                assert forall|d: u64|
                    is_factor(d as int, n as int) && d >= i + 1 && cofactor(n, d)
                        < i + 1 implies high@.contains(d) by {
                    lemma_product(d as int, n as int);
                    if cofactor(n, d) == i {
                        assert(false);
                    }
                }
            }
        } else {
            assert forall|k: int| 0 <= k < high@.len() implies high@[k] >= i + 1 by {
                let h = high@[k];
                if h == i {
                    assert(n % i == 0);
                }
            }
            assert forall|d: u64|
                is_factor(d as int, n as int) && d >= i + 1 && cofactor(n, d)
                    < i + 1 implies high@.contains(d) by {
                lemma_product(d as int, n as int);
            }
        }
        i = i + 1;
    }
    proof {
        // on leaving the loop i * i > n: every factor from i up has its cofactor below i
        lemma_root_test(n as int, i as int);
        assert forall|d: u64| is_factor(d as int, n as int) && d >= i implies cofactor(n, d)
            < i by {
            lemma_product(d as int, n as int);
            let c = cofactor(n, d);
            if c >= i {
                assert(d * c >= i * i) by (nonlinear_arith)
                    requires
                        d >= i,
                        c >= i,
                        i >= 1,
                ;
            }
        }
    }
    let ghost small = low@;
    let mut k: usize = high.len();
    while k > 0
        invariant
            k <= high@.len(),
            low@ == small + high@.subrange(k as int, high@.len() as int).reverse(),
        decreases k,
    {
        k = k - 1;
        low.push(high[k]);
        proof {
            let tail = high@.subrange(k as int, high@.len() as int);
            let rest = high@.subrange(k as int + 1, high@.len() as int);
            assert(tail.reverse() == rest.reverse().push(high@[k as int]));
        }
    }
    proof {
        let large = high@.reverse();
        assert(high@.subrange(0, high@.len() as int) == high@);
        assert(low@ == small + large);
        assert forall|d: u64| is_factor(d as int, n as int) implies low@.contains(d) by {
            if d < i {
                let a = choose|a: int| 0 <= a < small.len() && small[a] == d;
                assert(low@[a] == d);
            } else {
                let b = choose|b: int| 0 <= b < high@.len() && high@[b] == d;
                assert(large[high@.len() - 1 - b] == d);
                assert(low@[small.len() + high@.len() - 1 - b] == d);
            }
        }
        assert forall|a: int, b: int| 0 <= a < b < low@.len() implies low@[a] < low@[b] by {
            if b < small.len() {
            } else if a < small.len() {
                assert(low@[b] == large[b - small.len()]);
            } else {
                assert(low@[a] == large[a - small.len()]);
                assert(low@[b] == large[b - small.len()]);
            }
        }
        assert forall|c: int| 0 <= c < low@.len() implies is_factor(
            #[trigger] low@[c] as int,
            n as int,
        ) by {
            if c >= small.len() {
                assert(low@[c] == large[c - small.len()]);
            }
        }
        if n == 0 && low@.len() > 0 {
            assert(is_factor(low@[0] as int, n as int));
        }
    }
    low
}

/// What is reported of a number: that it is prime, or else its factors.
#[derive(Debug, PartialEq, Eq)]
pub enum Factoring {
    Prime,
    Factors(Vec<u64>),
}

/// Reports `n` as prime, or lists its factors where it is not.
pub fn analyse(n: u64) -> (report: Factoring)
    ensures
        match report {
            Factoring::Prime => is_prime(n as int),
            Factoring::Factors(list) => !is_prime(n as int) && is_factor_list(list@, n),
        },
{
    if primal::is_prime(n) {
        Factoring::Prime
    } else {
        Factoring::Factors(factors(n))
    }
}

/// A number is prime exactly when its factor list has two entries, and the
/// factor list of a prime `n` is `[1, n]`.
pub proof fn lemma_factors_of_a_prime(list: Seq<u64>, n: u64)
    requires
        is_factor_list(list, n),
    ensures
        is_prime(n as int) <==> list.len() == 2,
        is_prime(n as int) ==> list == seq![1u64, n],
{
    if n >= 1 {
        assert(is_factor(1u64 as int, n as int));
        assert(is_factor(n as int, n as int));
        let a = choose|a: int| 0 <= a < list.len() && list[a] == 1u64;
        let b = choose|b: int| 0 <= b < list.len() && list[b] == n;
        if is_prime(n as int) {
            if list.len() >= 3 {
                assert(is_factor(list[0] as int, n as int));
                assert(is_factor(list[1] as int, n as int));
                assert(is_factor(list[2] as int, n as int));
                assert(list[0] < list[1] < list[2]);
            }
            assert(list[0] < list[1]);
            assert(is_factor(list[0] as int, n as int));
            assert(is_factor(list[1] as int, n as int));
            assert(list == seq![1u64, n]);
        }
        if list.len() == 2 {
            if n == 1 {
                assert(is_factor(list[0] as int, n as int));
                assert(is_factor(list[1] as int, n as int));
                assert(list[0] < list[1]);
            }
            assert forall|d: int| #[trigger] is_factor(d, n as int) implies d == 1 || d == n by {
                let c = choose|c: int| 0 <= c < list.len() && list[c] == d as u64;
                assert(is_factor((d as u64) as int, n as int));
                assert(list[a] < list[b]);
            }
        }
    } else {
        if list.len() > 0 {
            assert(is_factor(list[0] as int, n as int));
        }
    }
}

} // verus!
