//! Fibonacci numbers.

use crate::numbers::{number_entered, read_number};
use vstd::prelude::*;

verus! {

/// The index of a Fibonacci number.
pub type FibIndex = u8;

/// The Fibonacci number at index `n`: 0, 1, and from there on the sum of the
/// two before.
pub open spec fn fib_number(n: nat) -> nat
    decreases n,
{
    if n == 0 {
        0
    } else if n == 1 {
        1
    } else {
        fib_number((n - 2) as nat) + fib_number((n - 1) as nat)
    }
}

/// Fibonacci numbers never get smaller as the index grows.
pub proof fn lemma_fib_grows(i: nat, j: nat)
    requires
        i <= j,
    ensures
        fib_number(i) <= fib_number(j),
    decreases j,
{
    if i < j {
        lemma_fib_grows(i, (j - 1) as nat);
    }
}

/// The addition rule: the number at `m + n + 1` from those at `m`, `m + 1`,
/// `n` and `n + 1`.
pub proof fn lemma_fib_addition(m: nat, n: nat)
    ensures
        fib_number(m + n + 1) == fib_number(m + 1) * fib_number(n + 1) + fib_number(m)
            * fib_number(n),
    decreases n,
{
    if n == 0 {
        assert(fib_number(m + 1) * 1 + fib_number(m) * 0 == fib_number(m + 1)) by (nonlinear_arith);
    } else if n == 1 {
        assert(fib_number(2) == 1) by {
            reveal_with_fuel(fib_number, 3);
        }
        assert(fib_number(m + 1) * 1 + fib_number(m) * 1 == fib_number(m + 1) + fib_number(m))
            by (nonlinear_arith);
    } else {
        lemma_fib_addition(m, (n - 1) as nat);
        lemma_fib_addition(m, (n - 2) as nat);
        let a = fib_number(m + 1);
        let b = fib_number(m);
        let x = fib_number(n);
        let y = fib_number((n - 1) as nat);
        let z = fib_number((n - 2) as nat);
        assert(fib_number(n + 1) == x + y);
        assert(x == y + z);
        assert(fib_number(m + n + 1) == fib_number(m + n) + fib_number((m + n - 1) as nat));
        assert((a * x + b * y) + (a * y + b * z) == a * (x + y) + b * (y + z))
            by (nonlinear_arith);
    }
}

/// The first Fibonacci numbers, up to index 24.
proof fn lemma_fib_24()
    ensures
        fib_number(22) == 17711,
        fib_number(23) == 28657,
        fib_number(24) == 46368,
{
    assert(fib_number(0) == 0);
    assert(fib_number(1) == 1);
    assert(fib_number(2) == 1);
    assert(fib_number(3) == 2);
    assert(fib_number(4) == 3);
    assert(fib_number(5) == 5);
    assert(fib_number(6) == 8);
    assert(fib_number(7) == 13);
    assert(fib_number(8) == 21);
    assert(fib_number(9) == 34);
    assert(fib_number(10) == 55);
    assert(fib_number(11) == 89);
    assert(fib_number(12) == 144);
    assert(fib_number(13) == 233);
    assert(fib_number(14) == 377);
    assert(fib_number(15) == 610);
    assert(fib_number(16) == 987);
    assert(fib_number(17) == 1597);
    assert(fib_number(18) == 2584);
    assert(fib_number(19) == 4181);
    assert(fib_number(20) == 6765);
    assert(fib_number(21) == 10946);
    assert(fib_number(22) == 17711);
    assert(fib_number(23) == 28657);
    assert(fib_number(24) == 46368);
}

/// The highest index whose Fibonacci number fits in 128 bits.
pub const MAX_FIB_INDEX: FibIndex = 186;

/// The Fibonacci number at index 186 is the last one that fits in 128 bits.
pub proof fn lemma_fib_limit()
    ensures
        fib_number(186) == 332825110087067562321196029789634457848,
        fib_number(186) <= u128::MAX,
        fib_number(187) > u128::MAX,
{
    lemma_fib_24();
    lemma_fib_addition(22, 23);
    lemma_fib_addition(23, 23);
    assert(fib_number(46) == 1836311903) by (nonlinear_arith)
        requires
            fib_number(46) == 28657 * 46368 + 17711 * 28657,
    ;
    assert(fib_number(47) == 2971215073) by (nonlinear_arith)
        requires
            fib_number(47) == 46368 * 46368 + 28657 * 28657,
    ;
    assert(fib_number(48) == 1836311903 + 2971215073);
    lemma_fib_addition(46, 46);
    lemma_fib_addition(46, 47);
    assert(fib_number(93) == 12200160415121876738) by (nonlinear_arith)
        requires
            fib_number(93) == 2971215073 * 2971215073 + 1836311903 * 1836311903,
    ;
    assert(fib_number(94) == 19740274219868223167) by (nonlinear_arith)
        requires
            fib_number(94) == 2971215073 * (1836311903 + 2971215073) + 1836311903 * 2971215073,
    ;
    assert(fib_number(94) == fib_number(92) + fib_number(93));
    lemma_fib_addition(92, 93);
    lemma_fib_addition(93, 93);
    assert(fib_number(186) == 332825110087067562321196029789634457848) by (nonlinear_arith)
        requires
            fib_number(186) == 12200160415121876738 * 19740274219868223167 + (19740274219868223167 - 12200160415121876738) * 12200160415121876738,
    ;
    assert(fib_number(187) > 0xFFFF_FFFF_FFFF_FFFF_FFFF_FFFF_FFFF_FFFF) by (nonlinear_arith)
        requires
            fib_number(187) == 19740274219868223167 * 19740274219868223167 + 12200160415121876738 * 12200160415121876738,
    ;
}

/// Every index up to 186 has a Fibonacci number that fits in 128 bits, and
/// no index above has.
pub proof fn lemma_fib_fits(n: nat)
    ensures
        n <= 186 <==> fib_number(n) <= u128::MAX,
{
    lemma_fib_limit();
    if n <= 186 {
        lemma_fib_grows(n, 186);
    } else {
        lemma_fib_grows(187, n);
    }
}

/// Computes the Fibonacci number at index `n`. Beyond index 186 the number
/// does not fit in 128 bits.
pub fn fib(n: FibIndex) -> (value: u128)
    requires
        n <= MAX_FIB_INDEX,
    ensures
        value == fib_number(n as nat),
{
    proof {
        lemma_fib_fits(n as nat);
    }
    if n == 0 {
        return 0;
    } else if n == 1 {
        return 1;
    }
    let mut a: u128 = 0;
    let mut b: u128 = 1;
    for i in 2..(n as u16 + 1)
        invariant
            n >= 2,
            fib_number(n as nat) <= u128::MAX,
            a == fib_number((i - 2) as nat),
            b == fib_number((i - 1) as nat),
    {
        proof {
            lemma_fib_grows(i as nat, n as nat);
        }
        let c: u128 = a + b;
        a = b;
        b = c;
    }
    b
}

/// Reads an index from a line of input: a number up to 255; `None` for
/// anything else.
pub fn read_index(input: &str) -> (index: Option<FibIndex>)
    ensures
        index == match number_entered(input@) {
            Some(n) if n <= 255 => Some(n as u8),
            _ => None,
        },
{
    match read_number(input) {
        Some(num) => if num <= 255 {
            Some(num as u8)
        } else {
            None
        },
        None => None,
    }
}

} // verus!
