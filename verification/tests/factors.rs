use challenges::factors::{analyse, factors, Factoring};

#[test]
fn factors_returns_empty_vec_for_zero() {
    assert_eq!(factors(0), Vec::<u64>::new());
}

#[test]
fn factors_returns_one_for_one() {
    assert_eq!(factors(1), vec![1]);
}

#[test]
fn factors_returns_prime_and_self_for_primes() {
    assert_eq!(factors(2), vec![1, 2]);
    assert_eq!(factors(3), vec![1, 3]);
    assert_eq!(factors(5), vec![1, 5]);
    assert_eq!(factors(7), vec![1, 7]);
    assert_eq!(factors(11), vec![1, 11]);
}

#[test]
fn factors_returns_all_factors_for_composite_numbers() {
    assert_eq!(factors(4), vec![1, 2, 4]);
    assert_eq!(factors(6), vec![1, 2, 3, 6]);
    assert_eq!(factors(8), vec![1, 2, 4, 8]);
    assert_eq!(factors(9), vec![1, 3, 9]);
    assert_eq!(factors(12), vec![1, 2, 3, 4, 6, 12]);
}

#[test]
fn factors_returns_correct_for_perfect_squares() {
    assert_eq!(factors(16), vec![1, 2, 4, 8, 16]);
    assert_eq!(factors(25), vec![1, 5, 25]);
    assert_eq!(factors(36), vec![1, 2, 3, 4, 6, 9, 12, 18, 36]);
}

#[test]
fn factors_handles_large_numbers() {
    assert_eq!(factors(100), vec![1, 2, 4, 5, 10, 20, 25, 50, 100]);
    assert_eq!(factors(997), vec![1, 997]); // 997 is prime
    assert_eq!(factors(1001), vec![1, 7, 11, 13, 77, 91, 143, 1001]);
}

#[test]
fn factors_handles_numbers_near_the_top_of_the_range() {
    // 2^32 * (2^32 - 1) has 2^32 as its square root rounded up
    let n: u64 = 4294967296 * 4294967295;
    let list = factors(1u64 << 40);
    assert_eq!(list.len(), 41);
    assert_eq!(list[0], 1);
    assert_eq!(list[40], 1u64 << 40);
    assert!(list.windows(2).all(|pair| pair[0] < pair[1]));
    let list = factors(1_000_000_007u64 * 998_244_353);
    assert_eq!(list, vec![1, 998_244_353, 1_000_000_007, 1_000_000_007u64 * 998_244_353]);
    assert!(n > 0);
}

#[test]
fn factors_are_in_ascending_order_and_divide() {
    for n in 1..500u64 {
        let list = factors(n);
        let expected: Vec<u64> = (1..=n).filter(|d| n % d == 0).collect();
        assert_eq!(list, expected);
    }
}

#[test]
fn analyse_tells_primes_from_the_rest() {
    assert_eq!(analyse(2), Factoring::Prime);
    assert_eq!(analyse(997), Factoring::Prime);
    assert_eq!(analyse(22_801_763_489), Factoring::Prime);
    assert_eq!(analyse(0), Factoring::Factors(vec![]));
    assert_eq!(analyse(1), Factoring::Factors(vec![1]));
    assert_eq!(analyse(12), Factoring::Factors(vec![1, 2, 3, 4, 6, 12]));
    assert_eq!(analyse(561), Factoring::Factors(vec![1, 3, 11, 17, 33, 51, 187, 561]));
}
