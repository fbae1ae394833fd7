use challenges::card_draw::{get_rand_rank, get_rand_suite, rank_names, suite_names};
use std::collections::HashSet;

#[test]
fn get_rand_suite_returns_valid_suites_and_more_than_one() {
    let mut results = HashSet::new();
    for _ in 0..200 {
        results.insert(get_rand_suite());
    }
    assert!(results.len() > 1, "Expected multiple random results");
    let valid_suits: HashSet<_> = ["Hearts", "Diamonds", "Clubs", "Spades"].iter().cloned().collect();
    assert!(results.is_subset(&valid_suits), "Got invalid suit");
}

#[test]
fn get_rand_rank_returns_valid_ranks_and_more_than_one() {
    let mut results = HashSet::new();
    for _ in 0..200 {
        results.insert(get_rand_rank());
    }
    assert!(results.len() > 1, "Expected multiple random results");
    let valid_ranks: HashSet<_> =
        ["Ace", "2", "3", "4", "5", "6", "7", "8", "9", "10", "Jack", "Queen", "King"]
            .iter()
            .cloned()
            .collect();
    assert!(results.is_subset(&valid_ranks), "Got invalid rank");
}

#[test]
fn get_rand_rank_reaches_all_thirteen_ranks() {
    let mut rank_counts = std::collections::HashMap::new();
    for _ in 0..2000 {
        *rank_counts.entry(get_rand_rank()).or_insert(0) += 1;
    }
    assert_eq!(rank_counts.len(), 13, "Should have all 13 ranks represented");
}

#[test]
fn get_rand_suite_reaches_all_four_suites() {
    let mut suite_counts = std::collections::HashMap::new();
    for _ in 0..1000 {
        *suite_counts.entry(get_rand_suite()).or_insert(0) += 1;
    }
    assert_eq!(suite_counts.len(), 4, "Should have all 4 suites represented");
}

#[test]
fn name_tables_are_in_order() {
    assert_eq!(suite_names(), ["Hearts", "Diamonds", "Clubs", "Spades"]);
    assert_eq!(
        rank_names(),
        ["Ace", "2", "3", "4", "5", "6", "7", "8", "9", "10", "Jack", "Queen", "King"]
    );
}
