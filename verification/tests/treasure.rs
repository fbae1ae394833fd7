use challenges::treasure::{
    generate_random_coord, get_proximity, is_on_grid, judge_guess, read_location, Hint, Proximity,
};

#[test]
fn get_proximity_returns_hot_for_close_points() {
    // Within 25% of the size
    let size = 10;
    let hot_threshold = (size as f64 * 0.25) as u32;

    // Test at exact threshold
    assert!(matches!(
        get_proximity(size, (5, 5), (5, 5 + hot_threshold)),
        Proximity::Hot
    ));

    // Test well within threshold
    assert!(matches!(
        get_proximity(size, (5, 5), (6, 6)),
        Proximity::Hot
    ));
}

#[test]
fn get_proximity_returns_warm_for_medium_distance_points() {
    // Between 25% and 50% of the size
    let size = 10;
    let hot_threshold = (size as f64 * 0.25) as u32;
    let warm_threshold = (size as f64 * 0.5) as u32;

    // Test just outside hot threshold
    assert!(matches!(
        get_proximity(size, (5, 5), (5, 5 + hot_threshold + 1)),
        Proximity::Warm
    ));

    // Test at warm threshold
    assert!(matches!(
        get_proximity(size, (5, 5), (5, 5 + warm_threshold)),
        Proximity::Warm
    ));
}

#[test]
fn get_proximity_returns_cold_for_distant_points() {
    // Beyond 50% of the size
    let size = 10;
    let warm_threshold = (size as f64 * 0.5) as u32;

    // Test just outside warm threshold
    assert!(matches!(
        get_proximity(size, (5, 5), (5, 5 + warm_threshold + 1)),
        Proximity::Cold
    ));

    // Test at maximum distance
    assert!(matches!(
        get_proximity(size, (0, 0), (size - 1, size - 1)),
        Proximity::Cold
    ));
}

#[test]
fn get_proximity_is_exact_on_the_largest_grid() {
    let max = u32::MAX;
    assert_eq!(get_proximity(max, (0, 0), (max, max)), Proximity::Cold);
    assert_eq!(get_proximity(max, (0, 0), (max / 2, 0)), Proximity::Warm);
    assert_eq!(get_proximity(max, (7, 0), (7, max / 4)), Proximity::Hot);
    assert_eq!(get_proximity(max, (7, 0), (7, max / 4 + 1)), Proximity::Warm);
    assert_eq!(get_proximity(0, (1, 1), (1, 1)), Proximity::Hot);
    assert_eq!(get_proximity(0, (1, 1), (1, 2)), Proximity::Cold);
    // 3-4-5: the distance is 5, a quarter of 20
    assert_eq!(get_proximity(20, (0, 0), (3, 4)), Proximity::Hot);
    assert_eq!(get_proximity(19, (0, 0), (3, 4)), Proximity::Warm);
    assert_eq!(get_proximity(10, (0, 0), (3, 4)), Proximity::Warm);
    assert_eq!(get_proximity(9, (3, 4), (0, 0)), Proximity::Cold);
}

#[test]
fn generate_random_coord_stays_on_the_grid() {
    let mut seen = std::collections::HashSet::new();
    for _ in 0..300 {
        let place = generate_random_coord(10);
        assert!(is_on_grid(10, place));
        seen.insert(place);
    }
    assert!(seen.len() > 1);
    assert_eq!(generate_random_coord(1), (0, 0));
}

#[test]
fn judge_guess_finds_the_treasure_or_gives_a_hint() {
    assert_eq!(judge_guess(10, (3, 4), (3, 4)), Hint::Found);
    assert_eq!(judge_guess(10, (3, 4), (3, 5)), Hint::Near(Proximity::Hot));
    assert_eq!(judge_guess(10, (0, 0), (0, 5)), Hint::Near(Proximity::Warm));
    assert_eq!(judge_guess(10, (0, 0), (9, 9)), Hint::Near(Proximity::Cold));
}

#[test]
fn read_location_reads_two_numbers_and_a_comma() {
    assert_eq!(read_location("3,4\n", 10), Some((3, 4)));
    assert_eq!(read_location("  0,9  ", 10), Some((0, 9)));
    assert_eq!(read_location("+3,+4", 10), Some((3, 4)));
    assert_eq!(read_location("10,4", 10), None);
    assert_eq!(read_location("3,10", 10), None);
    assert_eq!(read_location("3, 4", 10), None);
    assert_eq!(read_location("3 ,4", 10), None);
    assert_eq!(read_location("3;4", 10), None);
    assert_eq!(read_location("3,4,5", 10), None);
    assert_eq!(read_location("3,", 10), None);
    assert_eq!(read_location(",4", 10), None);
    assert_eq!(read_location(",", 10), None);
    assert_eq!(read_location("34", 10), None);
    assert_eq!(read_location("", 10), None);
    assert_eq!(read_location("-1,4", 10), None);
    assert_eq!(read_location("0,0", 0), None);
}
