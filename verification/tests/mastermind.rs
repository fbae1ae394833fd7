use challenges::mastermind::{evaluate_guess, generate_code, read_guess, GuessStats};

#[test]
fn evaluate_guess_returns_zero_when_no_matching_digits() {
    let stats = evaluate_guess("1234", "5678");
    assert_eq!(stats.correct_digits, 0);
    assert_eq!(stats.correct_positions, 0);
}

#[test]
fn evaluate_guess_counts_correct_digits_in_wrong_positions() {
    let stats = evaluate_guess("1234", "4321");
    assert_eq!(stats.correct_digits, 4);
    assert_eq!(stats.correct_positions, 0);
}

#[test]
fn evaluate_guess_counts_correct_digits_in_correct_positions() {
    let stats = evaluate_guess("1234", "1256");
    assert_eq!(stats.correct_digits, 2);
    assert_eq!(stats.correct_positions, 2);
}

#[test]
fn evaluate_guess_handles_mixed_correct_and_incorrect_positions() {
    let stats = evaluate_guess("1234", "1432");
    assert_eq!(stats.correct_digits, 4);
    assert_eq!(stats.correct_positions, 2);
}

#[test]
fn evaluate_guess_handles_duplicate_digits_in_guess() {
    let stats = evaluate_guess("1122", "1234");
    assert_eq!(stats.correct_digits, 2);
    assert_eq!(stats.correct_positions, 1);
}

#[test]
fn evaluate_guess_handles_duplicate_digits_in_target() {
    let stats = evaluate_guess("1234", "1122");
    assert_eq!(stats.correct_digits, 2);
    assert_eq!(stats.correct_positions, 1);
}

#[test]
fn evaluate_guess_identifies_perfect_match() {
    let stats = evaluate_guess("1234", "1234");
    assert_eq!(stats.correct_digits, 4);
    assert_eq!(stats.correct_positions, 4);
}

#[test]
fn evaluate_guess_handles_empty_strings() {
    let stats = evaluate_guess("", "");
    assert_eq!(stats.correct_digits, 0);
    assert_eq!(stats.correct_positions, 0);
}

#[test]
fn evaluate_guess_compares_texts_of_different_length() {
    assert_eq!(
        evaluate_guess("11", "1211"),
        GuessStats { correct_digits: 2, correct_positions: 1 }
    );
    assert_eq!(
        evaluate_guess("1211", "11"),
        GuessStats { correct_digits: 2, correct_positions: 1 }
    );
    assert_eq!(evaluate_guess("", "123"), GuessStats { correct_digits: 0, correct_positions: 0 });
    assert_eq!(
        evaluate_guess("1112", "2111"),
        GuessStats { correct_digits: 4, correct_positions: 2 }
    );
}

#[test]
fn generate_code_gives_digits_only() {
    for len in [0u32, 1, 4, 12] {
        let code = generate_code(len);
        assert_eq!(code.len(), len as usize);
        assert!(code.chars().all(|c| c.is_ascii_digit()));
    }
}

#[test]
fn generate_code_varies() {
    let first = generate_code(12);
    assert!((0..20).any(|_| generate_code(12) != first));
}

#[test]
fn read_guess_wants_the_right_number_of_digits() {
    assert_eq!(read_guess("1234\n", 4), Some("1234".to_string()));
    assert_eq!(read_guess("  0007 ", 4), Some("0007".to_string()));
    assert_eq!(read_guess("123", 4), None);
    assert_eq!(read_guess("12345", 4), None);
    assert_eq!(read_guess("12a4", 4), None);
    assert_eq!(read_guess("12 4", 4), None);
    assert_eq!(read_guess("", 4), None);
    assert_eq!(read_guess("", 0), Some(String::new()));
    // the length is counted in bytes, and digits of other scripts are numeric
    assert_eq!(read_guess("\u{661}\u{662}", 4), Some("\u{661}\u{662}".to_string()));
    assert_eq!(read_guess("\u{661}\u{662}", 2), None);
}
