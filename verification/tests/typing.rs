use challenges::typing::{is_alphabet, is_valid_alphabet};

#[test]
fn is_valid_alphabet_accepts_correct_alphabet() {
    let input = "abcdefghijklmnopqrstuvwxyz";
    assert!(is_valid_alphabet(input), "Should accept correct alphabet");
}

#[test]
fn is_valid_alphabet_accepts_with_whitespace() {
    let input = "abcdefghijklmnopqrstuvwxyz\n";
    assert!(
        is_valid_alphabet(input),
        "Should accept alphabet with trailing whitespace"
    );
}

#[test]
fn is_valid_alphabet_accepts_uppercase() {
    let input = "ABCDEFGHIJKLMNOPQRSTUVWXYZ";
    assert!(is_valid_alphabet(input), "Should accept uppercase alphabet");
}

#[test]
fn is_valid_alphabet_accepts_mixed_case() {
    let input = "AbCdEfGhIjKlMnOpQrStUvWxYz";
    assert!(
        is_valid_alphabet(input),
        "Should accept mixed case alphabet"
    );
}

#[test]
fn is_valid_alphabet_rejects_incorrect_order() {
    let input = "abcdefghijklmnopqrstuvwzyx";
    assert!(!is_valid_alphabet(input), "Should reject incorrect order");
}

#[test]
fn is_valid_alphabet_rejects_missing_letters() {
    let input = "abcdefghijklmnopqrstuvwxy";
    assert!(!is_valid_alphabet(input), "Should reject missing letters");
}

#[test]
fn is_valid_alphabet_rejects_duplicate_letters() {
    let input = "abcdefghijklmnopqrstuvwxyzz";
    assert!(!is_valid_alphabet(input), "Should reject duplicate letters");
}

#[test]
fn is_valid_alphabet_rejects_extra_characters() {
    let input = "abcdefghijklmnopqrstuvwxyz123";
    assert!(!is_valid_alphabet(input), "Should reject extra characters");
}

#[test]
fn is_valid_alphabet_rejects_empty_string() {
    let input = "";
    assert!(!is_valid_alphabet(input), "Should reject empty string");
}

#[test]
fn is_alphabet_takes_the_word_as_it_is() {
    assert!(is_alphabet("abcdefghijklmnopqrstuvwxyz"));
    assert!(!is_alphabet("ABCDEFGHIJKLMNOPQRSTUVWXYZ"));
    assert!(!is_alphabet("abcdefghijklmnopqrstuvwxyz\n"));
}
