use challenges::gates::{
    bit_from_word, create_gate, names_gate, parse_bit, parse_gate_name, AndGate, GateLogic,
    NandGate, NorGate, OrGate, XorGate,
};

#[test]
fn create_gate_returns_and_gate_for_and_input() {
    let gate = create_gate("and", true, false);
    assert!(gate.is_some());
    assert!(!gate.unwrap().output());

    let gate = create_gate("and", true, true);
    assert!(gate.is_some());
    assert!(gate.unwrap().output());
}

#[test]
fn create_gate_returns_or_gate_for_or_input() {
    let gate = create_gate("or", false, false);
    assert!(gate.is_some());
    assert!(!gate.unwrap().output());

    let gate = create_gate("or", true, false);
    assert!(gate.is_some());
    assert!(gate.unwrap().output());
}

#[test]
fn create_gate_returns_xor_gate_for_xor_input() {
    let gate = create_gate("xor", true, true);
    assert!(gate.is_some());
    assert!(!gate.unwrap().output());

    let gate = create_gate("xor", true, false);
    assert!(gate.is_some());
    assert!(gate.unwrap().output());
}

#[test]
fn create_gate_returns_nand_gate_for_nand_input() {
    let gate = create_gate("nand", true, true);
    assert!(gate.is_some());
    assert!(!gate.unwrap().output());

    let gate = create_gate("nand", false, false);
    assert!(gate.is_some());
    assert!(gate.unwrap().output());
}

#[test]
fn create_gate_returns_nor_gate_for_nor_input() {
    let gate = create_gate("nor", false, false);
    assert!(gate.is_some());
    assert!(gate.unwrap().output());

    let gate = create_gate("nor", true, false);
    assert!(gate.is_some());
    assert!(!gate.unwrap().output());
}

#[test]
fn create_gate_returns_none_for_invalid_input() {
    assert!(create_gate("invalid", true, false).is_none());
    assert!(create_gate("", true, false).is_none());
    assert!(create_gate("AND", true, false).is_none()); // Case sensitive check
}
#[test]
fn and_gate_output_returns_true_when_both_inputs_are_true() {
    let gate = AndGate { a: true, b: true };
    assert!(gate.output());
}

#[test]
fn and_gate_output_returns_false_when_any_input_is_false() {
    let gate = AndGate { a: true, b: false };
    assert!(!gate.output());

    let gate = AndGate { a: false, b: true };
    assert!(!gate.output());

    let gate = AndGate { a: false, b: false };
    assert!(!gate.output());
}

#[test]
fn or_gate_output_returns_true_when_any_input_is_true() {
    let gate = OrGate { a: true, b: false };
    assert!(gate.output());

    let gate = OrGate { a: false, b: true };
    assert!(gate.output());

    let gate = OrGate { a: true, b: true };
    assert!(gate.output());
}

#[test]
fn or_gate_output_returns_false_when_both_inputs_are_false() {
    let gate = OrGate { a: false, b: false };
    assert!(!gate.output());
}

#[test]
fn xor_gate_output_returns_true_when_inputs_are_different() {
    let gate = XorGate { a: true, b: false };
    assert!(gate.output());

    let gate = XorGate { a: false, b: true };
    assert!(gate.output());
}

#[test]
fn xor_gate_output_returns_false_when_inputs_are_same() {
    let gate = XorGate { a: true, b: true };
    assert!(!gate.output());

    let gate = XorGate { a: false, b: false };
    assert!(!gate.output());
}

#[test]
fn nand_gate_output_returns_false_when_both_inputs_are_true() {
    let gate = NandGate { a: true, b: true };
    assert!(!gate.output());
}

#[test]
fn nand_gate_output_returns_true_when_any_input_is_false() {
    let gate = NandGate { a: true, b: false };
    assert!(gate.output());

    let gate = NandGate { a: false, b: true };
    assert!(gate.output());

    let gate = NandGate { a: false, b: false };
    assert!(gate.output());
}

#[test]
fn nor_gate_output_returns_true_when_both_inputs_are_false() {
    let gate = NorGate { a: false, b: false };
    assert!(gate.output());
}

#[test]
fn nor_gate_output_returns_false_when_any_input_is_true() {
    let gate = NorGate { a: true, b: false };
    assert!(!gate.output());

    let gate = NorGate { a: false, b: true };
    assert!(!gate.output());

    let gate = NorGate { a: true, b: true };
    assert!(!gate.output());
}

#[test]
fn create_gate_follows_each_truth_table() {
    for a in [false, true] {
        for b in [false, true] {
            assert_eq!(create_gate("and", a, b).unwrap().output(), a && b);
            assert_eq!(create_gate("or", a, b).unwrap().output(), a || b);
            assert_eq!(create_gate("xor", a, b).unwrap().output(), a != b);
            assert_eq!(create_gate("nand", a, b).unwrap().output(), !(a && b));
            assert_eq!(create_gate("nor", a, b).unwrap().output(), !(a || b));
        }
    }
}

#[test]
fn parse_gate_name_lowers_the_case() {
    assert_eq!(parse_gate_name("AND\n"), Some("and".to_string()));
    assert_eq!(parse_gate_name("  Xor "), Some("xor".to_string()));
    assert_eq!(parse_gate_name("nor"), Some("nor".to_string()));
    assert_eq!(parse_gate_name("not"), None);
    assert_eq!(parse_gate_name(""), None);
    assert!(names_gate("nand"));
    assert!(!names_gate("NAND"));
}

#[test]
fn parse_bit_reads_one_and_zero() {
    assert_eq!(parse_bit("1\n"), Some(true));
    assert_eq!(parse_bit(" 0 "), Some(false));
    assert_eq!(parse_bit("2"), None);
    assert_eq!(parse_bit("true"), None);
    assert_eq!(parse_bit(""), None);
    assert_eq!(bit_from_word("1"), Some(true));
    assert_eq!(bit_from_word("1 "), None);
}
