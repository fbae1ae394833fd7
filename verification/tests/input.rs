use challenges::input::read_input;

#[test]
fn when_reading_input_then_returns_trimmed_string() {
    let input = "test\n";
    let result = read_input(input);
    assert_eq!(result.trim(), "test");
    assert_eq!(result, "test");
}

#[test]
fn read_input_drops_white_space_on_both_sides_only() {
    assert_eq!(read_input("  two words \t\r\n"), "two words");
    assert_eq!(read_input("\n"), "");
    assert_eq!(read_input(""), "");
    assert_eq!(read_input("1"), "1");
}
