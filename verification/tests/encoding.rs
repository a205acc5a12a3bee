use gscite::encoding::{decimal_text, join};

#[test]
fn decimal_of_small_and_large_numbers() {
    assert_eq!(decimal_text(0), "0");
    assert_eq!(decimal_text(7), "7");
    assert_eq!(decimal_text(9), "9");
    assert_eq!(decimal_text(10), "10");
    assert_eq!(decimal_text(2024), "2024");
    assert_eq!(decimal_text(100000), "100000");
    assert_eq!(decimal_text(u32::MAX), "4294967295");
}

#[test]
fn decimal_agrees_with_the_standard_library() {
    for n in [1u32, 19, 99, 101, 65535, 65536, 999999999, 1000000000] {
        assert_eq!(decimal_text(n), n.to_string());
    }
}

#[test]
fn join_puts_the_separator_between() {
    let none: [&str; 0] = [];
    assert_eq!(join(&none, "|"), "");
    assert_eq!(join(&["a"], "|"), "a");
    assert_eq!(join(&["a", "b"], "|"), "a|b");
    assert_eq!(join(&["lang_fr", "lang_en", "lang_de"], "|"), "lang_fr|lang_en|lang_de");
    assert_eq!(join(&["", ""], ", "), ", ");
}
