use execd::identity::{extends, generate_name, is_valid_name, name_from, symbol, SUFFIX_SPACE};

#[test]
fn digits_are_written_lowest_first() {
    assert_eq!(name_from(0), "run-00000000");
    assert_eq!(name_from(1), "run-10000000");
    assert_eq!(name_from(9), "run-90000000");
    assert_eq!(name_from(10), "run-a0000000");
    assert_eq!(name_from(35), "run-z0000000");
    assert_eq!(name_from(36), "run-01000000");
    assert_eq!(name_from(36 * 36 + 2 * 36 + 11), "run-b2100000");
    assert_eq!(name_from(SUFFIX_SPACE - 1), "run-zzzzzzzz");
}

#[test]
fn only_the_lowest_eight_digits_count() {
    assert_eq!(SUFFIX_SPACE, 36u64.pow(8));
    assert_eq!(name_from(SUFFIX_SPACE), "run-00000000");
    assert_eq!(name_from(SUFFIX_SPACE + 5), "run-50000000");
}

#[test]
fn symbols_are_digits_then_letters() {
    let all: String = (0..36u8).map(symbol).collect();
    assert_eq!(symbol(36), '0');
    assert_eq!(symbol(255), '3');
    assert_eq!(all, "0123456789abcdefghijklmnopqrstuvwxyz");
}

#[test]
fn name_form_is_checked() {
    assert!(is_valid_name("run-x7k2p"));
    assert!(is_valid_name("run-a"));
    assert!(is_valid_name("run-a-b-0"));
    assert!(is_valid_name("run-00000000"));
    assert!(!is_valid_name("run-"));
    assert!(!is_valid_name(""));
    assert!(!is_valid_name("run"));
    assert!(!is_valid_name("run-ABC"));
    assert!(!is_valid_name("run-a_b"));
    assert!(!is_valid_name("xrun-abc"));
    assert!(!is_valid_name("Run-abc"));
    assert!(!is_valid_name("run-abc "));
    assert!(!is_valid_name("run-\u{e9}"));
    assert!(!is_valid_name("r\u{fc}n-abc"));
}

#[test]
fn name_that_goes_on_from_a_prefix() {
    assert!(extends("build-", "build-1"));
    assert!(extends("", "a"));
    assert!(!extends("", ""));
    assert!(!extends("build-", "build-"));
    assert!(!extends("build-", "build"));
    assert!(!extends("build-", "guild-1"));
    assert!(!extends("build-", "build-A"));
    assert!(extends("\u{e9}-", "\u{e9}-a"));
    assert!(!extends("\u{e9}-", "e-a"));
}

#[test]
fn generated_names_have_the_form() {
    for _ in 0..200 {
        let name = generate_name();
        assert_eq!(name.len(), 12);
        assert!(is_valid_name(&name));
        assert!(name[4..].chars().all(|c| c.is_ascii_digit() || c.is_ascii_lowercase()));
    }
}

#[test]
fn ten_thousand_names_in_a_row_do_not_repeat() {
    let mut previous = generate_name();
    let mut not_the_first_name = false;
    for _ in 0..10_000 {
        let name = generate_name();
        assert_ne!(name, previous);
        if name != "run-00000000" {
            not_the_first_name = true;
        }
        previous = name;
    }
    assert!(not_the_first_name);
}

#[test]
fn different_numbers_have_different_names() {
    let numbers: Vec<u64> =
        vec![0, 1, 35, 36, 37, 1295, 1296, 46_655, 46_656, SUFFIX_SPACE / 2, SUFFIX_SPACE - 1];
    for (i, a) in numbers.iter().enumerate() {
        for (j, b) in numbers.iter().enumerate() {
            assert_eq!(i == j, name_from(*a) == name_from(*b));
        }
    }
}
