use registry_conformance::{ascii_uppercase, comes_before, decimal};

#[test]
fn decimal_numbers() {
    assert_eq!(decimal(0), "0");
    assert_eq!(decimal(10), "10");
    assert_eq!(decimal(usize::MAX), usize::MAX.to_string());
    assert_eq!(decimal(90210), "90210");
}

#[test]
fn upper_case_is_ascii_only() {
    assert_eq!(ascii_uppercase("mine"), "MINE");
    assert_eq!(ascii_uppercase("az-AZ_09{`"), "AZ-AZ_09{`");
    assert_eq!(ascii_uppercase("stra\u{df}e \u{e4}"), "STRA\u{df}E \u{e4}");
}

#[test]
fn byte_order_of_names() {
    let names = ["", "a", "a-b", "ab", "b", "z", "\u{e9}", "\u{ffff}", "\u{10000}"];
    for (i, a) in names.iter().enumerate() {
        for (j, b) in names.iter().enumerate() {
            assert_eq!(comes_before(a, b), i < j);
            assert_eq!(comes_before(a, b), a < b);
        }
    }
}
