use ray_tracer::text::push_decimal;

fn decimal(n: usize) -> String {
    let mut out = Vec::new();
    push_decimal(&mut out, n);
    String::from_utf8(out).unwrap()
}

#[test]
fn decimal_of_single_digits() {
    assert_eq!(decimal(0), "0");
    assert_eq!(decimal(9), "9");
}

#[test]
fn decimal_has_no_leading_zeros() {
    assert_eq!(decimal(10), "10");
    assert_eq!(decimal(400), "400");
    assert_eq!(decimal(1234567890), "1234567890");
}

#[test]
fn decimal_of_largest_value() {
    assert_eq!(decimal(usize::MAX), usize::MAX.to_string());
}
