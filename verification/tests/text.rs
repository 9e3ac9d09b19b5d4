use simprint_runtime::text::push_decimal;

fn decimal(n: u64) -> String {
    let mut s = String::new();
    push_decimal(&mut s, n);
    s
}

#[test]
fn decimal_rendering() {
    assert_eq!(decimal(0), "0");
    assert_eq!(decimal(7), "7");
    assert_eq!(decimal(10), "10");
    assert_eq!(decimal(9200), "9200");
    assert_eq!(decimal(u64::MAX), "18446744073709551615");
    let mut s = String::from("port ");
    push_decimal(&mut s, 65535);
    assert_eq!(s, "port 65535");
}
