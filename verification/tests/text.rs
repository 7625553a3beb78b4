use bangrs::text::{push_decimal, push_decimal_list};
use bangrs::time::Duration;

#[test]
fn decimal_rendering() {
    let mut s = String::from("n=");
    push_decimal(&mut s, 0);
    push_decimal(&mut s, 10);
    push_decimal(&mut s, u64::MAX);
    assert_eq!(s, "n=01018446744073709551615");
    let mut l = String::new();
    push_decimal_list(&mut l, &vec![1, 22, 4_294_967_295]);
    assert_eq!(l, "1, 22, 4294967295");
}

#[test]
fn duration_conversions() {
    let d = Duration::new(3, 1_500_000_000);
    assert_eq!(d.as_secs(), 4);
    assert_eq!(d.subsec_nanos(), 500_000_000);
    assert_eq!(d.as_millis(), 4500);
    assert_eq!(d.as_nanos(), 4_500_000_000);
    assert_eq!(Duration::from_secs(2).add(Duration::from_millis(5)), Duration::from_millis(2005));
    assert_eq!(Duration::zero().as_nanos(), 0);
    let max = Duration::new(u64::MAX, 999_999_999);
    assert_eq!(max.checked_add(Duration::new(0, 1)), None);
    assert_eq!(Duration::zero().checked_add(max), Some(max));
}
