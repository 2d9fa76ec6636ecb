use qi::text::decimal_text;

#[test]
fn numbers_are_written_in_decimal() {
    assert_eq!(decimal_text(0), "0");
    assert_eq!(decimal_text(41681), "41681");
    assert_eq!(decimal_text(u32::MAX), "4294967295");
}
