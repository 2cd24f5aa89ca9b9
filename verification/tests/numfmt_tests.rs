use cw721_fixed_price::numfmt::{bool_to_string, u128_to_dec_string, u32_to_dec_string};

#[test]
fn decimal_rendering() {
    assert_eq!(u128_to_dec_string(0), "0");
    assert_eq!(u128_to_dec_string(7), "7");
    assert_eq!(u128_to_dec_string(10), "10");
    assert_eq!(u128_to_dec_string(105), "105");
    assert_eq!(u128_to_dec_string(98765432109876543210), "98765432109876543210");
    assert_eq!(
        u128_to_dec_string(u128::MAX),
        "340282366920938463463374607431768211455"
    );
}

#[test]
fn decimal_rendering_u32() {
    assert_eq!(u32_to_dec_string(0), "0");
    assert_eq!(u32_to_dec_string(32769), "32769");
    assert_eq!(u32_to_dec_string(u32::MAX), "4294967295");
}

#[test]
fn flag_rendering() {
    assert_eq!(bool_to_string(true), "true");
    assert_eq!(bool_to_string(false), "false");
}
