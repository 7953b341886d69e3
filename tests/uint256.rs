use eos420::uint256::Uint256;

fn dec(s: &str) -> Uint256 {
    Uint256::from_str_prefixed(s).unwrap()
}

#[test]
fn parses_decimal_and_hex() {
    assert_eq!(dec("255").to_string(), "255");
    assert_eq!(dec("0xff").to_string(), "255");
    assert_eq!(dec("0xFF").to_string(), "255");
    assert_eq!(dec("1_000").to_string(), "1000");
    assert_eq!(dec("+42").to_string(), "42");
}

#[test]
fn rejects_malformed_digits() {
    assert!(Uint256::from_str_prefixed("").is_err());
    assert!(Uint256::from_str_prefixed("12a").is_err());
    assert!(Uint256::from_str_prefixed("0x").is_err());
    assert!(Uint256::from_str_prefixed("0xg1").is_err());
    assert!(Uint256::from_str_prefixed("_1").is_err());
    assert!(Uint256::from_str_prefixed("++1").is_err());
    assert!(Uint256::from_str_prefixed("-1").is_err());
}

#[test]
fn lenient_read_defaults_to_zero() {
    assert!(Uint256::from_str_or_zero("not a number").is_zero());
    assert_eq!(Uint256::from_str_or_zero("0x10").to_string(), "16");
}

#[test]
fn formats_in_every_radix() {
    let v = dec("3054");
    assert_eq!(v.to_string(), "3054");
    assert_eq!(v.to_lower_hex(), "0xbee");
    assert_eq!(v.to_upper_hex(), "0xBEE");
    assert_eq!(v.to_binary(), "0b101111101110");
    assert_eq!(v.to_octal(), "0o5756");
    assert_eq!(Uint256::zero().to_lower_hex(), "0x0");
}

#[test]
fn canonical_round_trip_examples() {
    assert_eq!(dec("007").to_string(), "7");
    assert_eq!(dec("0x00AbC").to_lower_hex(), "0xabc");
    assert_eq!(dec("0").to_string(), "0");
}

#[test]
fn difference_round_trips() {
    let a = dec("115792089237316195423570985008687907853269984665640564039457584007913129639935");
    let b = dec("1");
    let d = a.sub(&b);
    let text = d.to_string();
    assert_eq!(text, "115792089237316195423570985008687907853269984665640564039457584007913129639934");
    assert_eq!(Uint256::from_str_prefixed(&text).unwrap().to_string(), text);
    let hex = d.to_lower_hex();
    assert_eq!(Uint256::from_str_prefixed(&hex).unwrap().to_lower_hex(), hex);
}

#[test]
fn arithmetic_is_exact() {
    let a = dec("340282366920938463463374607431768211456");
    let b = Uint256::from_u64(3);
    assert_eq!(a.add(&b).to_string(), "340282366920938463463374607431768211459");
    assert_eq!(a.mul(&b).to_string(), "1020847100762815390390123822295304634368");
    assert_eq!(a.div(&b).to_string(), "113427455640312821154458202477256070485");
    assert_eq!(Uint256::from_u32(10).pow(20).to_string(), "100000000000000000000");
    assert_eq!(Uint256::from_u32(7).pow(0).to_string(), "1");
    assert_eq!(Uint256::from_u64(u64::MAX).to_string(), "18446744073709551615");
    assert!(!Uint256::one().is_zero());
}
