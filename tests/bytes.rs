use eos420::uint256::Uint256;

#[test]
fn fixed_width_big_endian() {
    let v = Uint256::from_u64(0x0102);
    let b = v.to_be_bytes();
    assert_eq!(b.len(), 32);
    assert_eq!(&b[..30], &[0u8; 30]);
    assert_eq!(&b[30..], &[1, 2]);
    assert_eq!(Uint256::from_be_bytes(&b).to_string(), "258");
}

#[test]
fn fixed_width_little_endian() {
    let v = Uint256::from_u64(0x0102);
    let b = v.to_le_bytes();
    assert_eq!(&b[..2], &[2, 1]);
    assert_eq!(&b[2..], &[0u8; 30]);
    assert_eq!(Uint256::from_le_bytes(&b).to_string(), "258");
    assert_eq!(Uint256::zero().to_le_bytes(), [0u8; 32]);
}

#[test]
fn largest_value_fills_every_byte() {
    let m = Uint256::max();
    assert_eq!(m.to_be_bytes(), [0xffu8; 32]);
    assert_eq!(m.to_lower_hex(), format!("0x{}", "f".repeat(64)));
    assert_eq!(m.add(&Uint256::one()).to_lower_hex(), format!("0x1{}", "0".repeat(64)));
}

#[test]
fn narrow_conversions() {
    assert_eq!(Uint256::from_u64(u64::MAX).to_u64(), Some(u64::MAX));
    assert_eq!(Uint256::from_u128(1u128 << 64).to_u64(), None);
    assert_eq!(Uint256::from_u128(u128::MAX).to_u128(), Some(u128::MAX));
    assert_eq!(Uint256::from_u128(u128::MAX).to_string(), "340282366920938463463374607431768211455");
    assert_eq!(Uint256::max().to_u128(), None);
    assert!(Uint256::from_i64(-1).is_none());
    assert_eq!(Uint256::from_i64(5).unwrap().to_u64(), Some(5));
}

#[test]
fn ordered_subtraction() {
    let a = Uint256::from_u64(5);
    let b = Uint256::from_u64(7);
    assert!(a.le(&b));
    assert!(!b.le(&a));
    assert!(a.checked_sub(&b).is_none());
    assert_eq!(b.checked_sub(&a).unwrap().to_string(), "2");
}

#[test]
fn signed_conversions() {
    assert_eq!(Uint256::from_u64(i64::MAX as u64).to_i64(), Some(i64::MAX));
    assert_eq!(Uint256::from_u64(i64::MAX as u64 + 1).to_i64(), None);
    assert_eq!(Uint256::from_u128(i128::MAX as u128).to_i128(), Some(i128::MAX));
    assert_eq!(Uint256::from_u128(u128::MAX).to_i128(), None);
    assert!(Uint256::from_i128(-5).is_none());
    assert_eq!(Uint256::from_i128(i128::MAX).unwrap().to_i128(), Some(i128::MAX));
}

#[test]
fn in_place_arithmetic() {
    let mut v = Uint256::from_u64(10);
    v.add_assign(&Uint256::from_u64(5));
    assert_eq!(v.to_string(), "15");
    v.sub_assign(&Uint256::from_u64(3));
    assert_eq!(v.to_string(), "12");
    v.mul_assign(&Uint256::from_u64(4));
    assert_eq!(v.to_string(), "48");
    v.div_assign(&Uint256::from_u64(5));
    assert_eq!(v.to_string(), "9");
}
