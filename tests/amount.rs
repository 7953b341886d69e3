use eos420::amount::scale_amount;
use eos420::uint256::Uint256;

#[test]
fn two_step_scaling_of_eight_decimals() {
    let raw = Uint256::from_u64(123456789);
    let s = scale_amount(&raw, 8);
    assert_eq!(s.quotient.to_string(), "1234567");
    assert_eq!(s.scale, 6);
    let shown = s.quotient.to_string().parse::<f64>().unwrap() / 10f64.powi(s.scale);
    assert_eq!(shown, 1.234567);
}

#[test]
fn few_decimals_keep_every_digit() {
    let s = scale_amount(&Uint256::from_u64(12345), 2);
    assert_eq!(s.quotient.to_string(), "12345");
    assert_eq!(s.scale, 2);
}

#[test]
fn eighteen_decimals_cut_twelve_digits() {
    let raw = Uint256::from_str_prefixed("1500000000000000000").unwrap();
    let s = scale_amount(&raw, 18);
    assert_eq!(s.quotient.to_string(), "1500000");
    assert_eq!(s.scale, 6);
}
