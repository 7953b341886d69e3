//! Unsigned integers of unbounded width, used for every on-chain amount.
//!
//! The digits are kept as little-endian base 2^32 limbs; the arithmetic,
//! radix parsing and radix formatting are those of `num_bigint::BigUint`.

use vstd::prelude::*;
use num_bigint::BigUint;
use num_traits::Num;

verus! {

#[verifier::external_type_specification]
#[verifier::external_body]
pub struct ExParseBigIntError(num_bigint::ParseBigIntError);

/// The number that little-endian base 2^32 limbs stand for.
pub open spec fn limbs_value(s: Seq<u32>) -> nat
    decreases s.len(),
{
    if s.len() == 0 {
        0
    } else {
        s[0] as nat + 0x1_0000_0000 * limbs_value(s.drop_first())
    }
}

/// The value of a digit character in any radix up to 36; 255 for a non-digit.
pub open spec fn digit_value(c: char) -> nat {
    let u = c as u32;
    if 48 <= u <= 57 {
        (u - 48) as nat
    } else if 97 <= u <= 122 {
        (u - 87) as nat
    } else if 65 <= u <= 90 {
        (u - 55) as nat
    } else {
        255
    }
}

/// The lowercase digit character for `d < 36`.
pub open spec fn digit_char(d: nat) -> char {
    if d < 10 {
        ((48 + d) as u32) as char
    } else {
        ((87 + d) as u32) as char
    }
}

/// Digits of a number in a radix: lowercase, most significant first, no
/// leading zero ("0" for zero).
pub open spec fn radix_string(n: nat, radix: nat) -> Seq<char>
    decreases n,
{
    if radix < 2 || n < radix {
        seq![digit_char(n)]
    } else {
        proof {
            vstd::arithmetic::div_mod::lemma_div_decreases(n as int, radix as int);
        }
        radix_string(n / radix, radix).push(digit_char(n % radix))
    }
}

/// What `BigUint::from_str_radix` reads once a single leading `+` is removed.
pub open spec fn unsigned_body(s: Seq<char>) -> Seq<char> {
    if s.len() >= 1 && s[0] == '+' && !(s.len() >= 2 && s[1] == '+') {
        s.drop_first()
    } else {
        s
    }
}

/// A digit string in `radix`: not empty, not led by `_`, and made of digits
/// below the radix and `_` separators.
pub open spec fn digits_ok(s: Seq<char>, radix: nat) -> bool {
    &&& s.len() > 0
    &&& s[0] != '_'
    &&& forall|i: int| 0 <= i < s.len() ==> #[trigger] s[i] == '_' || digit_value(s[i]) < radix
}

/// Whether `BigUint::from_str_radix` accepts `s`.
pub open spec fn radix_parses(s: Seq<char>, radix: nat) -> bool {
    digits_ok(unsigned_body(s), radix)
}

/// The number that a digit string stands for, separators skipped.
pub open spec fn digits_value(s: Seq<char>, radix: nat) -> nat
    decreases s.len(),
{
    if s.len() == 0 {
        0
    } else if s.last() == '_' {
        digits_value(s.drop_last(), radix)
    } else {
        digits_value(s.drop_last(), radix) * radix + digit_value(s.last())
    }
}

/// Whether a string carries the `0x` prefix of hexadecimal input.
pub open spec fn has_hex_prefix(s: Seq<char>) -> bool {
    s.len() >= 2 && s[0] == '0' && s[1] == 'x'
}

/// The radix that a (possibly `0x`-prefixed) number string is read in.
pub open spec fn prefixed_radix(s: Seq<char>) -> nat {
    if has_hex_prefix(s) {
        16
    } else {
        10
    }
}

/// The digits of a (possibly `0x`-prefixed) number string.
pub open spec fn prefixed_digits(s: Seq<char>) -> Seq<char> {
    if has_hex_prefix(s) {
        s.subrange(2, s.len() as int)
    } else {
        s
    }
}

/// Whether a decimal or `0x`-prefixed hexadecimal string is a number.
pub open spec fn is_number_string(s: Seq<char>) -> bool {
    radix_parses(prefixed_digits(s), prefixed_radix(s))
}

/// The value of a decimal or `0x`-prefixed hexadecimal number string.
pub open spec fn number_string_value(s: Seq<char>) -> nat {
    digits_value(unsigned_body(prefixed_digits(s)), prefixed_radix(s))
}

/// ASCII letters raised to upper case, other characters kept.
pub open spec fn ascii_upper(s: Seq<char>) -> Seq<char> {
    s.map_values(|c: char| if 97 <= (c as u32) <= 122 { ((c as u32) - 32) as u32 as char } else { c })
}

/// Relies on `BigUint`'s `+`: the limbs of the sum.
#[verifier::external_body]
fn big_add(a: &Vec<u32>, b: &Vec<u32>) -> (r: Vec<u32>)
    ensures
        limbs_value(r@) == limbs_value(a@) + limbs_value(b@),
{
    (BigUint::new(a.clone()) + BigUint::new(b.clone())).to_u32_digits()
}

/// Relies on `BigUint`'s `-`, which panics below zero: the limbs of the difference.
#[verifier::external_body]
fn big_sub(a: &Vec<u32>, b: &Vec<u32>) -> (r: Vec<u32>)
    requires
        limbs_value(b@) <= limbs_value(a@),
    ensures
        limbs_value(r@) == limbs_value(a@) - limbs_value(b@),
{
    (BigUint::new(a.clone()) - BigUint::new(b.clone())).to_u32_digits()
}

/// Relies on `BigUint`'s `*`: the limbs of the product.
#[verifier::external_body]
fn big_mul(a: &Vec<u32>, b: &Vec<u32>) -> (r: Vec<u32>)
    ensures
        limbs_value(r@) == limbs_value(a@) * limbs_value(b@),
{
    (BigUint::new(a.clone()) * BigUint::new(b.clone())).to_u32_digits()
}

/// Relies on `BigUint`'s `/`, which panics on a zero divisor: the limbs of
/// the truncated quotient.
#[verifier::external_body]
fn big_div(a: &Vec<u32>, b: &Vec<u32>) -> (r: Vec<u32>)
    requires
        limbs_value(b@) != 0,
    ensures
        limbs_value(r@) == limbs_value(a@) / limbs_value(b@),
{
    (BigUint::new(a.clone()) / BigUint::new(b.clone())).to_u32_digits()
}

/// Relies on `BigUint::pow`: the limbs of `a` raised to `e`.
#[verifier::external_body]
fn big_pow(a: &Vec<u32>, e: u32) -> (r: Vec<u32>)
    ensures
        limbs_value(r@) == vstd::arithmetic::power::pow(limbs_value(a@) as int, e as nat),
{
    BigUint::new(a.clone()).pow(e).to_u32_digits()
}

/// Relies on `BigUint::from_str_radix`, which asserts a radix in 2..=36: it
/// accepts one optional `+`, then digits with `_` separators.
#[verifier::external_body]
fn big_parse(s: &str, radix: u32) -> (r: Result<Vec<u32>, num_bigint::ParseBigIntError>)
    requires
        2 <= radix <= 36,
    ensures
        r is Ok <==> radix_parses(s@, radix as nat),
        r matches Ok(v) ==> limbs_value(v@) == digits_value(unsigned_body(s@), radix as nat),
{
    match BigUint::from_str_radix(s, radix) {
        Ok(b) => Ok(b.to_u32_digits()),
        Err(e) => Err(e),
    }
}

/// Relies on `BigUint::to_str_radix`, which asserts a radix in 2..=36: lowercase
/// digits without leading zeros.
#[verifier::external_body]
fn big_format(a: &Vec<u32>, radix: u32) -> (r: String)
    requires
        2 <= radix <= 36,
    ensures
        r@ == radix_string(limbs_value(a@), radix as nat),
{
    BigUint::new(a.clone()).to_str_radix(radix)
}

/// Relies on `str::to_ascii_uppercase`: ASCII letters upper-cased, the rest kept.
#[verifier::external_body]
fn upper_ascii(s: &str) -> (r: String)
    ensures
        r@ == ascii_upper(s@),
{
    s.to_ascii_uppercase()
}

/// An unsigned integer; amounts on chain fit in 256 bits, but arithmetic is
/// exact at any width.
#[derive(Clone, Debug)]
pub struct Uint256 {
    /// Little-endian base 2^32 digits.
    pub limbs: Vec<u32>,
}

impl View for Uint256 {
    type V = nat;

    open spec fn view(&self) -> nat {
        limbs_value(self.limbs@)
    }
}

proof fn lemma_zero_limbs(s: Seq<u32>)
    ensures
        (limbs_value(s) == 0) <==> (forall|i: int| 0 <= i < s.len() ==> s[i] == 0),
    decreases s.len(),
{
    if s.len() > 0 {
        lemma_zero_limbs(s.drop_first());
        if limbs_value(s) == 0 {
            assert forall|i: int| 0 <= i < s.len() implies s[i] == 0 by {
                if i > 0 {
                    assert(s[i] == s.drop_first()[i - 1]);
                }
            }
        }
        if forall|i: int| 0 <= i < s.len() ==> s[i] == 0 {
            assert forall|i: int| 0 <= i < s.drop_first().len() implies s.drop_first()[i] == 0 by {
                assert(s.drop_first()[i] == s[i + 1]);
            }
        }
    }
}

impl Uint256 {
    pub fn zero() -> (r: Uint256)
        ensures
            r@ == 0,
    {
        Uint256 { limbs: Vec::new() }
    }

    pub fn one() -> (r: Uint256)
        ensures
            r@ == 1,
    {
        let r = Uint256 { limbs: vec![1u32] };
        assert(limbs_value(r.limbs@.drop_first()) == 0);
        r
    }

    pub fn from_u32(n: u32) -> (r: Uint256)
        ensures
            r@ == n,
    {
        let r = Uint256 { limbs: vec![n] };
        assert(limbs_value(r.limbs@.drop_first()) == 0);
        r
    }

    pub fn from_u64(n: u64) -> (r: Uint256)
        ensures
            r@ == n,
    {
        let lo = (n % 0x1_0000_0000) as u32;
        let hi = (n / 0x1_0000_0000) as u32;
        let r = Uint256 { limbs: vec![lo, hi] };
        assert(r.limbs@.drop_first() =~= seq![hi]);
        assert(limbs_value(seq![hi].drop_first()) == 0);
        assert(limbs_value(seq![hi]) == hi);
        r
    }

    pub fn is_zero(&self) -> (r: bool)
        ensures
            r == (self@ == 0),
    {
        proof {
            lemma_zero_limbs(self.limbs@);
        }
        let mut i: usize = 0;
        while i < self.limbs.len()
            invariant
                0 <= i <= self.limbs@.len(),
                forall|j: int| 0 <= j < i ==> self.limbs@[j] == 0,
            decreases self.limbs@.len() - i,
        {
            if self.limbs[i] != 0 {
                proof {
                    lemma_zero_limbs(self.limbs@);
                    assert(self.limbs@[i as int] != 0);
                    assert(!(forall|j: int| 0 <= j < self.limbs@.len() ==> self.limbs@[j] == 0));
                }
                return false;
            }
            i = i + 1;
        }
        true
    }

    pub fn add(&self, other: &Uint256) -> (r: Uint256)
        ensures
            r@ == self@ + other@,
    {
        Uint256 { limbs: big_add(&self.limbs, &other.limbs) }
    }

    /// Subtraction; a larger subtrahend is a caller error and is excluded.
    pub fn sub(&self, other: &Uint256) -> (r: Uint256)
        requires
            other@ <= self@,
        ensures
            r@ == self@ - other@,
    {
        Uint256 { limbs: big_sub(&self.limbs, &other.limbs) }
    }

    pub fn mul(&self, other: &Uint256) -> (r: Uint256)
        ensures
            r@ == self@ * other@,
    {
        Uint256 { limbs: big_mul(&self.limbs, &other.limbs) }
    }

    /// Truncating division; a zero divisor is a caller error and is excluded.
    pub fn div(&self, other: &Uint256) -> (r: Uint256)
        requires
            other@ != 0,
        ensures
            r@ == self@ / other@,
    {
        Uint256 { limbs: big_div(&self.limbs, &other.limbs) }
    }

    pub fn pow(&self, exp: u32) -> (r: Uint256)
        ensures
            r@ == vstd::arithmetic::power::pow(self@ as int, exp as nat),
    {
        Uint256 { limbs: big_pow(&self.limbs, exp) }
    }

    /// Reads a decimal string, or a hexadecimal one after `0x`.
    pub fn from_str_prefixed(s: &str) -> (r: Result<Uint256, ()>)
        ensures
            r is Ok <==> is_number_string(s@),
            r matches Ok(v) ==> v@ == number_string_value(s@),
    {
        let n = s.unicode_len();
        let hex = n >= 2 && s.get_char(0) == '0' && s.get_char(1) == 'x';
        let parsed = if hex {
            big_parse(s.substring_char(2, n), 16)
        } else {
            big_parse(s, 10)
        };
        match parsed {
            Ok(limbs) => Ok(Uint256 { limbs }),
            Err(_) => Err(()),
        }
    }

    /// Reads like `from_str_prefixed`, with zero for a string that is no number.
    pub fn from_str_or_zero(s: &str) -> (r: Uint256)
        ensures
            is_number_string(s@) ==> r@ == number_string_value(s@),
            !is_number_string(s@) ==> r@ == 0,
    {
        match Uint256::from_str_prefixed(s) {
            Ok(v) => v,
            Err(_) => Uint256::zero(),
        }
    }

    /// Decimal digits.
    pub fn to_string(&self) -> (r: String)
        ensures
            r@ == radix_string(self@, 10),
    {
        big_format(&self.limbs, 10)
    }

    /// `0x` and lowercase hexadecimal digits; also the serialized form.
    pub fn to_lower_hex(&self) -> (r: String)
        ensures
            r@ == "0x"@ + radix_string(self@, 16),
    {
        let digits = big_format(&self.limbs, 16);
        let mut r = String::from_str("0x");
        r.append(digits.as_str());
        r
    }

    /// `0x` and uppercase hexadecimal digits.
    pub fn to_upper_hex(&self) -> (r: String)
        ensures
            r@ == "0x"@ + ascii_upper(radix_string(self@, 16)),
    {
        let digits = big_format(&self.limbs, 16);
        let upper = upper_ascii(digits.as_str());
        let mut r = String::from_str("0x");
        r.append(upper.as_str());
        r
    }

    /// `0b` and binary digits.
    pub fn to_binary(&self) -> (r: String)
        ensures
            r@ == "0b"@ + radix_string(self@, 2),
    {
        let digits = big_format(&self.limbs, 2);
        let mut r = String::from_str("0b");
        r.append(digits.as_str());
        r
    }

    /// `0o` and octal digits.
    pub fn to_octal(&self) -> (r: String)
        ensures
            r@ == "0o"@ + radix_string(self@, 8),
    {
        let digits = big_format(&self.limbs, 8);
        let mut r = String::from_str("0o");
        r.append(digits.as_str());
        r
    }
}

impl Default for Uint256 {
    fn default() -> (r: Uint256)
        ensures
            r@ == 0,
    {
        Uint256::zero()
    }
}


proof fn lemma_digit_char(d: nat)
    requires
        d < 36,
    ensures
        digit_value(digit_char(d)) == d,
        digit_char(d) != '_',
        digit_char(d) != '+',
{
}

proof fn lemma_value_push(p: Seq<char>, c: char, radix: nat)
    requires
        c != '_',
    ensures
        digits_value(p.push(c), radix) == digits_value(p, radix) * radix + digit_value(c),
{
    assert(p.push(c).drop_last() =~= p);
    assert(p.push(c).last() == c);
}

/// The digits that `radix_string` writes are digits of the radix, and they
/// stand for the number written.
proof fn lemma_radix_string_reads_back(n: nat, radix: nat)
    requires
        2 <= radix <= 36,
    ensures
        radix_string(n, radix).len() > 0,
        forall|i: int| 0 <= i < radix_string(n, radix).len() ==>
            digit_value(#[trigger] radix_string(n, radix)[i]) < radix
            && radix_string(n, radix)[i] != '_'
            && radix_string(n, radix)[i] != '+',
        digits_value(radix_string(n, radix), radix) == n,
    decreases n,
{
    let s = radix_string(n, radix);
    if n < radix {
        lemma_digit_char(n);
        assert(s =~= seq![].push(digit_char(n)));
        lemma_value_push(seq![], digit_char(n), radix);
        assert(digits_value(seq![], radix) == 0);
        assert(0 * radix == 0);
    } else {
        vstd::arithmetic::div_mod::lemma_div_decreases(n as int, radix as int);
        let q = n / radix;
        let d = n % radix;
        lemma_radix_string_reads_back(q, radix);
        lemma_digit_char(d);
        let p = radix_string(q, radix);
        assert(s == p.push(digit_char(d)));
        assert(s.drop_last() =~= p);
        assert forall|i: int| 0 <= i < s.len() implies
            digit_value(#[trigger] s[i]) < radix && s[i] != '_' && s[i] != '+' by {
            if i < p.len() {
                assert(s[i] == p[i]);
            }
        }
        assert(n == q * radix + d) by {
            vstd::arithmetic::div_mod::lemma_fundamental_div_mod(n as int, radix as int);
        }
        lemma_value_push(p, digit_char(d), radix);
        assert(digits_value(s, radix) == q * radix + d);
    }
}

/// Reading back what a radix formatter wrote: the digits alone parse in
/// their radix to the same number.
pub proof fn lemma_format_parse(n: nat, radix: nat)
    requires
        2 <= radix <= 36,
    ensures
        radix_parses(radix_string(n, radix), radix),
        digits_value(unsigned_body(radix_string(n, radix)), radix) == n,
{
    lemma_radix_string_reads_back(n, radix);
    let s = radix_string(n, radix);
    assert(s[0] != '+');
    assert(unsigned_body(s) == s);
}

/// Decimal output of a number is read back as that number.
pub proof fn lemma_decimal_round_trip(n: nat)
    ensures
        is_number_string(radix_string(n, 10)),
        number_string_value(radix_string(n, 10)) == n,
{
    lemma_radix_string_reads_back(n, 10);
    lemma_format_parse(n, 10);
    let s = radix_string(n, 10);
    if s.len() >= 2 {
        assert(digit_value('x') == 33);
        assert(s[1] != 'x');
    }
    assert(!has_hex_prefix(s));
}

/// `0x` hexadecimal output of a number is read back as that number.
pub proof fn lemma_hex_round_trip(n: nat)
    ensures
        is_number_string("0x"@ + radix_string(n, 16)),
        number_string_value("0x"@ + radix_string(n, 16)) == n,
{
    reveal_strlit("0x");
    lemma_format_parse(n, 16);
    let s = "0x"@ + radix_string(n, 16);
    assert(has_hex_prefix(s));
    assert(prefixed_digits(s) =~= radix_string(n, 16));
}

/// For `b <= a`, the difference `a - b`, written out in decimal or in `0x`
/// hexadecimal, reads back as `a - b`. (A larger subtrahend is excluded by
/// `Uint256::sub` itself.)
pub proof fn lemma_difference_round_trip(a: nat, b: nat)
    requires
        b <= a,
    ensures
        is_number_string(radix_string((a - b) as nat, 10)),
        number_string_value(radix_string((a - b) as nat, 10)) == a - b,
        is_number_string("0x"@ + radix_string((a - b) as nat, 16)),
        number_string_value("0x"@ + radix_string((a - b) as nat, 16)) == a - b,
{
    lemma_decimal_round_trip((a - b) as nat);
    lemma_hex_round_trip((a - b) as nat);
}

/// Subtracting `b` from `a` (allowed by `Uint256::sub` only when `b <= a`)
/// and writing the difference out with `to_string` or `to_lower_hex` gives a
/// string that `from_str_prefixed` reads back as exactly `a - b`.
pub proof fn lemma_sub_round_trip(a: Uint256, b: Uint256, d: Uint256)
    requires
        b@ <= a@,
        d@ == a@ - b@,
    ensures
        is_number_string(radix_string(d@, 10)),
        number_string_value(radix_string(d@, 10)) == a@ - b@,
        is_number_string("0x"@ + radix_string(d@, 16)),
        number_string_value("0x"@ + radix_string(d@, 16)) == a@ - b@,
{
    lemma_difference_round_trip(a@, b@);
}


/// A digit string with its `_` separators removed and its letters lowered.
pub open spec fn plain_digits(s: Seq<char>) -> Seq<char>
    decreases s.len(),
{
    if s.len() == 0 {
        seq![]
    } else if s.last() == '_' {
        plain_digits(s.drop_last())
    } else {
        plain_digits(s.drop_last()).push(digit_char(digit_value(s.last())))
    }
}

/// A digit string without its leading zeros (one zero is kept for zero).
pub open spec fn strip_zeros(s: Seq<char>) -> Seq<char>
    decreases s.len(),
{
    if s.len() > 1 && s[0] == '0' {
        strip_zeros(s.drop_first())
    } else {
        s
    }
}

/// The canonical spelling of a decimal or `0x` hexadecimal number string:
/// no sign, no separators, lowercase, no leading zeros, prefix kept.
pub open spec fn canonical_number(s: Seq<char>) -> Seq<char> {
    if has_hex_prefix(s) {
        "0x"@ + strip_zeros(plain_digits(unsigned_body(prefixed_digits(s))))
    } else {
        strip_zeros(plain_digits(unsigned_body(s)))
    }
}

/// A lowercase digit of the radix.
pub open spec fn canonical_char(c: char, radix: nat) -> bool {
    digit_value(c) < radix && c == digit_char(digit_value(c))
}

pub open spec fn all_canonical(s: Seq<char>, radix: nat) -> bool {
    forall|i: int| 0 <= i < s.len() ==> canonical_char(#[trigger] s[i], radix)
}

proof fn lemma_plain_digits(t: Seq<char>, radix: nat)
    requires
        2 <= radix <= 36,
        forall|i: int| 0 <= i < t.len() ==> #[trigger] t[i] == '_' || digit_value(t[i]) < radix,
    ensures
        digits_value(plain_digits(t), radix) == digits_value(t, radix),
        all_canonical(plain_digits(t), radix),
        t.len() > 0 && t[0] != '_' ==> plain_digits(t).len() > 0,
    decreases t.len(),
{
    if t.len() > 0 {
        let p = t.drop_last();
        let c = t.last();
        assert forall|i: int| 0 <= i < p.len() implies #[trigger] p[i] == '_' || digit_value(p[i]) < radix by {
            assert(p[i] == t[i]);
        }
        lemma_plain_digits(p, radix);
        if p.len() > 0 {
            assert(p[0] == t[0]);
        }
        if c != '_' {
            let q = plain_digits(p).push(digit_char(digit_value(c)));
            assert(digit_value(c) < radix);
            lemma_digit_char(digit_value(c));
            assert(q.drop_last() =~= plain_digits(p));
            assert(digits_value(q, radix) == digits_value(plain_digits(p), radix) * radix + digit_value(c));
            assert forall|i: int| 0 <= i < q.len() implies canonical_char(#[trigger] q[i], radix) by {
                if i < q.len() - 1 {
                    assert(q[i] == plain_digits(p)[i]);
                }
            }
        }
    }
}

proof fn lemma_leading_zero(y: Seq<char>, radix: nat)
    requires
        2 <= radix <= 36,
        all_canonical(y, radix),
    ensures
        digits_value(seq!['0'] + y, radix) == digits_value(y, radix),
    decreases y.len(),
{
    let z = seq!['0'] + y;
    if y.len() == 0 {
        assert(z =~= seq![].push('0'));
        lemma_value_push(seq![], '0', radix);
        assert(digits_value(seq![], radix) == 0);
        assert(0 * radix == 0);
    } else {
        let p = y.drop_last();
        assert forall|i: int| 0 <= i < p.len() implies canonical_char(#[trigger] p[i], radix) by {
            assert(p[i] == y[i]);
        }
        lemma_leading_zero(p, radix);
        assert(canonical_char(y.last(), radix));
        lemma_digit_char(digit_value(y.last()));
        assert(z =~= (seq!['0'] + p).push(y.last()));
        assert(y =~= p.push(y.last()));
        lemma_value_push(seq!['0'] + p, y.last(), radix);
        lemma_value_push(p, y.last(), radix);
    }
}

proof fn lemma_strip_zeros(d: Seq<char>, radix: nat)
    requires
        2 <= radix <= 36,
        d.len() > 0,
        all_canonical(d, radix),
    ensures
        digits_value(strip_zeros(d), radix) == digits_value(d, radix),
        all_canonical(strip_zeros(d), radix),
        strip_zeros(d).len() > 0,
        strip_zeros(d).len() == 1 || strip_zeros(d)[0] != '0',
    decreases d.len(),
{
    if d.len() > 1 && d[0] == '0' {
        let y = d.drop_first();
        assert forall|i: int| 0 <= i < y.len() implies canonical_char(#[trigger] y[i], radix) by {
            assert(y[i] == d[i + 1]);
        }
        lemma_strip_zeros(y, radix);
        lemma_leading_zero(y, radix);
        assert(d =~= seq!['0'] + y);
    }
}

proof fn lemma_positive_lead(p: Seq<char>, radix: nat)
    requires
        2 <= radix <= 36,
        p.len() > 0,
        p[0] != '0',
        all_canonical(p, radix),
    ensures
        digits_value(p, radix) >= 1,
    decreases p.len(),
{
    let q = p.drop_last();
    let c = p.last();
    assert(canonical_char(c, radix));
    lemma_digit_char(digit_value(c));
    if q.len() == 0 {
        assert(c == p[0]);
        assert(digit_value(c) != 0);
        assert(digits_value(q, radix) == 0);
    } else {
        assert(q[0] == p[0]);
        assert forall|i: int| 0 <= i < q.len() implies canonical_char(#[trigger] q[i], radix) by {
            assert(q[i] == p[i]);
        }
        lemma_positive_lead(q, radix);
        let v = digits_value(q, radix);
        assert(v * radix >= v) by (nonlinear_arith)
            requires
                v >= 1,
                radix >= 2,
        ;
    }
}

/// A canonical digit string is what `radix_string` writes for its value.
proof fn lemma_canonical_digits(c: Seq<char>, radix: nat)
    requires
        2 <= radix <= 36,
        c.len() > 0,
        all_canonical(c, radix),
        c.len() == 1 || c[0] != '0',
    ensures
        radix_string(digits_value(c, radix), radix) == c,
    decreases c.len(),
{
    let p = c.drop_last();
    let x = c.last();
    assert(canonical_char(x, radix));
    lemma_digit_char(digit_value(x));
    assert(c =~= p.push(x));
    lemma_value_push(p, x, radix);
    if p.len() == 0 {
        assert(digits_value(p, radix) == 0);
        assert(0 * radix == 0);
        assert(digits_value(c, radix) == digit_value(x));
        assert(c =~= seq![x]);
    } else {
        assert(p[0] == c[0]);
        assert forall|i: int| 0 <= i < p.len() implies canonical_char(#[trigger] p[i], radix) by {
            assert(p[i] == c[i]);
        }
        lemma_canonical_digits(p, radix);
        lemma_positive_lead(p, radix);
        let vp = digits_value(p, radix);
        let dx = digit_value(x);
        let v = digits_value(c, radix);
        assert(v == vp * radix + dx);
        assert(v >= radix) by (nonlinear_arith)
            requires
                v == vp * radix + dx,
                vp >= 1,
        ;
        vstd::arithmetic::div_mod::lemma_fundamental_div_mod_converse(v as int, radix as int, vp as int, dx as int);
        assert(v / radix == vp);
        assert(v % radix == dx);
        assert(radix_string(v, radix) == radix_string(vp, radix).push(digit_char(dx)));
        assert(c =~= p.push(x));
    }
}

proof fn lemma_digits_canonical(t: Seq<char>, radix: nat)
    requires
        2 <= radix <= 36,
        digits_ok(t, radix),
    ensures
        radix_string(digits_value(t, radix), radix) == strip_zeros(plain_digits(t)),
{
    lemma_plain_digits(t, radix);
    let d = plain_digits(t);
    lemma_strip_zeros(d, radix);
    lemma_canonical_digits(strip_zeros(d), radix);
}

/// Reading a decimal or `0x` hexadecimal number string and writing the value
/// back in the same radix gives the string's canonical spelling: sign and
/// separators gone, letters lowered, leading zeros dropped, `0x` kept.
pub proof fn lemma_canonical_round_trip(s: Seq<char>)
    requires
        is_number_string(s),
    ensures
        has_hex_prefix(s) ==> "0x"@ + radix_string(number_string_value(s), 16) == canonical_number(s),
        !has_hex_prefix(s) ==> radix_string(number_string_value(s), 10) == canonical_number(s),
{
    lemma_digits_canonical(unsigned_body(prefixed_digits(s)), prefixed_radix(s));
}


/// 256 raised to `n`: the number of values that `n` bytes hold.
pub open spec fn byte_power(n: nat) -> nat
    decreases n,
{
    if n == 0 {
        1
    } else {
        256 * byte_power((n - 1) as nat)
    }
}

/// The number that little-endian bytes stand for.
pub open spec fn le_bytes_value(b: Seq<u8>) -> nat
    decreases b.len(),
{
    if b.len() == 0 {
        0
    } else {
        b[0] as nat + 256 * le_bytes_value(b.drop_first())
    }
}

/// The number that big-endian bytes stand for.
pub open spec fn be_bytes_value(b: Seq<u8>) -> nat
    decreases b.len(),
{
    if b.len() == 0 {
        0
    } else {
        be_bytes_value(b.drop_last()) * 256 + b.last() as nat
    }
}

/// Relies on `BigUint::to_bytes_le`: the shortest little-endian bytes, `[0]` for zero.
#[verifier::external_body]
fn big_to_bytes_le(a: &Vec<u32>) -> (r: Vec<u8>)
    ensures
        le_bytes_value(r@) == limbs_value(a@),
        r@.len() >= 1,
        r@.len() == 1 || r@.last() != 0,
{
    BigUint::new(a.clone()).to_bytes_le()
}

/// Relies on `BigUint::to_bytes_be`: the shortest big-endian bytes, `[0]` for zero.
#[verifier::external_body]
fn big_to_bytes_be(a: &Vec<u32>) -> (r: Vec<u8>)
    ensures
        be_bytes_value(r@) == limbs_value(a@),
        r@.len() >= 1,
        r@.len() == 1 || r@[0] != 0,
{
    BigUint::new(a.clone()).to_bytes_be()
}

/// Relies on `BigUint::from_bytes_le`: the number of little-endian bytes.
#[verifier::external_body]
fn big_from_bytes_le(b: &[u8]) -> (r: Vec<u32>)
    ensures
        limbs_value(r@) == le_bytes_value(b@),
{
    BigUint::from_bytes_le(b).to_u32_digits()
}

/// Relies on `BigUint::from_bytes_be`: the number of big-endian bytes.
#[verifier::external_body]
fn big_from_bytes_be(b: &[u8]) -> (r: Vec<u32>)
    ensures
        limbs_value(r@) == be_bytes_value(b@),
{
    BigUint::from_bytes_be(b).to_u32_digits()
}

proof fn lemma_byte_power_grows(n: nat, m: nat)
    requires
        n <= m,
    ensures
        byte_power(n) <= byte_power(m),
    decreases m - n,
{
    if n < m {
        lemma_byte_power_grows(n, (m - 1) as nat);
    }
}

proof fn lemma_le_zero_tail(b: Seq<u8>, k: nat)
    ensures
        le_bytes_value(b + Seq::new(k, |i: int| 0u8)) == le_bytes_value(b),
    decreases b.len() + k,
{
    let z = Seq::new(k, |i: int| 0u8);
    if b.len() == 0 {
        assert(b + z =~= z);
        if k > 0 {
            lemma_le_zero_tail(b, (k - 1) as nat);
            assert(z.drop_first() =~= Seq::new((k - 1) as nat, |i: int| 0u8));
            assert(b + Seq::new((k - 1) as nat, |i: int| 0u8) =~= Seq::new((k - 1) as nat, |i: int| 0u8));
        }
    } else {
        lemma_le_zero_tail(b.drop_first(), k);
        assert((b + z).drop_first() =~= b.drop_first() + z);
    }
}

proof fn lemma_be_zero_head(b: Seq<u8>, k: nat)
    ensures
        be_bytes_value(Seq::new(k, |i: int| 0u8) + b) == be_bytes_value(b),
    decreases b.len() + k,
{
    let z = Seq::new(k, |i: int| 0u8);
    if b.len() == 0 {
        assert(z + b =~= z);
        if k > 0 {
            lemma_be_zero_head(b, (k - 1) as nat);
            assert(z.drop_last() =~= Seq::new((k - 1) as nat, |i: int| 0u8));
            assert(Seq::new((k - 1) as nat, |i: int| 0u8) + b =~= Seq::new((k - 1) as nat, |i: int| 0u8));
        }
    } else {
        lemma_be_zero_head(b.drop_last(), k);
        assert((z + b).drop_last() =~= z + b.drop_last());
    }
}

proof fn lemma_le_lower_bound(b: Seq<u8>)
    requires
        b.len() >= 1,
        b.last() != 0,
    ensures
        le_bytes_value(b) >= byte_power((b.len() - 1) as nat),
    decreases b.len(),
{
    if b.len() > 1 {
        let t = b.drop_first();
        assert(t.last() == b.last());
        lemma_le_lower_bound(t);
    }
}

proof fn lemma_be_lower_bound(b: Seq<u8>)
    requires
        b.len() >= 1,
        b[0] != 0,
    ensures
        be_bytes_value(b) >= byte_power((b.len() - 1) as nat),
    decreases b.len(),
{
    if b.len() > 1 {
        let t = b.drop_last();
        assert(t[0] == b[0]);
        lemma_be_lower_bound(t);
    } else {
        assert(b.drop_last().len() == 0);
        assert(b.last() == b[0]);
    }
}

proof fn lemma_all_ones(n: nat)
    ensures
        be_bytes_value(Seq::new(n, |i: int| 0xffu8)) == byte_power(n) - 1,
    decreases n,
{
    if n > 0 {
        lemma_all_ones((n - 1) as nat);
        assert(Seq::new(n, |i: int| 0xffu8).drop_last() =~= Seq::new((n - 1) as nat, |i: int| 0xffu8));
    }
}

impl Uint256 {
    /// The largest value of 256 bits.
    pub fn max() -> (r: Uint256)
        ensures
            r@ == byte_power(32) - 1,
    {
        let ones = [0xffu8; 32];
        proof {
            lemma_all_ones(32);
            assert(ones@ =~= Seq::new(32, |i: int| 0xffu8));
        }
        Uint256 { limbs: big_from_bytes_be(ones.as_slice()) }
    }

    pub fn from_be_bytes(bytes: &[u8; 32]) -> (r: Uint256)
        ensures
            r@ == be_bytes_value(bytes@),
    {
        Uint256 { limbs: big_from_bytes_be(bytes.as_slice()) }
    }

    pub fn from_le_bytes(bytes: &[u8; 32]) -> (r: Uint256)
        ensures
            r@ == le_bytes_value(bytes@),
    {
        Uint256 { limbs: big_from_bytes_le(bytes.as_slice()) }
    }

    /// The 32 big-endian bytes of a value that fits in 256 bits.
    pub fn to_be_bytes(&self) -> (r: [u8; 32])
        requires
            self@ < byte_power(32),
        ensures
            be_bytes_value(r@) == self@,
    {
        let bytes = big_to_bytes_be(&self.limbs);
        let n = bytes.len();
        proof {
            if n > 32 {
                lemma_be_lower_bound(bytes@);
                lemma_byte_power_grows(32, (n - 1) as nat);
            }
        }
        let pad = 32 - n;
        let mut result = [0u8; 32];
        let mut i: usize = 0;
        while i < n
            invariant
                n == bytes@.len(),
                n <= 32,
                pad == 32 - n,
                i <= n,
                result@.len() == 32,
                forall|j: int| 0 <= j < pad ==> result@[j] == 0,
                forall|j: int| 0 <= j < i ==> result@[pad + j] == bytes@[j],
            decreases n - i,
        {
            result.set(pad + i, bytes[i]);
            i = i + 1;
        }
        proof {
            assert(result@ =~= Seq::new(pad as nat, |i: int| 0u8) + bytes@);
            lemma_be_zero_head(bytes@, pad as nat);
        }
        result
    }

    /// The 32 little-endian bytes of a value that fits in 256 bits.
    pub fn to_le_bytes(&self) -> (r: [u8; 32])
        requires
            self@ < byte_power(32),
        ensures
            le_bytes_value(r@) == self@,
    {
        let bytes = big_to_bytes_le(&self.limbs);
        let n = bytes.len();
        proof {
            if n > 32 {
                lemma_le_lower_bound(bytes@);
                lemma_byte_power_grows(32, (n - 1) as nat);
            }
        }
        let mut result = [0u8; 32];
        let mut i: usize = 0;
        while i < n
            invariant
                n == bytes@.len(),
                n <= 32,
                i <= n,
                result@.len() == 32,
                forall|j: int| n <= j < 32 ==> result@[j] == 0,
                forall|j: int| 0 <= j < i ==> result@[j] == bytes@[j],
            decreases n - i,
        {
            result.set(i, bytes[i]);
            i = i + 1;
        }
        proof {
            assert(result@ =~= bytes@ + Seq::new((32 - n) as nat, |i: int| 0u8));
            lemma_le_zero_tail(bytes@, (32 - n) as nat);
        }
        result
    }
}


/// Relies on `ToPrimitive::to_u64` for `BigUint`: the value when it fits.
#[verifier::external_body]
fn big_to_u64(a: &Vec<u32>) -> (r: Option<u64>)
    ensures
        r is Some <==> limbs_value(a@) <= u64::MAX,
        r matches Some(v) ==> v == limbs_value(a@),
{
    num_traits::ToPrimitive::to_u64(&BigUint::new(a.clone()))
}

/// Relies on `ToPrimitive::to_u128` for `BigUint`: the value when it fits.
#[verifier::external_body]
fn big_to_u128(a: &Vec<u32>) -> (r: Option<u128>)
    ensures
        r is Some <==> limbs_value(a@) <= u128::MAX,
        r matches Some(v) ==> v == limbs_value(a@),
{
    num_traits::ToPrimitive::to_u128(&BigUint::new(a.clone()))
}

/// Relies on `BigUint`'s `<=`: the order of the values.
#[verifier::external_body]
fn big_le(a: &Vec<u32>, b: &Vec<u32>) -> (r: bool)
    ensures
        r == (limbs_value(a@) <= limbs_value(b@)),
{
    BigUint::new(a.clone()) <= BigUint::new(b.clone())
}

impl Uint256 {
    pub fn from_u128(n: u128) -> (r: Uint256)
        ensures
            r@ == n,
    {
        let l0 = (n % 0x1_0000_0000) as u32;
        let n1 = n / 0x1_0000_0000;
        let l1 = (n1 % 0x1_0000_0000) as u32;
        let n2 = n1 / 0x1_0000_0000;
        let l2 = (n2 % 0x1_0000_0000) as u32;
        let l3 = (n2 / 0x1_0000_0000) as u32;
        let r = Uint256 { limbs: vec![l0, l1, l2, l3] };
        proof {
            let s = r.limbs@;
            assert(s.drop_first() =~= seq![l1, l2, l3]);
            assert(seq![l1, l2, l3].drop_first() =~= seq![l2, l3]);
            assert(seq![l2, l3].drop_first() =~= seq![l3]);
            assert(limbs_value(seq![l3].drop_first()) == 0);
            assert(limbs_value(seq![l3]) == l3);
            assert(limbs_value(seq![l2, l3]) == l2 + 0x1_0000_0000 * l3);
            assert(limbs_value(seq![l1, l2, l3]) == l1 + 0x1_0000_0000 * (l2 + 0x1_0000_0000 * l3));
        }
        r
    }

    /// The value of a non-negative integer; `None` for a negative one.
    pub fn from_i64(n: i64) -> (r: Option<Uint256>)
        ensures
            r is Some <==> n >= 0,
            r matches Some(v) ==> v@ == n,
    {
        if n < 0 {
            None
        } else {
            Some(Uint256::from_u64(n as u64))
        }
    }

    pub fn to_u64(&self) -> (r: Option<u64>)
        ensures
            r is Some <==> self@ <= u64::MAX,
            r matches Some(v) ==> v == self@,
    {
        big_to_u64(&self.limbs)
    }

    pub fn to_u128(&self) -> (r: Option<u128>)
        ensures
            r is Some <==> self@ <= u128::MAX,
            r matches Some(v) ==> v == self@,
    {
        big_to_u128(&self.limbs)
    }

    pub fn le(&self, other: &Uint256) -> (r: bool)
        ensures
            r == (self@ <= other@),
    {
        big_le(&self.limbs, &other.limbs)
    }

    /// The value of a non-negative integer; `None` for a negative one.
    pub fn from_i128(n: i128) -> (r: Option<Uint256>)
        ensures
            r is Some <==> n >= 0,
            r matches Some(v) ==> v@ == n,
    {
        if n < 0 {
            None
        } else {
            Some(Uint256::from_u128(n as u128))
        }
    }

    pub fn to_i64(&self) -> (r: Option<i64>)
        ensures
            r is Some <==> self@ <= i64::MAX,
            r matches Some(v) ==> v == self@,
    {
        match self.to_u64() {
            Some(v) => {
                if v <= i64::MAX as u64 {
                    Some(v as i64)
                } else {
                    None
                }
            },
            None => None,
        }
    }

    pub fn to_i128(&self) -> (r: Option<i128>)
        ensures
            r is Some <==> self@ <= i128::MAX,
            r matches Some(v) ==> v == self@,
    {
        match self.to_u128() {
            Some(v) => {
                if v <= i128::MAX as u128 {
                    Some(v as i128)
                } else {
                    None
                }
            },
            None => None,
        }
    }

    pub fn add_assign(&mut self, other: &Uint256)
        ensures
            final(self)@ == old(self)@ + other@,
    {
        *self = self.add(other);
    }

    /// In-place subtraction; a larger subtrahend is a caller error and is excluded.
    pub fn sub_assign(&mut self, other: &Uint256)
        requires
            other@ <= old(self)@,
        ensures
            final(self)@ == old(self)@ - other@,
    {
        *self = self.sub(other);
    }

    pub fn mul_assign(&mut self, other: &Uint256)
        ensures
            final(self)@ == old(self)@ * other@,
    {
        *self = self.mul(other);
    }

    /// In-place truncating division; a zero divisor is a caller error and is excluded.
    pub fn div_assign(&mut self, other: &Uint256)
        requires
            other@ != 0,
        ensures
            final(self)@ == old(self)@ / other@,
    {
        *self = self.div(other);
    }

    /// `self - other`, or `None` when `other` is larger.
    pub fn checked_sub(&self, other: &Uint256) -> (r: Option<Uint256>)
        ensures
            r is Some <==> other@ <= self@,
            r matches Some(v) ==> v@ == self@ - other@,
    {
        if other.le(self) {
            Some(self.sub(other))
        } else {
            None
        }
    }
}

} // verus!
