//! Text forms of field elements: hex and decimal digits.

use vstd::prelude::*;
use vstd::string::StringSliceAdditionalSpecFns;
use crate::field::{be_value, prime, prime_bytes, pow256, FieldElement};
use starknet_types_core::felt::Felt;

verus! {

/// Whether `c` is a hex digit, in either case.
pub open spec fn is_hex_digit(c: char) -> bool {
    ('0' <= c && c <= '9') || ('a' <= c && c <= 'f') || ('A' <= c && c <= 'F')
}

/// Value of a hex digit.
pub open spec fn hex_digit_value(c: char) -> nat {
    if '0' <= c && c <= '9' {
        (c as nat - '0' as nat) as nat
    } else if 'a' <= c && c <= 'f' {
        (c as nat - 'a' as nat + 10) as nat
    } else {
        (c as nat - 'A' as nat + 10) as nat
    }
}

/// Whether `s` is an even number of hex digits.
pub open spec fn is_hex(s: Seq<char>) -> bool {
    s.len() % 2 == 0 && forall|i: int| 0 <= i < s.len() ==> is_hex_digit(#[trigger] s[i])
}

/// The bytes that a string of hex digits spells, two digits to a byte.
pub open spec fn hex_bytes(s: Seq<char>) -> Seq<u8> {
    Seq::new(
        s.len() / 2,
        |i: int| (hex_digit_value(s[2 * i]) * 16 + hex_digit_value(s[2 * i + 1])) as u8,
    )
}

/// Lowercase hex digit of a value below 16.
pub open spec fn lower_hex_digit(n: nat) -> char {
    if n < 10 {
        (('0' as nat) + n) as char
    } else {
        (('a' as nat) + n - 10) as char
    }
}

/// Two lowercase hex digits for each byte.
pub open spec fn lower_hex(b: Seq<u8>) -> Seq<char>
    decreases b.len(),
{
    if b.len() == 0 {
        Seq::empty()
    } else {
        seq![lower_hex_digit(b[0] as nat / 16), lower_hex_digit(b[0] as nat % 16)] + lower_hex(
            b.subrange(1, b.len() as int),
        )
    }
}

/// Decimal digits of `n`, without leading zeros (`0` is written as one digit).
pub open spec fn decimal(n: nat) -> Seq<char>
    decreases n,
{
    if n < 10 {
        seq![(('0' as nat) + n) as char]
    } else {
        decimal(n / 10).push((('0' as nat) + n % 10) as char)
    }
}

/// Whether the bytes `b` are a non-empty string of ASCII decimal digits.
pub open spec fn is_decimal(b: Seq<u8>) -> bool {
    b.len() > 0 && all_digits(b)
}

/// Whether every byte of `b` is an ASCII decimal digit.
pub open spec fn all_digits(b: Seq<u8>) -> bool {
    forall|i: int| 0 <= i < b.len() ==> 0x30 <= #[trigger] b[i] && b[i] <= 0x39
}

/// `10` to the power `n`.
pub open spec fn pow10(n: nat) -> nat
    decreases n,
{
    if n == 0 {
        1
    } else {
        10 * pow10((n - 1) as nat)
    }
}

/// Value of a string of ASCII decimal digits, most significant first.
pub open spec fn decimal_value(b: Seq<u8>) -> nat
    decreases b.len(),
{
    if b.len() == 0 {
        0
    } else {
        (b[0] as int - 0x30) as nat * pow10((b.len() - 1) as nat) + decimal_value(
            b.subrange(1, b.len() as int),
        )
    }
}

/// The field prime in decimal digits.
pub open spec fn prime_decimal() -> Seq<u8> {
    seq![
        0x33u8, 0x36, 0x31, 0x38, 0x35, 0x30, 0x32, 0x37,
        0x38, 0x38, 0x36, 0x36, 0x36, 0x31, 0x33, 0x31,
        0x32, 0x31, 0x33, 0x36, 0x39, 0x37, 0x33, 0x32,
        0x32, 0x37, 0x38, 0x33, 0x30, 0x39, 0x35, 0x30,
        0x37, 0x30, 0x31, 0x30, 0x35, 0x36, 0x32, 0x33,
        0x31, 0x30, 0x37, 0x32, 0x31, 0x35, 0x33, 0x33,
        0x31, 0x35, 0x39, 0x36, 0x36, 0x39, 0x39, 0x39,
        0x37, 0x33, 0x30, 0x39, 0x32, 0x30, 0x35, 0x36,
        0x31, 0x33, 0x35, 0x38, 0x37, 0x32, 0x30, 0x32,
        0x30, 0x34, 0x38, 0x31,
    ]
}

/// `n` ASCII zeros followed by `b`.
pub open spec fn zero_digits_then(b: Seq<u8>, n: nat) -> Seq<u8> {
    Seq::new(n, |i: int| 0x30u8) + b
}

/// A decimal string of `n` digits stands for less than `10^n`.
pub proof fn lemma_decimal_bound(b: Seq<u8>)
    requires
        all_digits(b),
    ensures
        decimal_value(b) < pow10(b.len()),
    decreases b.len(),
{
    if b.len() > 0 {
        let rest = b.subrange(1, b.len() as int);
        assert(all_digits(rest)) by {
            assert forall|i: int| 0 <= i < rest.len() implies 0x30 <= #[trigger] rest[i] && rest[i]
                <= 0x39 by {
                assert(rest[i] == b[i + 1]);
            }
        }
        lemma_decimal_bound(rest);
        let a = (b[0] as int - 0x30) as nat;
        let p = pow10((b.len() - 1) as nat);
        let c = decimal_value(rest);
        assert(a * p + c < 10 * p) by (nonlinear_arith)
            requires
                a <= 9,
                c < p,
        ;
    }
}

/// Equal-length decimal strings compare, by value, as their first difference.
pub proof fn lemma_decimal_lex(s: Seq<u8>, t: Seq<u8>, i: int)
    requires
        s.len() == t.len(),
        all_digits(s),
        all_digits(t),
        0 <= i < s.len(),
        s.subrange(0, i) == t.subrange(0, i),
        s[i] < t[i],
    ensures
        decimal_value(s) < decimal_value(t),
    decreases i,
{
    let n = (s.len() - 1) as nat;
    let rs = s.subrange(1, s.len() as int);
    let rt = t.subrange(1, t.len() as int);
    assert(all_digits(rs)) by {
        assert forall|j: int| 0 <= j < rs.len() implies 0x30 <= #[trigger] rs[j] && rs[j] <= 0x39 by {
            assert(rs[j] == s[j + 1]);
        }
    }
    assert(all_digits(rt)) by {
        assert forall|j: int| 0 <= j < rt.len() implies 0x30 <= #[trigger] rt[j] && rt[j] <= 0x39 by {
            assert(rt[j] == t[j + 1]);
        }
    }
    if i == 0 {
        lemma_decimal_bound(rs);
        let a = (s[0] as int - 0x30) as nat;
        let c = (t[0] as int - 0x30) as nat;
        let p = pow10(n);
        let b = decimal_value(rs);
        let d = decimal_value(rt);
        assert(a * p + b < c * p + d) by (nonlinear_arith)
            requires
                a < c,
                b < p,
        ;
    } else {
        assert(s[0] == s.subrange(0, i)[0]);
        assert(t[0] == t.subrange(0, i)[0]);
        assert(rs.subrange(0, i - 1) =~= s.subrange(1, i));
        assert(rt.subrange(0, i - 1) =~= t.subrange(1, i));
        assert(s.subrange(1, i) =~= s.subrange(0, i).subrange(1, i));
        assert(t.subrange(1, i) =~= t.subrange(0, i).subrange(1, i));
        lemma_decimal_lex(rs, rt, i - 1);
    }
}

/// Leading zero digits do not change the value.
pub proof fn lemma_decimal_padded(b: Seq<u8>, n: nat)
    ensures
        decimal_value(zero_digits_then(b, n)) == decimal_value(b),
    decreases n,
{
    let z = zero_digits_then(b, n);
    if n > 0 {
        assert(z.subrange(1, z.len() as int) =~= zero_digits_then(b, (n - 1) as nat));
        lemma_decimal_padded(b, (n - 1) as nat);
        assert(z[0] == 0x30u8);
        assert(0nat * pow10((z.len() - 1) as nat) == 0);
        assert(decimal_value(z) == (z[0] as int - 0x30) as nat * pow10((z.len() - 1) as nat)
            + decimal_value(z.subrange(1, z.len() as int)));
    } else {
        assert(z =~= b);
    }
}

/// The decimal digits of the prime stand for the prime.
#[verifier::rlimit(100)]
pub proof fn lemma_prime_decimal()
    ensures
        decimal_value(prime_decimal()) == prime(),
        all_digits(prime_decimal()),
{
    lemma_prime_value();
    reveal_with_fuel(pow10, 2);
    assert(pow10(1) == 10) by { assert(pow10(1) == 10 * pow10(0)); }
    assert(pow10(2) == 100) by { assert(pow10(2) == 10 * pow10(1)); }
    assert(pow10(3) == 1000) by { assert(pow10(3) == 10 * pow10(2)); }
    assert(pow10(4) == 10000) by { assert(pow10(4) == 10 * pow10(3)); }
    assert(pow10(5) == 100000) by { assert(pow10(5) == 10 * pow10(4)); }
    assert(pow10(6) == 1000000) by { assert(pow10(6) == 10 * pow10(5)); }
    assert(pow10(7) == 10000000) by { assert(pow10(7) == 10 * pow10(6)); }
    assert(pow10(8) == 100000000) by { assert(pow10(8) == 10 * pow10(7)); }
    assert(pow10(9) == 1000000000) by { assert(pow10(9) == 10 * pow10(8)); }
    assert(pow10(10) == 10000000000) by { assert(pow10(10) == 10 * pow10(9)); }
    assert(pow10(11) == 100000000000) by { assert(pow10(11) == 10 * pow10(10)); }
    assert(pow10(12) == 1000000000000) by { assert(pow10(12) == 10 * pow10(11)); }
    assert(pow10(13) == 10000000000000) by { assert(pow10(13) == 10 * pow10(12)); }
    assert(pow10(14) == 100000000000000) by { assert(pow10(14) == 10 * pow10(13)); }
    assert(pow10(15) == 1000000000000000) by { assert(pow10(15) == 10 * pow10(14)); }
    assert(pow10(16) == 10000000000000000) by { assert(pow10(16) == 10 * pow10(15)); }
    assert(pow10(17) == 100000000000000000) by { assert(pow10(17) == 10 * pow10(16)); }
    assert(pow10(18) == 1000000000000000000) by { assert(pow10(18) == 10 * pow10(17)); }
    assert(pow10(19) == 10000000000000000000) by { assert(pow10(19) == 10 * pow10(18)); }
    assert(pow10(20) == 100000000000000000000) by { assert(pow10(20) == 10 * pow10(19)); }
    assert(pow10(21) == 1000000000000000000000) by { assert(pow10(21) == 10 * pow10(20)); }
    assert(pow10(22) == 10000000000000000000000) by { assert(pow10(22) == 10 * pow10(21)); }
    assert(pow10(23) == 100000000000000000000000) by { assert(pow10(23) == 10 * pow10(22)); }
    assert(pow10(24) == 1000000000000000000000000) by { assert(pow10(24) == 10 * pow10(23)); }
    assert(pow10(25) == 10000000000000000000000000) by { assert(pow10(25) == 10 * pow10(24)); }
    assert(pow10(26) == 100000000000000000000000000) by { assert(pow10(26) == 10 * pow10(25)); }
    assert(pow10(27) == 1000000000000000000000000000) by { assert(pow10(27) == 10 * pow10(26)); }
    assert(pow10(28) == 10000000000000000000000000000) by { assert(pow10(28) == 10 * pow10(27)); }
    assert(pow10(29) == 100000000000000000000000000000) by { assert(pow10(29) == 10 * pow10(28)); }
    assert(pow10(30) == 1000000000000000000000000000000) by { assert(pow10(30) == 10 * pow10(29)); }
    assert(pow10(31) == 10000000000000000000000000000000) by { assert(pow10(31) == 10 * pow10(30)); }
    assert(pow10(32) == 100000000000000000000000000000000) by { assert(pow10(32) == 10 * pow10(31)); }
    assert(pow10(33) == 1000000000000000000000000000000000) by { assert(pow10(33) == 10 * pow10(32)); }
    assert(pow10(34) == 10000000000000000000000000000000000) by { assert(pow10(34) == 10 * pow10(33)); }
    assert(pow10(35) == 100000000000000000000000000000000000) by { assert(pow10(35) == 10 * pow10(34)); }
    assert(pow10(36) == 1000000000000000000000000000000000000) by { assert(pow10(36) == 10 * pow10(35)); }
    assert(pow10(37) == 10000000000000000000000000000000000000) by { assert(pow10(37) == 10 * pow10(36)); }
    assert(pow10(38) == 100000000000000000000000000000000000000) by { assert(pow10(38) == 10 * pow10(37)); }
    assert(pow10(39) == 1000000000000000000000000000000000000000) by { assert(pow10(39) == 10 * pow10(38)); }
    assert(pow10(40) == 10000000000000000000000000000000000000000) by { assert(pow10(40) == 10 * pow10(39)); }
    assert(pow10(41) == 100000000000000000000000000000000000000000) by { assert(pow10(41) == 10 * pow10(40)); }
    assert(pow10(42) == 1000000000000000000000000000000000000000000) by { assert(pow10(42) == 10 * pow10(41)); }
    assert(pow10(43) == 10000000000000000000000000000000000000000000) by { assert(pow10(43) == 10 * pow10(42)); }
    assert(pow10(44) == 100000000000000000000000000000000000000000000) by { assert(pow10(44) == 10 * pow10(43)); }
    assert(pow10(45) == 1000000000000000000000000000000000000000000000) by { assert(pow10(45) == 10 * pow10(44)); }
    assert(pow10(46) == 10000000000000000000000000000000000000000000000) by { assert(pow10(46) == 10 * pow10(45)); }
    assert(pow10(47) == 100000000000000000000000000000000000000000000000) by { assert(pow10(47) == 10 * pow10(46)); }
    assert(pow10(48) == 1000000000000000000000000000000000000000000000000) by { assert(pow10(48) == 10 * pow10(47)); }
    assert(pow10(49) == 10000000000000000000000000000000000000000000000000) by { assert(pow10(49) == 10 * pow10(48)); }
    assert(pow10(50) == 100000000000000000000000000000000000000000000000000) by { assert(pow10(50) == 10 * pow10(49)); }
    assert(pow10(51) == 1000000000000000000000000000000000000000000000000000) by { assert(pow10(51) == 10 * pow10(50)); }
    assert(pow10(52) == 10000000000000000000000000000000000000000000000000000) by { assert(pow10(52) == 10 * pow10(51)); }
    assert(pow10(53) == 100000000000000000000000000000000000000000000000000000) by { assert(pow10(53) == 10 * pow10(52)); }
    assert(pow10(54) == 1000000000000000000000000000000000000000000000000000000) by { assert(pow10(54) == 10 * pow10(53)); }
    assert(pow10(55) == 10000000000000000000000000000000000000000000000000000000) by { assert(pow10(55) == 10 * pow10(54)); }
    assert(pow10(56) == 100000000000000000000000000000000000000000000000000000000) by { assert(pow10(56) == 10 * pow10(55)); }
    assert(pow10(57) == 1000000000000000000000000000000000000000000000000000000000) by { assert(pow10(57) == 10 * pow10(56)); }
    assert(pow10(58) == 10000000000000000000000000000000000000000000000000000000000) by { assert(pow10(58) == 10 * pow10(57)); }
    assert(pow10(59) == 100000000000000000000000000000000000000000000000000000000000) by { assert(pow10(59) == 10 * pow10(58)); }
    assert(pow10(60) == 1000000000000000000000000000000000000000000000000000000000000) by { assert(pow10(60) == 10 * pow10(59)); }
    assert(pow10(61) == 10000000000000000000000000000000000000000000000000000000000000) by { assert(pow10(61) == 10 * pow10(60)); }
    assert(pow10(62) == 100000000000000000000000000000000000000000000000000000000000000) by { assert(pow10(62) == 10 * pow10(61)); }
    assert(pow10(63) == 1000000000000000000000000000000000000000000000000000000000000000) by { assert(pow10(63) == 10 * pow10(62)); }
    assert(pow10(64) == 10000000000000000000000000000000000000000000000000000000000000000) by { assert(pow10(64) == 10 * pow10(63)); }
    assert(pow10(65) == 100000000000000000000000000000000000000000000000000000000000000000) by { assert(pow10(65) == 10 * pow10(64)); }
    assert(pow10(66) == 1000000000000000000000000000000000000000000000000000000000000000000) by { assert(pow10(66) == 10 * pow10(65)); }
    assert(pow10(67) == 10000000000000000000000000000000000000000000000000000000000000000000) by { assert(pow10(67) == 10 * pow10(66)); }
    assert(pow10(68) == 100000000000000000000000000000000000000000000000000000000000000000000) by { assert(pow10(68) == 10 * pow10(67)); }
    assert(pow10(69) == 1000000000000000000000000000000000000000000000000000000000000000000000) by { assert(pow10(69) == 10 * pow10(68)); }
    assert(pow10(70) == 10000000000000000000000000000000000000000000000000000000000000000000000) by { assert(pow10(70) == 10 * pow10(69)); }
    assert(pow10(71) == 100000000000000000000000000000000000000000000000000000000000000000000000) by { assert(pow10(71) == 10 * pow10(70)); }
    assert(pow10(72) == 1000000000000000000000000000000000000000000000000000000000000000000000000) by { assert(pow10(72) == 10 * pow10(71)); }
    assert(pow10(73) == 10000000000000000000000000000000000000000000000000000000000000000000000000) by { assert(pow10(73) == 10 * pow10(72)); }
    assert(pow10(74) == 100000000000000000000000000000000000000000000000000000000000000000000000000) by { assert(pow10(74) == 10 * pow10(73)); }
    assert(pow10(75) == 1000000000000000000000000000000000000000000000000000000000000000000000000000) by { assert(pow10(75) == 10 * pow10(74)); }
    let d = prime_decimal();
    assert(decimal_value(d.subrange(76, 76)) == 0);
    assert(d.subrange(75, 76).subrange(1, 1) =~= d.subrange(76, 76));
    assert(d.subrange(75, 76)[0] == 49u8);
    assert(pow10(0) == 1);
    assert(decimal_value(d.subrange(75, 76)) == (d.subrange(75, 76)[0] as int - 0x30) as nat
        * pow10(0) + decimal_value(d.subrange(76, 76)));
    assert(decimal_value(d.subrange(75, 76)) == 1);
    assert(d.subrange(74, 76).subrange(1, 2) =~= d.subrange(75, 76));
    assert(d.subrange(74, 76)[0] == 56u8);
    assert(decimal_value(d.subrange(74, 76)) == 81);
    assert(d.subrange(73, 76).subrange(1, 3) =~= d.subrange(74, 76));
    assert(d.subrange(73, 76)[0] == 52u8);
    assert(decimal_value(d.subrange(73, 76)) == 481);
    assert(d.subrange(72, 76).subrange(1, 4) =~= d.subrange(73, 76));
    assert(d.subrange(72, 76)[0] == 48u8);
    assert(decimal_value(d.subrange(72, 76)) == 481);
    assert(d.subrange(71, 76).subrange(1, 5) =~= d.subrange(72, 76));
    assert(d.subrange(71, 76)[0] == 50u8);
    assert(decimal_value(d.subrange(71, 76)) == 20481);
    assert(d.subrange(70, 76).subrange(1, 6) =~= d.subrange(71, 76));
    assert(d.subrange(70, 76)[0] == 48u8);
    assert(decimal_value(d.subrange(70, 76)) == 20481);
    assert(d.subrange(69, 76).subrange(1, 7) =~= d.subrange(70, 76));
    assert(d.subrange(69, 76)[0] == 50u8);
    assert(decimal_value(d.subrange(69, 76)) == 2020481);
    assert(d.subrange(68, 76).subrange(1, 8) =~= d.subrange(69, 76));
    assert(d.subrange(68, 76)[0] == 55u8);
    assert(decimal_value(d.subrange(68, 76)) == 72020481);
    assert(d.subrange(67, 76).subrange(1, 9) =~= d.subrange(68, 76));
    assert(d.subrange(67, 76)[0] == 56u8);
    assert(decimal_value(d.subrange(67, 76)) == 872020481);
    assert(d.subrange(66, 76).subrange(1, 10) =~= d.subrange(67, 76));
    assert(d.subrange(66, 76)[0] == 53u8);
    assert(decimal_value(d.subrange(66, 76)) == 5872020481);
    assert(d.subrange(65, 76).subrange(1, 11) =~= d.subrange(66, 76));
    assert(d.subrange(65, 76)[0] == 51u8);
    assert(decimal_value(d.subrange(65, 76)) == 35872020481);
    assert(d.subrange(64, 76).subrange(1, 12) =~= d.subrange(65, 76));
    assert(d.subrange(64, 76)[0] == 49u8);
    assert(decimal_value(d.subrange(64, 76)) == 135872020481);
    assert(d.subrange(63, 76).subrange(1, 13) =~= d.subrange(64, 76));
    assert(d.subrange(63, 76)[0] == 54u8);
    assert(decimal_value(d.subrange(63, 76)) == 6135872020481);
    assert(d.subrange(62, 76).subrange(1, 14) =~= d.subrange(63, 76));
    assert(d.subrange(62, 76)[0] == 53u8);
    assert(decimal_value(d.subrange(62, 76)) == 56135872020481);
    assert(d.subrange(61, 76).subrange(1, 15) =~= d.subrange(62, 76));
    assert(d.subrange(61, 76)[0] == 48u8);
    assert(decimal_value(d.subrange(61, 76)) == 56135872020481);
    assert(d.subrange(60, 76).subrange(1, 16) =~= d.subrange(61, 76));
    assert(d.subrange(60, 76)[0] == 50u8);
    assert(decimal_value(d.subrange(60, 76)) == 2056135872020481);
    assert(d.subrange(59, 76).subrange(1, 17) =~= d.subrange(60, 76));
    assert(d.subrange(59, 76)[0] == 57u8);
    assert(decimal_value(d.subrange(59, 76)) == 92056135872020481);
    assert(d.subrange(58, 76).subrange(1, 18) =~= d.subrange(59, 76));
    assert(d.subrange(58, 76)[0] == 48u8);
    assert(decimal_value(d.subrange(58, 76)) == 92056135872020481);
    assert(d.subrange(57, 76).subrange(1, 19) =~= d.subrange(58, 76));
    assert(d.subrange(57, 76)[0] == 51u8);
    assert(decimal_value(d.subrange(57, 76)) == 3092056135872020481);
    assert(d.subrange(56, 76).subrange(1, 20) =~= d.subrange(57, 76));
    assert(d.subrange(56, 76)[0] == 55u8);
    assert(decimal_value(d.subrange(56, 76)) == 73092056135872020481);
    assert(d.subrange(55, 76).subrange(1, 21) =~= d.subrange(56, 76));
    assert(d.subrange(55, 76)[0] == 57u8);
    assert(decimal_value(d.subrange(55, 76)) == 973092056135872020481);
    assert(d.subrange(54, 76).subrange(1, 22) =~= d.subrange(55, 76));
    assert(d.subrange(54, 76)[0] == 57u8);
    assert(decimal_value(d.subrange(54, 76)) == 9973092056135872020481);
    assert(d.subrange(53, 76).subrange(1, 23) =~= d.subrange(54, 76));
    assert(d.subrange(53, 76)[0] == 57u8);
    assert(decimal_value(d.subrange(53, 76)) == 99973092056135872020481);
    assert(d.subrange(52, 76).subrange(1, 24) =~= d.subrange(53, 76));
    assert(d.subrange(52, 76)[0] == 54u8);
    assert(decimal_value(d.subrange(52, 76)) == 699973092056135872020481);
    assert(d.subrange(51, 76).subrange(1, 25) =~= d.subrange(52, 76));
    assert(d.subrange(51, 76)[0] == 54u8);
    assert(decimal_value(d.subrange(51, 76)) == 6699973092056135872020481);
    assert(d.subrange(50, 76).subrange(1, 26) =~= d.subrange(51, 76));
    assert(d.subrange(50, 76)[0] == 57u8);
    assert(decimal_value(d.subrange(50, 76)) == 96699973092056135872020481);
    assert(d.subrange(49, 76).subrange(1, 27) =~= d.subrange(50, 76));
    assert(d.subrange(49, 76)[0] == 53u8);
    assert(decimal_value(d.subrange(49, 76)) == 596699973092056135872020481);
    assert(d.subrange(48, 76).subrange(1, 28) =~= d.subrange(49, 76));
    assert(d.subrange(48, 76)[0] == 49u8);
    assert(decimal_value(d.subrange(48, 76)) == 1596699973092056135872020481);
    assert(d.subrange(47, 76).subrange(1, 29) =~= d.subrange(48, 76));
    assert(d.subrange(47, 76)[0] == 51u8);
    assert(decimal_value(d.subrange(47, 76)) == 31596699973092056135872020481);
    assert(d.subrange(46, 76).subrange(1, 30) =~= d.subrange(47, 76));
    assert(d.subrange(46, 76)[0] == 51u8);
    assert(decimal_value(d.subrange(46, 76)) == 331596699973092056135872020481);
    assert(d.subrange(45, 76).subrange(1, 31) =~= d.subrange(46, 76));
    assert(d.subrange(45, 76)[0] == 53u8);
    assert(decimal_value(d.subrange(45, 76)) == 5331596699973092056135872020481);
    assert(d.subrange(44, 76).subrange(1, 32) =~= d.subrange(45, 76));
    assert(d.subrange(44, 76)[0] == 49u8);
    assert(decimal_value(d.subrange(44, 76)) == 15331596699973092056135872020481);
    assert(d.subrange(43, 76).subrange(1, 33) =~= d.subrange(44, 76));
    assert(d.subrange(43, 76)[0] == 50u8);
    assert(decimal_value(d.subrange(43, 76)) == 215331596699973092056135872020481);
    assert(d.subrange(42, 76).subrange(1, 34) =~= d.subrange(43, 76));
    assert(d.subrange(42, 76)[0] == 55u8);
    assert(decimal_value(d.subrange(42, 76)) == 7215331596699973092056135872020481);
    assert(d.subrange(41, 76).subrange(1, 35) =~= d.subrange(42, 76));
    assert(d.subrange(41, 76)[0] == 48u8);
    assert(decimal_value(d.subrange(41, 76)) == 7215331596699973092056135872020481);
    assert(d.subrange(40, 76).subrange(1, 36) =~= d.subrange(41, 76));
    assert(d.subrange(40, 76)[0] == 49u8);
    assert(decimal_value(d.subrange(40, 76)) == 107215331596699973092056135872020481);
    assert(d.subrange(39, 76).subrange(1, 37) =~= d.subrange(40, 76));
    assert(d.subrange(39, 76)[0] == 51u8);
    assert(decimal_value(d.subrange(39, 76)) == 3107215331596699973092056135872020481);
    assert(d.subrange(38, 76).subrange(1, 38) =~= d.subrange(39, 76));
    assert(d.subrange(38, 76)[0] == 50u8);
    assert(decimal_value(d.subrange(38, 76)) == 23107215331596699973092056135872020481);
    assert(d.subrange(37, 76).subrange(1, 39) =~= d.subrange(38, 76));
    assert(d.subrange(37, 76)[0] == 54u8);
    assert(decimal_value(d.subrange(37, 76)) == 623107215331596699973092056135872020481);
    assert(d.subrange(36, 76).subrange(1, 40) =~= d.subrange(37, 76));
    assert(d.subrange(36, 76)[0] == 53u8);
    assert(decimal_value(d.subrange(36, 76)) == 5623107215331596699973092056135872020481);
    assert(d.subrange(35, 76).subrange(1, 41) =~= d.subrange(36, 76));
    assert(d.subrange(35, 76)[0] == 48u8);
    assert(decimal_value(d.subrange(35, 76)) == 5623107215331596699973092056135872020481);
    assert(d.subrange(34, 76).subrange(1, 42) =~= d.subrange(35, 76));
    assert(d.subrange(34, 76)[0] == 49u8);
    assert(decimal_value(d.subrange(34, 76)) == 105623107215331596699973092056135872020481);
    assert(d.subrange(33, 76).subrange(1, 43) =~= d.subrange(34, 76));
    assert(d.subrange(33, 76)[0] == 48u8);
    assert(decimal_value(d.subrange(33, 76)) == 105623107215331596699973092056135872020481);
    assert(d.subrange(32, 76).subrange(1, 44) =~= d.subrange(33, 76));
    assert(d.subrange(32, 76)[0] == 55u8);
    assert(decimal_value(d.subrange(32, 76)) == 70105623107215331596699973092056135872020481);
    assert(d.subrange(31, 76).subrange(1, 45) =~= d.subrange(32, 76));
    assert(d.subrange(31, 76)[0] == 48u8);
    assert(decimal_value(d.subrange(31, 76)) == 70105623107215331596699973092056135872020481);
    assert(d.subrange(30, 76).subrange(1, 46) =~= d.subrange(31, 76));
    assert(d.subrange(30, 76)[0] == 53u8);
    assert(decimal_value(d.subrange(30, 76)) == 5070105623107215331596699973092056135872020481);
    assert(d.subrange(29, 76).subrange(1, 47) =~= d.subrange(30, 76));
    assert(d.subrange(29, 76)[0] == 57u8);
    assert(decimal_value(d.subrange(29, 76)) == 95070105623107215331596699973092056135872020481);
    assert(d.subrange(28, 76).subrange(1, 48) =~= d.subrange(29, 76));
    assert(d.subrange(28, 76)[0] == 48u8);
    assert(decimal_value(d.subrange(28, 76)) == 95070105623107215331596699973092056135872020481);
    assert(d.subrange(27, 76).subrange(1, 49) =~= d.subrange(28, 76));
    assert(d.subrange(27, 76)[0] == 51u8);
    assert(decimal_value(d.subrange(27, 76)) == 3095070105623107215331596699973092056135872020481);
    assert(d.subrange(26, 76).subrange(1, 50) =~= d.subrange(27, 76));
    assert(d.subrange(26, 76)[0] == 56u8);
    assert(decimal_value(d.subrange(26, 76)) == 83095070105623107215331596699973092056135872020481);
    assert(d.subrange(25, 76).subrange(1, 51) =~= d.subrange(26, 76));
    assert(d.subrange(25, 76)[0] == 55u8);
    assert(decimal_value(d.subrange(25, 76)) == 783095070105623107215331596699973092056135872020481);
    assert(d.subrange(24, 76).subrange(1, 52) =~= d.subrange(25, 76));
    assert(d.subrange(24, 76)[0] == 50u8);
    assert(decimal_value(d.subrange(24, 76)) == 2783095070105623107215331596699973092056135872020481);
    assert(d.subrange(23, 76).subrange(1, 53) =~= d.subrange(24, 76));
    assert(d.subrange(23, 76)[0] == 50u8);
    assert(decimal_value(d.subrange(23, 76)) == 22783095070105623107215331596699973092056135872020481);
    assert(d.subrange(22, 76).subrange(1, 54) =~= d.subrange(23, 76));
    assert(d.subrange(22, 76)[0] == 51u8);
    assert(decimal_value(d.subrange(22, 76)) == 322783095070105623107215331596699973092056135872020481);
    assert(d.subrange(21, 76).subrange(1, 55) =~= d.subrange(22, 76));
    assert(d.subrange(21, 76)[0] == 55u8);
    assert(decimal_value(d.subrange(21, 76)) == 7322783095070105623107215331596699973092056135872020481);
    assert(d.subrange(20, 76).subrange(1, 56) =~= d.subrange(21, 76));
    assert(d.subrange(20, 76)[0] == 57u8);
    assert(decimal_value(d.subrange(20, 76)) == 97322783095070105623107215331596699973092056135872020481);
    assert(d.subrange(19, 76).subrange(1, 57) =~= d.subrange(20, 76));
    assert(d.subrange(19, 76)[0] == 54u8);
    assert(decimal_value(d.subrange(19, 76)) == 697322783095070105623107215331596699973092056135872020481);
    assert(d.subrange(18, 76).subrange(1, 58) =~= d.subrange(19, 76));
    assert(d.subrange(18, 76)[0] == 51u8);
    assert(decimal_value(d.subrange(18, 76)) == 3697322783095070105623107215331596699973092056135872020481);
    assert(d.subrange(17, 76).subrange(1, 59) =~= d.subrange(18, 76));
    assert(d.subrange(17, 76)[0] == 49u8);
    assert(decimal_value(d.subrange(17, 76)) == 13697322783095070105623107215331596699973092056135872020481);
    assert(d.subrange(16, 76).subrange(1, 60) =~= d.subrange(17, 76));
    assert(d.subrange(16, 76)[0] == 50u8);
    assert(decimal_value(d.subrange(16, 76)) == 213697322783095070105623107215331596699973092056135872020481);
    assert(d.subrange(15, 76).subrange(1, 61) =~= d.subrange(16, 76));
    assert(d.subrange(15, 76)[0] == 49u8);
    assert(decimal_value(d.subrange(15, 76)) == 1213697322783095070105623107215331596699973092056135872020481);
    assert(d.subrange(14, 76).subrange(1, 62) =~= d.subrange(15, 76));
    assert(d.subrange(14, 76)[0] == 51u8);
    assert(decimal_value(d.subrange(14, 76)) == 31213697322783095070105623107215331596699973092056135872020481);
    assert(d.subrange(13, 76).subrange(1, 63) =~= d.subrange(14, 76));
    assert(d.subrange(13, 76)[0] == 49u8);
    assert(decimal_value(d.subrange(13, 76)) == 131213697322783095070105623107215331596699973092056135872020481);
    assert(d.subrange(12, 76).subrange(1, 64) =~= d.subrange(13, 76));
    assert(d.subrange(12, 76)[0] == 54u8);
    assert(decimal_value(d.subrange(12, 76)) == 6131213697322783095070105623107215331596699973092056135872020481);
    assert(d.subrange(11, 76).subrange(1, 65) =~= d.subrange(12, 76));
    assert(d.subrange(11, 76)[0] == 54u8);
    assert(decimal_value(d.subrange(11, 76)) == 66131213697322783095070105623107215331596699973092056135872020481);
    assert(d.subrange(10, 76).subrange(1, 66) =~= d.subrange(11, 76));
    assert(d.subrange(10, 76)[0] == 54u8);
    assert(decimal_value(d.subrange(10, 76)) == 666131213697322783095070105623107215331596699973092056135872020481);
    assert(d.subrange(9, 76).subrange(1, 67) =~= d.subrange(10, 76));
    assert(d.subrange(9, 76)[0] == 56u8);
    assert(decimal_value(d.subrange(9, 76)) == 8666131213697322783095070105623107215331596699973092056135872020481);
    assert(d.subrange(8, 76).subrange(1, 68) =~= d.subrange(9, 76));
    assert(d.subrange(8, 76)[0] == 56u8);
    assert(decimal_value(d.subrange(8, 76)) == 88666131213697322783095070105623107215331596699973092056135872020481);
    assert(d.subrange(7, 76).subrange(1, 69) =~= d.subrange(8, 76));
    assert(d.subrange(7, 76)[0] == 55u8);
    assert(decimal_value(d.subrange(7, 76)) == 788666131213697322783095070105623107215331596699973092056135872020481);
    assert(d.subrange(6, 76).subrange(1, 70) =~= d.subrange(7, 76));
    assert(d.subrange(6, 76)[0] == 50u8);
    assert(decimal_value(d.subrange(6, 76)) == 2788666131213697322783095070105623107215331596699973092056135872020481);
    assert(d.subrange(5, 76).subrange(1, 71) =~= d.subrange(6, 76));
    assert(d.subrange(5, 76)[0] == 48u8);
    assert(decimal_value(d.subrange(5, 76)) == 2788666131213697322783095070105623107215331596699973092056135872020481);
    assert(d.subrange(4, 76).subrange(1, 72) =~= d.subrange(5, 76));
    assert(d.subrange(4, 76)[0] == 53u8);
    assert(decimal_value(d.subrange(4, 76)) == 502788666131213697322783095070105623107215331596699973092056135872020481);
    assert(d.subrange(3, 76).subrange(1, 73) =~= d.subrange(4, 76));
    assert(d.subrange(3, 76)[0] == 56u8);
    assert(decimal_value(d.subrange(3, 76)) == 8502788666131213697322783095070105623107215331596699973092056135872020481);
    assert(d.subrange(2, 76).subrange(1, 74) =~= d.subrange(3, 76));
    assert(d.subrange(2, 76)[0] == 49u8);
    assert(decimal_value(d.subrange(2, 76)) == 18502788666131213697322783095070105623107215331596699973092056135872020481);
    assert(d.subrange(1, 76).subrange(1, 75) =~= d.subrange(2, 76));
    assert(d.subrange(1, 76)[0] == 54u8);
    assert(decimal_value(d.subrange(1, 76)) == 618502788666131213697322783095070105623107215331596699973092056135872020481);
    assert(d.subrange(0, 76).subrange(1, 76) =~= d.subrange(1, 76));
    assert(d.subrange(0, 76)[0] == 51u8);
    assert(decimal_value(d.subrange(0, 76)) == 3618502788666131213697322783095070105623107215331596699973092056135872020481);
    assert(d.subrange(0, 76) =~= d);
}

/// The value of the prime.
proof fn lemma_prime_value()
    ensures
        prime() == 3618502788666131213697322783095070105623107215331596699973092056135872020481,
{
    reveal_with_fuel(pow256, 2);
    assert(pow256(1) == 256) by { assert(pow256(1) == 256 * pow256(0)); }
    assert(pow256(2) == 65536) by { assert(pow256(2) == 256 * pow256(1)); }
    assert(pow256(3) == 16777216) by { assert(pow256(3) == 256 * pow256(2)); }
    assert(pow256(4) == 4294967296) by { assert(pow256(4) == 256 * pow256(3)); }
    assert(pow256(5) == 1099511627776) by { assert(pow256(5) == 256 * pow256(4)); }
    assert(pow256(6) == 281474976710656) by { assert(pow256(6) == 256 * pow256(5)); }
    assert(pow256(7) == 72057594037927936) by { assert(pow256(7) == 256 * pow256(6)); }
    assert(pow256(8) == 18446744073709551616) by { assert(pow256(8) == 256 * pow256(7)); }
    assert(pow256(9) == 4722366482869645213696) by { assert(pow256(9) == 256 * pow256(8)); }
    assert(pow256(10) == 1208925819614629174706176) by { assert(pow256(10) == 256 * pow256(9)); }
    assert(pow256(11) == 309485009821345068724781056) by { assert(pow256(11) == 256 * pow256(10)); }
    assert(pow256(12) == 79228162514264337593543950336) by { assert(pow256(12) == 256 * pow256(11)); }
    assert(pow256(13) == 20282409603651670423947251286016) by { assert(pow256(13) == 256 * pow256(12)); }
    assert(pow256(14) == 5192296858534827628530496329220096) by { assert(pow256(14) == 256 * pow256(13)); }
    assert(pow256(15) == 1329227995784915872903807060280344576) by { assert(pow256(15) == 256 * pow256(14)); }
    assert(pow256(16) == 340282366920938463463374607431768211456) by { assert(pow256(16) == 256 * pow256(15)); }
    assert(pow256(17) == 87112285931760246646623899502532662132736) by { assert(pow256(17) == 256 * pow256(16)); }
    assert(pow256(18) == 22300745198530623141535718272648361505980416) by { assert(pow256(18) == 256 * pow256(17)); }
    assert(pow256(19) == 5708990770823839524233143877797980545530986496) by { assert(pow256(19) == 256 * pow256(18)); }
    assert(pow256(20) == 1461501637330902918203684832716283019655932542976) by { assert(pow256(20) == 256 * pow256(19)); }
    assert(pow256(21) == 374144419156711147060143317175368453031918731001856) by { assert(pow256(21) == 256 * pow256(20)); }
    assert(pow256(22) == 95780971304118053647396689196894323976171195136475136) by { assert(pow256(22) == 256 * pow256(21)); }
    assert(pow256(23) == 24519928653854221733733552434404946937899825954937634816) by { assert(pow256(23) == 256 * pow256(22)); }
    assert(pow256(24) == 6277101735386680763835789423207666416102355444464034512896) by { assert(pow256(24) == 256 * pow256(23)); }
    assert(pow256(25) == 1606938044258990275541962092341162602522202993782792835301376) by { assert(pow256(25) == 256 * pow256(24)); }
    assert(pow256(26) == 411376139330301510538742295639337626245683966408394965837152256) by { assert(pow256(26) == 256 * pow256(25)); }
    assert(pow256(27) == 105312291668557186697918027683670432318895095400549111254310977536) by { assert(pow256(27) == 256 * pow256(26)); }
    assert(pow256(28) == 26959946667150639794667015087019630673637144422540572481103610249216) by { assert(pow256(28) == 256 * pow256(27)); }
    assert(pow256(29) == 6901746346790563787434755862277025452451108972170386555162524223799296) by { assert(pow256(29) == 256 * pow256(28)); }
    assert(pow256(30) == 1766847064778384329583297500742918515827483896875618958121606201292619776) by { assert(pow256(30) == 256 * pow256(29)); }
    assert(pow256(31) == 452312848583266388373324160190187140051835877600158453279131187530910662656) by { assert(pow256(31) == 256 * pow256(30)); }
    let s = prime_bytes();
    assert(be_value(s.subrange(32, 32)) == 0);
    assert(s.subrange(31, 32).subrange(1, 1) =~= s.subrange(32, 32));
    assert(s.subrange(31, 32)[0] == 1u8);
    assert(be_value(s.subrange(31, 32)) == 1);
    assert(s.subrange(30, 32).subrange(1, 2) =~= s.subrange(31, 32));
    assert(s.subrange(30, 32)[0] == 0u8);
    assert(be_value(s.subrange(30, 32)) == 1);
    assert(s.subrange(29, 32).subrange(1, 3) =~= s.subrange(30, 32));
    assert(s.subrange(29, 32)[0] == 0u8);
    assert(be_value(s.subrange(29, 32)) == 1);
    assert(s.subrange(28, 32).subrange(1, 4) =~= s.subrange(29, 32));
    assert(s.subrange(28, 32)[0] == 0u8);
    assert(be_value(s.subrange(28, 32)) == 1);
    assert(s.subrange(27, 32).subrange(1, 5) =~= s.subrange(28, 32));
    assert(s.subrange(27, 32)[0] == 0u8);
    assert(be_value(s.subrange(27, 32)) == 1);
    assert(s.subrange(26, 32).subrange(1, 6) =~= s.subrange(27, 32));
    assert(s.subrange(26, 32)[0] == 0u8);
    assert(be_value(s.subrange(26, 32)) == 1);
    assert(s.subrange(25, 32).subrange(1, 7) =~= s.subrange(26, 32));
    assert(s.subrange(25, 32)[0] == 0u8);
    assert(be_value(s.subrange(25, 32)) == 1);
    assert(s.subrange(24, 32).subrange(1, 8) =~= s.subrange(25, 32));
    assert(s.subrange(24, 32)[0] == 0u8);
    assert(be_value(s.subrange(24, 32)) == 1);
    assert(s.subrange(23, 32).subrange(1, 9) =~= s.subrange(24, 32));
    assert(s.subrange(23, 32)[0] == 0u8);
    assert(be_value(s.subrange(23, 32)) == 1);
    assert(s.subrange(22, 32).subrange(1, 10) =~= s.subrange(23, 32));
    assert(s.subrange(22, 32)[0] == 0u8);
    assert(be_value(s.subrange(22, 32)) == 1);
    assert(s.subrange(21, 32).subrange(1, 11) =~= s.subrange(22, 32));
    assert(s.subrange(21, 32)[0] == 0u8);
    assert(be_value(s.subrange(21, 32)) == 1);
    assert(s.subrange(20, 32).subrange(1, 12) =~= s.subrange(21, 32));
    assert(s.subrange(20, 32)[0] == 0u8);
    assert(be_value(s.subrange(20, 32)) == 1);
    assert(s.subrange(19, 32).subrange(1, 13) =~= s.subrange(20, 32));
    assert(s.subrange(19, 32)[0] == 0u8);
    assert(be_value(s.subrange(19, 32)) == 1);
    assert(s.subrange(18, 32).subrange(1, 14) =~= s.subrange(19, 32));
    assert(s.subrange(18, 32)[0] == 0u8);
    assert(be_value(s.subrange(18, 32)) == 1);
    assert(s.subrange(17, 32).subrange(1, 15) =~= s.subrange(18, 32));
    assert(s.subrange(17, 32)[0] == 0u8);
    assert(be_value(s.subrange(17, 32)) == 1);
    assert(s.subrange(16, 32).subrange(1, 16) =~= s.subrange(17, 32));
    assert(s.subrange(16, 32)[0] == 0u8);
    assert(be_value(s.subrange(16, 32)) == 1);
    assert(s.subrange(15, 32).subrange(1, 17) =~= s.subrange(16, 32));
    assert(s.subrange(15, 32)[0] == 0u8);
    assert(be_value(s.subrange(15, 32)) == 1);
    assert(s.subrange(14, 32).subrange(1, 18) =~= s.subrange(15, 32));
    assert(s.subrange(14, 32)[0] == 0u8);
    assert(be_value(s.subrange(14, 32)) == 1);
    assert(s.subrange(13, 32).subrange(1, 19) =~= s.subrange(14, 32));
    assert(s.subrange(13, 32)[0] == 0u8);
    assert(be_value(s.subrange(13, 32)) == 1);
    assert(s.subrange(12, 32).subrange(1, 20) =~= s.subrange(13, 32));
    assert(s.subrange(12, 32)[0] == 0u8);
    assert(be_value(s.subrange(12, 32)) == 1);
    assert(s.subrange(11, 32).subrange(1, 21) =~= s.subrange(12, 32));
    assert(s.subrange(11, 32)[0] == 0u8);
    assert(be_value(s.subrange(11, 32)) == 1);
    assert(s.subrange(10, 32).subrange(1, 22) =~= s.subrange(11, 32));
    assert(s.subrange(10, 32)[0] == 0u8);
    assert(be_value(s.subrange(10, 32)) == 1);
    assert(s.subrange(9, 32).subrange(1, 23) =~= s.subrange(10, 32));
    assert(s.subrange(9, 32)[0] == 0u8);
    assert(be_value(s.subrange(9, 32)) == 1);
    assert(s.subrange(8, 32).subrange(1, 24) =~= s.subrange(9, 32));
    assert(s.subrange(8, 32)[0] == 0u8);
    assert(be_value(s.subrange(8, 32)) == 1);
    assert(s.subrange(7, 32).subrange(1, 25) =~= s.subrange(8, 32));
    assert(s.subrange(7, 32)[0] == 17u8);
    assert(be_value(s.subrange(7, 32)) == 106710729501573572985208420194530329073740042555888586719233);
    assert(s.subrange(6, 32).subrange(1, 26) =~= s.subrange(7, 32));
    assert(s.subrange(6, 32)[0] == 0u8);
    assert(be_value(s.subrange(6, 32)) == 106710729501573572985208420194530329073740042555888586719233);
    assert(s.subrange(5, 32).subrange(1, 27) =~= s.subrange(6, 32));
    assert(s.subrange(5, 32)[0] == 0u8);
    assert(be_value(s.subrange(5, 32)) == 106710729501573572985208420194530329073740042555888586719233);
    assert(s.subrange(4, 32).subrange(1, 28) =~= s.subrange(5, 32));
    assert(s.subrange(4, 32)[0] == 0u8);
    assert(be_value(s.subrange(4, 32)) == 106710729501573572985208420194530329073740042555888586719233);
    assert(s.subrange(3, 32).subrange(1, 29) =~= s.subrange(4, 32));
    assert(s.subrange(3, 32)[0] == 0u8);
    assert(be_value(s.subrange(3, 32)) == 106710729501573572985208420194530329073740042555888586719233);
    assert(s.subrange(2, 32).subrange(1, 30) =~= s.subrange(3, 32));
    assert(s.subrange(2, 32)[0] == 0u8);
    assert(be_value(s.subrange(2, 32)) == 106710729501573572985208420194530329073740042555888586719233);
    assert(s.subrange(1, 32).subrange(1, 31) =~= s.subrange(2, 32));
    assert(s.subrange(1, 32)[0] == 0u8);
    assert(be_value(s.subrange(1, 32)) == 106710729501573572985208420194530329073740042555888586719233);
    assert(s.subrange(0, 32).subrange(1, 32) =~= s.subrange(1, 32));
    assert(s.subrange(0, 32)[0] == 8u8);
    assert(be_value(s.subrange(0, 32)) == 3618502788666131213697322783095070105623107215331596699973092056135872020481);
    assert(s.subrange(0, 32) =~= s);
}

/// Whether a string of ASCII decimal digits stands for a value below the prime.
pub fn decimal_below_prime(b: &[u8]) -> (r: bool)
    requires
        all_digits(b@),
    ensures
        r == (decimal_value(b@) < prime()),
{
    let p: [u8; 76] = [
        0x33u8, 0x36, 0x31, 0x38, 0x35, 0x30, 0x32, 0x37,
        0x38, 0x38, 0x36, 0x36, 0x36, 0x31, 0x33, 0x31,
        0x32, 0x31, 0x33, 0x36, 0x39, 0x37, 0x33, 0x32,
        0x32, 0x37, 0x38, 0x33, 0x30, 0x39, 0x35, 0x30,
        0x37, 0x30, 0x31, 0x30, 0x35, 0x36, 0x32, 0x33,
        0x31, 0x30, 0x37, 0x32, 0x31, 0x35, 0x33, 0x33,
        0x31, 0x35, 0x39, 0x36, 0x36, 0x39, 0x39, 0x39,
        0x37, 0x33, 0x30, 0x39, 0x32, 0x30, 0x35, 0x36,
        0x31, 0x33, 0x35, 0x38, 0x37, 0x32, 0x30, 0x32,
        0x30, 0x34, 0x38, 0x31,
    ];
    proof {
        lemma_prime_decimal();
        assert(p@ =~= prime_decimal());
    }
    let n: usize = b.len();
    let len: usize = if n > 76 { n } else { 76 };
    let sb: Ghost<Seq<u8>> = Ghost(zero_digits_then(b@, (len - n) as nat));
    let sp: Ghost<Seq<u8>> = Ghost(zero_digits_then(p@, (len - 76) as nat));
    proof {
        lemma_decimal_padded(b@, (len - n) as nat);
        lemma_decimal_padded(p@, (len - 76) as nat);
        assert(all_digits(sb@));
        assert(all_digits(sp@));
    }
    let mut i: usize = 0;
    while i < len
        invariant
            n == b@.len(),
            len >= n,
            len >= 76,
            p@ == prime_decimal(),
            sb@ == zero_digits_then(b@, (len - n) as nat),
            sp@ == zero_digits_then(p@, (len - 76) as nat),
            sb@.len() == len,
            sp@.len() == len,
            all_digits(sb@),
            all_digits(sp@),
            decimal_value(sb@) == decimal_value(b@),
            decimal_value(sp@) == prime(),
            i <= len,
            sb@.subrange(0, i as int) =~= sp@.subrange(0, i as int),
        decreases len - i,
    {
        let x: u8 = if i < len - n { 0x30u8 } else { b[i - (len - n)] };
        let y: u8 = if i < len - 76 { 0x30u8 } else { p[i - (len - 76)] };
        assert(x == sb@[i as int]);
        assert(y == sp@[i as int]);
        if x != y {
            proof {
                if x < y {
                    lemma_decimal_lex(sb@, sp@, i as int);
                } else {
                    lemma_decimal_lex(sp@, sb@, i as int);
                }
            }
            return x < y;
        }
        i = i + 1;
    }
    assert(sb@ =~= sb@.subrange(0, len as int));
    assert(sp@ =~= sp@.subrange(0, len as int));
    false
}

/// `n` copies of the character `c`.
pub open spec fn repeated(c: char, n: nat) -> Seq<char> {
    Seq::new(n, |i: int| c)
}

/// Relies on `str::strip_prefix`: the rest of `s` after a leading `0x`, if there is one.
#[verifier::external_body]
pub(crate) fn strip_hex_prefix(s: &str) -> (r: Option<&str>)
    ensures
        s@.len() >= 2 && s@[0] == '0' && s@[1] == 'x' ==> r is Some,
        r is Some ==> r->0@ == s@.subrange(2, s@.len() as int),
        r is Some ==> r->0.spec_bytes().len() + 2 == s.spec_bytes().len(),
        !(s@.len() >= 2 && s@[0] == '0' && s@[1] == 'x') ==> r is None,
{
    s.strip_prefix("0x")
}

/// Relies on `leftpad::left_pad_char`: pads `s` on the left with `c` up to
/// `pad` bytes; a string as long or longer is returned as it is.
#[verifier::external_body]
pub(crate) fn left_pad(s: &str, pad: usize, c: char) -> (r: String)
    ensures
        s.spec_bytes().len() < pad ==> r@ == repeated(c, (pad - s.spec_bytes().len()) as nat)
            + s@,
        s.spec_bytes().len() >= pad ==> r@ == s@,
{
    leftpad::left_pad_char(s, pad, c)
}

/// Relies on `hex::decode`: an even number of hex digits, in either case, gives
/// a byte for each two; anything else is an error.
#[verifier::external_body]
pub(crate) fn decode_hex(s: &str) -> (r: Option<Vec<u8>>)
    ensures
        is_hex(s@) == r is Some,
        r is Some ==> r->0@ == hex_bytes(s@),
{
    hex::decode(s).ok()
}

/// Relies on `hex::encode`: two lowercase hex digits for each byte.
#[verifier::external_body]
pub(crate) fn encode_hex(b: &Vec<u8>) -> (r: String)
    ensures
        r@ == lower_hex(b@),
{
    hex::encode(b)
}

/// Relies on `Felt::from_dec_str`: ASCII decimal digits are read as an integer,
/// which below the prime is the field element returned.
#[verifier::external_body]
pub(crate) fn parse_decimal(s: &str) -> (r: Option<FieldElement>)
    requires
        is_decimal(s.spec_bytes()),
        decimal_value(s.spec_bytes()) < prime(),
    ensures
        r is Some,
        r->0.wf(),
        r->0.value() == decimal_value(s.spec_bytes()),
{
    Felt::from_dec_str(s).ok().map(|f| FieldElement { be: f.to_bytes_be().to_vec() })
}

/// Relies on `Display` for `Felt`: the decimal digits of its value.
#[verifier::external_body]
pub(crate) fn to_decimal(e: &FieldElement) -> (r: String)
    requires
        e.wf(),
    ensures
        r@ == decimal(be_value(e@)),
{
    Felt::from_bytes_be_slice(&e.be).to_string()
}

} // verus!
