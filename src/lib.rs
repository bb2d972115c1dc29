//! Pedersen hash of two elements of the STARK field.
//!
//! The core is [`hash::hash`]: it splits each input into a 248-bit low chunk and a
//! 4-bit high chunk, and adds the multiples of four fixed generator points by those
//! chunks to a fixed shift point. The functions here decode inputs (little- or
//! big-endian bytes, hex or decimal text), reject what is not a field element, and
//! write the result as text.

pub mod curve;
pub mod field;
pub mod hash;
pub mod text;

use vstd::prelude::*;
use vstd::string::StringExecFns;
use vstd::string::StringSliceAdditionalSpecFns;
pub use crate::field::{Error, FieldElement};
use crate::field::{
    be_value, lemma_be_value_padded, prime, reversed, zero_padded, FELT_BYTES,
};
use crate::hash::{hash, hash_model};
use crate::text::{
    decimal, decimal_below_prime, decimal_value, decode_hex, encode_hex, hex_bytes, is_decimal,
    is_hex, left_pad, lower_hex, parse_decimal, repeated, strip_hex_prefix, to_decimal,
};

verus! {

/// Whether `s` starts with `0x`.
pub open spec fn has_hex_prefix(s: Seq<char>) -> bool {
    s.len() >= 2 && s[0] == '0' && s[1] == 'x'
}

/// What 32 bytes of a field element decode to, read in the order given (big-endian).
pub open spec fn field_of_bytes(b: Seq<u8>) -> Result<Seq<u8>, Error> {
    if b.len() != 32 {
        Err(Error::IncorrectLenError)
    } else if be_value(b) >= prime() {
        Err(Error::OverflowError)
    } else {
        Ok(b)
    }
}

/// What hex digits (after any `0x`) decode to: the big-endian bytes of a field element,
/// padded with leading zero bytes to 32.
pub open spec fn field_of_hex(d: Seq<char>) -> Result<Seq<u8>, Error> {
    if !is_hex(d) {
        Err(Error::DecodingError)
    } else if hex_bytes(d).len() > 32 {
        Err(Error::IncorrectLenError)
    } else if be_value(hex_bytes(d)) >= prime() {
        Err(Error::OverflowError)
    } else {
        Ok(zero_padded(hex_bytes(d), 32))
    }
}

/// The digits of hex text, without any leading `0x` (repeated ones included).
pub open spec fn hex_digits(s: Seq<char>) -> Seq<char>
    decreases s.len(),
{
    if has_hex_prefix(s) {
        hex_digits(s.subrange(2, s.len() as int))
    } else {
        s
    }
}

/// Hex digits padded on the left with `0` to 64, where `n` (their length in bytes) is smaller.
pub open spec fn padded_digits(d: Seq<char>, n: nat) -> Seq<char> {
    if n < 64 {
        repeated('0', (64 - n) as nat) + d
    } else {
        d
    }
}

/// What a text input of [`pedersen`] that starts with `0x` decodes to: more than 64
/// digits are too long; fewer are padded with leading zeros.
pub open spec fn field_of_prefixed_hex(s: &str) -> Result<Seq<u8>, Error> {
    let n = (s.spec_bytes().len() - 2) as nat;
    if n > 64 {
        Err(Error::IncorrectLenError)
    } else {
        field_of_hex(hex_digits(padded_digits(s@.subrange(2, s@.len() as int), n)))
    }
}

/// What decimal text decodes to.
pub open spec fn field_of_decimal(b: Seq<u8>) -> Result<nat, Error> {
    if !is_decimal(b) {
        Err(Error::DecodingError)
    } else if decimal_value(b) >= prime() {
        Err(Error::OverflowError)
    } else {
        Ok(decimal_value(b))
    }
}

/// What a text input of [`pedersen`] decodes to: hex after `0x`, else decimal digits.
pub open spec fn input_value(s: &str) -> Result<nat, Error> {
    if has_hex_prefix(s@) {
        match field_of_prefixed_hex(s) {
            Ok(b) => Ok(be_value(b)),
            Err(e) => Err(e),
        }
    } else {
        field_of_decimal(s.spec_bytes())
    }
}

/// The text form of a hash: `0x` and 64 lowercase hex digits.
pub open spec fn hex_output(b: Seq<u8>) -> Seq<char> {
    seq!['0', 'x'] + lower_hex(b)
}

/// Decodes 32 little-endian bytes into a field element.
pub fn bytes_safe(unchecked_bytes: &Vec<u8>) -> (r: Result<FieldElement, Error>)
    ensures
        field_of_bytes(reversed(unchecked_bytes@)) is Ok == r is Ok,
        r is Ok ==> r->Ok_0.wf() && r->Ok_0@ == field_of_bytes(reversed(unchecked_bytes@))->Ok_0,
        r is Err ==> r->Err_0 == field_of_bytes(reversed(unchecked_bytes@))->Err_0,
{
    if unchecked_bytes.len() != FELT_BYTES {
        return Err(Error::IncorrectLenError);
    }
    let mut be: Vec<u8> = Vec::new();
    let mut i: usize = FELT_BYTES;
    while i > 0
        invariant
            i <= FELT_BYTES,
            unchecked_bytes@.len() == FELT_BYTES,
            be@ =~= reversed(unchecked_bytes@).subrange(0, (FELT_BYTES - i) as int),
        decreases i,
    {
        i = i - 1;
        be.push(unchecked_bytes[i]);
    }
    assert(be@ =~= reversed(unchecked_bytes@));
    FieldElement::from_be_bytes(&be)
}

/// Decodes hex text, with or without `0x`, into a field element; fewer than 32 bytes
/// are padded with leading zeros.
pub fn field_element_from_be_hex(hex: &str) -> (r: Result<FieldElement, Error>)
    ensures
        field_of_hex(hex_digits(hex@)) is Ok == r is Ok,
        r is Ok ==> r->Ok_0.wf() && r->Ok_0@ == field_of_hex(hex_digits(hex@))->Ok_0,
        r is Err ==> r->Err_0 == field_of_hex(hex_digits(hex@))->Err_0,
{
    let mut digits: &str = hex;
    let mut next = strip_hex_prefix(hex);
    while next.is_some()
        invariant
            hex_digits(digits@) == hex_digits(hex@),
            next is Some <==> has_hex_prefix(digits@),
            next is Some ==> next->0@ == digits@.subrange(2, digits@.len() as int),
        decreases digits@.len(),
    {
        match next {
            Some(rest) => {
                digits = rest;
                next = strip_hex_prefix(rest);
            },
            None => {},
        }
    }
    let bytes = match decode_hex(digits) {
        Some(b) => b,
        None => return Err(Error::DecodingError),
    };
    if bytes.len() > FELT_BYTES {
        return Err(Error::IncorrectLenError);
    }
    let mut padded: Vec<u8> = Vec::new();
    let n: usize = FELT_BYTES - bytes.len();
    let mut i: usize = 0;
    while i < FELT_BYTES
        invariant
            i <= FELT_BYTES,
            n + bytes@.len() == FELT_BYTES,
            padded@ =~= zero_padded(bytes@, 32).subrange(0, i as int),
        decreases FELT_BYTES - i,
    {
        if i < n {
            padded.push(0u8);
        } else {
            padded.push(bytes[i - n]);
        }
        i = i + 1;
    }
    proof {
        assert(padded@ =~= zero_padded(bytes@, 32));
        lemma_be_value_padded(bytes@, 32);
    }
    FieldElement::from_be_bytes(&padded)
}

/// `0x` followed by the 64 lowercase hex digits of a field element.
fn hex_text(e: &FieldElement) -> (r: String)
    ensures
        r@ == hex_output(e@),
{
    let digits = encode_hex(&e.be);
    let mut out = String::from_str("0x");
    proof {
        reveal_strlit("0x");
    }
    out.append(digits.as_str());
    assert(out@ =~= hex_output(e@));
    out
}

/// Decodes one text input of [`pedersen`]: after `0x` at most 64 hex digits, padded
/// to 64 with leading zeros; without it, decimal digits.
pub fn decode_input(s: &str) -> (r: Result<FieldElement, Error>)
    ensures
        input_value(s) is Ok == r is Ok,
        r is Ok ==> r->Ok_0.wf() && r->Ok_0.value() == input_value(s)->Ok_0,
        r is Err ==> r->Err_0 == input_value(s)->Err_0,
{
    let stripped = strip_hex_prefix(s);
    match stripped {
        Some(rest) => {
            if rest.as_bytes().len() > 64 {
                return Err(Error::IncorrectLenError);
            }
            let padded = left_pad(rest, 64, '0');
            let r = field_element_from_be_hex(padded.as_str());
            proof {
                assert(s.spec_bytes().len() >= 2);
                assert(padded@ == padded_digits(
                    s@.subrange(2, s@.len() as int),
                    (s.spec_bytes().len() - 2) as nat,
                ));
                assert(rest.spec_bytes().len() <= 64);
                assert(field_of_prefixed_hex(s) == field_of_hex(hex_digits(padded@)));
                assert(has_hex_prefix(s@));
            }
            r
        },
        None => {
            let b: &[u8] = s.as_bytes();
            if b.len() == 0 {
                assert(!is_decimal(s.spec_bytes()));
                return Err(Error::DecodingError);
            }
            let mut i: usize = 0;
            while i < b.len()
                invariant
                    i <= b@.len(),
                    b@ == s.spec_bytes(),
                    !has_hex_prefix(s@),
                    forall|j: int| 0 <= j < i ==> 0x30 <= #[trigger] b@[j] && b@[j] <= 0x39,
                decreases b@.len() - i,
            {
                if b[i] < 0x30 || b[i] > 0x39 {
                    assert(!(0x30 <= b@[i as int] && b@[i as int] <= 0x39));
                    assert(!is_decimal(s.spec_bytes()));
                    return Err(Error::DecodingError);
                }
                i = i + 1;
            }
            assert(is_decimal(b@));
            if !decimal_below_prime(b) {
                return Err(Error::OverflowError);
            }
            assert(input_value(s) == Ok::<nat, Error>(decimal_value(s.spec_bytes())));
            match parse_decimal(s) {
                Some(e) => Ok(e),
                None => Err(Error::DecodingError),
            }
        },
    }
}

/// The Pedersen hash of two text inputs (hex after `0x`, else decimal), as `0x` and
/// 64 lowercase hex digits.
pub fn pedersen(x: &str, y: &str) -> (r: Result<String, Error>)
    ensures
        input_value(x) is Ok && input_value(y) is Ok ==> r is Ok && r->Ok_0@ == hex_output(
            hash_model(input_value(x)->Ok_0, input_value(y)->Ok_0),
        ),
        input_value(x) is Err ==> r == Err::<String, Error>(input_value(x)->Err_0),
        input_value(x) is Ok && input_value(y) is Err ==> r == Err::<String, Error>(
            input_value(y)->Err_0,
        ),
        r is Ok ==> exists|b: Seq<u8>|
            b.len() == 32 && be_value(b) < prime() && r->Ok_0@ == #[trigger] hex_output(b),
{
    let fx = decode_input(x)?;
    let fy = decode_input(y)?;
    let h = hash(&fx, &fy);
    let out = hex_text(&h);
    assert(out@ == hex_output(h@));
    Ok(out)
}

/// The Pedersen hash of two field elements given as 32 little-endian bytes each, as
/// `0x` and 64 lowercase hex digits.
pub fn starknet_pedersen(x: Vec<u8>, y: Vec<u8>) -> (r: Result<String, Error>)
    ensures
        field_of_bytes(reversed(x@)) is Ok && field_of_bytes(reversed(y@)) is Ok ==> r is Ok
            && r->Ok_0@ == hex_output(
            hash_model(be_value(reversed(x@)), be_value(reversed(y@))),
        ),
        field_of_bytes(reversed(x@)) is Err ==> r == Err::<String, Error>(
            field_of_bytes(reversed(x@))->Err_0,
        ),
        field_of_bytes(reversed(x@)) is Ok && field_of_bytes(reversed(y@)) is Err ==> r == Err::<
            String,
            Error,
        >(field_of_bytes(reversed(y@))->Err_0),
        r is Ok ==> exists|b: Seq<u8>|
            b.len() == 32 && be_value(b) < prime() && r->Ok_0@ == #[trigger] hex_output(b),
{
    let fx = bytes_safe(&x)?;
    let fy = bytes_safe(&y)?;
    let h = hash(&fx, &fy);
    let out = hex_text(&h);
    assert(out@ == hex_output(h@));
    Ok(out)
}

/// The Pedersen hash of two field elements given as 32 big-endian bytes each, as
/// the decimal digits of its value.
pub fn starknet_pedersen_cairo(x: Vec<u8>, y: Vec<u8>) -> (r: Result<String, Error>)
    ensures
        field_of_bytes(x@) is Ok && field_of_bytes(y@) is Ok ==> r is Ok && r->Ok_0@ == decimal(
            be_value(hash_model(be_value(x@), be_value(y@))),
        ),
        field_of_bytes(x@) is Err ==> r == Err::<String, Error>(field_of_bytes(x@)->Err_0),
        field_of_bytes(x@) is Ok && field_of_bytes(y@) is Err ==> r == Err::<String, Error>(
            field_of_bytes(y@)->Err_0,
        ),
        r is Ok ==> exists|v: nat| v < prime() && r->Ok_0@ == #[trigger] decimal(v),
{
    let fx = FieldElement::from_be_bytes(&x)?;
    let fy = FieldElement::from_be_bytes(&y)?;
    let h = hash(&fx, &fy);
    let out = to_decimal(&h);
    assert(out@ == decimal(h.value()));
    Ok(out)
}

} // verus!
