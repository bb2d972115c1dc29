//! Elements of the STARK field, held as 32 big-endian bytes.

use vstd::prelude::*;

verus! {

/// Errors of decoding a field element from outside input.
#[derive(Debug, Clone, Copy, PartialEq, Eq, Structural)]
pub enum Error {
    /// The input does not have the fixed width of a field element.
    IncorrectLenError,
    /// The input decodes to an integer that is not below the field prime.
    OverflowError,
    /// The input is not well formed (a bad hex digit, an odd number of digits).
    DecodingError,
}

/// Width of a field element in bytes.
pub const FELT_BYTES: usize = 32;

/// Value of a big-endian byte string.
pub open spec fn be_value(s: Seq<u8>) -> nat
    decreases s.len(),
{
    if s.len() == 0 {
        0
    } else {
        s[0] as nat * pow256((s.len() - 1) as nat) + be_value(s.subrange(1, s.len() as int))
    }
}

/// `256` to the power `n`.
pub open spec fn pow256(n: nat) -> nat
    decreases n,
{
    if n == 0 {
        1
    } else {
        256 * pow256((n - 1) as nat)
    }
}

/// The field prime `2^251 + 17 * 2^192 + 1`, in big-endian bytes.
pub open spec fn prime_bytes() -> Seq<u8> {
    seq![
        0x08u8, 0x00, 0x00, 0x00, 0x00, 0x00, 0x00, 0x11,
        0x00, 0x00, 0x00, 0x00, 0x00, 0x00, 0x00, 0x00,
        0x00, 0x00, 0x00, 0x00, 0x00, 0x00, 0x00, 0x00,
        0x00, 0x00, 0x00, 0x00, 0x00, 0x00, 0x00, 0x01,
    ]
}

/// The field prime.
pub open spec fn prime() -> nat {
    be_value(prime_bytes())
}

/// Reversal of a byte string (little-endian to big-endian).
pub open spec fn reversed(s: Seq<u8>) -> Seq<u8> {
    Seq::new(s.len(), |i: int| s[s.len() - 1 - i])
}

/// A byte string of `n` zero bytes followed by `s`.
pub open spec fn zero_padded(s: Seq<u8>, n: nat) -> Seq<u8> {
    Seq::new((n - s.len()) as nat, |i: int| 0u8) + s
}

/// A big-endian string of `n` bytes stands for less than `256^n`.
pub proof fn lemma_be_value_bound(s: Seq<u8>)
    ensures
        be_value(s) < pow256(s.len()),
    decreases s.len(),
{
    if s.len() > 0 {
        let n = (s.len() - 1) as nat;
        let rest = s.subrange(1, s.len() as int);
        lemma_be_value_bound(rest);
        let a = s[0] as nat;
        let p = pow256(n);
        let b = be_value(rest);
        assert(a <= 255);
        assert(a * p + b < 256 * p) by (nonlinear_arith)
            requires
                a <= 255,
                b < p,
        ;
    }
}

/// Equal-length byte strings compare, as big-endian integers, as their first difference.
pub proof fn lemma_be_lex(s: Seq<u8>, t: Seq<u8>, i: int)
    requires
        s.len() == t.len(),
        0 <= i < s.len(),
        s.subrange(0, i) == t.subrange(0, i),
        s[i] < t[i],
    ensures
        be_value(s) < be_value(t),
    decreases i,
{
    let n = (s.len() - 1) as nat;
    let rs = s.subrange(1, s.len() as int);
    let rt = t.subrange(1, t.len() as int);
    if i == 0 {
        lemma_be_value_bound(rs);
        let a = s[0] as nat;
        let c = t[0] as nat;
        let p = pow256(n);
        let b = be_value(rs);
        let d = be_value(rt);
        assert(a * p + b < c * p + d) by (nonlinear_arith)
            requires
                a < c,
                b < p,
        ;
    } else {
        assert(s[0] == s.subrange(0, i)[0]);
        assert(t[0] == t.subrange(0, i)[0]);
        assert(rs.subrange(0, i - 1) =~= s.subrange(1, i));
        assert(rt.subrange(0, i - 1) =~= t.subrange(1, i));
        assert(s.subrange(1, i) =~= s.subrange(0, i).subrange(1, i));
        assert(t.subrange(1, i) =~= t.subrange(0, i).subrange(1, i));
        lemma_be_lex(rs, rt, i - 1);
    }
}

/// A string of zero bytes stands for zero.
pub proof fn lemma_be_value_zeros(s: Seq<u8>)
    requires
        forall|j: int| 0 <= j < s.len() ==> s[j] == 0u8,
    ensures
        be_value(s) == 0,
    decreases s.len(),
{
    if s.len() > 0 {
        lemma_be_value_zeros(s.subrange(1, s.len() as int));
    }
}

/// Leading zero bytes do not change the value.
pub proof fn lemma_be_value_padded(s: Seq<u8>, n: nat)
    requires
        s.len() <= n,
    ensures
        be_value(zero_padded(s, n)) == be_value(s),
    decreases n,
{
    let z = zero_padded(s, n);
    if s.len() < n {
        assert(z.subrange(1, z.len() as int) =~= zero_padded(s, (n - 1) as nat));
        lemma_be_value_padded(s, (n - 1) as nat);
        assert(z[0] == 0u8);
        assert(z.len() == n);
        assert(be_value(z) == z[0] as nat * pow256((z.len() - 1) as nat) + be_value(
            z.subrange(1, z.len() as int),
        ));
    } else {
        assert(z =~= s);
    }
}

/// An element of the STARK field: 32 big-endian bytes whose value is below the prime.
#[derive(Debug, Clone, PartialEq, Eq)]
pub struct FieldElement {
    pub be: Vec<u8>,
}

impl View for FieldElement {
    type V = Seq<u8>;

    open spec fn view(&self) -> Seq<u8> {
        self.be@
    }
}

impl FieldElement {
    pub open spec fn wf(&self) -> bool {
        self@.len() == FELT_BYTES && be_value(self@) < prime()
    }

    /// The integer that the element stands for.
    pub open spec fn value(&self) -> nat {
        be_value(self@)
    }

    /// The element zero.
    pub fn zero() -> (r: FieldElement)
        ensures
            r.wf(),
            r.value() == 0,
            r@ =~= Seq::new(32, |i: int| 0u8),
    {
        let be: Vec<u8> = vec![0u8; FELT_BYTES];
        proof {
            lemma_be_value_zeros(be@);
            assert(be@.subrange(0, 0) =~= prime_bytes().subrange(0, 0));
            lemma_be_lex(be@, prime_bytes(), 0);
        }
        FieldElement { be }
    }

    /// Reads 32 big-endian bytes; fails on another length or a value not below the prime.
    pub fn from_be_bytes(bytes: &Vec<u8>) -> (r: Result<FieldElement, Error>)
        ensures
            bytes@.len() != FELT_BYTES ==> r == Err::<FieldElement, Error>(Error::IncorrectLenError),
            bytes@.len() == FELT_BYTES && be_value(bytes@) >= prime() ==> r == Err::<
                FieldElement,
                Error,
            >(Error::OverflowError),
            bytes@.len() == FELT_BYTES && be_value(bytes@) < prime() ==> (r matches Ok(e) && e.wf()
                && e@ == bytes@),
    {
        if bytes.len() != FELT_BYTES {
            return Err(Error::IncorrectLenError);
        }
        if !below_prime(bytes) {
            return Err(Error::OverflowError);
        }
        Ok(FieldElement { be: bytes.clone() })
    }

    /// The 32 big-endian bytes of the element.
    pub fn to_be_bytes(&self) -> (r: Vec<u8>)
        ensures
            r@ == self@,
    {
        self.be.clone()
    }
}

/// Whether 32 big-endian bytes stand for an integer below the prime.
pub fn below_prime(bytes: &Vec<u8>) -> (r: bool)
    requires
        bytes@.len() == FELT_BYTES,
    ensures
        r == (be_value(bytes@) < prime()),
{
    let p: [u8; 32] = [
        0x08u8, 0x00, 0x00, 0x00, 0x00, 0x00, 0x00, 0x11,
        0x00, 0x00, 0x00, 0x00, 0x00, 0x00, 0x00, 0x00,
        0x00, 0x00, 0x00, 0x00, 0x00, 0x00, 0x00, 0x00,
        0x00, 0x00, 0x00, 0x00, 0x00, 0x00, 0x00, 0x01,
    ];
    assert(p@ =~= prime_bytes());
    let mut i: usize = 0;
    while i < FELT_BYTES
        invariant
            i <= FELT_BYTES,
            bytes@.len() == FELT_BYTES,
            p@ == prime_bytes(),
            bytes@.subrange(0, i as int) =~= p@.subrange(0, i as int),
        decreases FELT_BYTES - i,
    {
        if bytes[i] != p[i] {
            if bytes[i] < p[i] {
                proof {
                    lemma_be_lex(bytes@, p@, i as int);
                }
                return true;
            } else {
                proof {
                    lemma_be_lex(p@, bytes@, i as int);
                }
                return false;
            }
        }
        i = i + 1;
    }
    assert(bytes@ =~= bytes@.subrange(0, 32));
    assert(p@ =~= p@.subrange(0, 32));
    false
}

} // verus!
