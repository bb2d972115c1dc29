use stark_pedersen::field::below_prime;
use stark_pedersen::hash::{decompose, hash};
use stark_pedersen::{
    bytes_safe, decode_input, field_element_from_be_hex, pedersen, starknet_pedersen,
    starknet_pedersen_cairo, Error, FieldElement,
};

const PRIME_HEX: &str = "0800000000000011000000000000000000000000000000000000000000000001";
const SHIFT_X_HEX: &str = "049ee3eba8c1600700ee1b87eb599f16716b0b1022947733551fde4050ca6804";

const VECTORS: [(&str, &str, &str); 2] = [
    (
        "03d937c035c878245caf64531a5756109c53068da139362728feb561405371cb",
        "0208a0a10250e382e1e4bbe2880906c2791bf6275695e02fbbc6aeff9cd8b31a",
        "030e480bed5fe53fa909cc0f8c4d99b8f9f2c016be4c41e13a4848797979c662",
    ),
    (
        "058f580910a6ca59b28927c08fe6c43e2e303ca384badc365795fc645d479d45",
        "078734f65a067be9bdb39de18434d71e79f7b6466a4b66bbd979ab9e7515fe0b",
        "068cc0b76cddd1dd4ed2301ada9b7c872b23875d5ff837b3a87993e0d9996b87",
    ),
];

fn be_bytes(hex_digits: &str) -> Vec<u8> {
    let mut out = vec![0u8; 32];
    let raw = hex::decode(hex_digits).unwrap();
    let start = 32 - raw.len();
    out[start..].copy_from_slice(&raw);
    out
}

fn fe(hex_digits: &str) -> FieldElement {
    FieldElement::from_be_bytes(&be_bytes(hex_digits)).unwrap()
}

fn small(n: u8) -> FieldElement {
    let mut b = vec![0u8; 32];
    b[31] = n;
    FieldElement::from_be_bytes(&b).unwrap()
}

#[test]
fn published_vectors_match() {
    for (x, y, expected) in VECTORS {
        let h = hash(&fe(x), &fe(y));
        assert_eq!(h.to_be_bytes(), be_bytes(expected));
    }
}

#[test]
fn published_vectors_through_text() {
    for (x, y, expected) in VECTORS {
        let r = pedersen(&format!("0x{}", x), &format!("0x{}", y)).unwrap();
        assert_eq!(r, format!("0x{}", expected));
    }
}

#[test]
fn published_vector_in_decimal() {
    let (x, y, _) = VECTORS[0];
    let r = starknet_pedersen_cairo(be_bytes(x), be_bytes(y)).unwrap();
    assert_eq!(
        r,
        "1382171651951541052082654537810074813456022260470662576358627909045455537762"
    );
    let (x, y, _) = VECTORS[1];
    let r = starknet_pedersen_cairo(be_bytes(x), be_bytes(y)).unwrap();
    assert_eq!(
        r,
        "2962565761002374879415469392216379291665599807391815720833106117558254791559"
    );
}

#[test]
fn little_endian_bytes_give_the_same_hash() {
    let (x, y, expected) = VECTORS[0];
    let mut xl = be_bytes(x);
    xl.reverse();
    let mut yl = be_bytes(y);
    yl.reverse();
    assert_eq!(starknet_pedersen(xl, yl).unwrap(), format!("0x{}", expected));
}

#[test]
fn agrees_with_starknet_crypto() {
    let pairs: [(u64, u64); 4] = [(0, 0), (1, 2), (2, 1), (12345, 678910)];
    for (a, b) in pairs {
        let ours = hash(&small_u64(a), &small_u64(b));
        let theirs = starknet::core::crypto::pedersen_hash(
            &starknet::core::types::Felt::from(a),
            &starknet::core::types::Felt::from(b),
        );
        assert_eq!(ours.to_be_bytes(), theirs.to_bytes_be().to_vec());
    }
}

fn small_u64(n: u64) -> FieldElement {
    let mut b = vec![0u8; 32];
    b[24..].copy_from_slice(&n.to_be_bytes());
    FieldElement::from_be_bytes(&b).unwrap()
}

#[test]
fn repeated_calls_agree() {
    let (x, y, _) = VECTORS[1];
    let a = hash(&fe(x), &fe(y));
    let b = hash(&fe(x), &fe(y));
    assert_eq!(a, b);
}

#[test]
fn not_symmetric() {
    let a = hash(&small(1), &small(2));
    let b = hash(&small(2), &small(1));
    assert_ne!(a, b);
}

#[test]
fn output_is_below_prime() {
    for (x, y, _) in VECTORS {
        let h = hash(&fe(x), &fe(y));
        assert!(below_prime(&h.to_be_bytes()));
    }
    let top = fe("0800000000000011000000000000000000000000000000000000000000000000");
    let h = hash(&top, &top);
    assert!(below_prime(&h.to_be_bytes()));
}

#[test]
fn zero_inputs_give_shift_point_x() {
    let h = hash(&FieldElement::zero(), &FieldElement::zero());
    assert_eq!(h.to_be_bytes(), be_bytes(SHIFT_X_HEX));
    assert_eq!(pedersen("0", "0").unwrap(), format!("0x{}", SHIFT_X_HEX));
    assert_eq!(pedersen("0x0", "0x").unwrap(), format!("0x{}", SHIFT_X_HEX));
}

#[test]
fn decompose_largest_element() {
    let max = fe("0800000000000011000000000000000000000000000000000000000000000000");
    let (low, high) = decompose(&max);
    assert_eq!(
        low.to_be_bytes(),
        be_bytes("0000000000000011000000000000000000000000000000000000000000000000")
    );
    assert_eq!(high.to_be_bytes(), be_bytes("08"));
}

#[test]
fn decompose_small_element() {
    let (low, high) = decompose(&small(200));
    assert_eq!(low.to_be_bytes(), be_bytes("c8"));
    assert_eq!(high, FieldElement::zero());
}

#[test]
fn prime_is_rejected() {
    let p = be_bytes(PRIME_HEX);
    assert_eq!(FieldElement::from_be_bytes(&p), Err(Error::OverflowError));
    let mut pl = p.clone();
    pl.reverse();
    assert_eq!(bytes_safe(&pl), Err(Error::OverflowError));
    assert_eq!(
        starknet_pedersen_cairo(p.clone(), be_bytes("01")),
        Err(Error::OverflowError)
    );
    assert_eq!(
        field_element_from_be_hex(&format!("0x{}", PRIME_HEX)),
        Err(Error::OverflowError)
    );
    assert_eq!(
        pedersen("0x1", &format!("0x{}", PRIME_HEX)),
        Err(Error::OverflowError)
    );
}

#[test]
fn above_prime_is_rejected() {
    let all = vec![0xffu8; 32];
    assert_eq!(FieldElement::from_be_bytes(&all), Err(Error::OverflowError));
    assert_eq!(bytes_safe(&all), Err(Error::OverflowError));
    assert_eq!(
        starknet_pedersen(all.clone(), all.clone()),
        Err(Error::OverflowError)
    );
}

#[test]
fn wrong_length_is_rejected() {
    assert_eq!(bytes_safe(&vec![0u8; 31]), Err(Error::IncorrectLenError));
    assert_eq!(bytes_safe(&vec![0u8; 33]), Err(Error::IncorrectLenError));
    assert_eq!(bytes_safe(&Vec::new()), Err(Error::IncorrectLenError));
    assert_eq!(
        FieldElement::from_be_bytes(&vec![1u8; 31]),
        Err(Error::IncorrectLenError)
    );
    assert_eq!(
        starknet_pedersen_cairo(vec![0u8; 32], vec![0u8; 64]),
        Err(Error::IncorrectLenError)
    );
    let long = format!("0x{}", "0".repeat(66));
    assert_eq!(field_element_from_be_hex(&long), Err(Error::IncorrectLenError));
    assert_eq!(pedersen(&long, "0x1"), Err(Error::IncorrectLenError));
}

#[test]
fn malformed_text_is_rejected() {
    assert_eq!(field_element_from_be_hex("0xzz"), Err(Error::DecodingError));
    assert_eq!(field_element_from_be_hex("abc"), Err(Error::DecodingError));
    assert_eq!(pedersen("12a", "1"), Err(Error::DecodingError));
    assert_eq!(pedersen("1", "0xg1"), Err(Error::DecodingError));
    assert_eq!(decode_input(""), Err(Error::DecodingError));
}

#[test]
fn too_many_hex_digits_is_a_length_error() {
    let odd = format!("0x{}", "1".repeat(65));
    assert_eq!(pedersen(&odd, "0x1"), Err(Error::IncorrectLenError));
    assert_eq!(decode_input(&odd), Err(Error::IncorrectLenError));
    let even = format!("0x{}", "1".repeat(66));
    assert_eq!(decode_input(&even), Err(Error::IncorrectLenError));
    let exact = format!("0x{}", "0".repeat(64));
    assert_eq!(decode_input(&exact), Ok(FieldElement::zero()));
}

#[test]
fn decimal_at_or_above_prime_is_rejected() {
    let prime_dec = "3618502788666131213697322783095070105623107215331596699973092056135872020481";
    assert_eq!(pedersen(prime_dec, "0"), Err(Error::OverflowError));
    assert_eq!(decode_input(prime_dec), Err(Error::OverflowError));
    let below = "3618502788666131213697322783095070105623107215331596699973092056135872020480";
    assert_eq!(
        decode_input(below).unwrap().to_be_bytes(),
        be_bytes("0800000000000011000000000000000000000000000000000000000000000000")
    );
    let huge = "115792089237316195423570985008687907853269984665640564039457584007913129639938";
    assert_eq!(decode_input(huge), Err(Error::OverflowError));
    assert_eq!(decode_input(&"9".repeat(200)), Err(Error::OverflowError));
    assert_eq!(decode_input("000000000000000000000000000000000000000000000000000000000000000000000000000000000042"), Ok(small(42)));
}

#[test]
fn negative_decimal_is_rejected() {
    assert_eq!(decode_input("-1"), Err(Error::DecodingError));
    assert_eq!(pedersen("1", "-5"), Err(Error::DecodingError));
}

#[test]
fn repeated_hex_prefix_is_stripped() {
    assert_eq!(field_element_from_be_hex("0x0x0xff"), Ok(small(255)));
    let long = format!("0x0x{}", "00".repeat(33));
    assert_eq!(field_element_from_be_hex(&long), Err(Error::IncorrectLenError));
    let p = format!("0x0x{}", PRIME_HEX);
    assert_eq!(field_element_from_be_hex(&p), Err(Error::OverflowError));
}

#[test]
fn largest_element_hashes_below_prime() {
    let m = "0x0800000000000011000000000000000000000000000000000000000000000000";
    let r = pedersen(m, m).unwrap();
    assert_eq!(r.len(), 66);
    let h = field_element_from_be_hex(&r).unwrap();
    assert!(below_prime(&h.to_be_bytes()));
    let c = starknet_pedersen_cairo(be_bytes(&m[2..]), be_bytes(&m[2..])).unwrap();
    assert!(c.chars().all(|ch| ch.is_ascii_digit()));
    assert!(!c.starts_with('0'));
    assert_eq!(decode_input(&c), Ok(h));
}

#[test]
fn hex_text_is_decoded_in_either_case() {
    let a = field_element_from_be_hex("0xABcd").unwrap();
    assert_eq!(a.to_be_bytes(), be_bytes("abcd"));
    let b = field_element_from_be_hex("abcd").unwrap();
    assert_eq!(a, b);
}

#[test]
fn short_hex_is_padded() {
    let short = pedersen("0x1", "0x2").unwrap();
    let full = pedersen(
        "0x0000000000000000000000000000000000000000000000000000000000000001",
        "0x0000000000000000000000000000000000000000000000000000000000000002",
    )
    .unwrap();
    assert_eq!(short, full);
    assert_eq!(decode_input("0xabc").unwrap().to_be_bytes(), be_bytes("0abc"));
}

#[test]
fn decimal_and_hex_inputs_agree() {
    assert_eq!(pedersen("1", "2").unwrap(), pedersen("0x1", "0x2").unwrap());
    assert_eq!(decode_input("255").unwrap(), small(255));
}

#[test]
fn output_is_lowercase_hex() {
    let r = pedersen("0x1", "0x2").unwrap();
    assert_eq!(r.len(), 66);
    assert!(r.starts_with("0x"));
    assert!(r[2..].chars().all(|c| c.is_ascii_digit() || ('a'..='f').contains(&c)));
}

#[test]
fn zero_in_decimal_output() {
    let r = starknet_pedersen_cairo(vec![0u8; 32], vec![0u8; 32]).unwrap();
    assert_eq!(
        r,
        "2089986280348253421170679821480865132823066470938446095505822317253594081284"
    );
}
