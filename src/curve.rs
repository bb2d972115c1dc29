//! Points of the STARK curve, and the curve operations that the hash relies on.

use vstd::prelude::*;
use crate::field::{be_value, prime, FieldElement};
use starknet_types_core::curve::AffinePoint;
use starknet_types_core::felt::Felt;

verus! {

/// What a curve point is: the point at infinity, or affine coordinates as 32 big-endian bytes each.
pub enum PointModel {
    Infinity,
    Affine(Seq<u8>, Seq<u8>),
}

/// What the curve's group law gives for `a + b`.
pub uninterp spec fn curve_add(a: PointModel, b: PointModel) -> PointModel;

/// What the curve's scalar multiplication gives for `k * p`.
pub uninterp spec fn curve_mul(p: PointModel, k: nat) -> PointModel;

#[verifier::external_type_specification]
#[verifier::external_body]
pub struct ExAffinePoint(AffinePoint);

/// A point of the STARK curve.
#[derive(Debug, Clone, PartialEq, Eq)]
pub struct CurvePoint {
    pub x: FieldElement,
    pub y: FieldElement,
    pub infinity: bool,
}

impl View for CurvePoint {
    type V = PointModel;

    open spec fn view(&self) -> PointModel {
        if self.infinity {
            PointModel::Infinity
        } else {
            PointModel::Affine(self.x@, self.y@)
        }
    }
}

impl CurvePoint {
    pub open spec fn wf(&self) -> bool {
        self.x.wf() && self.y.wf()
    }
}

/// The coefficient `beta` of the curve `y^2 = x^3 + x + beta`, in big-endian bytes.
pub open spec fn beta_bytes() -> Seq<u8> {
    seq![
        0x06u8, 0xf2, 0x14, 0x13, 0xef, 0xbe, 0x40, 0xde,
        0x15, 0x0e, 0x59, 0x6d, 0x72, 0xf7, 0xa8, 0xc5,
        0x60, 0x9a, 0xd2, 0x6c, 0x15, 0xc9, 0x15, 0xc1,
        0xf4, 0xcd, 0xfc, 0xb9, 0x9c, 0xee, 0x9e, 0x89,
    ]
}

/// Whether a point lies on the curve `y^2 = x^3 + x + beta` over the field.
pub open spec fn on_curve(p: PointModel) -> bool {
    match p {
        PointModel::Infinity => true,
        PointModel::Affine(x, y) => {
            let xv = be_value(x) as int;
            let yv = be_value(y) as int;
            (yv * yv) % (prime() as int) == (xv * xv * xv + xv + be_value(beta_bytes()) as int) % (
            prime() as int)
        },
    }
}

/// The affine x-coordinate of a point; the point at infinity is given zero.
pub open spec fn x_of(p: PointModel) -> Seq<u8> {
    match p {
        PointModel::Affine(x, _) => x,
        PointModel::Infinity => Seq::new(32, |i: int| 0u8),
    }
}

/// Relies on `AffinePoint::identity` and `AffinePoint::new_unchecked` to carry a point over to the curve library.
#[verifier::external_body]
fn affine_of(p: &CurvePoint) -> AffinePoint {
    if p.infinity {
        AffinePoint::identity()
    } else {
        AffinePoint::new_unchecked(Felt::from_bytes_be_slice(&p.x.be), Felt::from_bytes_be_slice(&p.y.be))
    }
}

/// Relies on `AffinePoint::x`, `AffinePoint::y` and `Felt::to_bytes_be`: the
/// coordinates come back as the 32 big-endian bytes of canonical field elements.
#[verifier::external_body]
fn point_of(a: AffinePoint) -> (r: CurvePoint)
    ensures
        r.wf(),
{
    let fe = |f: Felt| FieldElement { be: f.to_bytes_be().to_vec() };
    CurvePoint { x: fe(a.x()), y: fe(a.y()), infinity: a.is_identity() }
}

/// Relies on `Add` for `AffinePoint` (lambdaworks' `operate_with`): the sum of two
/// points of the curve is on the curve, and a point at infinity on either side
/// gives the other operand back.
#[verifier::external_body]
pub(crate) fn add_points(a: &CurvePoint, b: &CurvePoint) -> (r: CurvePoint)
    requires
        a.wf(),
        b.wf(),
        on_curve(a@),
        on_curve(b@),
    ensures
        r.wf(),
        on_curve(r@),
        r@ == curve_add(a@, b@),
        a@ == PointModel::Infinity ==> r@ == b@,
        b@ == PointModel::Infinity ==> r@ == a@,
{
    point_of(affine_of(a) + affine_of(b))
}

/// Relies on `Mul<Felt>` for `&AffinePoint` (lambdaworks' `operate_with_self`):
/// a multiple of a point of the curve is on the curve, and the scalar zero gives
/// the point at infinity.
#[verifier::external_body]
pub(crate) fn mul_point(p: &CurvePoint, k: &FieldElement) -> (r: CurvePoint)
    requires
        p.wf(),
        k.wf(),
        on_curve(p@),
    ensures
        r.wf(),
        on_curve(r@),
        r@ == curve_mul(p@, k.value()),
        k.value() == 0 ==> r@ == PointModel::Infinity,
{
    point_of(&affine_of(p) * Felt::from_bytes_be_slice(&k.be))
}

/// Affine x-coordinate of the shift point, where every hash starts.
pub open spec fn shift_point_x() -> Seq<u8> {
    seq![
        0x04u8, 0x9e, 0xe3, 0xeb, 0xa8, 0xc1, 0x60, 0x07,
        0x00, 0xee, 0x1b, 0x87, 0xeb, 0x59, 0x9f, 0x16,
        0x71, 0x6b, 0x0b, 0x10, 0x22, 0x94, 0x77, 0x33,
        0x55, 0x1f, 0xde, 0x40, 0x50, 0xca, 0x68, 0x04,
    ]
}

/// Affine y-coordinate of the shift point, where every hash starts.
pub open spec fn shift_point_y() -> Seq<u8> {
    seq![
        0x03u8, 0xca, 0x0c, 0xfe, 0x4b, 0x3b, 0xc6, 0xdd,
        0xf3, 0x46, 0xd4, 0x9d, 0x06, 0xea, 0x0e, 0xd3,
        0x4e, 0x62, 0x10, 0x62, 0xc0, 0xe0, 0x56, 0xc1,
        0xd0, 0x40, 0x5d, 0x26, 0x6e, 0x10, 0x26, 0x8a,
    ]
}

/// Relies on `starknet_curve::curve_params::SHIFT_POINT`: the shift point, where every hash starts, at the coordinates its documentation gives.
#[verifier::external_body]
pub(crate) fn shift_point() -> (r: CurvePoint)
    ensures
        r.wf(),
        on_curve(r@),
        r@ == PointModel::Affine(shift_point_x(), shift_point_y()),
{
    point_of(starknet_curve::curve_params::SHIFT_POINT)
}

/// Affine x-coordinate of the generator for the low chunk of the first input.
pub open spec fn pedersen_p0_x() -> Seq<u8> {
    seq![
        0x02u8, 0x34, 0x28, 0x7d, 0xcb, 0xaf, 0xfe, 0x7f,
        0x96, 0x9c, 0x74, 0x86, 0x55, 0xfc, 0xa9, 0xe5,
        0x8f, 0xa8, 0x12, 0x0b, 0x6d, 0x56, 0xeb, 0x0c,
        0x10, 0x80, 0xd1, 0x79, 0x57, 0xeb, 0xe4, 0x7b,
    ]
}

/// Affine y-coordinate of the generator for the low chunk of the first input.
pub open spec fn pedersen_p0_y() -> Seq<u8> {
    seq![
        0x03u8, 0xb0, 0x56, 0xf1, 0x00, 0xf9, 0x6f, 0xb2,
        0x1e, 0x88, 0x95, 0x27, 0xd4, 0x1f, 0x4e, 0x39,
        0x94, 0x01, 0x35, 0xdd, 0x7a, 0x6c, 0x94, 0xcc,
        0x6e, 0xd0, 0x26, 0x8e, 0xe8, 0x9e, 0x56, 0x15,
    ]
}

/// Relies on `starknet_curve::curve_params::PEDERSEN_P0`: the generator for the low chunk of the first input, at the coordinates its documentation gives.
#[verifier::external_body]
pub(crate) fn pedersen_p0() -> (r: CurvePoint)
    ensures
        r.wf(),
        on_curve(r@),
        r@ == PointModel::Affine(pedersen_p0_x(), pedersen_p0_y()),
{
    point_of(starknet_curve::curve_params::PEDERSEN_P0)
}

/// Affine x-coordinate of the generator for the high chunk of the first input.
pub open spec fn pedersen_p1_x() -> Seq<u8> {
    seq![
        0x04u8, 0xfa, 0x56, 0xf3, 0x76, 0xc8, 0x3d, 0xb3,
        0x3f, 0x9d, 0xab, 0x26, 0x56, 0x55, 0x8f, 0x33,
        0x99, 0x09, 0x9e, 0xc1, 0xde, 0x5e, 0x30, 0x18,
        0xb7, 0xa6, 0x93, 0x2d, 0xba, 0x8a, 0xa3, 0x78,
    ]
}

/// Affine y-coordinate of the generator for the high chunk of the first input.
pub open spec fn pedersen_p1_y() -> Seq<u8> {
    seq![
        0x03u8, 0xfa, 0x09, 0x84, 0xc9, 0x31, 0xc9, 0xe3,
        0x81, 0x13, 0xe0, 0xc0, 0xe4, 0x7e, 0x44, 0x01,
        0x56, 0x27, 0x61, 0xf9, 0x2a, 0x7a, 0x23, 0xb4,
        0x51, 0x68, 0xf4, 0xe8, 0x0f, 0xf5, 0xb5, 0x4d,
    ]
}

/// Relies on `starknet_curve::curve_params::PEDERSEN_P1`: the generator for the high chunk of the first input, at the coordinates its documentation gives.
#[verifier::external_body]
pub(crate) fn pedersen_p1() -> (r: CurvePoint)
    ensures
        r.wf(),
        on_curve(r@),
        r@ == PointModel::Affine(pedersen_p1_x(), pedersen_p1_y()),
{
    point_of(starknet_curve::curve_params::PEDERSEN_P1)
}

/// Affine x-coordinate of the generator for the low chunk of the second input.
pub open spec fn pedersen_p2_x() -> Seq<u8> {
    seq![
        0x04u8, 0xba, 0x4c, 0xc1, 0x66, 0xbe, 0x8d, 0xec,
        0x76, 0x49, 0x10, 0xf7, 0x5b, 0x45, 0xf7, 0x4b,
        0x40, 0xc6, 0x90, 0xc7, 0x47, 0x09, 0xe9, 0x0f,
        0x3a, 0xa3, 0x72, 0xf0, 0xbd, 0x2d, 0x69, 0x97,
    ]
}

/// Affine y-coordinate of the generator for the low chunk of the second input.
pub open spec fn pedersen_p2_y() -> Seq<u8> {
    seq![
        0x00u8, 0x40, 0x30, 0x1c, 0xf5, 0xc1, 0x75, 0x1f,
        0x4b, 0x97, 0x1e, 0x46, 0xc4, 0xed, 0xe8, 0x5f,
        0xca, 0xc5, 0xc5, 0x9a, 0x5c, 0xe5, 0xae, 0x7c,
        0x48, 0x15, 0x1f, 0x27, 0xb2, 0x4b, 0x21, 0x9c,
    ]
}

/// Relies on `starknet_curve::curve_params::PEDERSEN_P2`: the generator for the low chunk of the second input, at the coordinates its documentation gives.
#[verifier::external_body]
pub(crate) fn pedersen_p2() -> (r: CurvePoint)
    ensures
        r.wf(),
        on_curve(r@),
        r@ == PointModel::Affine(pedersen_p2_x(), pedersen_p2_y()),
{
    point_of(starknet_curve::curve_params::PEDERSEN_P2)
}

/// Affine x-coordinate of the generator for the high chunk of the second input.
pub open spec fn pedersen_p3_x() -> Seq<u8> {
    seq![
        0x05u8, 0x43, 0x02, 0xdc, 0xb0, 0xe6, 0xcc, 0x1c,
        0x6e, 0x44, 0xcc, 0xa8, 0xf6, 0x1a, 0x63, 0xbb,
        0x2c, 0xa6, 0x50, 0x48, 0xd5, 0x3f, 0xb3, 0x25,
        0xd3, 0x6f, 0xf1, 0x2c, 0x49, 0xa5, 0x82, 0x02,
    ]
}

/// Affine y-coordinate of the generator for the high chunk of the second input.
pub open spec fn pedersen_p3_y() -> Seq<u8> {
    seq![
        0x01u8, 0xb7, 0x7b, 0x3e, 0x37, 0xd1, 0x35, 0x04,
        0xb3, 0x48, 0x04, 0x62, 0x68, 0xd8, 0xae, 0x25,
        0xce, 0x98, 0xad, 0x78, 0x3c, 0x25, 0x56, 0x1a,
        0x87, 0x9d, 0xcc, 0x77, 0xe9, 0x9c, 0x24, 0x26,
    ]
}

/// Relies on `starknet_curve::curve_params::PEDERSEN_P3`: the generator for the high chunk of the second input, at the coordinates its documentation gives.
#[verifier::external_body]
pub(crate) fn pedersen_p3() -> (r: CurvePoint)
    ensures
        r.wf(),
        on_curve(r@),
        r@ == PointModel::Affine(pedersen_p3_x(), pedersen_p3_y()),
{
    point_of(starknet_curve::curve_params::PEDERSEN_P3)
}

} // verus!
