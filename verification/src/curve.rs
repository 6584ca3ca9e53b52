//! The boundary to the `bls12_381` crate.
//!
//! Everything in this module is taken on trust. The types of the pairing
//! crate are opaque to the verifier, and the contracts below say what its
//! operations compute, in terms of one mathematical picture. Functions and
//! inherent methods of the crate get their contract directly; operators,
//! conversions and tests are called in a small function that carries the
//! contract.
//!
//! The picture is the usual one for a pairing of prime order `r`. Each of
//! the two source groups is the subgroup of order `r` of its curve, so a
//! point of the first group is `k * G1` for exactly one `k` below `r`, where
//! `G1` is the fixed generator, and likewise in the second group. The target
//! group has the same order and is generated by the pairing of the two
//! generators, so a target element is `k * e(G1, G2)` for exactly one `k`
//! below `r`.
//!
//! A value of a point type need not be such a point: the crate has decoders
//! that check nothing, and what they hand out may lie off the curve or
//! outside the subgroup. Of such a value the arithmetic and the pairing
//! promise nothing, and the pairing may panic. So membership in the group
//! has a name for each point type, every operation on points asks for it,
//! and every operation that returns a point promises it. A multiple is
//! spoken of only for members.

use vstd::prelude::*;
use bls12_381::{pairing, G1Affine, G1Projective, G2Affine, G2Projective, Gt, Scalar};

verus! {

/// `bls12_381::Scalar`: an element of the scalar field.
#[verifier::external_type_specification]
#[verifier::external_body]
pub struct ExScalar(bls12_381::Scalar);

/// `bls12_381::G1Affine`: a point of the first group, in affine coordinates.
#[verifier::external_type_specification]
#[verifier::external_body]
pub struct ExG1Affine(bls12_381::G1Affine);

/// `bls12_381::G1Projective`: a point of the first group, in projective
/// coordinates.
#[verifier::external_type_specification]
#[verifier::external_body]
pub struct ExG1Projective(bls12_381::G1Projective);

/// `bls12_381::G2Affine`: a point of the second group, in affine coordinates.
#[verifier::external_type_specification]
#[verifier::external_body]
pub struct ExG2Affine(bls12_381::G2Affine);

/// `bls12_381::G2Projective`: a point of the second group, in projective
/// coordinates.
#[verifier::external_type_specification]
#[verifier::external_body]
pub struct ExG2Projective(bls12_381::G2Projective);

/// `bls12_381::Gt`: an element of the target group of the pairing.
#[verifier::external_type_specification]
#[verifier::external_body]
pub struct ExGt(bls12_381::Gt);

/// The prime `r`: the size of the scalar field, and the order of the two
/// source groups and of the target group.
pub open spec fn group_order() -> nat {
    0x73eda753299d7d483339d80809a1d80553bda402fffe5bfeffffffff00000001nat
}

/// The integer in `0..r` that a field element stands for.
pub uninterp spec fn scalar_value(s: Scalar) -> nat;

/// Whether an affine value is a point of the first curve: what
/// `G1Affine::is_on_curve` answers.
pub uninterp spec fn g1_on_curve(p: G1Affine) -> bool;

/// Whether an affine value is a point of the second curve: what
/// `G2Affine::is_on_curve` answers.
pub uninterp spec fn g2_on_curve(q: G2Affine) -> bool;

/// Whether an affine value is a member of the first group: a point of the
/// curve that lies in the subgroup of order `r`.
pub uninterp spec fn g1_in_subgroup(p: G1Affine) -> bool;

/// Whether a projective value is a member of the first group.
pub uninterp spec fn g1_projective_in_subgroup(p: G1Projective) -> bool;

/// Whether an affine value is a member of the second group: a point of the
/// curve that lies in the subgroup of order `r`.
pub uninterp spec fn g2_in_subgroup(q: G2Affine) -> bool;

/// Whether a projective value is a member of the second group.
pub uninterp spec fn g2_projective_in_subgroup(q: G2Projective) -> bool;

/// The `k` in `0..r` with `p == k * G1`, for an affine member of the first
/// group.
pub uninterp spec fn g1_affine_multiple(p: G1Affine) -> nat;

/// The `k` in `0..r` with `p == k * G1`, for a projective member of the
/// first group.
pub uninterp spec fn g1_projective_multiple(p: G1Projective) -> nat;

/// The `k` in `0..r` with `q == k * G2`, for an affine member of the second
/// group.
pub uninterp spec fn g2_affine_multiple(q: G2Affine) -> nat;

/// The `k` in `0..r` with `q == k * G2`, for a projective member of the
/// second group.
pub uninterp spec fn g2_projective_multiple(q: G2Projective) -> nat;

/// The `k` in `0..r` with `t == k * e(G1, G2)`, for an element of the target group.
pub uninterp spec fn gt_multiple(t: Gt) -> nat;

/// `Scalar::from(u64)`: the field element of an unsigned integer. Every
/// `u64` is below `r`, so the element stands for the integer itself.
#[verifier::external_body]
pub(crate) fn scalar_from_u64(x: u64) -> (s: Scalar)
    ensures
        scalar_value(s) == x,
{
    Scalar::from(x)
}

/// `Scalar::neg`: the additive inverse in the field.
pub assume_specification[ Scalar::neg ](s: &Scalar) -> (n: Scalar)
    ensures
        scalar_value(n) == (-(scalar_value(*s) as int)) % (group_order() as int),
;

/// `G1Affine::generator`: the fixed generator `G1`, which is `1 * G1`.
pub assume_specification[ G1Affine::generator ]() -> (g: G1Affine)
    ensures
        g1_in_subgroup(g),
        g1_affine_multiple(g) == 1,
;

/// `G2Affine::generator`: the fixed generator `G2`, which is `1 * G2`.
pub assume_specification[ G2Affine::generator ]() -> (g: G2Affine)
    ensures
        g2_in_subgroup(g),
        g2_affine_multiple(g) == 1,
;

/// `G1Projective::identity`: the neutral element, which is `0 * G1`.
pub assume_specification[ G1Projective::identity ]() -> (z: G1Projective)
    ensures
        g1_projective_in_subgroup(z),
        g1_projective_multiple(z) == 0,
;

/// `G2Projective::identity`: the neutral element, which is `0 * G2`.
pub assume_specification[ G2Projective::identity ]() -> (z: G2Projective)
    ensures
        g2_projective_in_subgroup(z),
        g2_projective_multiple(z) == 0,
;

/// `&Scalar * &G1Affine`: scalar multiplication in the first group. The
/// product of a member is a member, and the multiples multiply modulo `r`.
#[verifier::external_body]
pub(crate) fn g1_scale(s: &Scalar, p: &G1Affine) -> (out: G1Projective)
    requires
        g1_in_subgroup(*p),
    ensures
        g1_projective_in_subgroup(out),
        g1_projective_multiple(out) == (scalar_value(*s) * g1_affine_multiple(*p)) % group_order(),
{
    s * p
}

/// `&Scalar * &G2Affine`: scalar multiplication in the second group. The
/// product of a member is a member, and the multiples multiply modulo `r`.
#[verifier::external_body]
pub(crate) fn g2_scale(s: &Scalar, q: &G2Affine) -> (out: G2Projective)
    requires
        g2_in_subgroup(*q),
    ensures
        g2_projective_in_subgroup(out),
        g2_projective_multiple(out) == (scalar_value(*s) * g2_affine_multiple(*q)) % group_order(),
{
    s * q
}

/// `G1Projective += G1Projective`: addition in the first group. The sum of
/// two members is a member, and the multiples add modulo `r`.
#[verifier::external_body]
pub(crate) fn g1_accumulate(acc: &mut G1Projective, term: G1Projective)
    requires
        g1_projective_in_subgroup(*old(acc)),
        g1_projective_in_subgroup(term),
    ensures
        g1_projective_in_subgroup(*final(acc)),
        g1_projective_multiple(*final(acc)) == (g1_projective_multiple(*old(acc))
            + g1_projective_multiple(term)) % group_order(),
{
    *acc += term;
}

/// `G2Projective += G2Projective`: addition in the second group. The sum of
/// two members is a member, and the multiples add modulo `r`.
#[verifier::external_body]
pub(crate) fn g2_accumulate(acc: &mut G2Projective, term: G2Projective)
    requires
        g2_projective_in_subgroup(*old(acc)),
        g2_projective_in_subgroup(term),
    ensures
        g2_projective_in_subgroup(*final(acc)),
        g2_projective_multiple(*final(acc)) == (g2_projective_multiple(*old(acc))
            + g2_projective_multiple(term)) % group_order(),
{
    *acc += term;
}

/// `G1Affine::from(G1Projective)`: the same member in affine coordinates.
#[verifier::external_body]
pub(crate) fn g1_to_affine(p: G1Projective) -> (out: G1Affine)
    requires
        g1_projective_in_subgroup(p),
    ensures
        g1_in_subgroup(out),
        g1_affine_multiple(out) == g1_projective_multiple(p),
{
    G1Affine::from(p)
}

/// `G2Affine::from(G2Projective)`: the same member in affine coordinates.
#[verifier::external_body]
pub(crate) fn g2_to_affine(q: G2Projective) -> (out: G2Affine)
    requires
        g2_projective_in_subgroup(q),
    ensures
        g2_in_subgroup(out),
        g2_affine_multiple(out) == g2_projective_multiple(q),
{
    G2Affine::from(q)
}

/// `bls12_381::pairing`: the bilinear map `e`, on members of the two
/// groups. By bilinearity `e(a * G1, b * G2)` is `(a * b) * e(G1, G2)`, so
/// the multiples multiply modulo `r`.
pub assume_specification[ pairing ](p: &G1Affine, q: &G2Affine) -> (t: Gt)
    requires
        g1_in_subgroup(*p),
        g2_in_subgroup(*q),
    ensures
        gt_multiple(t) == (g1_affine_multiple(*p) * g2_affine_multiple(*q)) % group_order(),
;

/// `Gt != Gt`: two target elements differ exactly when they are different
/// multiples of `e(G1, G2)`. This is where it counts that `e(G1, G2)`
/// generates the target group: equal elements are equal multiples, and
/// different elements are different ones.
#[verifier::external_body]
pub(crate) fn gt_differ(a: &Gt, b: &Gt) -> (differ: bool)
    ensures
        differ == (gt_multiple(*a) != gt_multiple(*b)),
{
    a != b
}

/// `G1Affine::is_on_curve`: whether the value is a point of the first
/// curve. Every member of the group is one.
#[verifier::external_body]
pub(crate) fn g1_is_on_curve(p: &G1Affine) -> (ok: bool)
    ensures
        ok == g1_on_curve(*p),
        g1_in_subgroup(*p) ==> ok,
{
    bool::from(p.is_on_curve())
}

/// `G2Affine::is_on_curve`: whether the value is a point of the second
/// curve. Every member of the group is one.
#[verifier::external_body]
pub(crate) fn g2_is_on_curve(q: &G2Affine) -> (ok: bool)
    ensures
        ok == g2_on_curve(*q),
        g2_in_subgroup(*q) ==> ok,
{
    bool::from(q.is_on_curve())
}

/// `G1Affine::is_torsion_free`: for a point of the first curve, whether it
/// lies in the subgroup of order `r`, and so is a member of the group.
#[verifier::external_body]
pub(crate) fn g1_is_torsion_free(p: &G1Affine) -> (ok: bool)
    requires
        g1_on_curve(*p),
    ensures
        ok == g1_in_subgroup(*p),
{
    bool::from(p.is_torsion_free())
}

/// `G2Affine::is_torsion_free`: for a point of the second curve, whether it
/// lies in the subgroup of order `r`, and so is a member of the group.
#[verifier::external_body]
pub(crate) fn g2_is_torsion_free(q: &G2Affine) -> (ok: bool)
    requires
        g2_on_curve(*q),
    ensures
        ok == g2_in_subgroup(*q),
{
    bool::from(q.is_torsion_free())
}

} // verus!
