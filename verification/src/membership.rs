//! Membership in the two source groups.
//!
//! An encoded witness may come from anywhere. Before its entries are added,
//! scaled or paired they must be members of their groups; these functions
//! say whether they are.

use vstd::prelude::*;
use bls12_381::{G1Affine, G2Affine};
use crate::curve::{
    g1_in_subgroup, g1_is_on_curve, g1_is_torsion_free, g2_in_subgroup, g2_is_on_curve,
    g2_is_torsion_free,
};

verus! {

/// Whether every entry is a member of the first group.
pub open spec fn all_in_g1(v: Seq<G1Affine>) -> bool {
    forall|j: int| 0 <= j < v.len() ==> g1_in_subgroup(#[trigger] v[j])
}

/// Whether every entry is a member of the second group.
pub open spec fn all_in_g2(v: Seq<G2Affine>) -> bool {
    forall|j: int| 0 <= j < v.len() ==> g2_in_subgroup(#[trigger] v[j])
}

/// Tests whether a value is a member of the first group: a point of the
/// curve, in the subgroup of prime order.
pub fn is_g1_member(p: &G1Affine) -> (ok: bool)
    ensures
        ok == g1_in_subgroup(*p),
{
    g1_is_on_curve(p) && g1_is_torsion_free(p)
}

/// Tests whether a value is a member of the second group: a point of the
/// curve, in the subgroup of prime order.
pub fn is_g2_member(q: &G2Affine) -> (ok: bool)
    ensures
        ok == g2_in_subgroup(*q),
{
    g2_is_on_curve(q) && g2_is_torsion_free(q)
}

/// Tests whether every entry is a member of the first group.
pub fn are_g1_members(v: &[G1Affine]) -> (ok: bool)
    ensures
        ok == all_in_g1(v@),
{
    let mut j: usize = 0;
    while j < v.len()
        invariant
            j <= v.len(),
            forall|k: int| 0 <= k < j ==> g1_in_subgroup(#[trigger] v@[k]),
        decreases v.len() - j,
    {
        if !is_g1_member(&v[j]) {
            assert(!g1_in_subgroup(v@[j as int]));
            return false;
        }
        j += 1;
    }
    true
}

/// Tests whether every entry is a member of the second group.
pub fn are_g2_members(v: &[G2Affine]) -> (ok: bool)
    ensures
        ok == all_in_g2(v@),
{
    let mut j: usize = 0;
    while j < v.len()
        invariant
            j <= v.len(),
            forall|k: int| 0 <= k < j ==> g2_in_subgroup(#[trigger] v@[k]),
        decreases v.len() - j,
    {
        if !is_g2_member(&v[j]) {
            assert(!g2_in_subgroup(v@[j as int]));
            return false;
        }
        j += 1;
    }
    true
}

} // verus!
