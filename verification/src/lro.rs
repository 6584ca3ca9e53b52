//! The constraint verifier: three coefficient matrices, and the pairing
//! check of an encoded witness against them.

use vstd::prelude::*;
use vstd::arithmetic::div_mod::{lemma_mod_twice, lemma_mul_mod_noop};
use bls12_381::{pairing, G1Affine, G1Projective, G2Affine, G2Projective, Scalar};
use crate::curve::{
    g1_accumulate, g1_affine_multiple, g1_in_subgroup, g1_projective_in_subgroup,
    g1_projective_multiple, g1_scale, g1_to_affine, g2_accumulate, g2_affine_multiple,
    g2_in_subgroup, g2_projective_in_subgroup, g2_projective_multiple, g2_scale, g2_to_affine,
    group_order, gt_differ,
};
use crate::constraints::{
    common_length, consistency_outcome, encoded_matrices, partial_sum, row_holds, same_shape,
    verify_outcome, weighted_sum, witness_consistent, FieldMatrices,
};
use crate::encoding::{
    encoded_matrix, g1_multiples, g2_multiples, matrix_values, rows_of, scalar_values, to_scalar,
};
use crate::error::{rejected, R1csError};
use crate::membership::{all_in_g1, all_in_g2, are_g1_members, are_g2_members};

verus! {

/// Encoding keeps the shape: the stored rows are as long as the given ones.
proof fn lemma_same_lengths(stored: Seq<Seq<Scalar>>, values: Seq<Seq<nat>>, given: Seq<Seq<i64>>)
    requires
        values == matrix_values(stored),
        values == encoded_matrix(given),
    ensures
        stored.len() == given.len(),
        forall|i: int| 0 <= i < stored.len() ==> (#[trigger] stored[i]).len() == given[i].len(),
{
    assert(values.len() == given.len());
    assert forall|i: int| 0 <= i < stored.len() implies (#[trigger] stored[i]).len()
        == given[i].len() by {
        assert(values[i].len() == given[i].len());
    }
}

/// Whether three matrices obey the shape rule.
fn shape_matches(left: &[Vec<i64>], right: &[Vec<i64>], output: &[Vec<i64>]) -> (ok: bool)
    ensures
        ok == same_shape(rows_of(left@), rows_of(right@), rows_of(output@)),
{
    if left.len() == 0 || left[0].len() == 0 || left.len() != right.len() || right.len()
        != output.len() {
        return false;
    }
    let ghost l = rows_of(left@);
    let ghost r = rows_of(right@);
    let ghost o = rows_of(output@);
    let mut i: usize = 0;
    while i < left.len()
        invariant
            i <= left.len(),
            left.len() == right.len(),
            right.len() == output.len(),
            l == rows_of(left@),
            r == rows_of(right@),
            o == rows_of(output@),
            forall|k: int|
                0 <= k < i ==> (#[trigger] l[k]).len() == r[k].len() && r[k].len() == o[k].len(),
        decreases left.len() - i,
    {
        if left[i].len() != right[i].len() || right[i].len() != output[i].len() {
            assert(!same_shape(l, r, o)) by {
                if same_shape(l, r, o) {
                    assert(l[i as int].len() == r[i as int].len());
                }
            }
            return false;
        }
        assert forall|k: int| 0 <= k < i + 1 implies (#[trigger] l[k]).len() == r[k].len()
            && r[k].len() == o[k].len() by {
            if k == i {
                assert(l[k].len() == r[k].len() && r[k].len() == o[k].len());
            }
        }
        i += 1;
    }
    true
}

/// The linear combination of the first half of a witness by one row: the
/// sum of `row[j] * witness[j]` in the first group.
fn g1_combination(row: &Vec<Scalar>, witness: &[G1Affine]) -> (acc: G1Projective)
    requires
        all_in_g1(witness@),
    ensures
        g1_projective_in_subgroup(acc),
        g1_projective_multiple(acc) as int == weighted_sum(
            scalar_values(row@),
            g1_multiples(witness@),
        ) % (group_order() as int),
{
    let n: usize = if row.len() <= witness.len() {
        row.len()
    } else {
        witness.len()
    };
    let ghost cs = scalar_values(row@);
    let ghost ks = g1_multiples(witness@);
    let mut acc = G1Projective::identity();
    let mut j: usize = 0;
    while j < n
        invariant
            j <= n,
            n == common_length(cs, ks),
            cs == scalar_values(row@),
            ks == g1_multiples(witness@),
            all_in_g1(witness@),
            g1_projective_in_subgroup(acc),
            g1_projective_multiple(acc) as int == partial_sum(cs, ks, j as nat) % (
            group_order() as int),
        decreases n - j,
    {
        let term = g1_scale(&row[j], &witness[j]);
        g1_accumulate(&mut acc, term);
        j += 1;
    }
    acc
}

/// The linear combination of the second half of a witness by one row: the
/// sum of `row[j] * witness[j]` in the second group.
fn g2_combination(row: &Vec<Scalar>, witness: &[G2Affine]) -> (acc: G2Projective)
    requires
        all_in_g2(witness@),
    ensures
        g2_projective_in_subgroup(acc),
        g2_projective_multiple(acc) as int == weighted_sum(
            scalar_values(row@),
            g2_multiples(witness@),
        ) % (group_order() as int),
{
    let n: usize = if row.len() <= witness.len() {
        row.len()
    } else {
        witness.len()
    };
    let ghost cs = scalar_values(row@);
    let ghost ks = g2_multiples(witness@);
    let mut acc = G2Projective::identity();
    let mut j: usize = 0;
    while j < n
        invariant
            j <= n,
            n == common_length(cs, ks),
            cs == scalar_values(row@),
            ks == g2_multiples(witness@),
            all_in_g2(witness@),
            g2_projective_in_subgroup(acc),
            g2_projective_multiple(acc) as int == partial_sum(cs, ks, j as nat) % (
            group_order() as int),
        decreases n - j,
    {
        let term = g2_scale(&row[j], &witness[j]);
        g2_accumulate(&mut acc, term);
        j += 1;
    }
    acc
}

/// A verifier for one rank-1 constraint system. It owns the three
/// coefficient matrices as field elements and never changes them.
pub struct LRO {
    left: Vec<Vec<Scalar>>,
    right: Vec<Vec<Scalar>>,
    output: Vec<Vec<Scalar>>,
}

impl View for LRO {
    type V = FieldMatrices;

    closed spec fn view(&self) -> FieldMatrices {
        FieldMatrices {
            left: matrix_values(rows_of(self.left@)),
            right: matrix_values(rows_of(self.right@)),
            output: matrix_values(rows_of(self.output@)),
        }
    }
}

impl LRO {
    #[verifier::type_invariant]
    spec fn well_formed(&self) -> bool {
        same_shape(rows_of(self.left@), rows_of(self.right@), rows_of(self.output@))
    }

    /// Builds a verifier from the three matrices of a constraint system.
    /// It succeeds exactly when they obey the shape rule, and then holds the
    /// field element of every entry.
    pub fn new(left: &[Vec<i64>], right: &[Vec<i64>], output: &[Vec<i64>]) -> (res: Result<
        LRO,
        R1csError,
    >)
        ensures
            res is Ok <==> same_shape(rows_of(left@), rows_of(right@), rows_of(output@)),
            res matches Ok(lro) ==> lro@ == encoded_matrices(
                rows_of(left@),
                rows_of(right@),
                rows_of(output@),
            ),
            res matches Err(e) ==> e == R1csError::ShapeMismatch,
    {
        if !shape_matches(left, right, output) {
            return Err(R1csError::ShapeMismatch);
        }
        let l = to_scalar(left);
        let r = to_scalar(right);
        let o = to_scalar(output);
        proof {
            lemma_same_lengths(rows_of(l@), matrix_values(rows_of(l@)), rows_of(left@));
            lemma_same_lengths(rows_of(r@), matrix_values(rows_of(r@)), rows_of(right@));
            lemma_same_lengths(rows_of(o@), matrix_values(rows_of(o@)), rows_of(output@));
        }
        Ok(LRO { left: l, right: r, output: o })
    }

    /// Checks that the two halves of an encoded witness commit to the same
    /// scalars: they are equally long, and at each index the pairing of the
    /// first-group point with the second generator equals the pairing of the
    /// first generator with the second-group point. The entries must be
    /// members of their groups.
    pub fn verify_witness_equality(witness_g1: &[G1Affine], witness_g2: &[G2Affine]) -> (res:
        Result<(), R1csError>)
        requires
            all_in_g1(witness_g1@),
            all_in_g2(witness_g2@),
        ensures
            res == consistency_outcome(g1_multiples(witness_g1@), g2_multiples(witness_g2@)),
    {
        if witness_g1.len() != witness_g2.len() {
            return Err(R1csError::WitnessMismatch);
        }
        let g1 = G1Affine::generator();
        let g2 = G2Affine::generator();
        let ghost k1 = g1_multiples(witness_g1@);
        let ghost k2 = g2_multiples(witness_g2@);
        let mut j: usize = 0;
        while j < witness_g1.len()
            invariant
                j <= witness_g1.len(),
                witness_g1.len() == witness_g2.len(),
                k1 == g1_multiples(witness_g1@),
                k2 == g2_multiples(witness_g2@),
                all_in_g1(witness_g1@),
                all_in_g2(witness_g2@),
                g1_in_subgroup(g1),
                g2_in_subgroup(g2),
                g1_affine_multiple(g1) == 1,
                g2_affine_multiple(g2) == 1,
                forall|k: int|
                    0 <= k < j ==> (#[trigger] k1[k]) % group_order() == k2[k] % group_order(),
            decreases witness_g1.len() - j,
        {
            let lhs = pairing(&witness_g1[j], &g2);
            let rhs = pairing(&g1, &witness_g2[j]);
            if gt_differ(&lhs, &rhs) {
                assert(k1[j as int] % group_order() != k2[j as int] % group_order());
                return Err(R1csError::WitnessMismatch);
            }
            j += 1;
        }
        Ok(())
    }

    /// Verifies an encoded witness whose entries are members of their
    /// groups. The witness must be consistent, have one entry per column,
    /// and satisfy every constraint: for each row, the pairing of the left
    /// combination with the right combination must equal the pairing of the
    /// output combination with the second generator.
    ///
    /// What an encoder of this library returns consists of members. For
    /// entries of any other origin, `verify_checked` tests membership first.
    pub fn verify(&self, witness_g1: &[G1Affine], witness_g2: &[G2Affine]) -> (res: Result<
        (),
        R1csError,
    >)
        requires
            all_in_g1(witness_g1@),
            all_in_g2(witness_g2@),
        ensures
            res == verify_outcome(self@, g1_multiples(witness_g1@), g2_multiples(witness_g2@)),
            witness_g1.len() != witness_g2.len() ==> res == rejected(R1csError::WitnessMismatch),
            witness_consistent(g1_multiples(witness_g1@), g2_multiples(witness_g2@))
                && witness_g1.len() != self@.columns() ==> res == rejected(
                R1csError::WitnessLroMismatch,
            ),
    {
        proof {
            use_type_invariant(self);
        }
        let ghost m = self@;
        let ghost k1 = g1_multiples(witness_g1@);
        let ghost k2 = g2_multiples(witness_g2@);
        if LRO::verify_witness_equality(witness_g1, witness_g2).is_err() {
            return Err(R1csError::WitnessMismatch);
        }
        if witness_g1.len() != self.left[0].len() {
            return Err(R1csError::WitnessLroMismatch);
        }
        let g2 = G2Affine::generator();
        let mut step: usize = 0;
        while step < self.left.len()
            invariant
                step <= self.left.len(),
                same_shape(rows_of(self.left@), rows_of(self.right@), rows_of(self.output@)),
                m == self@,
                k1 == g1_multiples(witness_g1@),
                k2 == g2_multiples(witness_g2@),
                all_in_g1(witness_g1@),
                all_in_g2(witness_g2@),
                g2_in_subgroup(g2),
                g2_affine_multiple(g2) == 1,
                witness_consistent(k1, k2),
                k1.len() == m.columns(),
                forall|i: int| 0 <= i < step ==> #[trigger] row_holds(m, i, k1, k2),
            decreases self.left.len() - step,
        {
            let a = g1_to_affine(g1_combination(&self.left[step], witness_g1));
            let b = g2_to_affine(g2_combination(&self.right[step], witness_g2));
            let c = g1_to_affine(g1_combination(&self.output[step], witness_g1));
            let lhs = pairing(&a, &b);
            let rhs = pairing(&c, &g2);
            proof {
                let r = group_order() as int;
                let sl = weighted_sum(m.left[step as int], k1);
                let sr = weighted_sum(m.right[step as int], k2);
                let so = weighted_sum(m.output[step as int], k1);
                lemma_mul_mod_noop(sl, sr, r);
                lemma_mod_twice(so, r);
            }
            if gt_differ(&lhs, &rhs) {
                assert(!row_holds(m, step as int, k1, k2));
                return Err(R1csError::VerificationFailed);
            }
            step += 1;
        }
        Ok(())
    }

    /// Verifies an encoded witness of any origin. Every entry is first
    /// tested for membership in its group. If one is not a member, nothing
    /// is verified and the answer is `None`; otherwise the answer is that of
    /// `verify`.
    pub fn verify_checked(&self, witness_g1: &[G1Affine], witness_g2: &[G2Affine]) -> (res:
        Option<Result<(), R1csError>>)
        ensures
            res is Some <==> all_in_g1(witness_g1@) && all_in_g2(witness_g2@),
            res matches Some(answer) ==> answer == verify_outcome(
                self@,
                g1_multiples(witness_g1@),
                g2_multiples(witness_g2@),
            ),
    {
        if are_g1_members(witness_g1) && are_g2_members(witness_g2) {
            Some(self.verify(witness_g1, witness_g2))
        } else {
            None
        }
    }
}

} // verus!
