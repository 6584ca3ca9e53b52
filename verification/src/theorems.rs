//! What holds of encoding and verification together.
//!
//! The theorems here are stated over the same spec functions as the
//! contracts of the executable functions: `encoded` is what the witness
//! encoders produce, `encoded_matrices` is what a verifier holds, and
//! `verify_outcome` is what verification answers. They speak of the scalars
//! behind group elements, and so of members of the two groups only.

use vstd::prelude::*;
use vstd::arithmetic::div_mod::{lemma_mul_mod_noop, lemma_mul_mod_noop_right};
use crate::constraints::{
    all_rows_hold, common_length, consistency_outcome, encoded_matrices, partial_sum, row_holds,
    same_shape, verify_outcome, weighted_sum, witness_consistent, FieldMatrices,
};
use crate::curve::group_order;
use crate::encoding::encoded;
use crate::error::{accepted, rejected, R1csError};
use crate::field::{field_of, lemma_field_of_injective};

verus! {

/// A vector encoded into both groups is a consistent witness: the
/// consistency check accepts it, whatever the vector.
pub proof fn lemma_same_vector_is_consistent(w: Seq<i64>)
    ensures
        witness_consistent(encoded(w), encoded(w)),
        consistency_outcome(encoded(w), encoded(w)) == accepted(),
{
}

/// Two different vectors, one encoded into each group, are never a
/// consistent witness: the consistency check fails, and so verification
/// against any matrices fails with `WitnessMismatch`. This covers vectors of
/// different lengths and vectors of one length that differ in an entry.
pub proof fn lemma_different_vectors_are_inconsistent(m: FieldMatrices, w1: Seq<i64>, w2: Seq<i64>)
    requires
        w1 != w2,
    ensures
        !witness_consistent(encoded(w1), encoded(w2)),
        consistency_outcome(encoded(w1), encoded(w2)) == rejected(R1csError::WitnessMismatch),
        verify_outcome(m, encoded(w1), encoded(w2)) == rejected(R1csError::WitnessMismatch),
{
    if w1.len() == w2.len() {
        if forall|j: int| 0 <= j < w1.len() ==> #[trigger] w1[j] == w2[j] {
            assert(w1 =~= w2);
        }
        let j = choose|j: int| 0 <= j < w1.len() && #[trigger] w1[j] != w2[j];
        assert(encoded(w1)[j] % group_order() != encoded(w2)[j] % group_order()) by {
            lemma_field_of_injective(w1[j], w2[j]);
        }
    }
}

/// Halves of different lengths are rejected as inconsistent, whatever they
/// hold and whatever the matrices.
pub proof fn lemma_length_mismatch_is_witness_mismatch(m: FieldMatrices, k1: Seq<nat>, k2: Seq<nat>)
    requires
        k1.len() != k2.len(),
    ensures
        verify_outcome(m, k1, k2) == rejected(R1csError::WitnessMismatch),
{
}

/// A consistent witness that does not have one entry per column is
/// rejected with `WitnessLroMismatch`, before any constraint is looked at.
pub proof fn lemma_wrong_length_is_lro_mismatch(m: FieldMatrices, k1: Seq<nat>, k2: Seq<nat>)
    requires
        witness_consistent(k1, k2),
        k1.len() != m.columns(),
    ensures
        verify_outcome(m, k1, k2) == rejected(R1csError::WitnessLroMismatch),
{
}

/// Verification has no hidden state: any two answers for the same verifier
/// and the same witness are equal.
pub proof fn lemma_verify_is_repeatable(
    m: FieldMatrices,
    k1: Seq<nat>,
    k2: Seq<nat>,
    first: Result<(), R1csError>,
    second: Result<(), R1csError>,
)
    requires
        first == verify_outcome(m, k1, k2),
        second == verify_outcome(m, k1, k2),
    ensures
        first == second,
{
}

/// Consistent halves are interchangeable in a linear combination: at each
/// index they stand for one scalar, so the combinations agree in the field.
pub proof fn lemma_consistent_partial_sums(row: Seq<nat>, k1: Seq<nat>, k2: Seq<nat>, n: nat)
    requires
        witness_consistent(k1, k2),
        n <= row.len(),
        n <= k1.len(),
    ensures
        partial_sum(row, k1, n) % (group_order() as int) == partial_sum(row, k2, n) % (
        group_order() as int),
    decreases n,
{
    if n > 0 {
        let r = group_order() as int;
        let c = row[n - 1] as int;
        let a = k1[n - 1] as int;
        let b = k2[n - 1] as int;
        lemma_consistent_partial_sums(row, k1, k2, (n - 1) as nat);
        assert((c * a) % r == (c * b) % r) by {
            lemma_mul_mod_noop_right(c, a, r);
            lemma_mul_mod_noop_right(c, b, r);
        }
    }
}

/// For a consistent witness it does not matter that the right side of a
/// constraint is taken over the second half: the check of row `i` is the
/// constraint on the scalars of the first half alone.
pub proof fn lemma_row_holds_of_one_half(m: FieldMatrices, i: int, k1: Seq<nat>, k2: Seq<nat>)
    requires
        witness_consistent(k1, k2),
    ensures
        row_holds(m, i, k1, k2) <==> row_holds(m, i, k1, k1),
{
    let r = group_order() as int;
    let left = weighted_sum(m.left[i], k1);
    lemma_consistent_partial_sums(m.right[i], k1, k2, common_length(m.right[i], k1));
    lemma_mul_mod_noop_right(left, weighted_sum(m.right[i], k1), r);
    lemma_mul_mod_noop_right(left, weighted_sum(m.right[i], k2), r);
}

/// Soundness, for members of the two groups. Here `k1` and `k2` are the
/// multiples of the generators that the entries of the two halves are, which
/// only members have. Whatever members a prover hands in, if verification
/// accepts them then the two halves stand for one vector of scalars, that
/// vector has one entry per column, and it satisfies every constraint in
/// the field. Of values that are no members this says nothing; they are
/// turned away before verification.
pub proof fn theorem_accepted_witness_satisfies_system(
    m: FieldMatrices,
    k1: Seq<nat>,
    k2: Seq<nat>,
)
    requires
        verify_outcome(m, k1, k2) is Ok,
    ensures
        witness_consistent(k1, k2),
        k1.len() == m.columns(),
        all_rows_hold(m, k1, k1),
{
    assert forall|i: int| 0 <= i < m.rows() implies #[trigger] row_holds(m, i, k1, k1) by {
        lemma_row_holds_of_one_half(m, i, k1, k2);
    }
}

/// The sum of `row[j] * w[j]` over the first `n` indices, in the integers.
pub open spec fn integer_partial_sum(row: Seq<i64>, w: Seq<i64>, n: nat) -> int
    decreases n,
{
    if n == 0 {
        0
    } else {
        integer_partial_sum(row, w, (n - 1) as nat) + row[n - 1] * w[n - 1]
    }
}

/// The linear combination of a plain witness by one row of integer
/// coefficients, over the indices that both have.
pub open spec fn integer_sum(row: Seq<i64>, w: Seq<i64>) -> int {
    integer_partial_sum(row, w, common_length(row, w))
}

/// Whether a plain witness satisfies constraint `i` of an integer system:
/// left combination times right combination is congruent to the output
/// combination, modulo the order of the field.
pub open spec fn constraint_satisfied(
    left: Seq<Seq<i64>>,
    right: Seq<Seq<i64>>,
    output: Seq<Seq<i64>>,
    i: int,
    w: Seq<i64>,
) -> bool {
    (integer_sum(left[i], w) * integer_sum(right[i], w)) % (group_order() as int) == integer_sum(
        output[i],
        w,
    ) % (group_order() as int)
}

/// Whether a plain witness satisfies every constraint of an integer system.
pub open spec fn system_satisfied(
    left: Seq<Seq<i64>>,
    right: Seq<Seq<i64>>,
    output: Seq<Seq<i64>>,
    w: Seq<i64>,
) -> bool {
    forall|i: int|
        0 <= i < left.len() ==> #[trigger] constraint_satisfied(left, right, output, i, w)
}

/// Encoding commutes with linear combination: the combination of the
/// encoded witness by the encoded row is congruent to the integer one.
pub proof fn lemma_encoded_partial_sum(row: Seq<i64>, w: Seq<i64>, n: nat)
    requires
        n <= row.len(),
        n <= w.len(),
    ensures
        partial_sum(encoded(row), encoded(w), n) % (group_order() as int) == integer_partial_sum(
            row,
            w,
            n,
        ) % (group_order() as int),
    decreases n,
{
    if n > 0 {
        let r = group_order() as int;
        let a = row[n - 1] as int;
        let b = w[n - 1] as int;
        lemma_encoded_partial_sum(row, w, (n - 1) as nat);
        assert((field_of(a) * field_of(b)) as int % r == (a * b) % r) by {
            lemma_mul_mod_noop(a, b, r);
        }
    }
}

/// The same for whole rows.
pub proof fn lemma_encoded_sum(row: Seq<i64>, w: Seq<i64>)
    ensures
        weighted_sum(encoded(row), encoded(w)) % (group_order() as int) == integer_sum(row, w) % (
        group_order() as int),
{
    lemma_encoded_partial_sum(row, w, common_length(encoded(row), encoded(w)));
}

/// For an honestly encoded witness, the pairing check of one row is the
/// constraint itself.
pub proof fn lemma_row_holds_iff_constraint(
    left: Seq<Seq<i64>>,
    right: Seq<Seq<i64>>,
    output: Seq<Seq<i64>>,
    i: int,
    w: Seq<i64>,
)
    requires
        same_shape(left, right, output),
        0 <= i < left.len(),
    ensures
        row_holds(encoded_matrices(left, right, output), i, encoded(w), encoded(w))
            <==> constraint_satisfied(left, right, output, i, w),
{
    let r = group_order() as int;
    let k = encoded(w);
    lemma_encoded_sum(left[i], w);
    lemma_encoded_sum(right[i], w);
    lemma_encoded_sum(output[i], w);
    lemma_mul_mod_noop(weighted_sum(encoded(left[i]), k), weighted_sum(encoded(right[i]), k), r);
    lemma_mul_mod_noop(integer_sum(left[i], w), integer_sum(right[i], w), r);
}

/// Completeness and soundness for an honest prover. When one plain witness
/// is encoded into both groups and verified against the matrices of an
/// integer system of valid shape, verification succeeds exactly when the
/// witness has one entry per column and satisfies every constraint in the
/// field; a witness of the wrong length gives `WitnessLroMismatch`, and one
/// of the right length that breaks a constraint gives `VerificationFailed`.
pub proof fn theorem_verification_decides_satisfaction(
    left: Seq<Seq<i64>>,
    right: Seq<Seq<i64>>,
    output: Seq<Seq<i64>>,
    w: Seq<i64>,
)
    requires
        same_shape(left, right, output),
    ensures
        verify_outcome(encoded_matrices(left, right, output), encoded(w), encoded(w)) == (if w.len()
            != left[0].len() {
            rejected(R1csError::WitnessLroMismatch)
        } else if !system_satisfied(left, right, output, w) {
            rejected(R1csError::VerificationFailed)
        } else {
            accepted()
        }),
{
    let m = encoded_matrices(left, right, output);
    let k = encoded(w);
    if w.len() == left[0].len() {
        if system_satisfied(left, right, output, w) {
            assert forall|i: int| 0 <= i < m.rows() implies #[trigger] row_holds(m, i, k, k) by {
                lemma_row_holds_iff_constraint(left, right, output, i, w);
            }
        } else {
            let i = choose|i: int|
                0 <= i < left.len() && !#[trigger] constraint_satisfied(left, right, output, i, w);
            lemma_row_holds_iff_constraint(left, right, output, i, w);
        }
    }
}

/// Completeness over the integers. A witness with one entry per column that
/// satisfies every constraint as an equation of integers is accepted when it
/// is encoded into both groups.
pub proof fn theorem_integer_solution_is_accepted(
    left: Seq<Seq<i64>>,
    right: Seq<Seq<i64>>,
    output: Seq<Seq<i64>>,
    w: Seq<i64>,
)
    requires
        same_shape(left, right, output),
        w.len() == left[0].len(),
        forall|i: int|
            0 <= i < left.len() ==> integer_sum(#[trigger] left[i], w) * integer_sum(right[i], w)
                == integer_sum(output[i], w),
    ensures
        verify_outcome(encoded_matrices(left, right, output), encoded(w), encoded(w)) == accepted(),
{
    assert(system_satisfied(left, right, output, w));
    theorem_verification_decides_satisfaction(left, right, output, w);
}

} // verus!
