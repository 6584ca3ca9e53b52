//! The mathematics of a rank-1 constraint system over the scalar field, and
//! of what verification decides.
//!
//! A group element is never opened. What the verifier reasons about is the
//! scalar behind it: the multiple of the generator that the element is. An
//! encoded witness whose entries are members of their groups is therefore
//! seen here as two sequences of such multiples, one for each group.

use vstd::prelude::*;
use crate::curve::group_order;
use crate::encoding::encoded_matrix;
use crate::error::{accepted, rejected, R1csError};

verus! {

/// Three coefficient matrices over the scalar field: row `i` of each is one
/// side of constraint `i`.
pub struct FieldMatrices {
    pub left: Seq<Seq<nat>>,
    pub right: Seq<Seq<nat>>,
    pub output: Seq<Seq<nat>>,
}

impl FieldMatrices {
    /// The number of constraints.
    pub open spec fn rows(self) -> nat {
        self.left.len()
    }

    /// The length that a witness must have: that of the first left row.
    pub open spec fn columns(self) -> nat {
        self.left[0].len()
    }
}

/// The three field matrices that a triple of integer matrices is stored as.
pub open spec fn encoded_matrices(
    left: Seq<Seq<i64>>,
    right: Seq<Seq<i64>>,
    output: Seq<Seq<i64>>,
) -> FieldMatrices {
    FieldMatrices {
        left: encoded_matrix(left),
        right: encoded_matrix(right),
        output: encoded_matrix(output),
    }
}

/// The shape rule for a triple of matrices: there is a row, the first left
/// row has an entry, the three have equally many rows, and at each row index
/// the three rows are equally long.
pub open spec fn same_shape<T>(left: Seq<Seq<T>>, right: Seq<Seq<T>>, output: Seq<Seq<T>>) -> bool {
    &&& left.len() > 0
    &&& left[0].len() > 0
    &&& left.len() == right.len()
    &&& right.len() == output.len()
    &&& forall|i: int|
        0 <= i < left.len() ==> (#[trigger] left[i]).len() == right[i].len() && right[i].len()
            == output[i].len()
}

/// How many indices a row and a witness have in common.
pub open spec fn common_length<A, B>(row: Seq<A>, witness: Seq<B>) -> nat {
    if row.len() <= witness.len() {
        row.len()
    } else {
        witness.len()
    }
}

/// The sum of `row[j] * witness[j]` over the first `n` indices.
pub open spec fn partial_sum(row: Seq<nat>, witness: Seq<nat>, n: nat) -> int
    decreases n,
{
    if n == 0 {
        0
    } else {
        partial_sum(row, witness, (n - 1) as nat) + row[n - 1] * witness[n - 1]
    }
}

/// The linear combination of a witness by one row of coefficients: the sum
/// of `row[j] * witness[j]` over the indices that both have. Where the rows
/// of a system are as long as its witnesses, that is every index.
pub open spec fn weighted_sum(row: Seq<nat>, witness: Seq<nat>) -> int {
    partial_sum(row, witness, common_length(row, witness))
}

/// Whether the two halves of an encoded witness agree: they are equally
/// long, and at each index the two elements are the same multiple of their
/// generators, so that both stand for one scalar.
pub open spec fn witness_consistent(k1: Seq<nat>, k2: Seq<nat>) -> bool {
    &&& k1.len() == k2.len()
    &&& forall|j: int|
        0 <= j < k1.len() ==> (#[trigger] k1[j]) % group_order() == k2[j] % group_order()
}

/// Whether constraint `i` holds of the scalars behind an encoded witness:
/// the left combination times the right one equals the output combination,
/// in the field. The left and output sides are taken over the first half of
/// the witness and the right side over the second.
pub open spec fn row_holds(m: FieldMatrices, i: int, k1: Seq<nat>, k2: Seq<nat>) -> bool {
    (weighted_sum(m.left[i], k1) * weighted_sum(m.right[i], k2)) % (group_order() as int)
        == weighted_sum(m.output[i], k1) % (group_order() as int)
}

/// Whether every constraint holds.
pub open spec fn all_rows_hold(m: FieldMatrices, k1: Seq<nat>, k2: Seq<nat>) -> bool {
    forall|i: int| 0 <= i < m.rows() ==> #[trigger] row_holds(m, i, k1, k2)
}

/// What the consistency check answers.
pub open spec fn consistency_outcome(k1: Seq<nat>, k2: Seq<nat>) -> Result<(), R1csError> {
    if witness_consistent(k1, k2) {
        accepted()
    } else {
        rejected(R1csError::WitnessMismatch)
    }
}

/// What verification answers, for the matrices of a verifier and the
/// multiples behind the two halves of an encoded witness. The three checks
/// come in this order, and the first that fails names the error.
pub open spec fn verify_outcome(m: FieldMatrices, k1: Seq<nat>, k2: Seq<nat>) -> Result<
    (),
    R1csError,
> {
    if !witness_consistent(k1, k2) {
        rejected(R1csError::WitnessMismatch)
    } else if k1.len() != m.columns() {
        rejected(R1csError::WitnessLroMismatch)
    } else if !all_rows_hold(m, k1, k2) {
        rejected(R1csError::VerificationFailed)
    } else {
        accepted()
    }
}

} // verus!
