//! Encoding of plain integers: matrices into field elements, and witness
//! vectors into points of the two source groups.

use vstd::prelude::*;
use bls12_381::{G1Affine, G2Affine, Scalar};
use crate::curve::{
    g1_affine_multiple, g1_in_subgroup, g1_scale, g1_to_affine, g2_affine_multiple,
    g2_in_subgroup, g2_scale, g2_to_affine, scalar_value,
};
use crate::membership::{all_in_g1, all_in_g2};
use crate::field::{field_of, signed_scalar};

verus! {

/// The field elements of a vector of signed integers.
pub open spec fn encoded(w: Seq<i64>) -> Seq<nat> {
    Seq::new(w.len(), |j: int| field_of(w[j] as int))
}

/// The field elements of a matrix of signed integers, row by row.
pub open spec fn encoded_matrix(m: Seq<Seq<i64>>) -> Seq<Seq<nat>> {
    Seq::new(m.len(), |i: int| encoded(m[i]))
}

/// The rows of a matrix that is held as a sequence of vectors.
pub open spec fn rows_of<T>(m: Seq<Vec<T>>) -> Seq<Seq<T>> {
    Seq::new(m.len(), |i: int| m[i]@)
}

/// The integers that a vector of field elements stands for.
pub open spec fn scalar_values(v: Seq<Scalar>) -> Seq<nat> {
    Seq::new(v.len(), |j: int| scalar_value(v[j]))
}

/// The integers that a matrix of field elements stands for, row by row.
pub open spec fn matrix_values(m: Seq<Seq<Scalar>>) -> Seq<Seq<nat>> {
    Seq::new(m.len(), |i: int| scalar_values(m[i]))
}

/// For each point of the first group, the multiple of the generator that it is.
pub open spec fn g1_multiples(v: Seq<G1Affine>) -> Seq<nat> {
    Seq::new(v.len(), |j: int| g1_affine_multiple(v[j]))
}

/// For each point of the second group, the multiple of the generator that it is.
pub open spec fn g2_multiples(v: Seq<G2Affine>) -> Seq<nat> {
    Seq::new(v.len(), |j: int| g2_affine_multiple(v[j]))
}

/// Encodes one row of signed integers as field elements.
fn to_scalar_row(row: &Vec<i64>) -> (out: Vec<Scalar>)
    ensures
        scalar_values(out@) == encoded(row@),
{
    let mut out: Vec<Scalar> = Vec::new();
    let mut j: usize = 0;
    while j < row.len()
        invariant
            j <= row.len(),
            out.len() == j,
            forall|k: int|
                0 <= k < j ==> scalar_value(#[trigger] out[k]) == field_of(row[k] as int),
        decreases row.len() - j,
    {
        out.push(signed_scalar(row[j]));
        j += 1;
    }
    out
}

/// Encodes a matrix of signed integers as field elements, entry by entry.
/// The result has the shape of the input.
pub fn to_scalar(input: &[Vec<i64>]) -> (out: Vec<Vec<Scalar>>)
    ensures
        matrix_values(rows_of(out@)) == encoded_matrix(rows_of(input@)),
{
    let mut out: Vec<Vec<Scalar>> = Vec::new();
    let mut i: usize = 0;
    while i < input.len()
        invariant
            i <= input.len(),
            out.len() == i,
            forall|k: int| 0 <= k < i ==> scalar_values(#[trigger] out[k]@) == encoded(input[k]@),
        decreases input.len() - i,
    {
        out.push(to_scalar_row(&input[i]));
        i += 1;
    }
    out
}

/// Encodes a witness into the first group: entry `j` of the result is the
/// generator scaled by the field element of `witness[j]`, a member of the
/// group.
pub fn encrypt_with_g1(witness: &[i64]) -> (out: Vec<G1Affine>)
    ensures
        all_in_g1(out@),
        g1_multiples(out@) == encoded(witness@),
{
    let g1 = G1Affine::generator();
    let mut out: Vec<G1Affine> = Vec::new();
    let mut j: usize = 0;
    while j < witness.len()
        invariant
            j <= witness.len(),
            out.len() == j,
            g1_in_subgroup(g1),
            g1_affine_multiple(g1) == 1,
            forall|k: int|
                0 <= k < j ==> g1_in_subgroup(#[trigger] out[k]) && g1_affine_multiple(out[k])
                    == field_of(witness[k] as int),
        decreases witness.len() - j,
    {
        let scalar = signed_scalar(witness[j]);
        out.push(g1_to_affine(g1_scale(&scalar, &g1)));
        j += 1;
    }
    out
}

/// Encodes a witness into the second group: entry `j` of the result is the
/// generator scaled by the field element of `witness[j]`, a member of the
/// group.
pub fn encrypt_with_g2(witness: &[i64]) -> (out: Vec<G2Affine>)
    ensures
        all_in_g2(out@),
        g2_multiples(out@) == encoded(witness@),
{
    let g2 = G2Affine::generator();
    let mut out: Vec<G2Affine> = Vec::new();
    let mut j: usize = 0;
    while j < witness.len()
        invariant
            j <= witness.len(),
            out.len() == j,
            g2_in_subgroup(g2),
            g2_affine_multiple(g2) == 1,
            forall|k: int|
                0 <= k < j ==> g2_in_subgroup(#[trigger] out[k]) && g2_affine_multiple(out[k])
                    == field_of(witness[k] as int),
        decreases witness.len() - j,
    {
        let scalar = signed_scalar(witness[j]);
        out.push(g2_to_affine(g2_scale(&scalar, &g2)));
        j += 1;
    }
    out
}

} // verus!
