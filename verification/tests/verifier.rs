use bls12_381::{G1Affine, G2Affine};
use pairing_r1cs::{encrypt_with_g1, encrypt_with_g2, R1csError, LRO};

fn cubic() -> LRO {
    LRO::new(
        &[
            vec![0, 1, 0, 0, 0, 0],
            vec![0, 0, 1, 0, 0, 0],
            vec![0, 0, 0, 0, 0, 1],
        ],
        &[
            vec![0, 1, 0, 0, 0, 0],
            vec![0, 0, 1, 0, 0, 0],
            vec![0, 0, 4, 0, 0, 0],
        ],
        &[
            vec![0, 0, 0, 0, 1, 0],
            vec![0, 0, 0, 0, 0, 1],
            vec![-9, 0, 0, -2, 1, 0],
        ],
    )
    .unwrap()
}

#[test]
fn new_rejects_no_rows() {
    assert_eq!(LRO::new(&[], &[], &[]).err(), Some(R1csError::ShapeMismatch));
}

#[test]
fn new_rejects_no_columns() {
    assert_eq!(
        LRO::new(&[vec![]], &[vec![]], &[vec![]]).err(),
        Some(R1csError::ShapeMismatch)
    );
}

#[test]
fn new_rejects_different_row_counts() {
    assert_eq!(
        LRO::new(&[vec![1], vec![2]], &[vec![1]], &[vec![1]]).err(),
        Some(R1csError::ShapeMismatch)
    );
    assert_eq!(
        LRO::new(&[vec![1]], &[vec![1]], &[vec![1], vec![2]]).err(),
        Some(R1csError::ShapeMismatch)
    );
}

#[test]
fn new_rejects_different_row_lengths() {
    assert_eq!(
        LRO::new(&[vec![1, 2]], &[vec![1]], &[vec![1]]).err(),
        Some(R1csError::ShapeMismatch)
    );
    assert_eq!(
        LRO::new(&[vec![1, 2]], &[vec![1, 2]], &[vec![1]]).err(),
        Some(R1csError::ShapeMismatch)
    );
    assert_eq!(
        LRO::new(
            &[vec![1, 2], vec![1, 2]],
            &[vec![1, 2], vec![1]],
            &[vec![1, 2], vec![1, 2]]
        )
        .err(),
        Some(R1csError::ShapeMismatch)
    );
}

#[test]
fn new_accepts_one_shape() {
    assert!(LRO::new(&[vec![1]], &[vec![1]], &[vec![1]]).is_ok());
    assert!(LRO::new(
        &[vec![1, 2], vec![3, 4]],
        &[vec![5, 6], vec![7, 8]],
        &[vec![9, 10], vec![11, 12]]
    )
    .is_ok());
}

#[test]
fn new_compares_rows_index_by_index() {
    assert!(LRO::new(
        &[vec![0, 1], vec![1]],
        &[vec![0, 1], vec![1]],
        &[vec![9, 0], vec![1]]
    )
    .is_ok());
}

#[test]
fn one_vector_in_both_groups_is_consistent() {
    let vectors: [&[i64]; 5] = [
        &[],
        &[1],
        &[1, 5, 1, 6, 25, 1],
        &[0, -1, i64::MAX, i64::MIN],
        &[1, 7, 1, 18, 49, 1],
    ];
    for w in vectors {
        assert_eq!(
            LRO::verify_witness_equality(&encrypt_with_g1(w), &encrypt_with_g2(w)),
            Ok(())
        );
    }
}

#[test]
fn different_vectors_are_inconsistent() {
    assert_eq!(
        LRO::verify_witness_equality(
            &encrypt_with_g1(&[1, 5, 1, 6, 25, 1]),
            &encrypt_with_g2(&[1, 7, 1, 18, 49, 1])
        ),
        Err(R1csError::WitnessMismatch)
    );
    assert_eq!(
        LRO::verify_witness_equality(&encrypt_with_g1(&[3]), &encrypt_with_g2(&[-3])),
        Err(R1csError::WitnessMismatch)
    );
    assert_eq!(
        LRO::verify_witness_equality(&encrypt_with_g1(&[1, 2, 3]), &encrypt_with_g2(&[1, 2, 4])),
        Err(R1csError::WitnessMismatch)
    );
}

#[test]
fn different_lengths_are_inconsistent() {
    assert_eq!(
        LRO::verify_witness_equality(&encrypt_with_g1(&[1, 2]), &encrypt_with_g2(&[1, 2, 3])),
        Err(R1csError::WitnessMismatch)
    );
    assert_eq!(
        LRO::verify_witness_equality(&encrypt_with_g1(&[1]), &encrypt_with_g2(&[])),
        Err(R1csError::WitnessMismatch)
    );
    assert_eq!(
        cubic().verify(
            &encrypt_with_g1(&[1, 5, 1, 6, 25, 1]),
            &encrypt_with_g2(&[1, 5, 1, 6, 25])
        ),
        Err(R1csError::WitnessMismatch)
    );
}

#[test]
fn inconsistency_is_reported_before_length() {
    assert_eq!(
        cubic().verify(&encrypt_with_g1(&[1, 2]), &encrypt_with_g2(&[1, 3])),
        Err(R1csError::WitnessMismatch)
    );
}

#[test]
fn a_consistent_witness_of_the_wrong_length_is_an_lro_mismatch() {
    let lro = cubic();
    let long: [i64; 7] = [1, 5, 1, 6, 25, 1, 2];
    let short: [i64; 5] = [1, 5, 1, 6, 25];
    assert_eq!(
        lro.verify(&encrypt_with_g1(&long), &encrypt_with_g2(&long)),
        Err(R1csError::WitnessLroMismatch)
    );
    assert_eq!(
        lro.verify(&encrypt_with_g1(&short), &encrypt_with_g2(&short)),
        Err(R1csError::WitnessLroMismatch)
    );
    assert_eq!(
        lro.verify(&encrypt_with_g1(&[]), &encrypt_with_g2(&[])),
        Err(R1csError::WitnessLroMismatch)
    );
}

#[test]
fn length_is_reported_before_the_constraints() {
    let bad_and_long: [i64; 7] = [1, 6, 2, 6, 36, 4, 0];
    assert_eq!(
        cubic().verify(&encrypt_with_g1(&bad_and_long), &encrypt_with_g2(&bad_and_long)),
        Err(R1csError::WitnessLroMismatch)
    );
}

#[test]
fn a_witness_that_breaks_one_constraint_is_rejected() {
    let lro = cubic();
    // y = 5, x = 1, z = 6: only the last constraint is broken by v1 = 26.
    let w: [i64; 6] = [1, 5, 1, 6, 26, 1];
    assert_eq!(
        lro.verify(&encrypt_with_g1(&w), &encrypt_with_g2(&w)),
        Err(R1csError::VerificationFailed)
    );
    // only the first constraint is broken by y = 4.
    let lro = LRO::new(
        &[vec![0, 1, 0], vec![1, 0, 0]],
        &[vec![0, 1, 0], vec![1, 0, 0]],
        &[vec![0, 0, 1], vec![1, 0, 0]],
    )
    .unwrap();
    let w: [i64; 3] = [1, 4, 25];
    assert_eq!(
        lro.verify(&encrypt_with_g1(&w), &encrypt_with_g2(&w)),
        Err(R1csError::VerificationFailed)
    );
    let w: [i64; 3] = [1, -5, 25];
    assert_eq!(lro.verify(&encrypt_with_g1(&w), &encrypt_with_g2(&w)), Ok(()));
}

#[test]
fn negative_coefficients_and_entries_work_in_the_field() {
    // (-3 + 2a) * (b) = -c, with a = -2, b = 4, c = 28
    let lro = LRO::new(&[vec![-3, 2, 0, 0]], &[vec![0, 0, 1, 0]], &[vec![0, 0, 0, -1]]).unwrap();
    let w: [i64; 4] = [1, -2, 4, 28];
    assert_eq!(lro.verify(&encrypt_with_g1(&w), &encrypt_with_g2(&w)), Ok(()));
    let w: [i64; 4] = [1, -2, 4, -28];
    assert_eq!(
        lro.verify(&encrypt_with_g1(&w), &encrypt_with_g2(&w)),
        Err(R1csError::VerificationFailed)
    );
}

#[test]
fn the_all_zero_witness_satisfies_a_homogeneous_system() {
    let lro = LRO::new(&[vec![1, 2]], &[vec![3, 4]], &[vec![5, 6]]).unwrap();
    let w: [i64; 2] = [0, 0];
    assert_eq!(lro.verify(&encrypt_with_g1(&w), &encrypt_with_g2(&w)), Ok(()));
    let id1 = [G1Affine::identity(), G1Affine::identity()];
    let id2 = [G2Affine::identity(), G2Affine::identity()];
    assert_eq!(lro.verify(&id1, &id2), Ok(()));
}

#[test]
fn a_short_row_uses_the_entries_it_has() {
    let lro = LRO::new(
        &[vec![0, 1], vec![1]],
        &[vec![0, 1], vec![1]],
        &[vec![9, 0], vec![1]],
    )
    .unwrap();
    let w: [i64; 2] = [1, 3];
    assert_eq!(lro.verify(&encrypt_with_g1(&w), &encrypt_with_g2(&w)), Ok(()));
    let w: [i64; 2] = [1, 4];
    assert_eq!(
        lro.verify(&encrypt_with_g1(&w), &encrypt_with_g2(&w)),
        Err(R1csError::VerificationFailed)
    );
}

#[test]
fn a_long_row_is_cut_at_the_witness() {
    let lro = LRO::new(
        &[vec![1], vec![1, 5]],
        &[vec![1], vec![1, 5]],
        &[vec![1], vec![1, 7]],
    )
    .unwrap();
    let w: [i64; 1] = [1];
    assert_eq!(lro.verify(&encrypt_with_g1(&w), &encrypt_with_g2(&w)), Ok(()));
}

#[test]
fn verifying_twice_gives_the_same_answer() {
    let lro = cubic();
    let good: [i64; 6] = [1, 5, 1, 6, 25, 1];
    let bad: [i64; 6] = [1, 6, 2, 6, 36, 4];
    let long: [i64; 7] = [1, 5, 1, 6, 25, 1, 2];
    let (g1, g2) = (encrypt_with_g1(&good), encrypt_with_g2(&good));
    let (b1, b2) = (encrypt_with_g1(&bad), encrypt_with_g2(&bad));
    let (l1, l2) = (encrypt_with_g1(&long), encrypt_with_g2(&long));
    for _ in 0..2 {
        assert_eq!(lro.verify(&g1, &g2), Ok(()));
        assert_eq!(lro.verify(&b1, &b2), Err(R1csError::VerificationFailed));
        assert_eq!(lro.verify(&l1, &l2), Err(R1csError::WitnessLroMismatch));
        assert_eq!(lro.verify(&g1, &b2), Err(R1csError::WitnessMismatch));
    }
    assert_eq!(lro.verify(&g1, &g2), lro.verify(&g1, &g2));
}

#[test]
fn messages_name_the_failure() {
    assert_eq!(R1csError::ShapeMismatch.message(), "LRO mismatch");
    assert_eq!(R1csError::WitnessMismatch.message(), "Witness mismatch");
    assert_eq!(R1csError::WitnessLroMismatch.message(), "Witness LRO mismatch");
    assert_eq!(R1csError::VerificationFailed.message(), "Verification failed");
}
