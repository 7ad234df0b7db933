// The field arithmetic behind the permutation is reached through the
// public transition-residual evaluator: residual 0 is a field subtraction
// of two trace cells, and residual 5 folds a cube and a sum of cells, so
// exact expected values pin the modular arithmetic down.
use zk_chat::zk::air::evaluate_transition;
use zk_chat::zk::field::FIELD_MODULUS;

fn rows_with(curr_vals: &[(usize, u128)], next_vals: &[(usize, u128)]) -> (Vec<u128>, Vec<u128>) {
    let mut curr = vec![0u128; 19];
    let mut next = vec![0u128; 19];
    for &(i, v) in curr_vals {
        curr[i] = v;
    }
    for &(i, v) in next_vals {
        next[i] = v;
    }
    (curr, next)
}

#[test]
fn subtraction_wraps_below_zero() {
    // residual[0] = next[0] - curr[4] in the field.
    let (curr, next) = rows_with(&[(4, 5)], &[(0, 3)]);
    let r = evaluate_transition(&curr, &next);
    assert_eq!(r[0], FIELD_MODULUS - 2);
    let (curr, next) = rows_with(&[(4, 4)], &[(0, 10)]);
    let r = evaluate_transition(&curr, &next);
    assert_eq!(r[0], 6);
}

#[test]
fn addition_wraps_at_the_modulus() {
    // residual[5] = next[18] - (curr[18]^3 + sum(next[11..=17])); with a zero
    // partial-hash cell the sum (FIELD_MODULUS - 1) + 5 must reduce to 4.
    let (curr, next) = rows_with(&[], &[(11, FIELD_MODULUS - 1), (12, 5)]);
    let r = evaluate_transition(&curr, &next);
    assert_eq!(r[5], FIELD_MODULUS - 4);
}

#[test]
fn multiplication_reduces_exactly() {
    // curr[18] = 2^64, so its cube is 2^192 mod M. With
    // M = 2^128 - 45*2^40 + 1 this is 45*2^104 - 2^64, and the residual is
    // its field negation.
    let two64: u128 = 1u128 << 64;
    let cube = 45 * (1u128 << 104) - two64;
    let (curr, next) = rows_with(&[(18, two64)], &[]);
    let r = evaluate_transition(&curr, &next);
    assert_eq!(r[5], FIELD_MODULUS - cube);
}
