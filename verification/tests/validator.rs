use inference_harness::error::ValidationError;
use inference_harness::validate::validate;

#[test]
fn length_mismatch_alone_never_fails() {
    // Only the overlapping prefix is checked.
    assert_eq!(validate(&vec![1, 2, 3], &vec![1, 2], 1), Ok(()));
    assert_eq!(validate(&vec![1, 2], &vec![1, 2, 3], 1), Ok(()));
}

#[test]
fn empty_sequences_always_pass() {
    assert_eq!(validate(&vec![], &vec![], 1), Ok(()));
    assert_eq!(validate(&vec![], &vec![5, 6], 1), Ok(()));
    assert_eq!(validate(&vec![5, 6], &vec![], 1), Ok(()));
}

#[test]
fn difference_strictly_below_tolerance_passes() {
    assert_eq!(validate(&vec![100], &vec![98], 3), Ok(()));
    assert_eq!(validate(&vec![98], &vec![100], 3), Ok(()));
}

#[test]
fn difference_exactly_at_tolerance_fails() {
    // The comparison is strict: |expected - actual| == tolerance fails.
    let r = validate(&vec![100], &vec![97], 3);
    assert_eq!(
        r,
        Err(ValidationError::Mismatch { index: 0, expected: 100, actual: 97 })
    );
    let r = validate(&vec![97], &vec![100], 3);
    assert_eq!(
        r,
        Err(ValidationError::Mismatch { index: 0, expected: 97, actual: 100 })
    );
}

#[test]
fn first_violation_aborts_the_run() {
    let r = validate(&vec![10, 20, 30, 40], &vec![10, 25, 30, 90], 4);
    assert_eq!(
        r,
        Err(ValidationError::Mismatch { index: 1, expected: 20, actual: 25 })
    );
}

#[test]
fn negative_values_compare_by_absolute_difference() {
    assert_eq!(validate(&vec![-5], &vec![-7], 3), Ok(()));
    let r = validate(&vec![-5], &vec![7], 3);
    assert_eq!(
        r,
        Err(ValidationError::Mismatch { index: 0, expected: -5, actual: 7 })
    );
}

#[test]
fn extreme_values_do_not_wrap_around() {
    let r = validate(&vec![i64::MAX], &vec![i64::MIN], 10);
    assert_eq!(
        r,
        Err(ValidationError::Mismatch { index: 0, expected: i64::MAX, actual: i64::MIN })
    );
}

#[test]
fn zero_tolerance_rejects_even_equal_values() {
    // |e - a| < 0 never holds.
    let r = validate(&vec![5], &vec![5], 0);
    assert_eq!(
        r,
        Err(ValidationError::Mismatch { index: 0, expected: 5, actual: 5 })
    );
}
