//! The result validator: element-wise comparison of produced output
//! against expected reference values within a tolerance.
//!
//! The two sequences need not have the same length: comparison zips to
//! the shorter one, and elements beyond that length are simply not
//! checked — a designed leniency, not an accident. A pair passes when
//! the absolute difference is strictly below the tolerance; the first
//! violation aborts the run, with no accumulation of later failures.

use vstd::prelude::*;
use crate::error::ValidationError;

verus! {

/// Whether one compared pair passes: the absolute difference is
/// strictly below the tolerance (`<`, not `<=`, so a difference exactly
/// at the tolerance fails).
pub open spec fn within_tolerance(expected: i64, actual: i64, tolerance: i64) -> bool {
    -tolerance < expected - actual < tolerance
}

/// How many leading pairs the validator checks: the shorter length.
pub open spec fn compared_len(expected: Seq<i64>, actual: Seq<i64>) -> int {
    if expected.len() <= actual.len() {
        expected.len() as int
    } else {
        actual.len() as int
    }
}

/// Whether every compared pair passes.
pub open spec fn all_within_tolerance(
    expected: Seq<i64>,
    actual: Seq<i64>,
    tolerance: i64,
) -> bool {
    forall|i: int|
        0 <= i < compared_len(expected, actual) ==> within_tolerance(
            expected[i],
            actual[i],
            tolerance,
        )
}

/// Compares `expected` and `actual` element-wise within `tolerance`.
///
/// Returns `Ok` exactly when every compared pair — up to the shorter
/// length — passes; a length mismatch alone never fails. Otherwise
/// reports the first violating pair, with its index and both values.
pub fn validate(expected: &Vec<i64>, actual: &Vec<i64>, tolerance: i64) -> (r: Result<
    (),
    ValidationError,
>)
    ensures
        r is Ok <==> all_within_tolerance(expected@, actual@, tolerance),
        r matches Err(e) ==> {
            &&& e matches ValidationError::Mismatch { index, expected: ev, actual: av }
            &&& 0 <= index < compared_len(expected@, actual@)
            &&& ev == expected@[index as int]
            &&& av == actual@[index as int]
            &&& !within_tolerance(ev, av, tolerance)
            &&& forall|j: int|
                0 <= j < index ==> within_tolerance(expected@[j], actual@[j], tolerance)
        },
{
    let n: usize = if expected.len() <= actual.len() {
        expected.len()
    } else {
        actual.len()
    };
    let mut i: usize = 0;
    while i < n
        invariant
            n == compared_len(expected@, actual@),
            n <= expected@.len(),
            n <= actual@.len(),
            i <= n,
            forall|j: int| 0 <= j < i ==> within_tolerance(expected@[j], actual@[j], tolerance),
        decreases n - i,
    {
        let ev = expected[i];
        let av = actual[i];
        let diff: i128 = (ev as i128) - (av as i128);
        let tol: i128 = tolerance as i128;
        if !(-tol < diff && diff < tol) {
            assert(!within_tolerance(expected@[i as int], actual@[i as int], tolerance));
            return Err(ValidationError::Mismatch { index: i, expected: ev, actual: av });
        }
        i = i + 1;
    }
    Ok(())
}

} // verus!
