//! How many points a smoothed curve has. The points themselves are
//! floating-point work and are computed outside this library.

use vstd::prelude::*;

verus! {

/// Number of points of the curve smoothed from `raw_len` raw points towards
/// `target_density` points: fewer than two raw points are left as they are,
/// and otherwise resampling only ever adds points.
pub open spec fn smoothed_len(raw_len: nat, target_density: nat) -> nat {
    if raw_len < 2 || target_density <= raw_len {
        raw_len
    } else {
        target_density
    }
}

/// Number of points to resample a curve of `raw_len` raw points into.
pub fn resample_count(raw_len: usize, target_density: usize) -> (count: usize)
    ensures
        count == smoothed_len(raw_len as nat, target_density as nat),
{
    if raw_len < 2 || target_density <= raw_len {
        raw_len
    } else {
        target_density
    }
}

/// Smoothing never loses points, never takes more than the larger of the two
/// counts, and gives a curve of at least two points exactly when it was given
/// one.
pub proof fn lemma_smoothing_only_densifies(raw_len: nat, target_density: nat)
    ensures
        smoothed_len(raw_len, target_density) >= raw_len,
        smoothed_len(raw_len, target_density) == raw_len || smoothed_len(raw_len, target_density)
            == target_density,
        raw_len < 2 ==> smoothed_len(raw_len, target_density) == raw_len,
        smoothed_len(raw_len, target_density) >= 2 <==> raw_len >= 2,
{
}

} // verus!
