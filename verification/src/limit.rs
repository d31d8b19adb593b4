//! Closed intervals of a scalar, and clamping into them.

use crate::scalar::Float;
use std::ops::Range;
use vstd::prelude::*;

verus! {

/// Whether `value` lies in the closed interval from `limit.start` to
/// `limit.end`: it is neither below the start nor above the end.
pub open spec fn within<T: Float>(limit: Range<T>, value: T) -> bool {
    !value.lt_spec(limit.start) && !limit.end.lt_spec(value)
}

/// Whether `limit` is a proper closed interval: it holds both of its ends.
/// For an ordering in which nothing is below itself this says that the end
/// is not below the start.
pub open spec fn well_formed<T: Float>(limit: Range<T>) -> bool {
    within(limit, limit.start) && within(limit, limit.end)
}

/// `value` pulled into `limit`: the end where `value` is above it, else the
/// start where `value` is below it, else `value` itself.
pub open spec fn clamp_spec<T: Float>(limit: Range<T>, value: T) -> T {
    if limit.end.lt_spec(value) {
        limit.end
    } else if value.lt_spec(limit.start) {
        limit.start
    } else {
        value
    }
}

/// A clamped value lies in the interval it was clamped to, whenever that
/// interval is a proper one.
pub proof fn lemma_clamp_within<T: Float>(limit: Range<T>, value: T)
    requires
        well_formed(limit),
    ensures
        within(limit, clamp_spec(limit, value)),
{
}

/// Clamping leaves alone what already lies in the interval.
pub proof fn lemma_clamp_inside<T: Float>(limit: Range<T>, value: T)
    requires
        within(limit, value),
    ensures
        clamp_spec(limit, value) == value,
{
}

} // verus!
