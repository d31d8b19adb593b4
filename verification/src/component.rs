//! The interface that the three terms of a controller share.

use crate::scalar::Float;
use std::time::Duration;
use vstd::prelude::*;

verus! {

/// One term of a controller: a small state machine that is reset by `init`
/// and advanced by `update`, once per sample.
///
/// Both operations are functions of the term's model and of their arguments.
/// Each implementation says which functions.
pub trait ControllerComponent<T: Float>: View + Sized {
    /// The model of the term as `init` leaves it.
    spec fn init_spec(model: Self::V) -> Self::V;

    /// The model of the term after one sample, and what `update` returns for
    /// that sample.
    spec fn update_spec(model: Self::V, setpoint: T, measurement: T, sample_time: Duration) -> (
        Self::V,
        T,
    );

    /// Clears the history of the term and keeps its configuration.
    fn init(&mut self)
        ensures
            final(self)@ == Self::init_spec(old(self)@),
    ;

    /// Advances the term by one sample and returns its contribution.
    fn update(&mut self, setpoint: T, measurement: T, sample_time: &Duration) -> (output: T)
        ensures
            (final(self)@, output) == Self::update_spec(
                old(self)@,
                setpoint,
                measurement,
                *sample_time,
            ),
    ;
}

} // verus!
