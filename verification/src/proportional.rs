//! The proportional term.

use crate::component::ControllerComponent;
use crate::scalar::Float;
use std::time::Duration;
use vstd::prelude::*;

verus! {

/// Scales the present error by a fixed gain. It keeps no history.
pub struct Proportional<T: Float> {
    gain: T,
}

/// What a proportional term is to its callers: its gain.
pub struct ProportionalModel<T> {
    pub gain: T,
}

impl<T: Float> ProportionalModel<T> {
    /// What the term returns for a set point and a measurement: the gain
    /// times the error. The sample time plays no part.
    pub open spec fn output(self, setpoint: T, measurement: T) -> T {
        self.gain.mul_spec(setpoint.sub_spec(measurement))
    }
}

impl<T: Float> View for Proportional<T> {
    type V = ProportionalModel<T>;

    closed spec fn view(&self) -> ProportionalModel<T> {
        ProportionalModel { gain: self.gain }
    }
}

impl<T: Float> Proportional<T> {
    pub fn new(gain: T) -> (term: Self)
        ensures
            term@ == (ProportionalModel { gain }),
    {
        Self { gain }
    }
}

impl<T: Float> ControllerComponent<T> for Proportional<T> {
    open spec fn init_spec(model: ProportionalModel<T>) -> ProportionalModel<T> {
        model
    }

    open spec fn update_spec(
        model: ProportionalModel<T>,
        setpoint: T,
        measurement: T,
        sample_time: Duration,
    ) -> (ProportionalModel<T>, T) {
        (model, model.output(setpoint, measurement))
    }

    /// Leaves the term as it is: there is no history to clear.
    fn init(&mut self)
        ensures
            final(self)@ == old(self)@,
    {
    }

    /// Returns the gain times the error, whatever the sample time.
    fn update(&mut self, setpoint: T, measurement: T, sample_time: &Duration) -> (output: T)
        ensures
            final(self)@ == old(self)@,
            output == old(self)@.output(setpoint, measurement),
    {
        let error = setpoint.sub(measurement);
        self.gain.mul(error)
    }
}

} // verus!
