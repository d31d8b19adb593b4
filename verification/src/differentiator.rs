//! The derivative term: a low-pass filtered rate of change of the measurement.

use crate::component::ControllerComponent;
use crate::scalar::Float;
use std::time::Duration;
use vstd::prelude::*;

verus! {

/// Differentiates the measurement, not the error, so that a jump of the set
/// point causes no spike, and smooths the result with a first-order filter.
pub struct Differentiator<T: Float> {
    value: T,
    gain: T,
    time_constant: T,
    previous_measurement: T,
}

/// What a derivative term is to its callers.
pub struct DifferentiatorModel<T> {
    /// The filtered derivative, which is also the latest output.
    pub value: T,
    pub gain: T,
    /// The time constant of the filter.
    pub time_constant: T,
    /// The measurement of the sample before.
    pub previous_measurement: T,
}

impl<T: Float> DifferentiatorModel<T> {
    /// A term that has seen no sample yet.
    pub open spec fn fresh(gain: T, time_constant: T) -> Self {
        DifferentiatorModel {
            value: T::zero_spec(),
            gain,
            time_constant,
            previous_measurement: T::zero_spec(),
        }
    }

    /// The term with its history cleared and its configuration kept.
    pub open spec fn reset(self) -> Self {
        Self::fresh(self.gain, self.time_constant)
    }

    /// What the filter keeps of its old value: the value weighted by twice
    /// the time constant less the sample time.
    pub open spec fn memory(self, sample_time: Duration) -> T {
        T::double_spec().mul_spec(self.time_constant).sub_spec(
            T::from_duration_spec(sample_time),
        ).mul_spec(self.value)
    }

    /// The numerator of the filter for a new measurement: minus the sum of
    /// twice the gain times the change of the measurement and what the
    /// filter keeps of its old value.
    pub open spec fn numerator(self, measurement: T, sample_time: Duration) -> T {
        T::negative_spec().mul_spec(
            T::double_spec().mul_spec(self.gain).mul_spec(
                measurement.sub_spec(self.previous_measurement),
            ).add_spec(self.memory(sample_time)),
        )
    }

    /// The denominator of the filter: twice the time constant plus the
    /// sample time.
    pub open spec fn denominator(self, sample_time: Duration) -> T {
        T::double_spec().mul_spec(self.time_constant).add_spec(T::from_duration_spec(sample_time))
    }

    /// The term after one sample. Its `value` is what `update` returns.
    pub open spec fn step(self, measurement: T, sample_time: Duration) -> Self {
        DifferentiatorModel {
            value: self.numerator(measurement, sample_time).div_spec(
                self.denominator(sample_time),
            ),
            gain: self.gain,
            time_constant: self.time_constant,
            previous_measurement: measurement,
        }
    }

    /// Whether the term has no history: its value and its remembered
    /// measurement are zero.
    pub open spec fn is_cleared(self) -> bool {
        self.value == T::zero_spec() && self.previous_measurement == T::zero_spec()
    }
}

impl<T: Float> View for Differentiator<T> {
    type V = DifferentiatorModel<T>;

    closed spec fn view(&self) -> DifferentiatorModel<T> {
        DifferentiatorModel {
            value: self.value,
            gain: self.gain,
            time_constant: self.time_constant,
            previous_measurement: self.previous_measurement,
        }
    }
}

impl<T: Float> Differentiator<T> {
    pub fn new(gain: T, time_constant: T) -> (term: Self)
        ensures
            term@ == DifferentiatorModel::fresh(gain, time_constant),
    {
        Self { value: T::zero(), gain, time_constant, previous_measurement: T::zero() }
    }
}

impl<T: Float> ControllerComponent<T> for Differentiator<T> {
    open spec fn init_spec(model: DifferentiatorModel<T>) -> DifferentiatorModel<T> {
        model.reset()
    }

    open spec fn update_spec(
        model: DifferentiatorModel<T>,
        setpoint: T,
        measurement: T,
        sample_time: Duration,
    ) -> (DifferentiatorModel<T>, T) {
        let next = model.step(measurement, sample_time);
        (next, next.value)
    }

    /// Clears the filtered value and the remembered measurement.
    fn init(&mut self)
        ensures
            final(self)@ == old(self)@.reset(),
    {
        self.value = T::zero();
        self.previous_measurement = T::zero();
    }

    /// Runs the filter on the new measurement and returns the filtered
    /// derivative. The set point is not looked at. Nothing guards the
    /// division: where the denominator is zero the result is whatever the
    /// scalar's division gives.
    fn update(&mut self, setpoint: T, measurement: T, sample_time: &Duration) -> (output: T)
        ensures
            final(self)@ == old(self)@.step(measurement, *sample_time),
            output == final(self)@.value,
    {
        let measurement_error = measurement.sub(self.previous_measurement);
        let numerator = T::negative().mul(
            T::double().mul(self.gain).mul(measurement_error).add(
                T::double().mul(self.time_constant).sub(T::from_duration(sample_time)).mul(
                    self.value,
                ),
            ),
        );
        let denominator = T::double().mul(self.time_constant).add(T::from_duration(sample_time));
        self.previous_measurement = measurement;
        self.value = numerator.div(denominator);
        self.value
    }
}

} // verus!
