//! The integral term, with its anti-windup clamp.

use crate::component::ControllerComponent;
use crate::limit::{clamp_spec, lemma_clamp_within, well_formed, within};
use crate::scalar::Float;
use std::ops::Range;
use std::time::Duration;
use vstd::prelude::*;

verus! {

/// Accumulates the scaled error by the trapezoidal rule and keeps the
/// accumulated value inside its own output limit.
pub struct Integrator<T: Float> {
    value: T,
    gain: T,
    previous_error: T,
    output_limit: Range<T>,
}

/// What an integral term is to its callers.
pub struct IntegratorModel<T> {
    /// The accumulated value, which is also the latest output.
    pub value: T,
    pub gain: T,
    /// The error of the sample before.
    pub previous_error: T,
    pub output_limit: Range<T>,
}

impl<T: Float> IntegratorModel<T> {
    /// A term that has seen no sample yet.
    pub open spec fn fresh(gain: T, output_limit: Range<T>) -> Self {
        IntegratorModel {
            value: T::zero_spec(),
            gain,
            previous_error: T::zero_spec(),
            output_limit,
        }
    }

    /// The term with its history cleared and its configuration kept.
    pub open spec fn reset(self) -> Self {
        Self::fresh(self.gain, self.output_limit)
    }

    /// The weight of one sample: half the gain times the sample time in
    /// seconds.
    pub open spec fn weight(self, sample_time: Duration) -> T {
        T::half_spec().mul_spec(self.gain).mul_spec(T::from_duration_spec(sample_time))
    }

    /// What one sample adds to the accumulated value: the area of the
    /// trapezoid under the last two errors, times the gain.
    pub open spec fn increment(self, error: T, sample_time: Duration) -> T {
        self.weight(sample_time).mul_spec(error.add_spec(self.previous_error))
    }

    /// The term after one sample. Its `value` is what `update` returns.
    pub open spec fn step(self, setpoint: T, measurement: T, sample_time: Duration) -> Self {
        let error = setpoint.sub_spec(measurement);
        IntegratorModel {
            value: clamp_spec(
                self.output_limit,
                self.value.add_spec(self.increment(error, sample_time)),
            ),
            gain: self.gain,
            previous_error: error,
            output_limit: self.output_limit,
        }
    }

    /// The term after a run of samples, each a set point and a measurement,
    /// taken in order at one sample time.
    pub open spec fn run(self, samples: Seq<(T, T)>, sample_time: Duration) -> Self
        decreases samples.len(),
    {
        if samples.len() == 0 {
            self
        } else {
            self.run(samples.drop_last(), sample_time).step(
                samples.last().0,
                samples.last().1,
                sample_time,
            )
        }
    }

    /// Whether the term has no history: its value and its remembered error
    /// are zero.
    pub open spec fn is_cleared(self) -> bool {
        self.value == T::zero_spec() && self.previous_error == T::zero_spec()
    }
}

impl<T: Float> View for Integrator<T> {
    type V = IntegratorModel<T>;

    closed spec fn view(&self) -> IntegratorModel<T> {
        IntegratorModel {
            value: self.value,
            gain: self.gain,
            previous_error: self.previous_error,
            output_limit: self.output_limit,
        }
    }
}

impl<T: Float> Integrator<T> {
    pub fn new(gain: T, output_limit: Range<T>) -> (term: Self)
        ensures
            term@ == IntegratorModel::fresh(gain, output_limit),
    {
        Self { value: T::zero(), gain, previous_error: T::zero(), output_limit }
    }

    /// Pulls the accumulated value into the output limit.
    fn clamp_value(&mut self)
        ensures
            final(self)@.value == clamp_spec(old(self)@.output_limit, old(self)@.value),
            final(self)@.gain == old(self)@.gain,
            final(self)@.previous_error == old(self)@.previous_error,
            final(self)@.output_limit == old(self)@.output_limit,
    {
        if self.output_limit.end.lt(self.value) {
            self.value = self.output_limit.end;
        } else if self.value.lt(self.output_limit.start) {
            self.value = self.output_limit.start;
        }
    }
}

impl<T: Float> ControllerComponent<T> for Integrator<T> {
    open spec fn init_spec(model: IntegratorModel<T>) -> IntegratorModel<T> {
        model.reset()
    }

    open spec fn update_spec(
        model: IntegratorModel<T>,
        setpoint: T,
        measurement: T,
        sample_time: Duration,
    ) -> (IntegratorModel<T>, T) {
        let next = model.step(setpoint, measurement, sample_time);
        (next, next.value)
    }

    /// Clears the accumulated value and the remembered error.
    fn init(&mut self)
        ensures
            final(self)@ == old(self)@.reset(),
    {
        self.value = T::zero();
        self.previous_error = T::zero();
    }

    /// Adds one trapezoid to the accumulated value, clamps it and returns it.
    /// Under a proper output limit the result lies inside that limit.
    fn update(&mut self, setpoint: T, measurement: T, sample_time: &Duration) -> (output: T)
        ensures
            final(self)@ == old(self)@.step(setpoint, measurement, *sample_time),
            output == final(self)@.value,
            well_formed(old(self)@.output_limit) ==> within(old(self)@.output_limit, output),
    {
        let error = setpoint.sub(measurement);
        let new_value = T::half().mul(self.gain).mul(T::from_duration(sample_time)).mul(
            error.add(self.previous_error),
        );
        self.value = self.value.add(new_value);
        self.clamp_value();
        self.previous_error = error;
        proof {
            if well_formed(old(self)@.output_limit) {
                lemma_clamp_within(
                    old(self)@.output_limit,
                    old(self)@.value.add_spec(old(self)@.increment(error, *sample_time)),
                );
            }
        }
        self.value
    }
}

} // verus!
