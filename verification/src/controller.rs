//! The controller: three terms, one sample time and one output limit.

use crate::component::ControllerComponent;
use crate::differentiator::{Differentiator, DifferentiatorModel};
use crate::integrator::{Integrator, IntegratorModel};
use crate::proportional::{Proportional, ProportionalModel};
use crate::limit::{clamp_spec, lemma_clamp_within, well_formed, within};
use crate::scalar::Float;
use std::ops::Range;
use std::time::Duration;
use vstd::prelude::*;

verus! {

/// A PID controller. It owns its three terms and drives them at a fixed
/// sample time; the sum of their outputs is clamped to the output limit.
pub struct Controller<T: Float> {
    output_limit: Range<T>,
    sample_time: Duration,
    p: Proportional<T>,
    i: Integrator<T>,
    d: Differentiator<T>,
    out: T,
}

/// What a controller is to its callers.
pub struct ControllerModel<T> {
    pub output_limit: Range<T>,
    pub sample_time: Duration,
    pub p: ProportionalModel<T>,
    pub i: IntegratorModel<T>,
    pub d: DifferentiatorModel<T>,
    /// The latest output.
    pub out: T,
}

impl<T: Float> ControllerModel<T> {
    /// A controller put together from its parts, with no output yet.
    pub open spec fn assemble(
        output_limit: Range<T>,
        sample_time: Duration,
        p: ProportionalModel<T>,
        i: IntegratorModel<T>,
        d: DifferentiatorModel<T>,
    ) -> Self {
        ControllerModel { output_limit, sample_time, p, i, d, out: T::zero_spec() }
    }

    /// The controller with the history of every term and its own output
    /// cleared, and its limits, gains and sample time kept.
    pub open spec fn reset(self) -> Self {
        Self::assemble(self.output_limit, self.sample_time, self.p, self.i.reset(), self.d.reset())
    }

    /// The sum of the three terms' outputs for one sample, before the
    /// controller clamps it. The integral and the derivative term are read
    /// after their own step.
    pub open spec fn raw_output(self, setpoint: T, measurement: T) -> T {
        self.p.output(setpoint, measurement).add_spec(
            self.i.step(setpoint, measurement, self.sample_time).value,
        ).add_spec(self.d.step(measurement, self.sample_time).value)
    }

    /// The controller after one sample. Its `out` is what `update` returns.
    pub open spec fn step(self, setpoint: T, measurement: T) -> Self {
        ControllerModel {
            output_limit: self.output_limit,
            sample_time: self.sample_time,
            p: self.p,
            i: self.i.step(setpoint, measurement, self.sample_time),
            d: self.d.step(measurement, self.sample_time),
            out: clamp_spec(self.output_limit, self.raw_output(setpoint, measurement)),
        }
    }

    /// The controller after a run of samples, each a set point and a
    /// measurement, taken in order.
    pub open spec fn run(self, samples: Seq<(T, T)>) -> Self
        decreases samples.len(),
    {
        if samples.len() == 0 {
            self
        } else {
            self.run(samples.drop_last()).step(samples.last().0, samples.last().1)
        }
    }

    /// Whether the controller has no history: no term has any, and the
    /// latest output is zero.
    pub open spec fn is_cleared(self) -> bool {
        self.i.is_cleared() && self.d.is_cleared() && self.out == T::zero_spec()
    }

    /// Whether two controllers are configured alike: the same limits, sample
    /// time, gains and time constant. Their histories may differ.
    pub open spec fn same_configuration(self, other: Self) -> bool {
        &&& self.output_limit == other.output_limit
        &&& self.sample_time == other.sample_time
        &&& self.p.gain == other.p.gain
        &&& self.i.gain == other.i.gain
        &&& self.i.output_limit == other.i.output_limit
        &&& self.d.gain == other.d.gain
        &&& self.d.time_constant == other.d.time_constant
    }
}

impl<T: Float> View for Controller<T> {
    type V = ControllerModel<T>;

    closed spec fn view(&self) -> ControllerModel<T> {
        ControllerModel {
            output_limit: self.output_limit,
            sample_time: self.sample_time,
            p: self.p@,
            i: self.i@,
            d: self.d@,
            out: self.out,
        }
    }
}

impl<T: Float> Controller<T> {
    /// Puts a controller together from its parts. Neither the order of the
    /// limit's ends nor the length of the sample time is looked at.
    pub fn new(
        output_limit: Range<T>,
        sample_time: Duration,
        p: Proportional<T>,
        i: Integrator<T>,
        d: Differentiator<T>,
    ) -> (controller: Self)
        ensures
            controller@ == ControllerModel::assemble(output_limit, sample_time, p@, i@, d@),
    {
        Self { output_limit, sample_time, p, i, d, out: T::zero() }
    }

    /// Clears the history of the three terms and the latest output.
    pub fn init(&mut self)
        ensures
            final(self)@ == old(self)@.reset(),
    {
        self.p.init();
        self.i.init();
        self.d.init();
        self.out = T::zero();
    }

    /// Drives the three terms with one sample, adds their outputs, clamps the
    /// sum and returns it. Under a proper output limit the result lies inside
    /// that limit.
    pub fn update(&mut self, setpoint: T, measurement: T) -> (output: T)
        ensures
            final(self)@ == old(self)@.step(setpoint, measurement),
            output == final(self)@.out,
            well_formed(old(self)@.output_limit) ==> within(old(self)@.output_limit, output),
    {
        let p = self.p.update(setpoint, measurement, &self.sample_time);
        let i = self.i.update(setpoint, measurement, &self.sample_time);
        let d = self.d.update(setpoint, measurement, &self.sample_time);
        self.out = p.add(i).add(d);
        if self.output_limit.end.lt(self.out) {
            self.out = self.output_limit.end;
        } else if self.out.lt(self.output_limit.start) {
            self.out = self.output_limit.start;
        }
        proof {
            if well_formed(old(self)@.output_limit) {
                lemma_clamp_within(
                    old(self)@.output_limit,
                    old(self)@.raw_output(setpoint, measurement),
                );
            }
        }
        self.out
    }
}

} // verus!
