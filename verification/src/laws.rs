//! What holds of the terms and of the controller over whole runs of samples.
//!
//! The scalar's operations are not assumed to obey any algebra. A law that
//! needs a fact of arithmetic asks for it, of the very values it is used on.

use crate::controller::ControllerModel;
use crate::differentiator::DifferentiatorModel;
use crate::integrator::IntegratorModel;
use crate::proportional::ProportionalModel;
use crate::limit::{lemma_clamp_inside, lemma_clamp_within, well_formed, within};
use crate::scalar::Float;
use std::time::Duration;
use vstd::prelude::*;

verus! {

/// The proportional output is the gain times the error and nothing else: two
/// terms of one gain agree on every sample, whatever came before and
/// whatever the sample time.
pub proof fn lemma_proportional_determined<T: Float>(
    a: ProportionalModel<T>,
    b: ProportionalModel<T>,
    setpoint: T,
    measurement: T,
)
    requires
        a.gain == b.gain,
    ensures
        a.output(setpoint, measurement) == b.output(setpoint, measurement),
        a.output(setpoint, measurement) == a.gain.mul_spec(setpoint.sub_spec(measurement)),
{
}

/// A run of samples changes neither the gain nor the output limit of an
/// integral term.
pub proof fn lemma_integrator_run_keeps_configuration<T: Float>(
    term: IntegratorModel<T>,
    samples: Seq<(T, T)>,
    sample_time: Duration,
)
    ensures
        term.run(samples, sample_time).gain == term.gain,
        term.run(samples, sample_time).output_limit == term.output_limit,
    decreases samples.len(),
{
    if samples.len() > 0 {
        lemma_integrator_run_keeps_configuration(term, samples.drop_last(), sample_time);
    }
}

/// Anti-windup: after any run of at least one sample, the value of an
/// integral term lies inside its output limit, provided that the limit is a
/// proper interval. Where the term came from does not matter.
pub proof fn lemma_integrator_run_within<T: Float>(
    term: IntegratorModel<T>,
    samples: Seq<(T, T)>,
    sample_time: Duration,
)
    requires
        well_formed(term.output_limit),
        samples.len() > 0,
    ensures
        within(term.output_limit, term.run(samples, sample_time).value),
{
    let before = term.run(samples.drop_last(), sample_time);
    lemma_integrator_run_keeps_configuration(term, samples.drop_last(), sample_time);
    let error = samples.last().0.sub_spec(samples.last().1);
    lemma_clamp_within(
        term.output_limit,
        before.value.add_spec(before.increment(error, sample_time)),
    );
}

/// A cleared integral term that only sees samples of zero error stays
/// cleared, however many they are: its value stays at zero.
///
/// Three facts of the scalar are asked for: zero plus zero is zero, the
/// weight of one sample times zero is zero, and zero lies inside the output
/// limit.
pub proof fn lemma_integrator_rests_at_zero<T: Float>(
    term: IntegratorModel<T>,
    samples: Seq<(T, T)>,
    sample_time: Duration,
)
    requires
        term.is_cleared(),
        forall|k: int|
            0 <= k < samples.len() ==> (#[trigger] samples[k]).0.sub_spec(samples[k].1)
                == T::zero_spec(),
        T::zero_spec().add_spec(T::zero_spec()) == T::zero_spec(),
        term.weight(sample_time).mul_spec(T::zero_spec()) == T::zero_spec(),
        within(term.output_limit, T::zero_spec()),
    ensures
        term.run(samples, sample_time) == term,
        term.run(samples, sample_time).value == T::zero_spec(),
    decreases samples.len(),
{
    if samples.len() > 0 {
        lemma_integrator_rests_at_zero(term, samples.drop_last(), sample_time);
        assert(samples.last() == samples[samples.len() - 1]);
        lemma_clamp_inside(term.output_limit, T::zero_spec());
    }
}

/// A derivative term that sees the measurement it saw before adds nothing
/// new: the gain drops out, and the new value is what the filter keeps of
/// the old one, negated and divided by the filter's denominator.
///
/// Two facts of the scalar are asked for: twice the gain times zero is zero,
/// and zero plus what the filter keeps is what the filter keeps.
pub proof fn lemma_differentiator_steady<T: Float>(
    term: DifferentiatorModel<T>,
    measurement: T,
    sample_time: Duration,
)
    requires
        measurement.sub_spec(term.previous_measurement) == T::zero_spec(),
        T::double_spec().mul_spec(term.gain).mul_spec(T::zero_spec()) == T::zero_spec(),
        T::zero_spec().add_spec(term.memory(sample_time)) == term.memory(sample_time),
    ensures
        term.step(measurement, sample_time).value == T::negative_spec().mul_spec(
            term.memory(sample_time),
        ).div_spec(term.denominator(sample_time)),
{
}

/// A run of samples changes nothing of a controller's configuration.
pub proof fn lemma_controller_run_keeps_configuration<T: Float>(
    controller: ControllerModel<T>,
    samples: Seq<(T, T)>,
)
    ensures
        controller.run(samples).same_configuration(controller),
    decreases samples.len(),
{
    if samples.len() > 0 {
        lemma_controller_run_keeps_configuration(controller, samples.drop_last());
    }
}

/// After any run of at least one sample, the output of a controller lies
/// inside its output limit, provided that the limit is a proper interval.
/// Neither the gains nor the size of the error matter.
pub proof fn lemma_controller_run_within<T: Float>(
    controller: ControllerModel<T>,
    samples: Seq<(T, T)>,
)
    requires
        well_formed(controller.output_limit),
        samples.len() > 0,
    ensures
        within(controller.output_limit, controller.run(samples).out),
{
    let before = controller.run(samples.drop_last());
    lemma_controller_run_keeps_configuration(controller, samples.drop_last());
    lemma_clamp_within(
        controller.output_limit,
        before.raw_output(samples.last().0, samples.last().1),
    );
}

/// Resetting is as good as building anew: a controller that was reset and a
/// cleared controller of the same configuration are one and the same, so
/// they give the same output for the next sample and for every run after.
pub proof fn lemma_reset_is_fresh<T: Float>(
    used: ControllerModel<T>,
    fresh: ControllerModel<T>,
    setpoint: T,
    measurement: T,
)
    requires
        fresh.is_cleared(),
        used.same_configuration(fresh),
    ensures
        used.reset() == fresh,
        used.reset().step(setpoint, measurement) == fresh.step(setpoint, measurement),
        used.reset().step(setpoint, measurement).out == fresh.step(setpoint, measurement).out,
{
}

/// Resetting changes nothing of the configuration and leaves no history.
pub proof fn lemma_reset_clears<T: Float>(controller: ControllerModel<T>)
    ensures
        controller.reset().is_cleared(),
        controller.reset().same_configuration(controller),
        controller.reset().reset() == controller.reset(),
{
}

} // verus!
