use pid::{ControllerComponent, Differentiator, Float, Integrator, Proportional};
use std::time::Duration;

/// A double-precision scalar.
#[derive(Clone, Copy, Debug, PartialEq, PartialOrd)]
struct Double(f64);

// Each `_spec` function says what the operation of the same name stands for
// in the controller's contracts: here, the operation itself.
impl Float for Double {
    fn negative_spec() -> Self {
        Self::negative()
    }
    fn double_spec() -> Self {
        Self::double()
    }
    fn one_spec() -> Self {
        Self::one()
    }
    fn half_spec() -> Self {
        Self::half()
    }
    fn zero_spec() -> Self {
        Self::zero()
    }
    fn from_duration_spec(dur: Duration) -> Self {
        Self::from_duration(&dur)
    }
    fn add_spec(self, rhs: Self) -> Self {
        self.add(rhs)
    }
    fn sub_spec(self, rhs: Self) -> Self {
        self.sub(rhs)
    }
    fn mul_spec(self, rhs: Self) -> Self {
        self.mul(rhs)
    }
    fn div_spec(self, rhs: Self) -> Self {
        self.div(rhs)
    }
    fn lt_spec(self, rhs: Self) -> bool {
        self.lt(rhs)
    }
    fn negative() -> Self {
        Double(-1.0)
    }
    fn double() -> Self {
        Double(2.0)
    }
    fn one() -> Self {
        Double(1.0)
    }
    fn half() -> Self {
        Double(0.5)
    }
    fn zero() -> Self {
        Double(0.0)
    }
    fn from_duration(dur: &Duration) -> Self {
        Double(dur.as_secs_f64())
    }
    fn add(self, rhs: Self) -> Self {
        Double(self.0 + rhs.0)
    }
    fn sub(self, rhs: Self) -> Self {
        Double(self.0 - rhs.0)
    }
    fn mul(self, rhs: Self) -> Self {
        Double(self.0 * rhs.0)
    }
    fn div(self, rhs: Self) -> Self {
        Double(self.0 / rhs.0)
    }
    fn lt(self, rhs: Self) -> bool {
        self.0 < rhs.0
    }
}

fn secs(n: u64) -> Duration {
    Duration::from_secs(n)
}

#[test]
fn proportional_returns_gain_times_error() {
    let mut p = Proportional::new(Double(2.0));
    assert_eq!(p.update(Double(5.0), Double(3.0), &secs(1)), Double(4.0));
    assert_eq!(p.update(Double(3.0), Double(5.0), &secs(1)), Double(-4.0));
    assert_eq!(p.update(Double(7.5), Double(7.5), &secs(1)), Double(0.0));
}

#[test]
fn proportional_ignores_the_sample_time() {
    let mut p = Proportional::new(Double(1.5));
    let expected = Double(1.5 * (10.0 - 4.0));
    for dt in [
        Duration::from_secs(0),
        Duration::from_nanos(1),
        Duration::from_millis(20),
        Duration::from_secs(1),
        Duration::from_secs(3600),
    ] {
        assert_eq!(p.update(Double(10.0), Double(4.0), &dt), expected);
    }
}

#[test]
fn proportional_keeps_no_history() {
    let mut p = Proportional::new(Double(3.0));
    let first = p.update(Double(1.0), Double(0.0), &secs(1));
    p.update(Double(100.0), Double(-100.0), &secs(1));
    p.init();
    assert_eq!(p.update(Double(1.0), Double(0.0), &secs(1)), first);
    assert_eq!(first, Double(3.0));
}

#[test]
fn proportional_accepts_a_negative_gain() {
    let mut p = Proportional::new(Double(-2.0));
    assert_eq!(p.update(Double(1.0), Double(0.0), &secs(1)), Double(-2.0));
}

#[test]
fn integrator_accumulates_trapezoids() {
    let mut i = Integrator::new(Double(1.0), Double(-100.0)..Double(100.0));
    assert_eq!(i.update(Double(1.0), Double(0.0), &secs(1)), Double(0.5));
    assert_eq!(i.update(Double(1.0), Double(0.0), &secs(1)), Double(1.5));
}

#[test]
fn integrator_scales_with_gain_and_sample_time() {
    let mut i = Integrator::new(Double(4.0), Double(-100.0)..Double(100.0));
    let dt = Duration::from_millis(500);
    // 0.5 * 4 * 0.5 * (3 + 0)
    assert_eq!(i.update(Double(3.0), Double(0.0), &dt), Double(3.0));
    // 3 + 0.5 * 4 * 0.5 * (1 + 3)
    assert_eq!(i.update(Double(3.0), Double(2.0), &dt), Double(7.0));
}

#[test]
fn integrator_with_zero_error_stays_at_zero() {
    let mut i = Integrator::new(Double(3.0), Double(-5.0)..Double(5.0));
    i.init();
    for _ in 0..1000 {
        assert_eq!(i.update(Double(42.0), Double(42.0), &secs(1)), Double(0.0));
    }
}

#[test]
fn integrator_never_leaves_its_limit() {
    let mut i = Integrator::new(Double(1.0), Double(-2.0)..Double(3.0));
    let mut outputs = Vec::new();
    for _ in 0..20 {
        outputs.push(i.update(Double(1.0), Double(0.0), &secs(1)));
    }
    for out in &outputs {
        assert!(out.0 >= -2.0 && out.0 <= 3.0);
    }
    // 0.5, 1.5, 2.5, then 3.5 which is clamped
    assert_eq!(outputs[2], Double(2.5));
    assert_eq!(outputs[3], Double(3.0));
    assert_eq!(outputs[19], Double(3.0));
    for _ in 0..20 {
        let out = i.update(Double(0.0), Double(1.0), &secs(1));
        assert!(out.0 >= -2.0 && out.0 <= 3.0);
    }
    assert_eq!(i.update(Double(0.0), Double(1.0), &secs(1)), Double(-2.0));
}

#[test]
fn integrator_winds_down_from_the_limit_at_once() {
    let mut i = Integrator::new(Double(1.0), Double(-1.0)..Double(1.0));
    for _ in 0..100 {
        i.update(Double(10.0), Double(0.0), &secs(1));
    }
    // clamped at 1, so one sample of error -10 after one of +10 adds nothing
    // and the next one takes it straight to the lower end
    assert_eq!(i.update(Double(0.0), Double(10.0), &secs(1)), Double(1.0));
    assert_eq!(i.update(Double(0.0), Double(10.0), &secs(1)), Double(-1.0));
}

#[test]
fn integrator_init_clears_the_history() {
    let mut i = Integrator::new(Double(1.0), Double(-100.0)..Double(100.0));
    i.update(Double(1.0), Double(0.0), &secs(1));
    i.update(Double(1.0), Double(0.0), &secs(1));
    i.init();
    assert_eq!(i.update(Double(1.0), Double(0.0), &secs(1)), Double(0.5));
}

#[test]
fn integrator_with_zero_sample_time_adds_nothing() {
    let mut i = Integrator::new(Double(5.0), Double(-100.0)..Double(100.0));
    assert_eq!(i.update(Double(9.0), Double(0.0), &secs(0)), Double(0.0));
    assert_eq!(i.update(Double(9.0), Double(0.0), &secs(0)), Double(0.0));
}

#[test]
fn integrator_clamps_to_a_limit_that_excludes_zero() {
    let mut i = Integrator::new(Double(1.0), Double(1.0)..Double(2.0));
    assert_eq!(i.update(Double(7.0), Double(7.0), &secs(1)), Double(1.0));
}

#[test]
fn integrator_with_an_inverted_limit_is_pinned_to_its_ends() {
    let mut i = Integrator::new(Double(1.0), Double(10.0)..Double(-10.0));
    // 0.5 is above the end, so the end is taken
    assert_eq!(i.update(Double(1.0), Double(0.0), &secs(1)), Double(-10.0));
    // -10 + 0.5 * (-40 + 1) = -29.5 is not above the end, and below the start
    assert_eq!(i.update(Double(0.0), Double(40.0), &secs(1)), Double(10.0));
}

#[test]
fn differentiator_first_sample_from_reset() {
    let mut d = Differentiator::new(Double(1.0), Double(0.0));
    assert_eq!(d.update(Double(0.0), Double(1.0), &secs(1)), Double(-2.0));
}

#[test]
fn differentiator_filters_with_its_time_constant() {
    let mut d = Differentiator::new(Double(3.0), Double(1.0));
    // -(2 * 3 * 2 + (2 - 1) * 0) / (2 + 1)
    assert_eq!(d.update(Double(0.0), Double(2.0), &secs(1)), Double(-4.0));
    // -(2 * 3 * (5 - 2) + (2 - 1) * -4) / (2 + 1)
    assert_eq!(d.update(Double(0.0), Double(5.0), &secs(1)), Double(-14.0 / 3.0));
}

#[test]
fn differentiator_ignores_the_set_point() {
    let mut a = Differentiator::new(Double(1.0), Double(0.5));
    let mut b = Differentiator::new(Double(1.0), Double(0.5));
    for k in 0..10 {
        let m = Double(k as f64 * 0.25);
        let x = a.update(Double(0.0), m, &secs(1));
        let y = b.update(Double(1000.0 - k as f64), m, &secs(1));
        assert_eq!(x, y);
    }
}

#[test]
fn differentiator_decays_on_a_steady_measurement() {
    let mut d = Differentiator::new(Double(1.0), Double(1.0));
    let mut last = d.update(Double(0.0), Double(1.0), &secs(1));
    assert_eq!(last, Double(-2.0 / 3.0));
    for _ in 0..40 {
        let next = d.update(Double(0.0), Double(1.0), &secs(1));
        assert!(next.0.abs() < last.0.abs());
        last = next;
    }
    assert!(last.0.abs() < 1e-12);
}

#[test]
fn differentiator_steady_measurement_drops_the_gain() {
    let mut a = Differentiator::new(Double(2.0), Double(1.0));
    let mut b = Differentiator::new(Double(2.0), Double(1.0));
    let v = a.update(Double(0.0), Double(3.0), &secs(1));
    b.update(Double(0.0), Double(3.0), &secs(1));
    assert_eq!(v, Double(-4.0));
    // -((2 * 1 - 1) * -4) / (2 * 1 + 1)
    assert_eq!(a.update(Double(0.0), Double(3.0), &secs(1)), Double(4.0 / 3.0));
    assert_eq!(b.update(Double(9.0), Double(3.0), &secs(1)), Double(4.0 / 3.0));
}

#[test]
fn differentiator_init_clears_the_history() {
    let mut d = Differentiator::new(Double(1.0), Double(0.0));
    d.update(Double(0.0), Double(5.0), &secs(1));
    d.update(Double(0.0), Double(7.0), &secs(1));
    d.init();
    assert_eq!(d.update(Double(0.0), Double(1.0), &secs(1)), Double(-2.0));
}

#[test]
fn differentiator_with_a_zero_denominator_is_not_guarded() {
    let mut d = Differentiator::new(Double(1.0), Double(0.0));
    let out = d.update(Double(0.0), Double(1.0), &secs(0));
    assert!(out.0.is_infinite() && out.0 < 0.0);
    let mut e = Differentiator::new(Double(1.0), Double(0.0));
    assert!(e.update(Double(0.0), Double(0.0), &secs(0)).0.is_nan());
}
