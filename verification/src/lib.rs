//! A discrete-time PID controller over a generic scalar.
//!
//! A [`Controller`] owns one [`Proportional`], one [`Integrator`] and one
//! [`Differentiator`] term. Each sample it drives the three terms with the
//! same set point and measurement, adds their outputs and clamps the sum to
//! its output limit.
//!
//! All arithmetic goes through the [`Float`] capability, so every contract in
//! this crate is stated over the scalar's own operations and holds for any
//! scalar that implements them.

pub mod scalar;
pub mod limit;
pub mod component;
pub mod proportional;
pub mod integrator;
pub mod differentiator;
pub mod controller;
pub mod laws;

pub use crate::component::ControllerComponent;
pub use crate::controller::Controller;
pub use crate::differentiator::Differentiator;
pub use crate::integrator::Integrator;
pub use crate::proportional::Proportional;
pub use crate::scalar::Float;
