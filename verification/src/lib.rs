//! A verified field-oriented-control (FOC) core for a sensored BLDC motor.
//!
//! The crate turns bounded absolute-angle readings into a continuous angle
//! and velocity estimate, runs a cascaded PID controller according to the
//! selected motion-control mode, and converts the resulting rotor-frame
//! voltage command into three phase duty cycles. All quantities are Q16.16
//! fixed-point values; the trigonometry comes from the `cordic` crate behind
//! a single trusted wrapper.

pub mod foc;
pub mod fx;
pub mod motor;
pub mod open_loop;
pub mod pid;
pub mod sensor;
pub mod time;
pub mod trig;
pub mod velocity;

pub use fx::Fx;
