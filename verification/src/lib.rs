//! A chaotic double-pendulum simulator.
//!
//! The physics core advances the coupled two-arm system one fixed time step
//! at a time, using the closed-form Lagrangian angular accelerations and a
//! semi-implicit (symplectic) Euler integrator.  All state is held in
//! fixed-point arithmetic (a signed 64-bit value scaled by `fixed::FP_ONE`),
//! so every step is a total, deterministic function of the previous state,
//! and each step is proved equal to its mathematical model.

pub mod fixed;
pub mod pendulum;
