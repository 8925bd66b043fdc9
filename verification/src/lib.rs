//! A portable numeric kernel: 3- and 4-component vectors and a quaternion,
//! all backed by one 4-lane register abstraction, together with the embedded
//! test-runner protocol that reports on them.
//!
//! Scalar lanes are modeled as exact integers (`i64`): every algorithm below
//! is lane-exact, so the lane-routing conventions — shuffle patterns, padding
//! lanes, mask tricks — that the hardware backends depend on are proved here
//! once, independent of rounding.

pub mod math;
pub mod runner;
pub mod text;
