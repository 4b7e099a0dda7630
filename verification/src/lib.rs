//! Closed-loop adaptive-optics control of a segmented telescope, on
//! fixed-point numbers.
//!
//! Two parts carry the weight. The control stages ([`control`]) stand for the
//! real-time controller: sensor integration, integral and proportional
//! control, pure delay and second-order dynamics, chained into the stages of
//! the secondary mirror. The calibration engine ([`calibration`], [`inverse`],
//! [`matrix`]) derives the poke matrix of a wavefront sensor, inverts it from
//! its singular value decomposition and puts the inverse between basis
//! transforms. What is set up for a sensor is in [`agws`], the shapes of the
//! mirror data in [`m1_system`] and [`m2_system`].
//!
//! Every number is a [`fixed::Fixed`]. Whatever works on floating-point
//! numbers, on files or on the optical model itself is left to the caller.
pub mod agws;
pub mod calibration;
pub mod control;
pub mod error;
pub mod fixed;
pub mod inverse;
pub mod m1_system;
pub mod m2_system;
pub mod matrix;
pub mod text;

pub use agws::AGWS;
pub use error::Error;
pub use m1_system::{M1System, Segment};
