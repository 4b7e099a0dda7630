//! The calibration engine: from a poke list to a poke matrix.
pub mod engine;
pub mod poke;

pub use engine::{Action, CalibrationModel, Calibrator, Event, Phase, ValidLensletCriteria};
pub use poke::{degrees_of_freedom, Dof, Mirror, Poker, Segment};
