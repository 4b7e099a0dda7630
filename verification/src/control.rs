//! Discrete-time control stages.
//!
//! Each stage owns its state and offers one operation, `step`, that consumes
//! one input vector per tick. The behaviour of a stage is given by a model: a
//! plain value with a transition function. The contract of every `step`
//! equates the new state and the emitted vector with what the model gives.
use vstd::prelude::*;
use crate::fixed::Fixed;

pub use crate::fixed::zero_seq;
pub(crate) use crate::fixed::{copy_of, zeros};

pub mod average;
pub mod delay;
pub mod dynamics;
pub mod gain;
pub mod state_space;

pub use average::{Average, AverageModel};
pub use delay::{Delay, DelayModel};
pub use dynamics::{EdgeSensorPistonControl, M2Dynamics, StageModel, Tuning};
pub use gain::{GainModel, Integrate, Proportional};
pub use state_space::{StateSpace2x2, StateSpaceModel};

verus! {

/// `acc` with `value` added entry by entry; entries of `acc` beyond the end of
/// `value` are kept.
pub open spec fn accumulated(acc: Seq<Fixed>, value: Seq<Fixed>) -> Seq<Fixed> {
    Seq::new(
        acc.len(),
        |i: int|
            if i < value.len() {
                acc[i].spec_plus(value[i])
            } else {
                acc[i]
            },
    )
}

/// Every entry of `sums` divided by the count `n`.
pub open spec fn shared_seq(sums: Seq<Fixed>, n: usize) -> Seq<Fixed> {
    Seq::new(sums.len(), |i: int| sums[i].spec_shared(n))
}

/// A stage of a control loop.
pub trait Control {
    /// The inputs that the stage takes in its present state.
    spec fn admits(&self, value: Seq<Fixed>) -> bool;

    /// Consumes the input of one tick and returns what the stage emits, if
    /// it emits on this tick.
    fn step(&mut self, value: &[Fixed]) -> (r: Option<Vec<Fixed>>)
        requires
            old(self).admits(value@),
    ;
}

/// The view of what a step returned.
pub open spec fn emitted(r: Option<Vec<Fixed>>) -> Option<Seq<Fixed>> {
    match r {
        Some(v) => Some(v@),
        None => None,
    }
}

} // verus!
