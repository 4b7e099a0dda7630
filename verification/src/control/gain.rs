//! Integral and proportional control.
use vstd::prelude::*;
use crate::control::{copy_of, emitted, zero_seq, zeros, Control};
use crate::fixed::Fixed;

verus! {

/// The state of an [`Integrate`] or a [`Proportional`]: the gain and the
/// vector that the stage holds.
pub struct GainModel {
    pub gain: Fixed,
    pub mem: Seq<Fixed>,
}

impl GainModel {
    /// The state before the first input.
    pub open spec fn fresh(gain: Fixed, width: nat) -> GainModel {
        GainModel { gain, mem: zero_seq(width) }
    }

    /// The held vector with `gain * value` added entry by entry; entries
    /// beyond the end of `value` are kept.
    pub open spec fn integrated(self, value: Seq<Fixed>) -> GainModel {
        GainModel {
            mem: Seq::new(
                self.mem.len(),
                |i: int|
                    if i < value.len() {
                        self.mem[i].spec_plus(value[i].spec_times(self.gain))
                    } else {
                        self.mem[i]
                    },
            ),
            ..self
        }
    }

    /// The held vector with `gain * value` put in its place entry by entry;
    /// entries beyond the end of `value` are kept.
    pub open spec fn scaled(self, value: Seq<Fixed>) -> GainModel {
        GainModel {
            mem: Seq::new(
                self.mem.len(),
                |i: int|
                    if i < value.len() {
                        value[i].spec_times(self.gain)
                    } else {
                        self.mem[i]
                    },
            ),
            ..self
        }
    }
}

/// Integral control: adds `gain * input` to its accumulator and emits the
/// accumulator on every call.
pub struct Integrate {
    gain: Fixed,
    mem: Vec<Fixed>,
}

impl View for Integrate {
    type V = GainModel;

    closed spec fn view(&self) -> GainModel {
        GainModel { gain: self.gain, mem: self.mem@ }
    }
}

impl Integrate {
    /// An integrator of `n_data` entries with the given gain.
    pub fn new(gain: Fixed, n_data: usize) -> (r: Self)
        ensures
            r@ == GainModel::fresh(gain, n_data as nat),
    {
        Self { gain, mem: zeros(n_data) }
    }

    /// The accumulator as it stands.
    pub fn last(&self) -> (r: Option<Vec<Fixed>>)
        ensures
            emitted(r) == Some(self@.mem),
    {
        Some(copy_of(self.mem.as_slice()))
    }
}

impl Default for Integrate {
    /// An integrator that holds nothing, with gain zero.
    fn default() -> (r: Self)
        ensures
            r@ == GainModel::fresh(Fixed::spec_zero(), 0),
    {
        Integrate::new(Fixed::zero(), 0)
    }
}

impl Control for Integrate {
    open spec fn admits(&self, value: Seq<Fixed>) -> bool {
        true
    }

    fn step(&mut self, value: &[Fixed]) -> (r: Option<Vec<Fixed>>)
        ensures
            final(self)@ == old(self)@.integrated(value@),
            emitted(r) == Some(final(self)@.mem),
    {
        let gain: Fixed = self.gain;
        let n: usize = if value.len() < self.mem.len() {
            value.len()
        } else {
            self.mem.len()
        };
        let mut i: usize = 0;
        while i < n
            invariant
                i <= n,
                n <= value@.len(),
                n <= self.mem@.len(),
                self.mem@.len() == old(self).mem@.len(),
                self.gain == old(self).gain,
                gain == self.gain,
                forall|j: int|
                    0 <= j < i ==> self.mem@[j] == (#[trigger] old(self).mem@[j]).spec_plus(
                        value@[j].spec_times(gain),
                    ),
                forall|j: int| i <= j < self.mem@.len() ==> self.mem@[j] == old(self).mem@[j],
            decreases n - i,
        {
            let sum: Fixed = self.mem[i].plus(value[i].times(gain));
            self.mem.set(i, sum);
            i += 1;
        }
        assert(self.mem@ =~= old(self)@.integrated(value@).mem);
        self.last()
    }
}

/// Proportional control: holds `gain * input` and emits it on every call.
pub struct Proportional {
    gain: Fixed,
    mem: Vec<Fixed>,
}

impl View for Proportional {
    type V = GainModel;

    closed spec fn view(&self) -> GainModel {
        GainModel { gain: self.gain, mem: self.mem@ }
    }
}

impl Proportional {
    /// A proportional stage of `n_data` entries with the given gain.
    pub fn new(gain: Fixed, n_data: usize) -> (r: Self)
        ensures
            r@ == GainModel::fresh(gain, n_data as nat),
    {
        Self { gain, mem: zeros(n_data) }
    }

    /// The held vector as it stands.
    pub fn last(&self) -> (r: Option<Vec<Fixed>>)
        ensures
            emitted(r) == Some(self@.mem),
    {
        Some(copy_of(self.mem.as_slice()))
    }
}

impl Default for Proportional {
    /// A proportional stage that holds nothing, with gain zero.
    fn default() -> (r: Self)
        ensures
            r@ == GainModel::fresh(Fixed::spec_zero(), 0),
    {
        Proportional::new(Fixed::zero(), 0)
    }
}

impl Control for Proportional {
    open spec fn admits(&self, value: Seq<Fixed>) -> bool {
        true
    }

    fn step(&mut self, value: &[Fixed]) -> (r: Option<Vec<Fixed>>)
        ensures
            final(self)@ == old(self)@.scaled(value@),
            emitted(r) == Some(final(self)@.mem),
    {
        let gain: Fixed = self.gain;
        let n: usize = if value.len() < self.mem.len() {
            value.len()
        } else {
            self.mem.len()
        };
        let mut i: usize = 0;
        while i < n
            invariant
                i <= n,
                n <= value@.len(),
                n <= self.mem@.len(),
                self.mem@.len() == old(self).mem@.len(),
                self.gain == old(self).gain,
                gain == self.gain,
                forall|j: int| 0 <= j < i ==> self.mem@[j] == (#[trigger] value@[j]).spec_times(gain),
                forall|j: int| i <= j < self.mem@.len() ==> self.mem@[j] == old(self).mem@[j],
            decreases n - i,
        {
            let product: Fixed = value[i].times(gain);
            self.mem.set(i, product);
            i += 1;
        }
        assert(self.mem@ =~= old(self)@.scaled(value@).mem);
        self.last()
    }
}

} // verus!
