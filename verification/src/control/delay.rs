//! Pure delay.
use vstd::prelude::*;
use crate::control::{copy_of, emitted, zero_seq, zeros, Control};
use crate::fixed::Fixed;

verus! {

/// The state of a [`Delay`]: the vectors that wait to be emitted, the next
/// one to leave first.
pub struct DelayModel {
    pub width: nat,
    pub pending: Seq<Seq<Fixed>>,
}

impl DelayModel {
    pub open spec fn wf(self) -> bool {
        forall|k: int| 0 <= k < self.pending.len() ==> (#[trigger] self.pending[k]).len() == self.width
    }

    /// The state before the first input: `latency` vectors of zeros wait.
    pub open spec fn fresh(latency: nat, width: nat) -> DelayModel {
        DelayModel { width, pending: Seq::new(latency, |k: int| zero_seq(width)) }
    }

    /// The number of ticks between an input and its emission.
    pub open spec fn latency(self) -> nat {
        self.pending.len()
    }

    /// What one step emits: the vector that has waited longest, or the input
    /// itself where nothing waits.
    pub open spec fn output(self, value: Seq<Fixed>) -> Seq<Fixed> {
        if self.pending.len() == 0 {
            value
        } else {
            self.pending[0]
        }
    }

    /// The state after one step: the oldest vector has left and the input
    /// waits last.
    pub open spec fn next(self, value: Seq<Fixed>) -> DelayModel {
        if self.pending.len() == 0 {
            self
        } else {
            DelayModel { pending: self.pending.drop_first().push(value), ..self }
        }
    }

    /// The state after the steps on `inputs`, one after the other.
    pub open spec fn after(self, inputs: Seq<Seq<Fixed>>) -> DelayModel
        decreases inputs.len(),
    {
        if inputs.len() == 0 {
            self
        } else {
            self.after(inputs.drop_last()).next(inputs.last())
        }
    }
}

/// The slot that holds the `k`-th waiting vector in a ring of `n` slots whose
/// free slot is `head`.
pub open spec fn ring_slot(head: int, k: int, n: int) -> int {
    if head + 1 + k < n {
        head + 1 + k
    } else {
        head + 1 + k - n
    }
}

/// Pure delay: emits on every call the input of `latency` calls before, and
/// zeros until then. The state is a ring of `latency + 1` slots.
pub struct Delay {
    width: usize,
    head: usize,
    slots: Vec<Vec<Fixed>>,
}

impl View for Delay {
    type V = DelayModel;

    closed spec fn view(&self) -> DelayModel {
        DelayModel {
            width: self.width as nat,
            pending: Seq::new(
                (self.slots@.len() - 1) as nat,
                |k: int| self.slots@[ring_slot(self.head as int, k, self.slots@.len() as int)]@,
            ),
        }
    }
}

impl Delay {
    pub closed spec fn wf(&self) -> bool {
        &&& self.slots@.len() >= 1
        &&& self.head < self.slots@.len()
        &&& forall|i: int|
            0 <= i < self.slots@.len() ==> (#[trigger] self.slots@[i])@.len() == self.width
    }

    /// A delay of `n_sample` ticks on vectors of `n_data` entries.
    pub fn new(n_sample: usize, n_data: usize) -> (r: Self)
        requires
            n_sample < usize::MAX,
        ensures
            r.wf(),
            r@ == DelayModel::fresh(n_sample as nat, n_data as nat),
    {
        let mut slots: Vec<Vec<Fixed>> = Vec::new();
        let mut i: usize = 0;
        while i < n_sample + 1
            invariant
                n_sample < usize::MAX,
                i <= n_sample + 1,
                slots@.len() == i,
                forall|j: int| 0 <= j < i ==> (#[trigger] slots@[j])@ == zero_seq(n_data as nat),
            decreases n_sample + 1 - i,
        {
            slots.push(zeros(n_data));
            i += 1;
        }
        let r = Self { width: n_data, head: 0, slots };
        assert(r@.pending =~~= DelayModel::fresh(n_sample as nat, n_data as nat).pending);
        r
    }

    /// The number of entries of the vectors that the delay takes.
    pub fn width(&self) -> (n: usize)
        ensures
            n == self@.width,
    {
        self.width
    }

    proof fn lemma_view_wf(&self)
        requires
            self.wf(),
        ensures
            self@.wf(),
            self@.width == self.width,
            self@.pending.len() == self.slots@.len() - 1,
    {
    }
}

impl Default for Delay {
    /// A delay of no tick on empty vectors.
    fn default() -> (r: Self)
        ensures
            r.wf(),
            r@ == DelayModel::fresh(0, 0),
    {
        Delay::new(0, 0)
    }
}

impl Control for Delay {
    open spec fn admits(&self, value: Seq<Fixed>) -> bool {
        self.wf() && value.len() == self@.width
    }

    fn step(&mut self, value: &[Fixed]) -> (r: Option<Vec<Fixed>>)
        ensures
            final(self).wf(),
            final(self)@ == old(self)@.next(value@),
            emitted(r) == Some(old(self)@.output(value@)),
    {
        proof {
            self.lemma_view_wf();
        }
        let n: usize = self.slots.len();
        let head: usize = self.head;
        self.slots.set(head, copy_of(value));
        let next: usize = if head + 1 == n {
            0
        } else {
            head + 1
        };
        self.head = next;
        let out: Vec<Fixed> = copy_of(self.slots[next].as_slice());
        proof {
            let before = old(self)@;
            let after = self@;
            if n == 1 {
                assert(after.pending =~~= before.pending);
            } else {
                assert forall|k: int| 0 <= k < n - 1 implies #[trigger] after.pending[k]
                    == before.pending.drop_first().push(value@)[k] by {
                    if k < n - 2 {
                        assert(ring_slot(next as int, k, n as int) == ring_slot(
                            head as int,
                            k + 1,
                            n as int,
                        ));
                    } else {
                        assert(ring_slot(next as int, k, n as int) == head);
                    }
                }
                assert(after.pending =~~= before.pending.drop_first().push(value@));
                assert(ring_slot(head as int, 0, n as int) == next);
            }
        }
        Some(out)
    }
}

/// What waits in a delay that started fresh and has taken `inputs`: the last
/// `latency` vectors of the zeros followed by the inputs.
proof fn lemma_delay_pending(latency: nat, width: nat, inputs: Seq<Seq<Fixed>>)
    ensures
        DelayModel::fresh(latency, width).after(inputs).width == width,
        DelayModel::fresh(latency, width).after(inputs).pending.len() == latency,
        forall|j: int|
            0 <= j < latency ==> #[trigger] DelayModel::fresh(latency, width).after(
                inputs,
            ).pending[j] == if inputs.len() + j < latency {
                zero_seq(width)
            } else {
                inputs[inputs.len() + j - latency]
            },
    decreases inputs.len(),
{
    if inputs.len() > 0 {
        lemma_delay_pending(latency, width, inputs.drop_last());
    }
}

/// A delay of `latency` ticks emits zeros on its first `latency` calls and
/// from then on the input of `latency` calls before.
pub proof fn lemma_delay_shifts(latency: nat, width: nat, inputs: Seq<Seq<Fixed>>, k: int)
    requires
        0 <= k < inputs.len(),
    ensures
        DelayModel::fresh(latency, width).after(inputs.take(k)).output(inputs[k]) == if k
            < latency {
            zero_seq(width)
        } else {
            inputs[k - latency]
        },
{
    lemma_delay_pending(latency, width, inputs.take(k));
}

} // verus!
