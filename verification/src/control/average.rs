//! Sensor integration by averaging.
use vstd::prelude::*;
use crate::control::{accumulated, emitted, shared_seq, zero_seq, zeros, Control};
use crate::fixed::Fixed;

verus! {

/// The state of an [`Average`]: the number of inputs per emission, the number
/// of inputs gathered since the last emission, and their running sum.
pub struct AverageModel {
    pub period: usize,
    pub count: usize,
    pub sums: Seq<Fixed>,
}

impl AverageModel {
    pub open spec fn wf(self) -> bool {
        if self.period == 0 {
            self.count == 0
        } else {
            self.count < self.period
        }
    }

    /// The state before the first input.
    pub open spec fn fresh(period: usize, width: nat) -> AverageModel {
        AverageModel { period, count: 0, sums: zero_seq(width) }
    }

    /// Whether the count reaches the period on the next call. A stage with
    /// period zero never emits.
    pub open spec fn emits(self) -> bool {
        self.period > 0 && self.count + 1 == self.period
    }

    /// The state after the sum has taken the input and before the counter is
    /// looked at.
    pub open spec fn gathered(self, value: Seq<Fixed>) -> AverageModel {
        AverageModel { sums: accumulated(self.sums, value), ..self }
    }

    /// What counting one call emits.
    pub open spec fn counted_output(self) -> Option<Seq<Fixed>> {
        if self.emits() {
            Some(shared_seq(self.sums, self.period))
        } else {
            None
        }
    }

    /// The state after counting one call.
    pub open spec fn counted(self) -> AverageModel {
        if self.emits() {
            AverageModel { count: 0, sums: zero_seq(self.sums.len()), ..self }
        } else if self.period == 0 {
            self
        } else {
            AverageModel { count: (self.count + 1) as usize, ..self }
        }
    }

    /// What one step emits.
    pub open spec fn output(self, value: Seq<Fixed>) -> Option<Seq<Fixed>> {
        self.gathered(value).counted_output()
    }

    /// The state after one step.
    pub open spec fn next(self, value: Seq<Fixed>) -> AverageModel {
        self.gathered(value).counted()
    }

    /// The state after the steps on `inputs`, one after the other.
    pub open spec fn after(self, inputs: Seq<Seq<Fixed>>) -> AverageModel
        decreases inputs.len(),
    {
        if inputs.len() == 0 {
            self
        } else {
            self.after(inputs.drop_last()).next(inputs.last())
        }
    }
}

/// Sensor integration: sums its inputs and emits their mean on every
/// `n_sample`-th call.
pub struct Average {
    n_sample: usize,
    average: Vec<Fixed>,
    counter: usize,
}

impl View for Average {
    type V = AverageModel;

    closed spec fn view(&self) -> AverageModel {
        AverageModel { period: self.n_sample, count: self.counter, sums: self.average@ }
    }
}

impl Average {
    pub open spec fn wf(&self) -> bool {
        self@.wf()
    }

    /// An averaging stage over `n_sample` inputs of `n_data` entries.
    pub fn new(n_sample: usize, n_data: usize) -> (r: Self)
        ensures
            r.wf(),
            r@ == AverageModel::fresh(n_sample, n_data as nat),
    {
        Self { n_sample, average: zeros(n_data), counter: 0 }
    }

    /// Counts one call. On the `n_sample`-th call it emits the mean and
    /// starts over.
    pub fn next(&mut self) -> (r: Option<Vec<Fixed>>)
        requires
            old(self).wf(),
        ensures
            final(self).wf(),
            final(self)@ == old(self)@.counted(),
            emitted(r) == old(self)@.counted_output(),
    {
        if self.n_sample == 0 {
            return None;
        }
        self.counter += 1;
        if self.counter == self.n_sample {
            let n: usize = self.average.len();
            let mut mean: Vec<Fixed> = Vec::new();
            let mut i: usize = 0;
            while i < n
                invariant
                    i <= n,
                    n == self.average@.len(),
                    mean@.len() == i,
                    forall|j: int|
                        0 <= j < i ==> mean@[j] == (#[trigger] self.average@[j]).spec_shared(
                            self.n_sample,
                        ),
                decreases n - i,
            {
                mean.push(self.average[i].shared(self.n_sample));
                i += 1;
            }
            self.average = zeros(n);
            self.counter = 0;
            assert(mean@ =~= shared_seq(old(self)@.sums, old(self)@.period));
            Some(mean)
        } else {
            None
        }
    }
}

impl Default for Average {
    /// An averaging stage that holds nothing and never emits.
    fn default() -> (r: Self)
        ensures
            r.wf(),
            r@ == AverageModel::fresh(0, 0),
    {
        Average::new(0, 0)
    }
}

impl Control for Average {
    open spec fn admits(&self, value: Seq<Fixed>) -> bool {
        self.wf()
    }

    fn step(&mut self, value: &[Fixed]) -> (r: Option<Vec<Fixed>>)
        ensures
            final(self).wf(),
            final(self)@ == old(self)@.next(value@),
            emitted(r) == old(self)@.output(value@),
    {
        let n: usize = if value.len() < self.average.len() {
            value.len()
        } else {
            self.average.len()
        };
        let mut i: usize = 0;
        while i < n
            invariant
                i <= n,
                n <= value@.len(),
                n <= self.average@.len(),
                self.average@.len() == old(self).average@.len(),
                self.n_sample == old(self).n_sample,
                self.counter == old(self).counter,
                forall|j: int|
                    0 <= j < i ==> self.average@[j] == (#[trigger] old(self).average@[j]).spec_plus(
                        value@[j],
                    ),
                forall|j: int|
                    i <= j < self.average@.len() ==> self.average@[j] == old(self).average@[j],
            decreases n - i,
        {
            let sum: Fixed = self.average[i].plus(value[i]);
            self.average.set(i, sum);
            i += 1;
        }
        assert(self.average@ =~= accumulated(old(self)@.sums, value@));
        self.next()
    }
}

/// An averaging stage that started fresh has counted, after any inputs, their
/// number modulo its period.
proof fn lemma_average_count(period: usize, width: nat, inputs: Seq<Seq<Fixed>>)
    requires
        period > 0,
    ensures
        AverageModel::fresh(period, width).after(inputs).period == period,
        AverageModel::fresh(period, width).after(inputs).count == inputs.len() % (period as nat),
    decreases inputs.len(),
{
    if inputs.len() > 0 {
        lemma_average_count(period, width, inputs.drop_last());
        let k = inputs.len() - 1;
        let n = period as int;
        assert((k + 1) % n == if k % n + 1 == n {
            0
        } else {
            k % n + 1
        }) by (nonlinear_arith)
            requires
                n > 0,
                k >= 0,
        ;
    } else {
        assert(0int % (period as int) == 0);
    }
}

/// The sum of `inputs`, gathered entry by entry from zeros, the first input
/// first.
pub open spec fn gathered_sum(width: nat, inputs: Seq<Seq<Fixed>>) -> Seq<Fixed>
    decreases inputs.len(),
{
    if inputs.len() == 0 {
        zero_seq(width)
    } else {
        accumulated(gathered_sum(width, inputs.drop_last()), inputs.last())
    }
}

/// An averaging stage that started fresh and has taken fewer inputs than its
/// period holds their sum.
proof fn lemma_average_sum(period: usize, width: nat, inputs: Seq<Seq<Fixed>>)
    requires
        inputs.len() < period,
    ensures
        AverageModel::fresh(period, width).after(inputs) == (AverageModel {
            period,
            count: inputs.len() as usize,
            sums: gathered_sum(width, inputs),
        }),
    decreases inputs.len(),
{
    if inputs.len() > 0 {
        lemma_average_sum(period, width, inputs.drop_last());
    }
}

/// An averaging stage that started fresh emits on the call that completes
/// its period the sum of the inputs of that period, divided by their number.
pub proof fn lemma_average_emits_mean(period: usize, width: nat, inputs: Seq<Seq<Fixed>>)
    requires
        period > 0,
        inputs.len() == period,
    ensures
        AverageModel::fresh(period, width).after(inputs.drop_last()).output(inputs.last()) == Some(
            shared_seq(gathered_sum(width, inputs), period),
        ),
{
    lemma_average_sum(period, width, inputs.drop_last());
}

/// An averaging stage with a period of `period` calls emits on every
/// `period`-th call and on no other.
pub proof fn lemma_average_cadence(period: usize, width: nat, inputs: Seq<Seq<Fixed>>, k: int)
    requires
        period > 0,
        0 <= k < inputs.len(),
    ensures
        AverageModel::fresh(period, width).after(inputs.take(k)).output(inputs[k]) is Some <==> (k
            + 1) % (period as int) == 0,
{
    lemma_average_count(period, width, inputs.take(k));
    let n = period as int;
    assert((k + 1) % n == if k % n + 1 == n {
        0
    } else {
        k % n + 1
    }) by (nonlinear_arith)
        requires
            n > 0,
            k >= 0,
    ;
}

} // verus!
