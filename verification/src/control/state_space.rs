//! Second-order state-space dynamics.
use vstd::prelude::*;
use crate::control::{emitted, zero_seq, zeros, Control};
use crate::fixed::Fixed;

verus! {

/// The state of a [`StateSpace2x2`]: the coefficients `a` (row by row), `b`,
/// `c` and `d`, and the two state vectors, one pair of states per channel.
pub struct StateSpaceModel {
    pub a: Seq<Fixed>,
    pub b: Seq<Fixed>,
    pub c: Seq<Fixed>,
    pub d: Fixed,
    pub x0: Seq<Fixed>,
    pub x1: Seq<Fixed>,
}

impl StateSpaceModel {
    pub open spec fn wf(self) -> bool {
        &&& self.a.len() == 4
        &&& self.b.len() == 2
        &&& self.c.len() == 2
        &&& self.x0.len() == self.x1.len()
    }

    /// The state before the first input: both state vectors are zero.
    pub open spec fn fresh(
        a: Seq<Fixed>,
        b: Seq<Fixed>,
        c: Seq<Fixed>,
        d: Fixed,
        width: nat,
    ) -> StateSpaceModel {
        StateSpaceModel { a, b, c, d, x0: zero_seq(width), x1: zero_seq(width) }
    }

    /// The number of channels that a step on `u` works on.
    pub open spec fn channels(self, u: Seq<Fixed>) -> nat {
        if u.len() < self.x0.len() {
            u.len()
        } else {
            self.x0.len()
        }
    }

    /// `p * x0 + q * x1 + r * u` on channel `i`, summed from the left.
    pub open spec fn blend(self, p: Fixed, q: Fixed, r: Fixed, u: Seq<Fixed>, i: int) -> Fixed {
        p.spec_times(self.x0[i]).spec_plus(q.spec_times(self.x1[i])).spec_plus(
            r.spec_times(u[i]),
        )
    }

    /// What one step emits: `c0 * x0 + c1 * x1 + d * u`, from the state before
    /// the step.
    pub open spec fn output(self, u: Seq<Fixed>) -> Seq<Fixed> {
        Seq::new(self.channels(u), |i: int| self.blend(self.c[0], self.c[1], self.d, u, i))
    }

    /// The state after one step: `x0' = a0 * x0 + a1 * x1 + b0 * u` and
    /// `x1' = a2 * x0 + a3 * x1 + b1 * u`, both from the state before the step.
    pub open spec fn next(self, u: Seq<Fixed>) -> StateSpaceModel {
        StateSpaceModel {
            x0: Seq::new(
                self.channels(u),
                |i: int| self.blend(self.a[0], self.a[1], self.b[0], u, i),
            ),
            x1: Seq::new(
                self.channels(u),
                |i: int| self.blend(self.a[2], self.a[3], self.b[1], u, i),
            ),
            ..self
        }
    }

    /// Whether both state vectors hold zeros only.
    pub open spec fn at_rest(self) -> bool {
        &&& self.x0 == zero_seq(self.x0.len())
        &&& self.x1 == zero_seq(self.x1.len())
    }
}

/// Second-order dynamics in state-space form, the same coefficients on every
/// channel.
pub struct StateSpace2x2 {
    a: [Fixed; 4],
    b: [Fixed; 2],
    c: [Fixed; 2],
    d: Fixed,
    x0: Vec<Fixed>,
    x1: Vec<Fixed>,
}

impl View for StateSpace2x2 {
    type V = StateSpaceModel;

    closed spec fn view(&self) -> StateSpaceModel {
        StateSpaceModel {
            a: self.a@,
            b: self.b@,
            c: self.c@,
            d: self.d,
            x0: self.x0@,
            x1: self.x1@,
        }
    }
}

fn blend(p: Fixed, q: Fixed, r: Fixed, x0: Fixed, x1: Fixed, u: Fixed) -> (y: Fixed)
    ensures
        y == p.spec_times(x0).spec_plus(q.spec_times(x1)).spec_plus(r.spec_times(u)),
{
    p.times(x0).plus(q.times(x1)).plus(r.times(u))
}

impl StateSpace2x2 {
    pub open spec fn wf(&self) -> bool {
        self@.wf()
    }

    /// Dynamics with the given coefficients on `n_data` channels, at rest.
    pub fn new(a: [Fixed; 4], b: [Fixed; 2], c: [Fixed; 2], d: Fixed, n_data: usize) -> (r: Self)
        ensures
            r.wf(),
            r@ == StateSpaceModel::fresh(a@, b@, c@, d, n_data as nat),
    {
        Self { a, b, c, d, x0: zeros(n_data), x1: zeros(n_data) }
    }
}

impl Default for StateSpace2x2 {
    /// Dynamics on no channel, every coefficient zero.
    fn default() -> (r: Self)
        ensures
            r.wf(),
            r@ == StateSpaceModel::fresh(
                zero_seq(4),
                zero_seq(2),
                zero_seq(2),
                Fixed::spec_zero(),
                0,
            ),
    {
        let z = Fixed::zero();
        let r = StateSpace2x2::new([z, z, z, z], [z, z], [z, z], z, 0);
        assert(r@.a =~= zero_seq(4));
        assert(r@.b =~= zero_seq(2));
        assert(r@.c =~= zero_seq(2));
        r
    }
}

impl Control for StateSpace2x2 {
    open spec fn admits(&self, value: Seq<Fixed>) -> bool {
        self.wf()
    }

    fn step(&mut self, u: &[Fixed]) -> (r: Option<Vec<Fixed>>)
        ensures
            final(self).wf(),
            final(self)@ == old(self)@.next(u@),
            emitted(r) == Some(old(self)@.output(u@)),
    {
        let n: usize = if u.len() < self.x0.len() {
            u.len()
        } else {
            self.x0.len()
        };
        let ghost before = self@;
        let mut y: Vec<Fixed> = Vec::new();
        let mut x0: Vec<Fixed> = Vec::new();
        let mut x1: Vec<Fixed> = Vec::new();
        let mut i: usize = 0;
        while i < n
            invariant
                i <= n,
                n == before.channels(u@),
                before == self@,
                before.wf(),
                y@.len() == i,
                x0@.len() == i,
                x1@.len() == i,
                forall|j: int|
                    0 <= j < i ==> #[trigger] y@[j] == before.blend(
                        before.c[0],
                        before.c[1],
                        before.d,
                        u@,
                        j,
                    ),
                forall|j: int|
                    0 <= j < i ==> #[trigger] x0@[j] == before.blend(
                        before.a[0],
                        before.a[1],
                        before.b[0],
                        u@,
                        j,
                    ),
                forall|j: int|
                    0 <= j < i ==> #[trigger] x1@[j] == before.blend(
                        before.a[2],
                        before.a[3],
                        before.b[1],
                        u@,
                        j,
                    ),
            decreases n - i,
        {
            let s0: Fixed = self.x0[i];
            let s1: Fixed = self.x1[i];
            let v: Fixed = u[i];
            y.push(blend(self.c[0], self.c[1], self.d, s0, s1, v));
            x0.push(blend(self.a[0], self.a[1], self.b[0], s0, s1, v));
            x1.push(blend(self.a[2], self.a[3], self.b[1], s0, s1, v));
            i += 1;
        }
        self.x0 = x0;
        self.x1 = x1;
        assert(self@.x0 =~= before.next(u@).x0);
        assert(self@.x1 =~= before.next(u@).x1);
        assert(y@ =~= before.output(u@));
        Some(y)
    }
}

/// A stage at rest that is fed zeros emits zeros and stays at rest, whatever
/// its coefficients.
pub proof fn lemma_rest_is_kept(m: StateSpaceModel, u: Seq<Fixed>)
    requires
        m.wf(),
        m.at_rest(),
        u == zero_seq(u.len()),
    ensures
        m.output(u) == zero_seq(m.channels(u)),
        m.next(u).at_rest(),
        m.next(u).wf(),
{
    assert forall|p: Fixed, q: Fixed, r: Fixed, i: int| 0 <= i < m.channels(u) implies #[trigger] m.blend(
        p,
        q,
        r,
        u,
        i,
    ) == Fixed::spec_zero() by {
        crate::fixed::lemma_times_zero(p);
        crate::fixed::lemma_times_zero(q);
        crate::fixed::lemma_times_zero(r);
        crate::fixed::lemma_zero_plus_zero();
    }
    assert(m.output(u) =~= zero_seq(m.channels(u)));
    assert(m.next(u).x0 =~= zero_seq(m.next(u).x0.len()));
    assert(m.next(u).x1 =~= zero_seq(m.next(u).x1.len()));
}

} // verus!
