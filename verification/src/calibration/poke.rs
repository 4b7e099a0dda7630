//! What to perturb: mirrors, segment motions, and the list of degrees of
//! freedom that a poke list stands for.
use vstd::prelude::*;
use core::ops::Range;
use crate::error::Error;
use crate::fixed::Fixed;

verus! {

/// The part of a mirror that moves.
#[derive(Clone, Copy, Debug, PartialEq, Eq, Structural)]
pub enum Mirror {
    /// M1 rigid body motion
    M1,
    /// M1 modal surface
    M1MODES,
    /// M2 rigid body motion
    M2,
    /// M2 modal surface
    M2MODES,
}

/// Motions of one segment that are perturbed together: an amplitude and the
/// components it is applied to.
#[derive(Debug)]
pub enum Segment {
    /// Rigid body translations; without a range, all three.
    Txyz(Fixed, Option<Range<usize>>),
    /// Rigid body rotations; without a range, all three.
    Rxyz(Fixed, Option<Range<usize>>),
    /// Modal surface coefficients.
    Modes(Fixed, Range<usize>),
}

impl Segment {
    /// The amplitude of the perturbation.
    pub open spec fn spec_stroke(self) -> Fixed {
        match self {
            Segment::Txyz(stroke, _) => stroke,
            Segment::Rxyz(stroke, _) => stroke,
            Segment::Modes(stroke, _) => stroke,
        }
    }

    /// Where the components start among the motions of a segment:
    /// translations come first, rotations after the three translations.
    pub open spec fn offset(self) -> int {
        match self {
            Segment::Rxyz(_, _) => 3,
            _ => 0,
        }
    }

    /// The components as they were given, all three where none were.
    pub open spec fn given(self) -> (int, int) {
        match self {
            Segment::Txyz(_, Some(r)) => (r.start as int, r.end as int),
            Segment::Txyz(_, None) => (0, 3),
            Segment::Rxyz(_, Some(r)) => (r.start as int, r.end as int),
            Segment::Rxyz(_, None) => (0, 3),
            Segment::Modes(_, r) => (r.start as int, r.end as int),
        }
    }

    /// The index of the first component among the motions of a segment.
    pub open spec fn first(self) -> int {
        self.given().0 + self.offset()
    }

    /// The number of components; none where the range ends before it starts.
    pub open spec fn spec_n_mode(self) -> nat {
        if self.given().1 >= self.given().0 {
            (self.given().1 - self.given().0) as nat
        } else {
            0
        }
    }

    /// Whether the indices of the components can be counted.
    pub open spec fn fits(self) -> bool {
        &&& self.given().0 + self.offset() <= usize::MAX
        &&& self.given().1 + self.offset() <= usize::MAX
    }

    fn bounds(&self) -> (r: (usize, usize, usize))
        ensures
            r.0 == self.given().0,
            r.1 == self.given().1,
            r.2 == self.offset(),
    {
        match self {
            Segment::Txyz(_, Some(r)) => (r.start, r.end, 0),
            Segment::Txyz(_, None) => (0, 3, 0),
            Segment::Rxyz(_, Some(r)) => (r.start, r.end, 3),
            Segment::Rxyz(_, None) => (0, 3, 3),
            Segment::Modes(_, r) => (r.start, r.end, 0),
        }
    }

    /// Returns the number of components.
    pub fn n_mode(&self) -> (n: usize)
        ensures
            n == self.spec_n_mode(),
    {
        let b = self.bounds();
        if b.1 >= b.0 {
            b.1 - b.0
        } else {
            0
        }
    }

    /// Returns the amplitude.
    pub fn stroke(&self) -> (s: Fixed)
        ensures
            s == self.spec_stroke(),
    {
        match self {
            Segment::Txyz(stroke, _) => *stroke,
            Segment::Rxyz(stroke, _) => *stroke,
            Segment::Modes(stroke, _) => *stroke,
        }
    }

    /// Whether the indices of the components can be counted.
    pub fn is_countable(&self) -> (b: bool)
        ensures
            b == self.fits(),
    {
        let b = self.bounds();
        b.0 <= usize::MAX - b.2 && b.1 <= usize::MAX - b.2
    }

    /// Returns the indices of the components among the motions of a segment.
    pub fn range(&self) -> (r: Range<usize>)
        requires
            self.fits(),
        ensures
            r.start == self.given().0 + self.offset(),
            r.end == self.given().1 + self.offset(),
    {
        let b = self.bounds();
        Range { start: b.0 + b.2, end: b.1 + b.2 }
    }

    /// Returns the amplitude and the indices of the components.
    pub fn strip(&self) -> (r: (Fixed, Range<usize>))
        requires
            self.fits(),
        ensures
            r.0 == self.spec_stroke(),
            r.1.start == self.given().0 + self.offset(),
            r.1.end == self.given().1 + self.offset(),
    {
        (self.stroke(), self.range())
    }
}

/// What to perturb: one slot per segment, each absent or a list of mirrors
/// with the motions to perturb.
pub type Poker = Vec<Option<Vec<(Mirror, Vec<Segment>)>>>;

/// One degree of freedom: component `index` of `mirror` on segment `segment`,
/// perturbed by `amplitude`.
#[derive(Clone, Copy, Debug, PartialEq, Eq, Structural)]
pub struct Dof {
    pub segment: usize,
    pub mirror: Mirror,
    pub index: usize,
    pub amplitude: Fixed,
}

/// The first `n` degrees of freedom of one segment motion.
pub open spec fn segment_dofs(k: usize, mirror: Mirror, seg: Segment, n: nat) -> Seq<Dof> {
    Seq::new(
        n,
        |l: int|
            Dof { segment: k, mirror, index: (seg.first() + l) as usize, amplitude: seg.spec_stroke() },
    )
}

/// The degrees of freedom of the first `n` motions of a list.
pub open spec fn group_dofs(k: usize, mirror: Mirror, segs: Seq<Segment>, n: nat) -> Seq<Dof>
    decreases n,
{
    if n == 0 {
        Seq::empty()
    } else {
        group_dofs(k, mirror, segs, (n - 1) as nat) + segment_dofs(
            k,
            mirror,
            segs[n - 1],
            segs[n - 1].spec_n_mode(),
        )
    }
}

/// The degrees of freedom of the first `n` mirrors of a slot.
pub open spec fn slot_dofs(k: usize, groups: Seq<(Mirror, Vec<Segment>)>, n: nat) -> Seq<Dof>
    decreases n,
{
    if n == 0 {
        Seq::empty()
    } else {
        slot_dofs(k, groups, (n - 1) as nat) + group_dofs(
            k,
            groups[n - 1].0,
            groups[n - 1].1@,
            groups[n - 1].1@.len(),
        )
    }
}

/// The degrees of freedom of the first `n` slots, in the order in which they
/// are perturbed. An absent slot has none.
pub open spec fn poke_dofs(slots: Seq<Option<Vec<(Mirror, Vec<Segment>)>>>, n: nat) -> Seq<Dof>
    decreases n,
{
    if n == 0 {
        Seq::empty()
    } else {
        poke_dofs(slots, (n - 1) as nat) + match slots[n - 1] {
            Some(groups) => slot_dofs((n - 1) as usize, groups@, groups@.len()),
            None => Seq::empty(),
        }
    }
}

/// The number of degrees of freedom of the first `n` motions of a list.
pub open spec fn group_count(segs: Seq<Segment>, n: nat) -> nat
    decreases n,
{
    if n == 0 {
        0
    } else {
        group_count(segs, (n - 1) as nat) + segs[n - 1].spec_n_mode()
    }
}

/// The number of degrees of freedom of the first `n` mirrors of a slot.
pub open spec fn slot_count(groups: Seq<(Mirror, Vec<Segment>)>, n: nat) -> nat
    decreases n,
{
    if n == 0 {
        0
    } else {
        slot_count(groups, (n - 1) as nat) + group_count(groups[n - 1].1@, groups[n - 1].1@.len())
    }
}

/// The number of degrees of freedom of one slot: none for an absent one.
pub open spec fn dofs_in_slot(slot: Option<Vec<(Mirror, Vec<Segment>)>>) -> nat {
    match slot {
        Some(groups) => slot_count(groups@, groups@.len()),
        None => 0,
    }
}

/// The sum of the numbers of degrees of freedom of the first `n` slots.
pub open spec fn poke_count(slots: Seq<Option<Vec<(Mirror, Vec<Segment>)>>>, n: nat) -> nat
    decreases n,
{
    if n == 0 {
        0
    } else {
        poke_count(slots, (n - 1) as nat) + dofs_in_slot(slots[n - 1])
    }
}

/// Whether the indices of all components of a list of motions can be counted.
pub open spec fn group_fits(segs: Seq<Segment>) -> bool {
    forall|s: int| 0 <= s < segs.len() ==> (#[trigger] segs[s]).fits()
}

/// Whether the indices of all components of a slot can be counted.
pub open spec fn slot_fits(groups: Seq<(Mirror, Vec<Segment>)>) -> bool {
    forall|m: int| 0 <= m < groups.len() ==> group_fits((#[trigger] groups[m]).1@)
}

/// Whether the indices of all components of a poke list can be counted.
pub open spec fn poke_fits(slots: Seq<Option<Vec<(Mirror, Vec<Segment>)>>>) -> bool {
    forall|k: int|
        0 <= k < slots.len() ==> ((#[trigger] slots[k]) is Some ==> slot_fits(slots[k]->0@))
}

/// A list of motions stands for as many degrees of freedom as its motions
/// have components.
pub proof fn lemma_group_count(k: usize, mirror: Mirror, segs: Seq<Segment>, n: nat)
    ensures
        group_dofs(k, mirror, segs, n).len() == group_count(segs, n),
    decreases n,
{
    if n > 0 {
        lemma_group_count(k, mirror, segs, (n - 1) as nat);
    }
}

/// A slot stands for as many degrees of freedom as its motions have
/// components.
pub proof fn lemma_slot_count(k: usize, groups: Seq<(Mirror, Vec<Segment>)>, n: nat)
    ensures
        slot_dofs(k, groups, n).len() == slot_count(groups, n),
    decreases n,
{
    if n > 0 {
        lemma_slot_count(k, groups, (n - 1) as nat);
        lemma_group_count(k, groups[n - 1].0, groups[n - 1].1@, groups[n - 1].1@.len());
    }
}

/// A poke list stands for as many degrees of freedom as the sum over its
/// slots, an absent slot counting for none.
pub proof fn lemma_poke_count(slots: Seq<Option<Vec<(Mirror, Vec<Segment>)>>>, n: nat)
    ensures
        poke_dofs(slots, n).len() == poke_count(slots, n),
    decreases n,
{
    if n > 0 {
        lemma_poke_count(slots, (n - 1) as nat);
        match slots[n - 1] {
            Some(groups) => {
                lemma_slot_count((n - 1) as usize, groups@, groups@.len());
            },
            None => {},
        }
    }
}

fn push_segment(out: &mut Vec<Dof>, k: usize, mirror: Mirror, seg: &Segment) -> (ok: bool)
    ensures
        ok == seg.fits(),
        ok ==> final(out)@ == old(out)@ + segment_dofs(k, mirror, *seg, seg.spec_n_mode()),
{
    if !seg.is_countable() {
        return false;
    }
    let (stroke, range) = seg.strip();
    let n: usize = seg.n_mode();
    let mut l: usize = 0;
    while l < n
        invariant
            l <= n,
            n == seg.spec_n_mode(),
            seg.fits(),
            range.start == seg.first(),
            stroke == seg.spec_stroke(),
            out@ == old(out)@ + segment_dofs(k, mirror, *seg, l as nat),
        decreases n - l,
    {
        out.push(Dof { segment: k, mirror, index: range.start + l, amplitude: stroke });
        l += 1;
        assert(out@ =~= old(out)@ + segment_dofs(k, mirror, *seg, l as nat));
    }
    true
}

fn push_group(out: &mut Vec<Dof>, k: usize, mirror: Mirror, segs: &Vec<Segment>) -> (ok: bool)
    ensures
        ok == group_fits(segs@),
        ok ==> final(out)@ == old(out)@ + group_dofs(k, mirror, segs@, segs@.len()),
{
    let mut s: usize = 0;
    while s < segs.len()
        invariant
            s <= segs@.len(),
            forall|i: int| 0 <= i < s ==> (#[trigger] segs@[i]).fits(),
            out@ == old(out)@ + group_dofs(k, mirror, segs@, s as nat),
        decreases segs@.len() - s,
    {
        let ghost before = out@;
        if !push_segment(out, k, mirror, &segs[s]) {
            return false;
        }
        s += 1;
        assert(out@ =~= old(out)@ + group_dofs(k, mirror, segs@, s as nat));
    }
    true
}

fn push_slot(out: &mut Vec<Dof>, k: usize, groups: &Vec<(Mirror, Vec<Segment>)>) -> (ok: bool)
    ensures
        ok == slot_fits(groups@),
        ok ==> final(out)@ == old(out)@ + slot_dofs(k, groups@, groups@.len()),
{
    let mut m: usize = 0;
    while m < groups.len()
        invariant
            m <= groups@.len(),
            forall|i: int| 0 <= i < m ==> group_fits((#[trigger] groups@[i]).1@),
            out@ == old(out)@ + slot_dofs(k, groups@, m as nat),
        decreases groups@.len() - m,
    {
        if !push_group(out, k, groups[m].0, &groups[m].1) {
            return false;
        }
        m += 1;
        assert(out@ =~= old(out)@ + slot_dofs(k, groups@, m as nat));
    }
    true
}

/// Lists the degrees of freedom of a poke list in the order in which
/// they are perturbed. A list with an index beyond what can be
/// counted is refused.
pub fn degrees_of_freedom(poker: &Poker) -> (r: Result<Vec<Dof>, Error>)
    ensures
        poke_fits(poker@) ==> r is Ok && r->Ok_0@ == poke_dofs(poker@, poker@.len()),
        !poke_fits(poker@) ==> r == Err::<Vec<Dof>, Error>(Error::Capacity),
{
    let mut out: Vec<Dof> = Vec::new();
    let mut k: usize = 0;
    while k < poker.len()
        invariant
            k <= poker@.len(),
            forall|i: int|
                0 <= i < k ==> ((#[trigger] poker@[i]) is Some ==> slot_fits(poker@[i]->0@)),
            out@ == poke_dofs(poker@, k as nat),
        decreases poker@.len() - k,
    {
        match &poker[k] {
            Some(groups) => {
                if !push_slot(&mut out, k, groups) {
                    return Err(Error::Capacity);
                }
            },
            None => {},
        }
        k += 1;
        assert(out@ =~= poke_dofs(poker@, k as nat));
    }
    Ok(out)
}

} // verus!
