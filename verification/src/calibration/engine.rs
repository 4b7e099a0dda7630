//! The order of a calibration.
//!
//! A calibration alternates work on the sensor model with decisions. The
//! [`Calibrator`] makes the decisions: it says what to do next, takes what
//! came of it, and builds the poke matrix one column per degree of freedom.
//! Whoever owns the sensor model does the work.
//!
//! The valid-element mask is asked for once, before the first degree of
//! freedom, and kept. For each degree of freedom, in order: a baseline
//! measurement, the perturbation, a second measurement, then the return to
//! the nominal state. No perturbation is asked for while another is applied.
use vstd::prelude::*;
use crate::calibration::poke::{
    degrees_of_freedom, lemma_poke_count, poke_count, poke_dofs, poke_fits, Dof, Mirror, Poker,
    Segment,
};
use crate::error::Error;
use crate::fixed::Fixed;
use crate::matrix::{Matrix, MatrixModel};

verus! {

/// How many of the first `n` elements the mask keeps.
pub open spec fn valid_upto(mask: Seq<bool>, n: nat) -> nat
    decreases n,
{
    if n == 0 {
        0
    } else if mask[n - 1] {
        valid_upto(mask, (n - 1) as nat) + 1
    } else {
        valid_upto(mask, (n - 1) as nat)
    }
}

/// How many elements the mask keeps.
pub open spec fn valid_count(mask: Seq<bool>) -> nat {
    valid_upto(mask, mask.len())
}

/// Those of the first `n` entries of `v` that the mask keeps, in order.
pub open spec fn restricted_upto(mask: Seq<bool>, v: Seq<Fixed>, n: nat) -> Seq<Fixed>
    decreases n,
{
    if n == 0 {
        Seq::empty()
    } else if mask[n - 1] {
        restricted_upto(mask, v, (n - 1) as nat).push(v[n - 1])
    } else {
        restricted_upto(mask, v, (n - 1) as nat)
    }
}

/// The finite difference `(perturbed - baseline) / amplitude`, entry by entry.
pub open spec fn finite_difference(
    baseline: Seq<Fixed>,
    perturbed: Seq<Fixed>,
    amplitude: Fixed,
) -> Seq<Fixed> {
    Seq::new(
        baseline.len(),
        |i: int| perturbed[i].spec_minus(baseline[i]).spec_over(amplitude),
    )
}

/// The column of one degree of freedom: the finite difference on the rows
/// that the mask keeps.
pub open spec fn column_of(
    mask: Seq<bool>,
    baseline: Seq<Fixed>,
    perturbed: Seq<Fixed>,
    amplitude: Fixed,
) -> Seq<Fixed> {
    restricted_upto(mask, finite_difference(baseline, perturbed, amplitude), mask.len())
}

/// The restriction keeps as many entries as the mask keeps elements.
pub proof fn lemma_restricted_len(mask: Seq<bool>, v: Seq<Fixed>, n: nat)
    ensures
        restricted_upto(mask, v, n).len() == valid_upto(mask, n),
    decreases n,
{
    if n > 0 {
        lemma_restricted_len(mask, v, (n - 1) as nat);
    }
}

/// How the valid elements of the sensor are chosen.
#[derive(Clone, Copy, Debug, PartialEq, Eq, Structural)]
pub enum ValidLensletCriteria {
    /// By the flux on the elements of the sensor itself: an element is valid
    /// where its flux is above the threshold, zero where none is given.
    Threshold(Option<Fixed>),
    /// As on another sensor, which must have been calibrated before.
    OtherSensor,
}

impl ValidLensletCriteria {
    /// The flux threshold that applies, where the sensor chooses by its own
    /// flux.
    pub open spec fn spec_flux_threshold(self) -> Option<Fixed> {
        match self {
            ValidLensletCriteria::Threshold(Some(value)) => Some(value),
            ValidLensletCriteria::Threshold(None) => Some(Fixed::spec_zero()),
            ValidLensletCriteria::OtherSensor => None,
        }
    }

    /// The flux threshold that applies, where the sensor chooses by its own
    /// flux.
    pub fn flux_threshold(&self) -> (r: Option<Fixed>)
        ensures
            r == self.spec_flux_threshold(),
    {
        match self {
            ValidLensletCriteria::Threshold(Some(value)) => Some(*value),
            ValidLensletCriteria::Threshold(None) => Some(Fixed::zero()),
            ValidLensletCriteria::OtherSensor => None,
        }
    }
}

/// Where a calibration stands.
#[derive(Clone, Copy, Debug, PartialEq, Eq, Structural)]
pub enum Phase {
    /// The mask has not been resolved yet.
    Mask,
    /// The baseline of the next degree of freedom is to be measured.
    Baseline,
    /// The next degree of freedom is to be perturbed.
    Perturb,
    /// The perturbed state is to be measured.
    Perturbed,
    /// The perturbation is to be reverted.
    Restore,
    /// Every column is there.
    Done,
    /// The calibration has failed.
    Failed,
}

/// What to do next on the sensor model.
#[derive(Clone, Copy, Debug, PartialEq, Eq, Structural)]
pub enum Action {
    /// Ask for the valid-element mask, chosen in the given way.
    ResolveMask(ValidLensletCriteria),
    /// Read a measurement.
    Measure,
    /// Apply the amplitude of the degree of freedom.
    Perturb(Dof),
    /// Return to the nominal state.
    Restore,
    /// Nothing: the calibration is over.
    Stop,
}

/// What came of an action.
#[derive(Debug)]
pub enum Event {
    /// The valid-element mask, one flag per sensor element.
    Mask(Vec<bool>),
    /// A measurement, one entry per sensor element.
    Measurement(Vec<Fixed>),
    /// The perturbation or the return to nominal was made.
    Applied,
    /// The sensor model gave no readout.
    Unavailable,
}

/// The state of a calibration.
pub struct CalibrationModel {
    /// The degrees of freedom, in the order of their columns.
    pub dofs: Seq<Dof>,
    /// How the valid elements are chosen.
    pub criteria: ValidLensletCriteria,
    pub phase: Phase,
    /// The mask, once resolved.
    pub mask: Seq<bool>,
    /// The baseline of the degree of freedom at hand.
    pub baseline: Seq<Fixed>,
    /// The columns so far.
    pub columns: Seq<Seq<Fixed>>,
    /// Whether a perturbation is applied to the sensor model.
    pub perturbed: bool,
}

impl CalibrationModel {
    /// The state before anything was done.
    pub open spec fn fresh(dofs: Seq<Dof>, criteria: ValidLensletCriteria) -> CalibrationModel {
        CalibrationModel {
            dofs,
            criteria,
            phase: Phase::Mask,
            mask: Seq::empty(),
            baseline: Seq::empty(),
            columns: Seq::empty(),
            perturbed: false,
        }
    }

    pub open spec fn wf(self) -> bool {
        &&& self.columns.len() <= self.dofs.len()
        &&& forall|c: int|
            0 <= c < self.columns.len() ==> (#[trigger] self.columns[c]).len() == valid_count(
                self.mask,
            )
        &&& match self.phase {
            Phase::Mask => self.columns.len() == 0 && !self.perturbed,
            Phase::Baseline => self.columns.len() < self.dofs.len() && !self.perturbed,
            Phase::Perturb => {
                &&& self.columns.len() < self.dofs.len()
                &&& !self.perturbed
                &&& self.baseline.len() == self.mask.len()
            },
            Phase::Perturbed => {
                &&& self.columns.len() < self.dofs.len()
                &&& self.perturbed
                &&& self.baseline.len() == self.mask.len()
            },
            Phase::Restore => self.columns.len() >= 1 && self.perturbed,
            Phase::Done => self.columns.len() == self.dofs.len() && !self.perturbed,
            Phase::Failed => true,
        }
    }

    /// What to do next.
    pub open spec fn action(self) -> Action {
        match self.phase {
            Phase::Mask => Action::ResolveMask(self.criteria),
            Phase::Baseline => Action::Measure,
            Phase::Perturb => Action::Perturb(self.dofs[self.columns.len() as int]),
            Phase::Perturbed => Action::Measure,
            Phase::Restore => Action::Restore,
            Phase::Done => Action::Stop,
            Phase::Failed => Action::Stop,
        }
    }

    /// The phase after a column is complete, or after the mask where there
    /// is nothing to perturb.
    pub open spec fn onward(self) -> Phase {
        if self.columns.len() == self.dofs.len() {
            Phase::Done
        } else {
            Phase::Baseline
        }
    }

    /// Why the event fails the calibration, if it does: the sensor gave no
    /// readout or another answer than was asked for, or a measurement has
    /// another length than the mask.
    pub open spec fn refusal(self, event: Event) -> Option<Error> {
        match (self.phase, event) {
            (Phase::Mask, Event::Mask(_)) => None,
            (Phase::Baseline, Event::Measurement(v)) | (Phase::Perturbed, Event::Measurement(v)) => {
                if v@.len() == self.mask.len() {
                    None
                } else {
                    Some(
                        Error::SizeMismatch {
                            expected: self.mask.len() as usize,
                            found: v@.len() as usize,
                        },
                    )
                }
            },
            (Phase::Perturb, Event::Applied) => None,
            (Phase::Restore, Event::Applied) => None,
            _ => Some(Error::SensorUnavailable),
        }
    }

    /// The state after an event. A calibration that is over stays as it is.
    pub open spec fn next(self, event: Event) -> CalibrationModel {
        if self.phase == Phase::Done || self.phase == Phase::Failed {
            self
        } else if self.refusal(event) is Some {
            CalibrationModel { phase: Phase::Failed, ..self }
        } else {
            match event {
                Event::Mask(m) => {
                    let taken = CalibrationModel { mask: m@, ..self };
                    CalibrationModel { phase: taken.onward(), ..taken }
                },
                Event::Measurement(v) => {
                    if self.phase == Phase::Baseline {
                        CalibrationModel { baseline: v@, phase: Phase::Perturb, ..self }
                    } else {
                        CalibrationModel {
                            columns: self.columns.push(
                                column_of(
                                    self.mask,
                                    self.baseline,
                                    v@,
                                    self.dofs[self.columns.len() as int].amplitude,
                                ),
                            ),
                            phase: Phase::Restore,
                            ..self
                        }
                    }
                },
                Event::Applied => {
                    if self.phase == Phase::Perturb {
                        CalibrationModel { perturbed: true, phase: Phase::Perturbed, ..self }
                    } else {
                        CalibrationModel { perturbed: false, phase: self.onward(), ..self }
                    }
                },
                Event::Unavailable => self,
            }
        }
    }
}

/// Every step keeps the state valid: in particular no perturbation is asked
/// for while another is applied, and a calibration is done only when nothing
/// is applied and every degree of freedom has its column.
pub proof fn lemma_order_is_kept(m: CalibrationModel, event: Event)
    requires
        m.wf(),
    ensures
        m.next(event).wf(),
        m.next(event).dofs == m.dofs,
        m.next(event).criteria == m.criteria,
        m.next(event).action() is Perturb ==> !m.next(event).perturbed,
{
    if m.phase == Phase::Perturbed && m.refusal(event) is None {
        match event {
            Event::Measurement(v) => {
                lemma_restricted_len(
                    m.mask,
                    finite_difference(m.baseline, v@, m.dofs[m.columns.len() as int].amplitude),
                    m.mask.len(),
                );
            },
            _ => {},
        }
    }
}

/// Makes the decisions of one calibration.
pub struct Calibrator {
    dofs: Vec<Dof>,
    criteria: ValidLensletCriteria,
    phase: Phase,
    mask: Vec<bool>,
    baseline: Vec<Fixed>,
    rows: usize,
    columns: Vec<Vec<Fixed>>,
    perturbed: bool,
}

impl View for Calibrator {
    type V = CalibrationModel;

    closed spec fn view(&self) -> CalibrationModel {
        CalibrationModel {
            dofs: self.dofs@,
            criteria: self.criteria,
            phase: self.phase,
            mask: self.mask@,
            baseline: self.baseline@,
            columns: Seq::new(self.columns@.len(), |j: int| self.columns@[j]@),
            perturbed: self.perturbed,
        }
    }
}

fn count_valid(mask: &Vec<bool>) -> (n: usize)
    ensures
        n == valid_count(mask@),
{
    let mut n: usize = 0;
    let mut i: usize = 0;
    while i < mask.len()
        invariant
            i <= mask@.len(),
            n == valid_upto(mask@, i as nat),
            n <= i,
        decreases mask@.len() - i,
    {
        if mask[i] {
            n += 1;
        }
        i += 1;
    }
    n
}

fn column(mask: &Vec<bool>, baseline: &Vec<Fixed>, perturbed: &Vec<Fixed>, amplitude: Fixed) -> (c:
    Vec<Fixed>)
    requires
        baseline@.len() == mask@.len(),
        perturbed@.len() == mask@.len(),
    ensures
        c@ == column_of(mask@, baseline@, perturbed@, amplitude),
        c@.len() == valid_count(mask@),
{
    let ghost diff = finite_difference(baseline@, perturbed@, amplitude);
    let mut c: Vec<Fixed> = Vec::new();
    let mut i: usize = 0;
    while i < mask.len()
        invariant
            i <= mask@.len(),
            baseline@.len() == mask@.len(),
            perturbed@.len() == mask@.len(),
            diff == finite_difference(baseline@, perturbed@, amplitude),
            c@ == restricted_upto(mask@, diff, i as nat),
        decreases mask@.len() - i,
    {
        if mask[i] {
            c.push(perturbed[i].minus(baseline[i]).over(amplitude));
        }
        i += 1;
    }
    proof {
        lemma_restricted_len(mask@, diff, mask@.len());
    }
    c
}

impl Calibrator {
    pub closed spec fn wf(&self) -> bool {
        &&& self@.wf()
        &&& self.phase != Phase::Mask && self.phase != Phase::Failed ==> self.rows == valid_count(
            self.mask@,
        )
    }

    /// A valid calibrator has a valid state.
    pub proof fn lemma_wf(&self)
        requires
            self.wf(),
        ensures
            self@.wf(),
    {
    }

    /// A calibrator for what the given list asks to perturb, on the elements
    /// chosen in the given way. A list with an index beyond what can be
    /// counted is refused.
    pub fn new(poker: &Poker, criteria: ValidLensletCriteria) -> (r: Result<Calibrator, Error>)
        ensures
            poke_fits(poker@) ==> r is Ok && r->Ok_0.wf() && r->Ok_0@ == CalibrationModel::fresh(
                poke_dofs(poker@, poker@.len()),
                criteria,
            ),
            !poke_fits(poker@) ==> r is Err && r->Err_0 == Error::Capacity,
    {
        match degrees_of_freedom(poker) {
            Ok(dofs) => {
                let c = Calibrator {
                    dofs,
                    criteria,
                    phase: Phase::Mask,
                    mask: Vec::new(),
                    baseline: Vec::new(),
                    rows: 0,
                    columns: Vec::new(),
                    perturbed: false,
                };
                assert(c@.columns =~= Seq::empty());
                assert(c@.mask =~= Seq::empty());
                assert(c@.baseline =~= Seq::empty());
                Ok(c)
            },
            Err(_) => Err(Error::Capacity),
        }
    }

    /// What to do next on the sensor model.
    pub fn action(&self) -> (a: Action)
        requires
            self.wf(),
        ensures
            a == self@.action(),
    {
        match self.phase {
            Phase::Mask => Action::ResolveMask(self.criteria),
            Phase::Baseline => Action::Measure,
            Phase::Perturb => Action::Perturb(self.dofs[self.columns.len()]),
            Phase::Perturbed => Action::Measure,
            Phase::Restore => Action::Restore,
            Phase::Done => Action::Stop,
            Phase::Failed => Action::Stop,
        }
    }

    /// Where the calibration stands.
    pub fn phase(&self) -> (p: Phase)
        ensures
            p == self@.phase,
    {
        self.phase
    }

    fn onward(&self) -> (p: Phase)
        ensures
            p == self@.onward(),
    {
        if self.columns.len() == self.dofs.len() {
            Phase::Done
        } else {
            Phase::Baseline
        }
    }

    /// Takes what came of the last action. An event that fails the
    /// calibration is answered with the reason; one that comes after the end
    /// changes nothing.
    pub fn advance(&mut self, event: Event) -> (r: Result<(), Error>)
        requires
            old(self).wf(),
        ensures
            final(self).wf(),
            final(self)@ == old(self)@.next(event),
            old(self)@.phase == Phase::Done || old(self)@.phase == Phase::Failed ==> r == Err::<
                (),
                Error,
            >(Error::SensorUnavailable),
            old(self)@.phase != Phase::Done && old(self)@.phase != Phase::Failed ==> r == match old(
                self,
            )@.refusal(event) {
                Some(e) => Err::<(), Error>(e),
                None => Ok::<(), Error>(()),
            },
    {
        let ghost before = self@;
        proof {
            lemma_order_is_kept(before, event);
        }
        match (self.phase, event) {
            (Phase::Done, _) | (Phase::Failed, _) => Err(Error::SensorUnavailable),
            (Phase::Mask, Event::Mask(m)) => {
                self.rows = count_valid(&m);
                self.mask = m;
                self.phase = self.onward();
                assert(self@.columns =~= before.columns);
                Ok(())
            },
            (Phase::Baseline, Event::Measurement(v)) => {
                if v.len() != self.mask.len() {
                    self.phase = Phase::Failed;
                    Err(Error::SizeMismatch { expected: self.mask.len(), found: v.len() })
                } else {
                    self.baseline = v;
                    self.phase = Phase::Perturb;
                    Ok(())
                }
            },
            (Phase::Perturbed, Event::Measurement(v)) => {
                if v.len() != self.mask.len() {
                    self.phase = Phase::Failed;
                    Err(Error::SizeMismatch { expected: self.mask.len(), found: v.len() })
                } else {
                    let amplitude: Fixed = self.dofs[self.columns.len()].amplitude;
                    let c: Vec<Fixed> = column(&self.mask, &self.baseline, &v, amplitude);
                    self.columns.push(c);
                    self.phase = Phase::Restore;
                    assert(self@.columns =~~= before.columns.push(c@));
                    Ok(())
                }
            },
            (Phase::Perturb, Event::Applied) => {
                self.perturbed = true;
                self.phase = Phase::Perturbed;
                Ok(())
            },
            (Phase::Restore, Event::Applied) => {
                self.perturbed = false;
                self.phase = self.onward();
                Ok(())
            },
            _ => {
                self.phase = Phase::Failed;
                Err(Error::SensorUnavailable)
            },
        }
    }

    /// The poke matrix, once every column is there: one row per valid
    /// element and one column per degree of freedom.
    pub fn finish(self) -> (r: Option<Matrix>)
        requires
            self.wf(),
        ensures
            r is Some <==> self@.phase == Phase::Done,
            r is Some ==> {
                &&& r->0.wf()
                &&& r->0@ == (MatrixModel { rows: valid_count(self@.mask), columns: self@.columns })
                &&& r->0@.cols() == self@.dofs.len()
            },
    {
        match self.phase {
            Phase::Done => {
                assert forall|j: int| 0 <= j < self.columns@.len() implies (
                #[trigger] self.columns@[j])@.len() == self.rows by {
                    assert(self@.columns[j] == self.columns@[j]@);
                }
                match Matrix::from_columns(self.rows, &self.columns) {
                    Ok(poke) => Some(poke),
                    Err(_) => None,
                }
            },
            _ => None,
        }
    }
}

/// The poke matrix of a calibration that is done has one column per degree
/// of freedom of the list it was made for, that is the sum over its slots
/// with none for an absent slot, and one row per valid element.
pub proof fn lemma_poke_shape(
    poker: Seq<Option<Vec<(Mirror, Vec<Segment>)>>>,
    m: CalibrationModel,
)
    requires
        m.wf(),
        m.dofs == poke_dofs(poker, poker.len()),
        m.phase == Phase::Done,
    ensures
        m.columns.len() == poke_count(poker, poker.len()),
        forall|c: int|
            0 <= c < m.columns.len() ==> (#[trigger] m.columns[c]).len() == valid_count(m.mask),
{
    lemma_poke_count(poker, poker.len());
}

} // verus!
