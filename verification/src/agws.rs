//! The wavefront sensors of the acquisition, guiding and wavefront sensing
//! system: what is set up before a sensor is built, and what is decided
//! while it is.
use vstd::prelude::*;
use vstd::string::*;
use core::marker::PhantomData;
use core::ops::Range;
use crate::calibration::engine::{Calibrator, ValidLensletCriteria};
use crate::calibration::poke::{
    dofs_in_slot, group_count, poke_count, poke_dofs, poke_fits, slot_count, Mirror, Poker,
    Segment,
};
use crate::calibration::CalibrationModel;
use crate::error::Error;
use crate::fixed::Fixed;
use crate::matrix::{compose, composable, composed, Matrix, MatrixModel};
use crate::text::{decimal, decimal_string};

pub use crate::inverse::pseudo_inverse;

verus! {

/// The 24x24 Shack-Hartmann wavefront sensor, as a type.
pub enum SH24 {
    Kind,
}

/// The 48x48 Shack-Hartmann wavefront sensor, as a type.
pub enum SH48 {
    Kind,
}

/// The kind of a Shack-Hartmann wavefront sensor, [`SH24`] or [`SH48`].
pub trait SH24orSH48 {
    /// The name of the kind.
    spec fn spec_tag() -> Seq<char>;

    /// The number of lenslets along one side.
    spec fn spec_lenslets() -> usize;

    /// Returns the sensor kind.
    fn tag() -> (s: String)
        ensures
            s@ == Self::spec_tag(),
    ;

    /// Returns the number of lenslets along one side.
    fn lenslets() -> (n: usize)
        ensures
            n == Self::spec_lenslets(),
    ;
}

impl SH24orSH48 for SH24 {
    open spec fn spec_tag() -> Seq<char> {
        "AGWS SH24"@
    }

    open spec fn spec_lenslets() -> usize {
        24
    }

    fn tag() -> (s: String) {
        String::from_str("AGWS SH24")
    }

    fn lenslets() -> (n: usize) {
        24
    }
}

impl SH24orSH48 for SH48 {
    open spec fn spec_tag() -> Seq<char> {
        "AGWS SH48"@
    }

    open spec fn spec_lenslets() -> usize {
        48
    }

    fn tag() -> (s: String) {
        String::from_str("AGWS SH48")
    }

    fn lenslets() -> (n: usize) {
        48
    }
}

/// The geometric sensor model, as a type.
pub enum Geometric {
    Model,
}

/// The diffractive sensor model, as a type.
pub enum Diffractive {
    Model,
}

/// The model of a Shack-Hartmann wavefront sensor, [`Geometric`] or
/// [`Diffractive`].
pub trait GeometricOrDiffractive {
    /// Whether the model propagates by diffraction.
    spec fn spec_is_diffractive() -> bool;

    /// Returns whether the model propagates by diffraction.
    fn is_diffractive() -> (b: bool)
        ensures
            b == Self::spec_is_diffractive(),
    ;
}

impl GeometricOrDiffractive for Geometric {
    open spec fn spec_is_diffractive() -> bool {
        false
    }

    fn is_diffractive() -> (b: bool) {
        false
    }
}

impl GeometricOrDiffractive for Diffractive {
    open spec fn spec_is_diffractive() -> bool {
        true
    }

    fn is_diffractive() -> (b: bool) {
        true
    }
}

/// The sensors that were built.
pub enum AgwsActors<A24, A48> {
    SH24(A24),
    SH48(A48),
    Both((A24, A48)),
    Neither,
}

impl<A24, A48> AgwsActors<A24, A48> {
    /// Sorts the sensors that were built: both, one of them, or neither.
    pub fn from_built(sh24: Option<A24>, sh48: Option<A48>) -> (r: Self)
        ensures
            r == match (sh24, sh48) {
                (Some(a), Some(b)) => AgwsActors::Both((a, b)),
                (None, None) => AgwsActors::Neither,
                (None, Some(b)) => AgwsActors::SH48(b),
                (Some(a), None) => AgwsActors::SH24(a),
            },
    {
        match (sh24, sh48) {
            (Some(actor_24), Some(actor_48)) => AgwsActors::Both((actor_24, actor_48)),
            (None, None) => AgwsActors::Neither,
            (None, Some(actor)) => AgwsActors::SH48(actor),
            (Some(actor), None) => AgwsActors::SH24(actor),
        }
    }

    /// Sorts the outcomes of the builds that were asked for. A build that
    /// failed fails the whole: its error is returned, that of the first
    /// sensor before that of the second. A sensor that was not asked for is
    /// absent.
    pub fn from_results(sh24: Option<Result<A24, Error>>, sh48: Option<Result<A48, Error>>) -> (r:
        Result<Self, Error>)
        ensures
            r == match (sh24, sh48) {
                (Some(Err(e)), _) => Err::<Self, Error>(e),
                (Some(Ok(_)), Some(Err(e))) => Err::<Self, Error>(e),
                (None, Some(Err(e))) => Err::<Self, Error>(e),
                (Some(Ok(a)), Some(Ok(b))) => Ok::<Self, Error>(AgwsActors::Both((a, b))),
                (Some(Ok(a)), None) => Ok::<Self, Error>(AgwsActors::SH24(a)),
                (None, Some(Ok(b))) => Ok::<Self, Error>(AgwsActors::SH48(b)),
                (None, None) => Ok::<Self, Error>(AgwsActors::Neither),
            },
    {
        let first: Option<A24> = match sh24 {
            Some(Ok(a)) => Some(a),
            Some(Err(e)) => {
                return Err(e);
            },
            None => None,
        };
        let second: Option<A48> = match sh48 {
            Some(Ok(b)) => Some(b),
            Some(Err(e)) => {
                return Err(e);
            },
            None => None,
        };
        Ok(Self::from_built(first, second))
    }

    /// Both sensors, where both were built.
    pub fn both(self) -> (r: Option<(A24, A48)>)
        ensures
            r == match self {
                AgwsActors::Both(actors) => Some(actors),
                _ => None,
            },
    {
        match self {
            AgwsActors::Both(actors) => Some(actors),
            _ => None,
        }
    }
}

impl<A> AgwsActors<A, A> {
    /// The one sensor, where exactly one was built.
    pub fn single(self) -> (r: Option<A>)
        ensures
            r == match self {
                AgwsActors::SH24(actor) => Some(actor),
                AgwsActors::SH48(actor) => Some(actor),
                _ => None,
            },
    {
        match self {
            AgwsActors::SH24(actor) => Some(actor),
            AgwsActors::SH48(actor) => Some(actor),
            _ => None,
        }
    }
}

/// `acc` with `tag` behind it where `present`, after the two characters `\n`
/// where something stands before.
pub open spec fn with_tag(acc: Seq<char>, any: bool, present: bool, tag: Seq<char>) -> Seq<char> {
    if !present {
        acc
    } else if any {
        acc + "\\n"@ + tag
    } else {
        acc + tag
    }
}

/// What stands in the way of the light besides the telescope.
pub struct AgwsModel {
    /// The time step of the atmosphere, where there is one.
    pub atmosphere: Option<Fixed>,
    /// The case and the upsampling rate of the dome seeing, where there is
    /// one.
    pub dome_seeing: Option<(Seq<char>, usize)>,
    /// The phase of the static aberration, where there is one.
    pub aberration: Option<Seq<Fixed>>,
}

impl AgwsModel {
    /// The tags of what is there, in the order atmosphere, dome seeing,
    /// static aberrations.
    pub open spec fn tags(self) -> Seq<char> {
        let a = with_tag(Seq::empty(), false, self.atmosphere is Some, " . atmosphere"@);
        let d = with_tag(a, self.atmosphere is Some, self.dome_seeing is Some, " . dome seeing"@);
        with_tag(
            d,
            self.atmosphere is Some || self.dome_seeing is Some,
            self.aberration is Some,
            " . static aberrations"@,
        )
    }
}

/// AGWS builder
pub struct AGWS {
    maybe_atmosphere: Option<Fixed>,
    maybe_dome_seeing: Option<(String, usize)>,
    maybe_aberration: Option<Vec<Fixed>>,
}

impl View for AGWS {
    type V = AgwsModel;

    closed spec fn view(&self) -> AgwsModel {
        AgwsModel {
            atmosphere: self.maybe_atmosphere,
            dome_seeing: match self.maybe_dome_seeing {
                Some((case, rate)) => Some((case@, rate)),
                None => None,
            },
            aberration: match self.maybe_aberration {
                Some(phase) => Some(phase@),
                None => None,
            },
        }
    }
}

impl AGWS {
    /// Creates a bare builder: nothing but the telescope.
    pub fn new() -> (r: Self)
        ensures
            r@ == (AgwsModel { atmosphere: None, dome_seeing: None, aberration: None }),
    {
        AGWS { maybe_atmosphere: None, maybe_dome_seeing: None, maybe_aberration: None }
    }

    /// Sets the atmosphere, sampled with the given time step.
    pub fn atmosphere(self, time_step: Fixed) -> (r: Self)
        ensures
            r@ == (AgwsModel { atmosphere: Some(time_step), ..self@ }),
    {
        let mut s = self;
        s.maybe_atmosphere = Some(time_step);
        s
    }

    /// Sets the dome seeing.
    pub fn dome_seeing(self, cfd_case: String, upsampling_rate: usize) -> (r: Self)
        ensures
            r@ == (AgwsModel { dome_seeing: Some((cfd_case@, upsampling_rate)), ..self@ }),
    {
        let mut s = self;
        s.maybe_dome_seeing = Some((cfd_case, upsampling_rate));
        s
    }

    /// Sets the static aberrations.
    pub fn static_aberration(self, phase: Vec<Fixed>) -> (r: Self)
        ensures
            r@ == (AgwsModel { aberration: Some(phase@), ..self@ }),
    {
        let mut s = self;
        s.maybe_aberration = Some(phase);
        s
    }

    /// The optical model that a build came to, or the failure where it came
    /// to none.
    pub fn optical_model<M>(built: Option<M>) -> (r: Result<M, Error>)
        ensures
            r == match built {
                Some(model) => Ok::<M, Error>(model),
                None => Err::<M, Error>(Error::OpticalModel),
            },
    {
        match built {
            Some(model) => Ok(model),
            None => Err(Error::OpticalModel),
        }
    }

    /// The tags of what was set, joined by the two characters `\n`.
    pub fn maybe_tags(&self) -> (s: String)
        ensures
            s@ == self@.tags(),
    {
        let mut t = String::new();
        let mut any = false;
        if self.maybe_atmosphere.is_some() {
            t.append(" . atmosphere");
            any = true;
        }
        if self.maybe_dome_seeing.is_some() {
            if any {
                t.append("\\n");
            }
            t.append(" . dome seeing");
            any = true;
        }
        if self.maybe_aberration.is_some() {
            if any {
                t.append("\\n");
            }
            t.append(" . static aberrations");
        }
        assert(t@ =~= self@.tags());
        t
    }

    /// The label of a sensor built with this builder: the tag of the sensor,
    /// the two characters `\n`, and the tags of what was set.
    pub fn label<K, T, const R: usize>(&self, wfs: &AgwsShackHartmann<K, T, R>) -> (s: String) where
        K: SH24orSH48,
        T: GeometricOrDiffractive,

        ensures
            s@ == wfs.spec_tag() + "\\n"@ + self@.tags(),
    {
        let mut s = wfs.tag();
        s.append("\\n");
        let tags = self.maybe_tags();
        s.append(tags.as_str());
        s
    }
}

/// What is set up for a sensor: the number of sensors, the flux threshold
/// that makes a lenslet valid, what to perturb, and the transforms on either
/// side of the pseudo-inverse.
pub struct SensorSetup {
    pub n_sensor: usize,
    pub flux_threshold: Fixed,
    pub senses: Seq<Option<Vec<(Mirror, Vec<Segment>)>>>,
    pub left: Option<MatrixModel>,
    pub right: Option<MatrixModel>,
}

/// AGWS Shack-Hartmann WFS builder
pub struct AgwsShackHartmann<Kind, Type, const R: usize> {
    senses: Poker,
    n_sensor: usize,
    flux_threshold: Fixed,
    maybe_left_pinv: Option<Matrix>,
    maybe_right_pinv: Option<Matrix>,
    kind: PhantomData<Kind>,
    model: PhantomData<Type>,
}

/// Whether every segment slot asks for the tip and tilt of the secondary
/// mirror: the first two rotations, by one millionth.
pub open spec fn is_m2_tiptilt(senses: Seq<Option<Vec<(Mirror, Vec<Segment>)>>>) -> bool {
    &&& senses.len() == 7
    &&& forall|k: int|
        0 <= k < 7 ==> {
            &&& (#[trigger] senses[k]) is Some
            &&& senses[k]->0@.len() == 1
            &&& senses[k]->0@[0].0 == Mirror::M2
            &&& senses[k]->0@[0].1@.len() == 1
            &&& senses[k]->0@[0].1@[0] == Segment::Rxyz(
                Fixed { raw: 1_000 },
                Some(Range { start: 0, end: 2 }),
            )
        }
}

/// The tips and tilts of the secondary mirror are fourteen degrees of
/// freedom: two on each of the seven segments.
pub proof fn lemma_m2_tiptilt_count(senses: Seq<Option<Vec<(Mirror, Vec<Segment>)>>>)
    requires
        is_m2_tiptilt(senses),
    ensures
        poke_count(senses, senses.len()) == 14,
{
    assert forall|k: int| 0 <= k < 7 implies dofs_in_slot(#[trigger] senses[k]) == 2 by {
        let groups = senses[k]->0@;
        let motions = groups[0].1@;
        assert(group_count(motions, 1) == group_count(motions, 0) + motions[0].spec_n_mode());
        assert(slot_count(groups, 1) == slot_count(groups, 0) + group_count(motions, 1));
    }
    reveal_with_fuel(poke_count, 8);
}

impl<Kind, Type, const R: usize> View for AgwsShackHartmann<Kind, Type, R> {
    type V = SensorSetup;

    closed spec fn view(&self) -> SensorSetup {
        SensorSetup {
            n_sensor: self.n_sensor,
            flux_threshold: self.flux_threshold,
            senses: self.senses@,
            left: match self.maybe_left_pinv {
                Some(m) => Some(m@),
                None => None,
            },
            right: match self.maybe_right_pinv {
                Some(m) => Some(m@),
                None => None,
            },
        }
    }
}

impl<Kind, Type, const R: usize> AgwsShackHartmann<Kind, Type, R> where
    Kind: SH24orSH48,
    Type: GeometricOrDiffractive,
 {
    pub closed spec fn wf(&self) -> bool {
        &&& self.maybe_left_pinv is Some ==> self.maybe_left_pinv->0.wf()
        &&& self.maybe_right_pinv is Some ==> self.maybe_right_pinv->0.wf()
    }

    /// The tag of the sensor: its kind, and the number of sensors where
    /// there are several.
    pub open spec fn spec_tag(&self) -> Seq<char> {
        if self@.n_sensor == 1 {
            Kind::spec_tag()
        } else {
            Kind::spec_tag() + " x"@ + decimal(self@.n_sensor as nat)
        }
    }

    /// Create `n_sensor` bare sensors: no flux threshold, nothing to perturb,
    /// no transform.
    pub fn builder(n_sensor: usize) -> (r: Self)
        ensures
            r.wf(),
            r@ == (SensorSetup {
                n_sensor,
                flux_threshold: Fixed::spec_zero(),
                senses: Seq::empty(),
                left: None,
                right: None,
            }),
    {
        let r = Self {
            senses: Vec::new(),
            n_sensor,
            flux_threshold: Fixed::zero(),
            maybe_left_pinv: None,
            maybe_right_pinv: None,
            kind: PhantomData,
            model: PhantomData,
        };
        assert(r@.senses =~= Seq::empty());
        r
    }

    /// Sets the lenslet intensity threshold to select *valid* lenslets
    pub fn flux_threshold(self, new_flux_threshold: Fixed) -> (r: Self)
        requires
            self.wf(),
        ensures
            r.wf(),
            r@ == (SensorSetup { flux_threshold: new_flux_threshold, ..self@ }),
    {
        let mut s = self;
        s.flux_threshold = new_flux_threshold;
        s
    }

    /// Sets what to perturb.
    pub fn poker(self, senses: Poker) -> (r: Self)
        requires
            self.wf(),
        ensures
            r.wf(),
            r@ == (SensorSetup { senses: senses@, ..self@ }),
    {
        let mut s = self;
        s.senses = senses;
        s
    }

    /// Sets the matrix that left-multiplies the pseudo-inverse of the poke matrix
    pub fn left_pinv(self, left: Matrix) -> (r: Self)
        requires
            self.wf(),
            left.wf(),
        ensures
            r.wf(),
            r@ == (SensorSetup { left: Some(left@), ..self@ }),
    {
        let mut s = self;
        s.maybe_left_pinv = Some(left);
        s
    }

    /// Sets the matrix that right-multiplies the pseudo-inverse of the poke matrix
    pub fn right_pinv(self, right: Matrix) -> (r: Self)
        requires
            self.wf(),
            right.wf(),
        ensures
            r.wf(),
            r@ == (SensorSetup { right: Some(right@), ..self@ }),
    {
        let mut s = self;
        s.maybe_right_pinv = Some(right);
        s
    }

    /// Whether there is nothing to perturb, so that no calibration runs.
    pub fn is_poker_empty(&self) -> (b: bool)
        ensures
            b == (self@.senses.len() == 0),
    {
        self.senses.len() == 0
    }

    /// Asks on every segment for the tip and tilt of the secondary mirror.
    pub fn with_m2_tiptilt(self) -> (r: Self)
        requires
            self.wf(),
        ensures
            r.wf(),
            is_m2_tiptilt(r@.senses),
            r@ == (SensorSetup { senses: r@.senses, ..self@ }),
    {
        let mut senses: Poker = Vec::new();
        let mut k: usize = 0;
        while k < 7
            invariant
                k <= 7,
                senses@.len() == k,
                forall|i: int|
                    0 <= i < k ==> {
                        &&& (#[trigger] senses@[i]) is Some
                        &&& senses@[i]->0@.len() == 1
                        &&& senses@[i]->0@[0].0 == Mirror::M2
                        &&& senses@[i]->0@[0].1@.len() == 1
                        &&& senses@[i]->0@[0].1@[0] == Segment::Rxyz(
                            Fixed { raw: 1_000 },
                            Some(Range { start: 0, end: 2 }),
                        )
                    },
            decreases 7 - k,
        {
            let mut motions: Vec<Segment> = Vec::new();
            motions.push(Segment::Rxyz(Fixed::from_raw(1_000), Some(Range { start: 0, end: 2 })));
            let mut groups: Vec<(Mirror, Vec<Segment>)> = Vec::new();
            groups.push((Mirror::M2, motions));
            senses.push(Some(groups));
            k += 1;
        }
        let mut s = self;
        s.senses = senses;
        s
    }

    /// The number of sensors.
    pub fn n_sensor(&self) -> (n: usize)
        ensures
            n == self@.n_sensor,
    {
        self.n_sensor
    }

    /// The lenslet intensity threshold.
    pub fn threshold(&self) -> (t: Fixed)
        ensures
            t == self@.flux_threshold,
    {
        self.flux_threshold
    }

    /// Returns the sensor kind
    pub fn tag(&self) -> (s: String)
        ensures
            s@ == self.spec_tag(),
    {
        if self.n_sensor == 1 {
            Kind::tag()
        } else {
            let mut s = Kind::tag();
            s.append(" x");
            let n = decimal_string(self.n_sensor);
            s.append(n.as_str());
            s
        }
    }

    /// The calibrator for what is to be perturbed. The valid elements are
    /// those of the sensor that is being built, which must have chosen them
    /// before.
    pub fn poke(&self) -> (r: Result<Calibrator, Error>)
        ensures
            poke_fits(self@.senses) ==> r is Ok && r->Ok_0.wf() && r->Ok_0@
                == CalibrationModel::fresh(
                poke_dofs(self@.senses, self@.senses.len()),
                ValidLensletCriteria::OtherSensor,
            ),
            !poke_fits(self@.senses) ==> r is Err && r->Err_0 == Error::Capacity,
    {
        Calibrator::new(&self.senses, ValidLensletCriteria::OtherSensor)
    }

    /// The calibration to run while the sensor is built: none where there is
    /// nothing to perturb, else the calibrator of [`AgwsShackHartmann::poke`].
    pub fn plan(&self) -> (r: Result<Option<Calibrator>, Error>)
        ensures
            self@.senses.len() == 0 ==> r is Ok && r->Ok_0 is None,
            self@.senses.len() > 0 && poke_fits(self@.senses) ==> {
                &&& r is Ok
                &&& r->Ok_0 is Some
                &&& r->Ok_0->0.wf()
                &&& r->Ok_0->0@ == CalibrationModel::fresh(
                    poke_dofs(self@.senses, self@.senses.len()),
                    ValidLensletCriteria::OtherSensor,
                )
            },
            self@.senses.len() > 0 && !poke_fits(self@.senses) ==> r is Err && r->Err_0
                == Error::Capacity,
    {
        if self.is_poker_empty() {
            Ok(None)
        } else {
            match self.poke() {
                Ok(calibrator) => Ok(Some(calibrator)),
                Err(e) => Err(e),
            }
        }
    }

    /// Puts the pseudo-inverse of the poke matrix between the transforms
    /// that were set: `left * pinv * right`.
    pub fn transform(&self, pinv: Matrix) -> (r: Result<Matrix, Error>)
        requires
            self.wf(),
            pinv.wf(),
        ensures
            composable(self@.left, pinv@, self@.right) ==> r is Ok && r->Ok_0.wf() && r->Ok_0@
                == composed(self@.left, pinv@, self@.right),
            self@.left is Some && self@.left->0.cols() != pinv@.rows ==> r == Err::<Matrix, Error>(
                Error::SizeMismatch {
                    expected: self@.left->0.cols() as usize,
                    found: pinv@.rows as usize,
                },
            ),
            !(self@.left is Some && self@.left->0.cols() != pinv@.rows) && self@.right is Some
                && pinv@.cols() != self@.right->0.rows ==> r == Err::<Matrix, Error>(
                Error::SizeMismatch {
                    expected: pinv@.cols() as usize,
                    found: self@.right->0.rows as usize,
                },
            ),
    {
        compose(self.maybe_left_pinv.as_ref(), pinv, self.maybe_right_pinv.as_ref())
    }
}

} // verus!
