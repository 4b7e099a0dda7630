//! Control stages of the secondary mirror, and their tunings.
//!
//! A stage chains an averaging sensor, a controller, a delay and second-order
//! dynamics. The controller runs only on the ticks on which the sensor emits;
//! on the others the delay is fed what the controller holds. The delay and
//! the dynamics run on every tick.
use vstd::prelude::*;
use crate::control::average::{Average, AverageModel};
use crate::control::delay::{Delay, DelayModel};
use crate::control::gain::{GainModel, Integrate, Proportional};
use crate::control::state_space::{StateSpace2x2, StateSpaceModel};
use crate::control::{emitted, Control};
use crate::error::Error;
use crate::fixed::Fixed;

verus! {

/// The numbers that make a stage: pole frequency in hertz, damping, sensor
/// integration length and latency in ticks, controller gain, and the
/// state-space coefficients.
pub struct Tuning {
    pub pole: Fixed,
    pub damping: Fixed,
    pub integration: usize,
    pub latency: usize,
    pub gain: Fixed,
    pub a: [Fixed; 4],
    pub b: [Fixed; 2],
    pub c: [Fixed; 2],
    pub d: Fixed,
}

/// One whole, in raw units.
pub const ONE: i64 = 1_000_000_000;

/// Fast-steering mirror: pole 25 Hz.
pub const FSM_POLE: i64 = 25_000_000_000;

/// Fast-steering mirror: damping 0.6.
pub const FSM_DAMPING: i64 = 600_000_000;

/// Fast-steering mirror: gain 0.3.
pub const FSM_GAIN: i64 = 300_000_000;

/// Fast-steering mirror: a0 = 1.80628279.
pub const FSM_A0: i64 = 1_806_282_790;

/// Fast-steering mirror: a1 = -0.82870523.
pub const FSM_A1: i64 = -828_705_230;

/// Fast-steering mirror: c0 = 0.02133653.
pub const FSM_C0: i64 = 21_336_530;

/// Fast-steering mirror: c1 = 0.00096021.
pub const FSM_C1: i64 = 960_210;

/// Fast-steering mirror: d = 0.00560561.
pub const FSM_D: i64 = 5_605_610;

/// Adaptive secondary mirror: pole 800 Hz.
pub const SECONDARY_POLE: i64 = 800_000_000_000;

/// Adaptive secondary mirror: damping 0.75.
pub const SECONDARY_DAMPING: i64 = 750_000_000;

/// Adaptive secondary mirror: gain 0.4.
pub const SECONDARY_GAIN: i64 = 400_000_000;

/// Adaptive secondary mirror: a0 = -0.95910647.
pub const SECONDARY_A0: i64 = -959_106_470;

/// Adaptive secondary mirror: a1 = -0.31990701.
pub const SECONDARY_A1: i64 = -319_907_010;

/// Adaptive secondary mirror: c0 = 0.5930526.
pub const SECONDARY_C0: i64 = 593_052_600;

/// Adaptive secondary mirror: c1 = 0.38748527.
pub const SECONDARY_C1: i64 = 387_485_270;

/// Adaptive secondary mirror: d = 0.56975337.
pub const SECONDARY_D: i64 = 569_753_370;

/// Piston from the optical sensor: gain 0.5.
pub const PISTON_OPTICAL_GAIN: i64 = 500_000_000;

/// Piston from the edge sensor: gain 0.8.
pub const PISTON_EDGE_GAIN: i64 = 800_000_000;

impl Tuning {
    /// The numbers that a stage shows: pole, damping, integration, latency
    /// and gain.
    pub open spec fn labels(self) -> (Fixed, Fixed, usize, usize, Fixed) {
        (self.pole, self.damping, self.integration, self.latency, self.gain)
    }

    /// Fast-steering mirror: integration 5, latency 6.
    pub open spec fn spec_fsm() -> Tuning {
        Tuning {
            pole: Fixed { raw: FSM_POLE },
            damping: Fixed { raw: FSM_DAMPING },
            integration: 5,
            latency: 6,
            gain: Fixed { raw: FSM_GAIN },
            a: [Fixed { raw: FSM_A0 }, Fixed { raw: FSM_A1 }, Fixed { raw: ONE }, Fixed { raw: 0 }],
            b: [Fixed { raw: ONE }, Fixed { raw: 0 }],
            c: [Fixed { raw: FSM_C0 }, Fixed { raw: FSM_C1 }],
            d: Fixed { raw: FSM_D },
        }
    }

    /// Adaptive secondary mirror: integration 2, latency 1.
    pub open spec fn spec_adaptive_secondary() -> Tuning {
        Tuning {
            pole: Fixed { raw: SECONDARY_POLE },
            damping: Fixed { raw: SECONDARY_DAMPING },
            integration: 2,
            latency: 1,
            gain: Fixed { raw: SECONDARY_GAIN },
            a: [
                Fixed { raw: SECONDARY_A0 },
                Fixed { raw: SECONDARY_A1 },
                Fixed { raw: ONE },
                Fixed { raw: 0 },
            ],
            b: [Fixed { raw: ONE }, Fixed { raw: 0 }],
            c: [Fixed { raw: SECONDARY_C0 }, Fixed { raw: SECONDARY_C1 }],
            d: Fixed { raw: SECONDARY_D },
        }
    }

    /// Piston from the optical sensor: the adaptive-secondary numbers with
    /// integration 30000, latency 6 and its own gain.
    pub open spec fn spec_piston_optical_sensor() -> Tuning {
        Tuning {
            integration: 30_000,
            latency: 6,
            gain: Fixed { raw: PISTON_OPTICAL_GAIN },
            ..Tuning::spec_adaptive_secondary()
        }
    }

    /// Piston from the edge sensor: the adaptive-secondary numbers with
    /// integration 2, latency 0 and its own gain.
    pub open spec fn spec_piston_edge_sensor() -> Tuning {
        Tuning {
            integration: 2,
            latency: 0,
            gain: Fixed { raw: PISTON_EDGE_GAIN },
            ..Tuning::spec_adaptive_secondary()
        }
    }

    #[verifier::when_used_as_spec(spec_fsm)]
    pub fn fsm() -> (t: Tuning)
        ensures
            t == Tuning::spec_fsm(),
    {
        Tuning {
            pole: Fixed { raw: FSM_POLE },
            damping: Fixed { raw: FSM_DAMPING },
            integration: 5,
            latency: 6,
            gain: Fixed { raw: FSM_GAIN },
            a: [Fixed { raw: FSM_A0 }, Fixed { raw: FSM_A1 }, Fixed { raw: ONE }, Fixed { raw: 0 }],
            b: [Fixed { raw: ONE }, Fixed { raw: 0 }],
            c: [Fixed { raw: FSM_C0 }, Fixed { raw: FSM_C1 }],
            d: Fixed { raw: FSM_D },
        }
    }

    #[verifier::when_used_as_spec(spec_adaptive_secondary)]
    pub fn adaptive_secondary() -> (t: Tuning)
        ensures
            t == Tuning::spec_adaptive_secondary(),
    {
        Tuning {
            pole: Fixed { raw: SECONDARY_POLE },
            damping: Fixed { raw: SECONDARY_DAMPING },
            integration: 2,
            latency: 1,
            gain: Fixed { raw: SECONDARY_GAIN },
            a: [
                Fixed { raw: SECONDARY_A0 },
                Fixed { raw: SECONDARY_A1 },
                Fixed { raw: ONE },
                Fixed { raw: 0 },
            ],
            b: [Fixed { raw: ONE }, Fixed { raw: 0 }],
            c: [Fixed { raw: SECONDARY_C0 }, Fixed { raw: SECONDARY_C1 }],
            d: Fixed { raw: SECONDARY_D },
        }
    }

    #[verifier::when_used_as_spec(spec_piston_optical_sensor)]
    pub fn piston_optical_sensor() -> (t: Tuning)
        ensures
            t == Tuning::spec_piston_optical_sensor(),
    {
        let base = Tuning::adaptive_secondary();
        Tuning {
            integration: 30_000,
            latency: 6,
            gain: Fixed { raw: PISTON_OPTICAL_GAIN },
            ..base
        }
    }

    #[verifier::when_used_as_spec(spec_piston_edge_sensor)]
    pub fn piston_edge_sensor() -> (t: Tuning)
        ensures
            t == Tuning::spec_piston_edge_sensor(),
    {
        let base = Tuning::adaptive_secondary();
        Tuning { integration: 2, latency: 0, gain: Fixed { raw: PISTON_EDGE_GAIN }, ..base }
    }
}

/// The state of a stage: the states of its four parts.
pub struct StageModel {
    pub sensor: AverageModel,
    pub controller: GainModel,
    pub delay: DelayModel,
    pub dynamics: StateSpaceModel,
}

impl StageModel {
    /// The state before the first input, on `n` channels.
    pub open spec fn fresh(n: nat, t: Tuning) -> StageModel {
        StageModel {
            sensor: AverageModel::fresh(t.integration, n),
            controller: GainModel::fresh(t.gain, n),
            delay: DelayModel::fresh(t.latency as nat, n),
            dynamics: StateSpaceModel::fresh(t.a@, t.b@, t.c@, t.d, n),
        }
    }

    /// The number of channels.
    pub open spec fn width(self) -> nat {
        self.delay.width
    }

    pub open spec fn wf(self) -> bool {
        &&& self.sensor.wf()
        &&& self.delay.wf()
        &&& self.dynamics.wf()
        &&& self.sensor.sums.len() == self.width()
        &&& self.controller.mem.len() == self.width()
        &&& self.dynamics.x0.len() == self.width()
    }

    /// The state after the delay and the dynamics have run on `x`.
    pub open spec fn driven(self, x: Seq<Fixed>) -> StageModel {
        StageModel {
            delay: self.delay.next(x),
            dynamics: self.dynamics.next(self.delay.output(x)),
            ..self
        }
    }

    /// What the dynamics emit when the delay and the dynamics run on `x`.
    pub open spec fn driven_output(self, x: Seq<Fixed>) -> Seq<Fixed> {
        self.dynamics.output(self.delay.output(x))
    }

    /// The state after the sensor has taken `input` and, where the sensor
    /// emits, the integrator has taken the mean.
    pub open spec fn sensed_integral(self, input: Seq<Fixed>) -> StageModel {
        StageModel {
            sensor: self.sensor.next(input),
            controller: match self.sensor.output(input) {
                Some(mean) => self.controller.integrated(mean),
                None => self.controller,
            },
            ..self
        }
    }

    /// The state after the sensor has taken `input` and, where the sensor
    /// emits, the proportional controller has taken the mean.
    pub open spec fn sensed_proportional(self, input: Seq<Fixed>) -> StageModel {
        StageModel {
            sensor: self.sensor.next(input),
            controller: match self.sensor.output(input) {
                Some(mean) => self.controller.scaled(mean),
                None => self.controller,
            },
            ..self
        }
    }
}

/// Secondary-mirror dynamics under integral control.
pub struct M2Dynamics {
    /// pole frequency [Hz]
    pub pole: Fixed,
    /// damping
    pub damping: Fixed,
    /// sensor integration time [rate]
    pub integration: usize,
    /// latency [rate]
    pub latency: usize,
    /// gain
    pub gain: Fixed,
    sensor: Average,
    integrator: Integrate,
    delay: Delay,
    dynamics: StateSpace2x2,
}

impl View for M2Dynamics {
    type V = StageModel;

    closed spec fn view(&self) -> StageModel {
        StageModel {
            sensor: self.sensor@,
            controller: self.integrator@,
            delay: self.delay@,
            dynamics: self.dynamics@,
        }
    }
}

impl M2Dynamics {
    pub closed spec fn wf(&self) -> bool {
        &&& self.delay.wf()
        &&& self@.wf()
    }

    /// The public numbers: pole, damping, integration, latency and gain.
    pub closed spec fn labels(&self) -> (Fixed, Fixed, usize, usize, Fixed) {
        (self.pole, self.damping, self.integration, self.latency, self.gain)
    }

    /// pole frequency [Hz]
    pub fn pole(&self) -> (p: Fixed)
        ensures
            p == self.labels().0,
    {
        self.pole
    }

    /// damping
    pub fn damping(&self) -> (d: Fixed)
        ensures
            d == self.labels().1,
    {
        self.damping
    }

    /// sensor integration time [rate]
    pub fn integration(&self) -> (n: usize)
        ensures
            n == self.labels().2,
    {
        self.integration
    }

    /// latency [rate]
    pub fn latency(&self) -> (n: usize)
        ensures
            n == self.labels().3,
    {
        self.latency
    }

    /// gain
    pub fn gain(&self) -> (g: Fixed)
        ensures
            g == self.labels().4,
    {
        self.gain
    }

    /// A valid stage has a valid state.
    pub proof fn lemma_wf(&self)
        requires
            self.wf(),
        ensures
            self@.wf(),
    {
    }

    /// A stage on `n` channels with the given numbers.
    pub fn new(
        n: usize,
        pole: Fixed,
        damping: Fixed,
        integration: usize,
        latency: usize,
        gain: Fixed,
        ss: ([Fixed; 4], [Fixed; 2], [Fixed; 2], Fixed),
    ) -> (r: Self)
        requires
            latency < usize::MAX,
        ensures
            r.wf(),
            r@ == StageModel::fresh(
                n as nat,
                (Tuning { pole, damping, integration, latency, gain, a: ss.0, b: ss.1, c: ss.2, d: ss.3 }),
            ),
            r.labels() == (pole, damping, integration, latency, gain),
    {
        Self {
            pole,
            damping,
            integration,
            latency,
            gain,
            sensor: Average::new(integration, n),
            integrator: Integrate::new(gain, n),
            delay: Delay::new(latency, n),
            dynamics: StateSpace2x2::new(ss.0, ss.1, ss.2, ss.3, n),
        }
    }

    /// A stage on `n` channels with the numbers of `t`.
    pub fn tuned(n: usize, t: Tuning) -> (r: Self)
        requires
            t.latency < usize::MAX,
        ensures
            r.wf(),
            r@ == StageModel::fresh(n as nat, t),
            r.labels() == t.labels(),
    {
        Self::new(n, t.pole, t.damping, t.integration, t.latency, t.gain, (t.a, t.b, t.c, t.d))
    }

    /// The fast-steering mirror stage.
    pub fn fsm(n: usize) -> (r: Self)
        ensures
            r.wf(),
            r@ == StageModel::fresh(n as nat, Tuning::spec_fsm()),
            r.labels() == Tuning::spec_fsm().labels(),
    {
        Self::tuned(n, Tuning::fsm())
    }

    /// The adaptive secondary mirror stage.
    pub fn adaptive_secondary(n: usize) -> (r: Self)
        ensures
            r.wf(),
            r@ == StageModel::fresh(n as nat, Tuning::spec_adaptive_secondary()),
            r.labels() == Tuning::spec_adaptive_secondary().labels(),
    {
        Self::tuned(n, Tuning::adaptive_secondary())
    }

    /// The piston stage fed by the optical sensor.
    pub fn piston_optical_sensor(n: usize) -> (r: Self)
        ensures
            r.wf(),
            r@ == StageModel::fresh(n as nat, Tuning::spec_piston_optical_sensor()),
            r.labels() == Tuning::spec_piston_optical_sensor().labels(),
    {
        Self::tuned(n, Tuning::piston_optical_sensor())
    }

    /// The piston stage fed by the edge sensor.
    pub fn piston_edge_sensor(n: usize) -> (r: Self)
        ensures
            r.wf(),
            r@ == StageModel::fresh(n as nat, Tuning::spec_piston_edge_sensor()),
            r.labels() == Tuning::spec_piston_edge_sensor().labels(),
    {
        Self::tuned(n, Tuning::piston_edge_sensor())
    }

    /// The number of channels.
    pub fn width(&self) -> (n: usize)
        ensures
            n == self@.width(),
    {
        self.delay.width()
    }

    /// Runs the delay and the dynamics on `u`; the sensor and the integrator
    /// are left as they are.
    pub fn step_fast(&mut self, u: &[Fixed]) -> (r: Option<Vec<Fixed>>)
        requires
            old(self).wf(),
            u@.len() == old(self)@.width(),
        ensures
            final(self).wf(),
            final(self)@ == old(self)@.driven(u@),
            emitted(r) == Some(old(self)@.driven_output(u@)),
            final(self).labels() == old(self).labels(),
    {
        match self.delay.step(u) {
            Some(x) => self.dynamics.step(x.as_slice()),
            None => None,
        }
    }

    /// Runs the whole chain on `input`: the sensor, the integrator where the
    /// sensor emits, then the delay and the dynamics on what the integrator
    /// holds.
    pub fn step_with_sensor_fusion(&mut self, input: &[Fixed]) -> (r: Option<Vec<Fixed>>)
        requires
            old(self).wf(),
        ensures
            final(self).wf(),
            final(self)@ == old(self)@.sensed_integral(input@).driven(
                old(self)@.sensed_integral(input@).controller.mem,
            ),
            emitted(r) == Some(
                old(self)@.sensed_integral(input@).driven_output(
                    old(self)@.sensed_integral(input@).controller.mem,
                ),
            ),
            final(self).labels() == old(self).labels(),
    {
        let held: Option<Vec<Fixed>> = match self.sensor.step(input) {
            Some(value) => self.integrator.step(value.as_slice()),
            None => self.integrator.last(),
        };
        match held {
            Some(x) => match self.delay.step(x.as_slice()) {
                Some(y) => self.dynamics.step(y.as_slice()),
                None => None,
            },
            None => None,
        }
    }

    /// The short name of [`M2Dynamics::step_fast`]. It runs neither the
    /// sensor nor the integrator: where they are wanted, call
    /// [`M2Dynamics::es_step`].
    pub fn step(&mut self, u: &[Fixed]) -> (r: Option<Vec<Fixed>>)
        requires
            old(self).wf(),
            u@.len() == old(self)@.width(),
        ensures
            final(self).wf(),
            final(self)@ == old(self)@.driven(u@),
            emitted(r) == Some(old(self)@.driven_output(u@)),
            final(self).labels() == old(self).labels(),
    {
        self.step_fast(u)
    }

    /// The short name of [`M2Dynamics::step_with_sensor_fusion`].
    pub fn es_step(&mut self, input: &[Fixed]) -> (r: Option<Vec<Fixed>>)
        requires
            old(self).wf(),
        ensures
            final(self).wf(),
            final(self)@ == old(self)@.sensed_integral(input@).driven(
                old(self)@.sensed_integral(input@).controller.mem,
            ),
            emitted(r) == Some(
                old(self)@.sensed_integral(input@).driven_output(
                    old(self)@.sensed_integral(input@).controller.mem,
                ),
            ),
            final(self).labels() == old(self).labels(),
    {
        self.step_with_sensor_fusion(input)
    }

    /// [`M2Dynamics::step_fast`] for an input of any length: one of another
    /// length than the number of channels is refused and the stage is left
    /// as it is.
    pub fn try_step(&mut self, u: &[Fixed]) -> (r: Result<Option<Vec<Fixed>>, Error>)
        requires
            old(self).wf(),
        ensures
            final(self).wf(),
            final(self).labels() == old(self).labels(),
            u@.len() == old(self)@.width() ==> {
                &&& r is Ok
                &&& emitted(r->Ok_0) == Some(old(self)@.driven_output(u@))
                &&& final(self)@ == old(self)@.driven(u@)
            },
            u@.len() != old(self)@.width() ==> {
                &&& r == Err::<Option<Vec<Fixed>>, Error>(
                    Error::SizeMismatch {
                        expected: old(self)@.width() as usize,
                        found: u@.len() as usize,
                    },
                )
                &&& final(self)@ == old(self)@
            },
    {
        if u.len() != self.width() {
            Err(Error::SizeMismatch { expected: self.width(), found: u.len() })
        } else {
            Ok(self.step_fast(u))
        }
    }
}

/// Secondary-mirror dynamics under proportional control of the edge-sensor
/// piston.
pub struct EdgeSensorPistonControl {
    /// pole frequency [Hz]
    pub pole: Fixed,
    /// damping
    pub damping: Fixed,
    /// sensor integration time [rate]
    pub integration: usize,
    /// latency [rate]
    pub latency: usize,
    /// gain
    pub gain: Fixed,
    sensor: Average,
    proportional: Proportional,
    delay: Delay,
    dynamics: StateSpace2x2,
}

impl View for EdgeSensorPistonControl {
    type V = StageModel;

    closed spec fn view(&self) -> StageModel {
        StageModel {
            sensor: self.sensor@,
            controller: self.proportional@,
            delay: self.delay@,
            dynamics: self.dynamics@,
        }
    }
}

impl EdgeSensorPistonControl {
    pub closed spec fn wf(&self) -> bool {
        &&& self.delay.wf()
        &&& self@.wf()
    }

    /// The public numbers: pole, damping, integration, latency and gain.
    pub closed spec fn labels(&self) -> (Fixed, Fixed, usize, usize, Fixed) {
        (self.pole, self.damping, self.integration, self.latency, self.gain)
    }

    /// pole frequency [Hz]
    pub fn pole(&self) -> (p: Fixed)
        ensures
            p == self.labels().0,
    {
        self.pole
    }

    /// damping
    pub fn damping(&self) -> (d: Fixed)
        ensures
            d == self.labels().1,
    {
        self.damping
    }

    /// sensor integration time [rate]
    pub fn integration(&self) -> (n: usize)
        ensures
            n == self.labels().2,
    {
        self.integration
    }

    /// latency [rate]
    pub fn latency(&self) -> (n: usize)
        ensures
            n == self.labels().3,
    {
        self.latency
    }

    /// gain
    pub fn gain(&self) -> (g: Fixed)
        ensures
            g == self.labels().4,
    {
        self.gain
    }

    /// A valid stage has a valid state.
    pub proof fn lemma_wf(&self)
        requires
            self.wf(),
        ensures
            self@.wf(),
    {
    }

    /// A stage on `n` channels with the given numbers.
    pub fn new(
        n: usize,
        pole: Fixed,
        damping: Fixed,
        integration: usize,
        latency: usize,
        gain: Fixed,
        ss: ([Fixed; 4], [Fixed; 2], [Fixed; 2], Fixed),
    ) -> (r: Self)
        requires
            latency < usize::MAX,
        ensures
            r.wf(),
            r@ == StageModel::fresh(
                n as nat,
                (Tuning { pole, damping, integration, latency, gain, a: ss.0, b: ss.1, c: ss.2, d: ss.3 }),
            ),
            r.labels() == (pole, damping, integration, latency, gain),
    {
        Self {
            pole,
            damping,
            integration,
            latency,
            gain,
            sensor: Average::new(integration, n),
            proportional: Proportional::new(gain, n),
            delay: Delay::new(latency, n),
            dynamics: StateSpace2x2::new(ss.0, ss.1, ss.2, ss.3, n),
        }
    }

    /// A stage on `n` channels with the numbers of `t`.
    pub fn tuned(n: usize, t: Tuning) -> (r: Self)
        requires
            t.latency < usize::MAX,
        ensures
            r.wf(),
            r@ == StageModel::fresh(n as nat, t),
            r.labels() == t.labels(),
    {
        Self::new(n, t.pole, t.damping, t.integration, t.latency, t.gain, (t.a, t.b, t.c, t.d))
    }

    /// The fast-steering mirror stage.
    pub fn fsm(n: usize) -> (r: Self)
        ensures
            r.wf(),
            r@ == StageModel::fresh(n as nat, Tuning::spec_fsm()),
            r.labels() == Tuning::spec_fsm().labels(),
    {
        Self::tuned(n, Tuning::fsm())
    }

    /// The adaptive secondary mirror stage.
    pub fn adaptive_secondary(n: usize) -> (r: Self)
        ensures
            r.wf(),
            r@ == StageModel::fresh(n as nat, Tuning::spec_adaptive_secondary()),
            r.labels() == Tuning::spec_adaptive_secondary().labels(),
    {
        Self::tuned(n, Tuning::adaptive_secondary())
    }

    /// The piston stage fed by the optical sensor.
    pub fn piston_optical_sensor(n: usize) -> (r: Self)
        ensures
            r.wf(),
            r@ == StageModel::fresh(n as nat, Tuning::spec_piston_optical_sensor()),
            r.labels() == Tuning::spec_piston_optical_sensor().labels(),
    {
        Self::tuned(n, Tuning::piston_optical_sensor())
    }

    /// The piston stage fed by the edge sensor.
    pub fn piston_edge_sensor(n: usize) -> (r: Self)
        ensures
            r.wf(),
            r@ == StageModel::fresh(n as nat, Tuning::spec_piston_edge_sensor()),
            r.labels() == Tuning::spec_piston_edge_sensor().labels(),
    {
        Self::tuned(n, Tuning::piston_edge_sensor())
    }

    /// The number of channels.
    pub fn width(&self) -> (n: usize)
        ensures
            n == self@.width(),
    {
        self.delay.width()
    }

    /// Runs the whole chain on `input`: the sensor, the proportional
    /// controller where the sensor emits, then the delay and the dynamics on
    /// what the controller holds.
    pub fn step(&mut self, input: &[Fixed]) -> (r: Option<Vec<Fixed>>)
        requires
            old(self).wf(),
        ensures
            final(self).wf(),
            final(self)@ == old(self)@.sensed_proportional(input@).driven(
                old(self)@.sensed_proportional(input@).controller.mem,
            ),
            emitted(r) == Some(
                old(self)@.sensed_proportional(input@).driven_output(
                    old(self)@.sensed_proportional(input@).controller.mem,
                ),
            ),
            final(self).labels() == old(self).labels(),
    {
        let held: Option<Vec<Fixed>> = match self.sensor.step(input) {
            Some(value) => self.proportional.step(value.as_slice()),
            None => self.proportional.last(),
        };
        match held {
            Some(x) => match self.delay.step(x.as_slice()) {
                Some(y) => self.dynamics.step(y.as_slice()),
                None => None,
            },
            None => None,
        }
    }
}

} // verus!
