use grim::calibration::{
    degrees_of_freedom, Action, Calibrator, Dof, Event, Mirror, Phase, Poker, Segment,
    ValidLensletCriteria,
};
use grim::fixed::Fixed;
use grim::matrix::Matrix;
use grim::Error;

fn w(n: i32) -> Fixed {
    Fixed::whole(n)
}

fn raw(r: i64) -> Fixed {
    Fixed::from_raw(r)
}

/// A sensor whose readout is linear in the perturbation that is applied.
struct Sensor {
    mask: Vec<bool>,
    applied: Vec<Dof>,
    fails_at: Option<usize>,
    reads: usize,
}

impl Sensor {
    fn new(mask: Vec<bool>) -> Self {
        Sensor { mask, applied: vec![], fails_at: None, reads: 0 }
    }

    fn gain(dof: &Dof, element: usize) -> Fixed {
        w((100 * dof.segment + 10 * dof.index + element + 1) as i32)
    }

    fn read(&mut self) -> Option<Vec<Fixed>> {
        self.reads += 1;
        if self.fails_at == Some(self.reads) {
            return None;
        }
        Some(
            (0..self.mask.len())
                .map(|i| {
                    let mut v = w(1000 + i as i32);
                    for dof in &self.applied {
                        v = v.plus(dof.amplitude.times(Self::gain(dof, i)));
                    }
                    v
                })
                .collect(),
        )
    }
}

/// Runs a calibration to its end and returns what was asked for, in order.
fn run(c: &mut Calibrator, sensor: &mut Sensor) -> (Vec<Action>, Result<(), Error>) {
    let mut actions = vec![];
    loop {
        let action = c.action();
        actions.push(action);
        let event = match action {
            Action::ResolveMask(_) => Event::Mask(sensor.mask.clone()),
            Action::Measure => match sensor.read() {
                Some(v) => Event::Measurement(v),
                None => Event::Unavailable,
            },
            Action::Perturb(dof) => {
                assert!(sensor.applied.is_empty());
                sensor.applied.push(dof);
                Event::Applied
            }
            Action::Restore => {
                sensor.applied.clear();
                Event::Applied
            }
            Action::Stop => return (actions, Ok(())),
        };
        if let Err(e) = c.advance(event) {
            return (actions, Err(e));
        }
    }
}

fn tiptilt() -> Poker {
    (0..7)
        .map(|_| Some(vec![(Mirror::M2, vec![Segment::Rxyz(raw(1_000), Some(0..2))])]))
        .collect()
}

fn flat(m: &Matrix) -> (usize, usize, Vec<Fixed>) {
    (m.nrows(), m.ncols(), m.to_column_major().unwrap())
}

#[test]
fn segment_counts_its_components() {
    assert_eq!(Segment::Txyz(w(1), None).n_mode(), 3);
    assert_eq!(Segment::Rxyz(w(1), None).n_mode(), 3);
    assert_eq!(Segment::Txyz(w(1), Some(1..3)).n_mode(), 2);
    assert_eq!(Segment::Rxyz(w(1), Some(0..2)).n_mode(), 2);
    assert_eq!(Segment::Modes(w(1), 5..27).n_mode(), 22);
    assert_eq!(Segment::Modes(w(1), 5..5).n_mode(), 0);
    assert_eq!(Segment::Modes(w(1), Default::default()).n_mode(), 0);
}

#[test]
fn segment_range_puts_rotations_after_translations() {
    assert_eq!(Segment::Txyz(w(1), None).range(), 0..3);
    assert_eq!(Segment::Rxyz(w(1), None).range(), 3..6);
    assert_eq!(Segment::Txyz(w(1), Some(1..3)).range(), 1..3);
    assert_eq!(Segment::Rxyz(w(1), Some(0..2)).range(), 3..5);
    assert_eq!(Segment::Modes(w(1), 5..27).range(), 5..27);
    let (stroke, range) = Segment::Rxyz(raw(1_000), Some(1..2)).strip();
    assert_eq!((stroke, range), (raw(1_000), 4..5));
    assert_eq!(Segment::Modes(raw(7), 0..1).stroke(), raw(7));
}

#[test]
fn segment_is_countable_unless_its_indices_overflow() {
    assert!(Segment::Rxyz(w(1), Some(0..usize::MAX - 3)).is_countable());
    assert!(!Segment::Rxyz(w(1), Some(0..usize::MAX - 2)).is_countable());
    assert!(Segment::Txyz(w(1), Some(0..usize::MAX)).is_countable());
}

#[test]
fn degrees_of_freedom_in_order() {
    let spec: Poker = vec![
        None,
        Some(vec![
            (Mirror::M1, vec![Segment::Txyz(w(1), Some(2..3)), Segment::Rxyz(w(2), Some(0..2))]),
            (Mirror::M1MODES, vec![Segment::Modes(w(3), 7..9)]),
        ]),
        None,
        Some(vec![(Mirror::M2, vec![Segment::Rxyz(w(4), None)])]),
    ];
    let dof = |segment, mirror, index, amplitude| Dof { segment, mirror, index, amplitude };
    assert_eq!(
        degrees_of_freedom(&spec),
        Ok(vec![
            dof(1, Mirror::M1, 2, w(1)),
            dof(1, Mirror::M1, 3, w(2)),
            dof(1, Mirror::M1, 4, w(2)),
            dof(1, Mirror::M1MODES, 7, w(3)),
            dof(1, Mirror::M1MODES, 8, w(3)),
            dof(3, Mirror::M2, 3, w(4)),
            dof(3, Mirror::M2, 4, w(4)),
            dof(3, Mirror::M2, 5, w(4)),
        ])
    );
}

#[test]
fn degrees_of_freedom_of_nothing() {
    assert_eq!(degrees_of_freedom(&vec![]), Ok(vec![]));
    assert_eq!(degrees_of_freedom(&vec![None, None, Some(vec![])]), Ok(vec![]));
}

#[test]
fn degrees_of_freedom_refuses_indices_that_overflow() {
    let spec: Poker = vec![Some(vec![(
        Mirror::M2,
        vec![Segment::Rxyz(w(1), Some(usize::MAX - 1..usize::MAX))],
    )])];
    assert_eq!(degrees_of_freedom(&spec), Err(Error::Capacity));
    assert_eq!(Calibrator::new(&spec, ValidLensletCriteria::OtherSensor).err(), Some(Error::Capacity));
}

#[test]
fn poke_matrix_shape() {
    // seven slots of two degrees of freedom each, three valid elements of four
    let mut sensor = Sensor::new(vec![true, false, true, true]);
    let mut c = Calibrator::new(&tiptilt(), ValidLensletCriteria::OtherSensor).unwrap();
    let (_, result) = run(&mut c, &mut sensor);
    assert_eq!(result, Ok(()));
    let poke = c.finish().unwrap();
    assert_eq!((poke.nrows(), poke.ncols()), (3, 14));
}

#[test]
fn poke_matrix_shape_counts_absent_slots_for_nothing() {
    let spec: Poker = vec![
        None,
        Some(vec![(Mirror::M1, vec![Segment::Txyz(w(1), None)])]),
        None,
        Some(vec![(Mirror::M2, vec![Segment::Rxyz(w(1), Some(0..2)), Segment::Txyz(w(1), Some(0..0))])]),
    ];
    let mut sensor = Sensor::new(vec![true; 5]);
    let mut c = Calibrator::new(&spec, ValidLensletCriteria::OtherSensor).unwrap();
    assert_eq!(run(&mut c, &mut sensor).1, Ok(()));
    let poke = c.finish().unwrap();
    assert_eq!((poke.nrows(), poke.ncols()), (5, 3 + 0 + 2));
}

#[test]
fn poke_matrix_columns_are_finite_differences_on_valid_rows() {
    let mut sensor = Sensor::new(vec![true, false, true, true]);
    let mut c = Calibrator::new(&tiptilt(), ValidLensletCriteria::OtherSensor).unwrap();
    assert_eq!(run(&mut c, &mut sensor).1, Ok(()));
    let poke = c.finish().unwrap();
    for segment in 0..7 {
        for (n, index) in [3usize, 4].into_iter().enumerate() {
            let dof = Dof { segment, mirror: Mirror::M2, index, amplitude: raw(1_000) };
            let expected: Vec<Fixed> =
                [0usize, 2, 3].iter().map(|e| Sensor::gain(&dof, *e)).collect();
            assert_eq!(poke.column(2 * segment + n), Some(expected));
        }
    }
}

#[test]
fn poke_matrix_divides_by_the_amplitude() {
    let spec: Poker = vec![Some(vec![(Mirror::M1, vec![Segment::Txyz(w(2), Some(0..1))])])];
    let mut c = Calibrator::new(&spec, ValidLensletCriteria::OtherSensor).unwrap();
    assert_eq!(c.advance(Event::Mask(vec![true, true])), Ok(()));
    assert_eq!(c.advance(Event::Measurement(vec![w(1), w(10)])), Ok(()));
    assert_eq!(c.advance(Event::Applied), Ok(()));
    assert_eq!(c.advance(Event::Measurement(vec![w(4), w(9)])), Ok(()));
    assert_eq!(c.advance(Event::Applied), Ok(()));
    let poke = c.finish().unwrap();
    assert_eq!(flat(&poke), (2, 1, vec![raw(1_500_000_000), raw(-500_000_000)]));
}

#[test]
fn calibration_perturbs_measures_and_reverts() {
    let mut sensor = Sensor::new(vec![true, true]);
    let spec: Poker = vec![Some(vec![(Mirror::M2, vec![Segment::Rxyz(raw(1_000), Some(0..2))])])];
    let mut c = Calibrator::new(&spec, ValidLensletCriteria::OtherSensor).unwrap();
    let (actions, result) = run(&mut c, &mut sensor);
    assert_eq!(result, Ok(()));
    let dof = |index| Dof { segment: 0, mirror: Mirror::M2, index, amplitude: raw(1_000) };
    assert_eq!(
        actions,
        vec![
            Action::ResolveMask(ValidLensletCriteria::OtherSensor),
            Action::Measure,
            Action::Perturb(dof(3)),
            Action::Measure,
            Action::Restore,
            Action::Measure,
            Action::Perturb(dof(4)),
            Action::Measure,
            Action::Restore,
            Action::Stop,
        ]
    );
    assert!(sensor.applied.is_empty());
    assert_eq!(c.phase(), Phase::Done);
}

#[test]
fn calibration_of_nothing_resolves_the_mask_and_stops() {
    let mut sensor = Sensor::new(vec![true, false, true]);
    let mut c = Calibrator::new(&vec![None, None], ValidLensletCriteria::Threshold(None)).unwrap();
    let (actions, result) = run(&mut c, &mut sensor);
    assert_eq!(result, Ok(()));
    assert_eq!(
        actions,
        vec![Action::ResolveMask(ValidLensletCriteria::Threshold(None)), Action::Stop]
    );
    let poke = c.finish().unwrap();
    assert_eq!((poke.nrows(), poke.ncols()), (2, 0));
}

#[test]
fn calibration_fails_when_the_sensor_gives_no_readout() {
    for fails_at in 1..=4 {
        let mut sensor = Sensor::new(vec![true, true]);
        sensor.fails_at = Some(fails_at);
        let mut c = Calibrator::new(&tiptilt(), ValidLensletCriteria::OtherSensor).unwrap();
        let (_, result) = run(&mut c, &mut sensor);
        assert_eq!(result, Err(Error::SensorUnavailable));
        assert_eq!(c.phase(), Phase::Failed);
        assert_eq!(c.action(), Action::Stop);
        assert!(c.finish().is_none());
    }
}

#[test]
fn calibration_fails_without_a_mask() {
    let mut c = Calibrator::new(&tiptilt(), ValidLensletCriteria::OtherSensor).unwrap();
    assert_eq!(c.action(), Action::ResolveMask(ValidLensletCriteria::OtherSensor));
    assert_eq!(c.advance(Event::Unavailable), Err(Error::SensorUnavailable));
    assert_eq!(c.phase(), Phase::Failed);
}

#[test]
fn calibration_fails_on_another_answer_than_was_asked_for() {
    let mut c = Calibrator::new(&tiptilt(), ValidLensletCriteria::OtherSensor).unwrap();
    assert_eq!(c.advance(Event::Mask(vec![true])), Ok(()));
    assert_eq!(c.advance(Event::Applied), Err(Error::SensorUnavailable));
    assert_eq!(c.phase(), Phase::Failed);
    assert_eq!(c.advance(Event::Measurement(vec![w(1)])), Err(Error::SensorUnavailable));
    assert_eq!(c.phase(), Phase::Failed);
}

#[test]
fn calibration_fails_on_a_measurement_of_another_length() {
    let mut c = Calibrator::new(&tiptilt(), ValidLensletCriteria::OtherSensor).unwrap();
    assert_eq!(c.advance(Event::Mask(vec![true, false, true])), Ok(()));
    assert_eq!(
        c.advance(Event::Measurement(vec![w(1), w(2)])),
        Err(Error::SizeMismatch { expected: 3, found: 2 })
    );
    assert_eq!(c.phase(), Phase::Failed);

    let mut c = Calibrator::new(&tiptilt(), ValidLensletCriteria::OtherSensor).unwrap();
    assert_eq!(c.advance(Event::Mask(vec![true, false, true])), Ok(()));
    assert_eq!(c.advance(Event::Measurement(vec![w(1), w(2), w(3)])), Ok(()));
    assert_eq!(c.advance(Event::Applied), Ok(()));
    assert_eq!(
        c.advance(Event::Measurement(vec![w(1), w(2), w(3), w(4)])),
        Err(Error::SizeMismatch { expected: 3, found: 4 })
    );
    assert_eq!(c.phase(), Phase::Failed);
}

#[test]
fn calibration_that_is_done_stays_done() {
    let mut c = Calibrator::new(&vec![], ValidLensletCriteria::OtherSensor).unwrap();
    assert_eq!(c.advance(Event::Mask(vec![true])), Ok(()));
    assert_eq!(c.phase(), Phase::Done);
    assert_eq!(c.advance(Event::Applied), Err(Error::SensorUnavailable));
    assert_eq!(c.phase(), Phase::Done);
    assert!(c.finish().is_some());
}

#[test]
fn calibration_is_not_finished_before_its_end() {
    let mut c = Calibrator::new(&tiptilt(), ValidLensletCriteria::OtherSensor).unwrap();
    assert_eq!(c.phase(), Phase::Mask);
    assert_eq!(c.advance(Event::Mask(vec![true])), Ok(()));
    assert_eq!(c.phase(), Phase::Baseline);
    assert!(c.finish().is_none());
}

#[test]
fn valid_lenslet_criteria_name_their_threshold() {
    assert_eq!(ValidLensletCriteria::Threshold(Some(raw(800_000_000))).flux_threshold(), Some(raw(800_000_000)));
    assert_eq!(ValidLensletCriteria::Threshold(None).flux_threshold(), Some(w(0)));
    assert_eq!(ValidLensletCriteria::OtherSensor.flux_threshold(), None);
}
