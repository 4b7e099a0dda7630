use grim::control::{
    Average, Control, Delay, EdgeSensorPistonControl, Integrate, M2Dynamics, Proportional,
    StateSpace2x2, Tuning,
};
use grim::fixed::Fixed;
use grim::Error;

fn w(n: i32) -> Fixed {
    Fixed::whole(n)
}

fn raw(r: i64) -> Fixed {
    Fixed::from_raw(r)
}

const ONE: i64 = 1_000_000_000;

#[test]
fn average_of_three() {
    let mut avg = Average::new(3, 1);
    assert_eq!(avg.step(&[w(1)]), None);
    assert_eq!(avg.step(&[w(2)]), None);
    assert_eq!(avg.step(&[w(3)]), Some(vec![w(2)]));
}

#[test]
fn average_starts_over_after_emission() {
    let mut avg = Average::new(3, 2);
    let mut outs = vec![];
    for k in 1..=6 {
        outs.push(avg.step(&[w(k), w(10 * k)]));
    }
    assert_eq!(
        outs,
        vec![
            None,
            None,
            Some(vec![w(2), w(20)]),
            None,
            None,
            Some(vec![w(5), w(50)])
        ]
    );
}

#[test]
fn average_emits_on_every_nth_call_only() {
    for n in 1..6usize {
        let mut avg = Average::new(n, 1);
        for k in 0..30usize {
            let out = avg.step(&[w(1)]);
            assert_eq!(out.is_some(), (k + 1) % n == 0);
        }
    }
}

#[test]
fn average_of_one_emits_each_input() {
    let mut avg = Average::new(1, 1);
    assert_eq!(avg.step(&[w(4)]), Some(vec![w(4)]));
    assert_eq!(avg.step(&[w(-9)]), Some(vec![w(-9)]));
}

#[test]
fn average_with_period_zero_never_emits() {
    let mut avg = Average::new(0, 1);
    for _ in 0..10 {
        assert_eq!(avg.step(&[w(1)]), None);
    }
    assert_eq!(avg.next(), None);
}

#[test]
fn average_rounds_toward_zero() {
    let mut avg = Average::new(2, 2);
    assert_eq!(avg.step(&[raw(1), raw(-1)]), None);
    assert_eq!(avg.step(&[raw(2), raw(-2)]), Some(vec![raw(1), raw(-1)]));
}

#[test]
fn average_short_input_leaves_the_rest() {
    let mut avg = Average::new(2, 3);
    assert_eq!(avg.step(&[w(2)]), None);
    assert_eq!(
        avg.step(&[w(4), w(6), w(8), w(100)]),
        Some(vec![w(3), w(3), w(4)])
    );
}

#[test]
fn average_next_counts_without_input() {
    let mut avg = Average::new(2, 1);
    assert_eq!(avg.step(&[w(6)]), None);
    assert_eq!(avg.next(), Some(vec![w(3)]));
    assert_eq!(avg.next(), None);
}

#[test]
fn integrate_accumulates() {
    let mut int = Integrate::new(raw(500_000_000), 2);
    assert_eq!(int.last(), Some(vec![w(0), w(0)]));
    assert_eq!(int.step(&[w(2), w(-4)]), Some(vec![w(1), w(-2)]));
    assert_eq!(int.step(&[w(2), w(-4)]), Some(vec![w(2), w(-4)]));
    assert_eq!(int.last(), Some(vec![w(2), w(-4)]));
}

#[test]
fn integrate_short_input_leaves_the_rest() {
    let mut int = Integrate::new(w(1), 2);
    assert_eq!(int.step(&[w(1), w(1)]), Some(vec![w(1), w(1)]));
    assert_eq!(int.step(&[w(1)]), Some(vec![w(2), w(1)]));
}

#[test]
fn proportional_replaces() {
    let mut p = Proportional::new(raw(800_000_000), 2);
    assert_eq!(p.last(), Some(vec![w(0), w(0)]));
    assert_eq!(p.step(&[w(2), w(5)]), Some(vec![raw(1_600_000_000), w(4)]));
    assert_eq!(p.step(&[w(1), w(0)]), Some(vec![raw(800_000_000), w(0)]));
    assert_eq!(p.last(), Some(vec![raw(800_000_000), w(0)]));
}

#[test]
fn delay_of_two() {
    let (a, b, c, d) = (w(11), w(22), w(33), w(44));
    let mut delay = Delay::new(2, 1);
    assert_eq!(delay.step(&[a]), Some(vec![w(0)]));
    assert_eq!(delay.step(&[b]), Some(vec![w(0)]));
    assert_eq!(delay.step(&[c]), Some(vec![a]));
    assert_eq!(delay.step(&[d]), Some(vec![b]));
}

#[test]
fn delay_of_zero_passes_through() {
    let mut delay = Delay::new(0, 2);
    assert_eq!(delay.step(&[w(1), w(2)]), Some(vec![w(1), w(2)]));
    assert_eq!(delay.step(&[w(3), w(4)]), Some(vec![w(3), w(4)]));
}

#[test]
fn delay_shifts_by_its_latency() {
    for latency in 0..8usize {
        let mut delay = Delay::new(latency, 2);
        for k in 0..40usize {
            let out = delay.step(&[w(k as i32 + 1), w(-(k as i32) - 1)]).unwrap();
            if k < latency {
                assert_eq!(out, vec![w(0), w(0)]);
            } else {
                let j = (k - latency) as i32;
                assert_eq!(out, vec![w(j + 1), w(-j - 1)]);
            }
        }
    }
}

#[test]
fn state_space_uses_the_state_before_the_update() {
    let a = [w(2), w(-1), raw(ONE / 2), w(3)];
    let b = [w(1), w(2)];
    let c = [w(4), w(5)];
    let d = raw(ONE / 4);
    let mut ss = StateSpace2x2::new(a, b, c, d, 1);
    assert_eq!(ss.step(&[w(1)]), Some(vec![raw(250_000_000)]));
    assert_eq!(ss.step(&[w(2)]), Some(vec![raw(14_500_000_000)]));
}

#[test]
fn state_space_fsm_response() {
    let t = Tuning::fsm();
    let mut ss = StateSpace2x2::new(t.a, t.b, t.c, t.d, 2);
    assert_eq!(ss.step(&[w(1), w(0)]), Some(vec![raw(5_605_610), w(0)]));
    assert_eq!(ss.step(&[w(1), w(0)]), Some(vec![raw(26_942_140), w(0)]));
    assert_eq!(ss.step(&[w(1), w(0)]), Some(vec![raw(66_442_156), w(0)]));
}

#[test]
fn state_space_at_rest_stays_at_rest() {
    for t in [
        Tuning::fsm(),
        Tuning::adaptive_secondary(),
        Tuning::piston_optical_sensor(),
        Tuning::piston_edge_sensor(),
    ] {
        let mut ss = StateSpace2x2::new(t.a, t.b, t.c, t.d, 3);
        for _ in 0..20 {
            assert_eq!(ss.step(&[w(0), w(0), w(0)]), Some(vec![w(0), w(0), w(0)]));
        }
        assert_eq!(
            ss.step(&[w(1), w(0), w(0)]),
            Some(vec![t.d, w(0), w(0)])
        );
    }
}

#[test]
fn state_space_short_input_shrinks() {
    let t = Tuning::fsm();
    let mut ss = StateSpace2x2::new(t.a, t.b, t.c, t.d, 3);
    assert_eq!(ss.step(&[w(0)]), Some(vec![w(0)]));
    assert_eq!(ss.step(&[w(0), w(0), w(0)]), Some(vec![w(0)]));
}

#[test]
fn tuning_tables() {
    let t = Tuning::fsm();
    assert_eq!(
        (t.pole, t.damping, t.integration, t.latency, t.gain),
        (w(25), raw(600_000_000), 5, 6, raw(300_000_000))
    );
    assert_eq!(t.a, [raw(1_806_282_790), raw(-828_705_230), w(1), w(0)]);
    assert_eq!(t.b, [w(1), w(0)]);
    assert_eq!(t.c, [raw(21_336_530), raw(960_210)]);
    assert_eq!(t.d, raw(5_605_610));

    let secondary = (
        [raw(-959_106_470), raw(-319_907_010), w(1), w(0)],
        [w(1), w(0)],
        [raw(593_052_600), raw(387_485_270)],
        raw(569_753_370),
    );
    let t = Tuning::adaptive_secondary();
    assert_eq!(
        (t.pole, t.damping, t.integration, t.latency, t.gain),
        (w(800), raw(750_000_000), 2, 1, raw(400_000_000))
    );
    assert_eq!((t.a, t.b, t.c, t.d), secondary);
    let t = Tuning::piston_optical_sensor();
    assert_eq!(
        (t.pole, t.damping, t.integration, t.latency, t.gain),
        (w(800), raw(750_000_000), 30_000, 6, raw(500_000_000))
    );
    assert_eq!((t.a, t.b, t.c, t.d), secondary);
    let t = Tuning::piston_edge_sensor();
    assert_eq!(
        (t.pole, t.damping, t.integration, t.latency, t.gain),
        (w(800), raw(750_000_000), 2, 0, raw(800_000_000))
    );
    assert_eq!((t.a, t.b, t.c, t.d), secondary);
}

#[test]
fn tuning_tables_match_the_decimal_literals() {
    let as_raw = |x: f64| Fixed::from_raw((x * 1e9).round() as i64);
    let t = Tuning::fsm();
    assert_eq!(t.a, [1.80628279, -0.82870523, 1., 0.].map(as_raw));
    assert_eq!(t.c, [0.02133653, 0.00096021].map(as_raw));
    assert_eq!(t.d, as_raw(0.00560561));
    assert_eq!((t.pole, t.damping, t.gain), (as_raw(25.), as_raw(0.6), as_raw(0.3)));
    let t = Tuning::adaptive_secondary();
    assert_eq!(t.a, [-0.95910647, -0.31990701, 1., 0.].map(as_raw));
    assert_eq!(t.c, [0.5930526, 0.38748527].map(as_raw));
    assert_eq!(t.d, as_raw(0.56975337));
    assert_eq!((t.pole, t.damping, t.gain), (as_raw(800.), as_raw(0.75), as_raw(0.4)));
    assert_eq!(Tuning::piston_optical_sensor().gain, as_raw(0.5));
    assert_eq!(Tuning::piston_edge_sensor().gain, as_raw(0.8));
}

#[test]
fn m2_dynamics_presets_show_their_numbers() {
    let s = M2Dynamics::fsm(14);
    assert_eq!(
        (s.pole, s.damping, s.integration, s.latency, s.gain),
        (w(25), raw(600_000_000), 5, 6, raw(300_000_000))
    );
    let s = M2Dynamics::adaptive_secondary(7);
    assert_eq!(
        (s.pole, s.damping, s.integration, s.latency, s.gain),
        (w(800), raw(750_000_000), 2, 1, raw(400_000_000))
    );
    let s = M2Dynamics::piston_optical_sensor(7);
    assert_eq!((s.integration, s.latency, s.gain), (30_000, 6, raw(500_000_000)));
    let s = M2Dynamics::piston_edge_sensor(7);
    assert_eq!((s.integration, s.latency, s.gain), (2, 0, raw(800_000_000)));
    let s = EdgeSensorPistonControl::fsm(14);
    assert_eq!((s.integration, s.latency, s.gain), (5, 6, raw(300_000_000)));
    let s = EdgeSensorPistonControl::adaptive_secondary(7);
    assert_eq!((s.integration, s.latency, s.gain), (2, 1, raw(400_000_000)));
    let s = EdgeSensorPistonControl::piston_optical_sensor(7);
    assert_eq!((s.integration, s.latency, s.gain), (30_000, 6, raw(500_000_000)));
    let s = EdgeSensorPistonControl::piston_edge_sensor(7);
    assert_eq!((s.integration, s.latency, s.gain), (2, 0, raw(800_000_000)));
}

#[test]
fn m2_dynamics_step_is_delay_then_dynamics() {
    let mut s = M2Dynamics::fsm(1);
    for _ in 0..6 {
        assert_eq!(s.step(&[w(1)]), Some(vec![w(0)]));
    }
    assert_eq!(s.step(&[w(1)]), Some(vec![raw(5_605_610)]));
    assert_eq!(s.step(&[w(1)]), Some(vec![raw(26_942_140)]));
    assert_eq!(s.step(&[w(1)]), Some(vec![raw(66_442_156)]));
}

#[test]
fn m2_dynamics_es_step_runs_the_integrator_when_the_sensor_emits() {
    let mut s = M2Dynamics::piston_edge_sensor(1);
    // sensor gathers, the integrator holds zero
    assert_eq!(s.es_step(&[w(1)]), Some(vec![w(0)]));
    // mean 2, integrator 0.8 * 2 = 1.6
    assert_eq!(s.es_step(&[w(3)]), Some(vec![raw(911_605_392)]));
    // sensor gathers, the integrator still holds 1.6
    assert_eq!(s.es_step(&[w(5)]), Some(vec![raw(1_860_489_552)]));
    // mean 3, integrator 1.6 + 0.8 * 3 = 4
    assert_eq!(s.es_step(&[w(1)]), Some(vec![raw(2_937_793_134)]));
}

#[test]
fn m2_dynamics_es_step_differs_from_step() {
    let mut fast = M2Dynamics::piston_edge_sensor(1);
    let mut fused = M2Dynamics::piston_edge_sensor(1);
    assert_eq!(fast.step(&[w(1)]), Some(vec![raw(569_753_370)]));
    assert_eq!(fused.es_step(&[w(1)]), Some(vec![w(0)]));
}

#[test]
fn edge_sensor_piston_control_replaces_on_emission() {
    let mut s = EdgeSensorPistonControl::piston_edge_sensor(1);
    assert_eq!(s.step(&[w(1)]), Some(vec![w(0)]));
    // mean 2, proportional 0.8 * 2 = 1.6
    assert_eq!(s.step(&[w(3)]), Some(vec![raw(911_605_392)]));
    // held at 1.6
    assert_eq!(s.step(&[w(5)]), Some(vec![raw(1_860_489_552)]));
}

#[test]
fn stage_new_takes_its_numbers() {
    let ss = ([w(0), w(0), w(0), w(0)], [w(0), w(0)], [w(0), w(0)], w(1));
    let mut s = M2Dynamics::new(2, w(1), w(2), 3, 1, w(4), ss);
    assert_eq!(
        (s.pole, s.damping, s.integration, s.latency, s.gain),
        (w(1), w(2), 3, 1, w(4))
    );
    assert_eq!(s.step(&[w(7), w(8)]), Some(vec![w(0), w(0)]));
    assert_eq!(s.step(&[w(9), w(9)]), Some(vec![w(7), w(8)]));
    let mut e = EdgeSensorPistonControl::new(1, w(1), w(2), 1, 0, w(4), ss);
    assert_eq!(e.step(&[w(2)]), Some(vec![w(8)]));
}

#[test]
fn m2_dynamics_named_steps_are_the_short_ones() {
    let mut a = M2Dynamics::piston_edge_sensor(1);
    let mut b = M2Dynamics::piston_edge_sensor(1);
    for k in 1..20 {
        assert_eq!(a.step(&[w(k)]), b.step_fast(&[w(k)]));
    }
    let mut a = M2Dynamics::fsm(2);
    let mut b = M2Dynamics::fsm(2);
    for k in 1..40 {
        assert_eq!(
            a.es_step(&[w(k), w(-k)]),
            b.step_with_sensor_fusion(&[w(k), w(-k)])
        );
    }
}

#[test]
fn m2_dynamics_sensor_fusion_waits_for_the_sensor_and_the_delay() {
    // integration 5, latency 6, gain 0.3: the first mean leaves the sensor on
    // the fifth call and the delay six calls later
    let mut s = M2Dynamics::fsm(1);
    let outs: Vec<Vec<Fixed>> =
        (0..11).map(|_| s.step_with_sensor_fusion(&[w(1)]).unwrap()).collect();
    for out in &outs[..10] {
        assert_eq!(out, &vec![w(0)]);
    }
    // d * 0.3 = 0.00560561 * 0.3
    assert_eq!(outs[10], vec![raw(1_681_683)]);
}

#[test]
fn m2_dynamics_try_step_refuses_another_width() {
    let mut s = M2Dynamics::piston_edge_sensor(2);
    assert_eq!(s.width(), 2);
    assert_eq!(
        s.try_step(&[w(1)]),
        Err(Error::SizeMismatch { expected: 2, found: 1 })
    );
    assert_eq!(
        s.try_step(&[w(1), w(2), w(3)]),
        Err(Error::SizeMismatch { expected: 2, found: 3 })
    );
    assert_eq!(
        s.try_step(&[w(1), w(0)]),
        Ok(Some(vec![raw(569_753_370), w(0)]))
    );
    assert_eq!(EdgeSensorPistonControl::fsm(14).width(), 14);
    assert_eq!(Delay::new(3, 5).width(), 5);
}

#[test]
fn default_stages_hold_nothing() {
    assert_eq!(Average::default().step(&[w(1)]), None);
    assert_eq!(Integrate::default().step(&[w(1)]), Some(vec![]));
    assert_eq!(Integrate::default().last(), Some(vec![]));
    assert_eq!(Proportional::default().step(&[w(1)]), Some(vec![]));
    assert_eq!(StateSpace2x2::default().step(&[w(1)]), Some(vec![]));
    assert_eq!(Delay::default().step(&[]), Some(vec![]));
    assert_eq!(Delay::default().width(), 0);
}

#[test]
fn stage_getters_give_the_public_numbers() {
    let s = M2Dynamics::fsm(14);
    assert_eq!(
        (s.pole(), s.damping(), s.integration(), s.latency(), s.gain()),
        (s.pole, s.damping, s.integration, s.latency, s.gain)
    );
    assert_eq!(
        (s.pole(), s.damping(), s.integration(), s.latency(), s.gain()),
        (w(25), raw(600_000_000), 5, 6, raw(300_000_000))
    );
    let e = EdgeSensorPistonControl::piston_optical_sensor(7);
    assert_eq!(
        (e.pole(), e.damping(), e.integration(), e.latency(), e.gain()),
        (w(800), raw(750_000_000), 30_000, 6, raw(500_000_000))
    );
}
