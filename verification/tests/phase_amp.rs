use plasma::phase_amp::{MAX_STEPS, MIN_STEPS};
use plasma::{
    transform, Flt, PhaseAmp, PhaseAmpAccess, PhaseAmpCfg, PhaseAmpConfig, PhaseAmpDataExp,
    PhaseAmpPoint, PhaseAmpsSelect, SeedDraws, TickDraws,
};

fn f(v: f32) -> Flt {
    Flt::from_bits(v.to_bits())
}

fn v(x: Flt) -> f32 {
    f32::from_bits(x.to_bits())
}

fn floats(xs: &[Flt]) -> Vec<f32> {
    xs.iter().map(|x| v(*x)).collect()
}

fn ap(p: &PhaseAmpPoint) -> (f32, f32) {
    (v(p.amplitude()), v(p.phase()))
}

fn oscillator(phase: f32, amplitude: f32) -> PhaseAmp {
    PhaseAmp { phase: f(phase), amplitude: f(amplitude), ..Default::default() }
}

fn check_iterators<P: PhaseAmpsSelect + ?Sized>(pa: &P) {
    let res: Vec<(f32, f32)> = pa.iter_phase_amps().iter().map(ap).collect();
    assert_eq!(res, [(1.5, 1.0), (2.5, 2.0), (3.5, 3.0), (4.5, 4.0), (5.5, 5.0), (6.5, 6.0)]);
    let res: Vec<(f32, f32, f32, f32)> = pa
        .iter_pa_pairs()
        .iter()
        .map(|(pa1, pa2)| (v(pa1.amplitude()), v(pa1.phase()), v(pa2.amplitude()), v(pa2.phase())))
        .collect();
    assert_eq!(res, [(1.5, 1.0, 2.5, 2.0), (3.5, 3.0, 4.5, 4.0), (5.5, 5.0, 6.5, 6.0)]);
    let res: Vec<(f32, f32, f32, f32, f32, f32)> = pa
        .iter_pa_triples()
        .iter()
        .map(|(pa1, pa2, pa3)| {
            (
                v(pa1.amplitude()),
                v(pa1.phase()),
                v(pa2.amplitude()),
                v(pa2.phase()),
                v(pa3.amplitude()),
                v(pa3.phase()),
            )
        })
        .collect();
    assert_eq!(res, [(1.5, 1.0, 2.5, 2.0, 3.5, 3.0), (4.5, 4.0, 5.5, 5.0, 6.5, 6.0)]);
    let res: Vec<(f32, f32, f32, f32, f32, f32, f32, f32)> = pa
        .iter_pa_quads()
        .iter()
        .map(|(pa1, pa2, pa3, pa4)| {
            (
                v(pa1.amplitude()),
                v(pa1.phase()),
                v(pa2.amplitude()),
                v(pa2.phase()),
                v(pa3.amplitude()),
                v(pa3.phase()),
                v(pa4.amplitude()),
                v(pa4.phase()),
            )
        })
        .collect();
    assert_eq!(res, [(1.5, 1.0, 2.5, 2.0, 3.5, 3.0, 4.5, 4.0)]);
}

fn six() -> [PhaseAmp; 6] {
    [
        oscillator(1.0, 1.5),
        oscillator(2.0, 2.5),
        oscillator(3.0, 3.5),
        oscillator(4.0, 4.5),
        oscillator(5.0, 5.5),
        oscillator(6.0, 6.5),
    ]
}

#[test]
fn phase_amp_it_works() {
    let pa = six();

    check_iterators(pa.as_ref());

    let mut paexp: Vec<Flt> = Vec::new();
    pa.as_ref().export_phase_amps(&mut paexp);

    assert_eq!(floats(&paexp), [1.0, 1.5, 2.0, 2.5, 3.0, 3.5, 4.0, 4.5, 5.0, 5.5, 6.0, 6.5]);

    check_iterators(paexp.as_slice());

    let mut pa: [PhaseAmp; 6] = Default::default();
    pa.as_mut().import_phase_amps(paexp.as_slice());

    check_iterators(pa.as_ref());
}

#[test]
fn pairs_of_six_are_three_without_remainder() {
    let pa = six();
    let pairs = pa.as_ref().iter_pa_pairs();
    assert_eq!(pairs.len(), 3);
    let all = pa.as_ref().iter_phase_amps();
    for i in 0..3 {
        assert_eq!(pairs[i], (all[2 * i], all[2 * i + 1]));
    }
}

#[test]
fn an_odd_last_oscillator_is_dropped_from_pairs() {
    let pa = six();
    let five = pa.as_ref().select(0..5);
    assert_eq!(five.iter_phase_amps().len(), 5);
    let pairs: Vec<(f32, f32)> =
        five.iter_pa_pairs().iter().map(|(a, b)| (v(a.phase), v(b.phase))).collect();
    assert_eq!(pairs, [(1.0, 2.0), (3.0, 4.0)]);
    assert_eq!(five.iter_pa_quads().len(), 1);
    assert_eq!(five.iter_pa_triples().len(), 1);
}

#[test]
fn a_window_counts_oscillators_in_both_forms() {
    let pa = six();
    let mut flat: Vec<Flt> = Vec::new();
    pa.as_ref().export_phase_amps(&mut flat);
    let structured = pa.as_ref().select(2..5).iter_phase_amps();
    let from_flat = flat.as_slice().select(2..5).iter_phase_amps();
    assert_eq!(structured, from_flat);
    let phases: Vec<f32> = from_flat.iter().map(|p| v(p.phase)).collect();
    assert_eq!(phases, [3.0, 4.0, 5.0]);
    assert_eq!(pa.as_ref().select(3..3).iter_phase_amps().len(), 0);
    assert_eq!(
        pa.as_ref().select(0..6).iter_pa_pairs(),
        flat.as_slice().select(0..6).iter_pa_pairs()
    );
}

#[test]
fn a_flat_run_with_a_stray_number_ignores_it() {
    let flat = [f(1.0), f(1.5), f(2.0), f(2.5), f(9.0)];
    let points: Vec<(f32, f32)> = flat.as_ref().iter_phase_amps().iter().map(ap).collect();
    assert_eq!(points, [(1.5, 1.0), (2.5, 2.0)]);
}

#[test]
fn export_appends_to_what_is_there() {
    let pa = six();
    let mut out = vec![f(-1.0)];
    pa.as_ref().select(0..2).export_phase_amps(&mut out);
    assert_eq!(floats(&out), [-1.0, 1.0, 1.5, 2.0, 2.5]);
}

#[test]
fn import_after_export_changes_nothing() {
    let cfg = PhaseAmpCfg::default();
    let mut bank = six();
    for (i, pa) in bank.iter_mut().enumerate() {
        pa.delta_phase = f(0.001 * i as f32);
        pa.source_amplitude = f(0.1);
        pa.delta_amplitude = f(0.5);
        pa.step_amplitude = f(0.01);
        pa.update(&cfg, &TickDraws { jitter: f(0.0001), coin: i % 2 == 0, ..Default::default() });
    }
    let snapshot = bank;
    let mut flat = Vec::new();
    bank.as_ref().export_phase_amps(&mut flat);
    bank.as_mut().import_phase_amps(&flat);
    assert_eq!(bank, snapshot);
}

#[test]
fn import_overwrites_phase_and_amplitude_only() {
    let mut bank = [PhaseAmp {
        phase: f(9.0),
        delta_phase: f(0.25),
        amplitude: f(8.0),
        source_amplitude: f(0.5),
        delta_amplitude: f(-0.125),
        step_amplitude: f(0.01),
        transition_amplitude: f(0.75),
    }; 2];
    let source = [f(1.0), f(1.5), f(2.0), f(2.5), f(77.0)];
    bank.as_mut().import_phase_amps(&source);
    for (i, pa) in bank.iter().enumerate() {
        assert_eq!(v(pa.phase), 1.0 + i as f32);
        assert_eq!(v(pa.amplitude), 1.5 + i as f32);
        assert_eq!(v(pa.delta_phase), 0.25);
        assert_eq!(v(pa.source_amplitude), 0.5);
        assert_eq!(v(pa.delta_amplitude), -0.125);
        assert_eq!(v(pa.step_amplitude), 0.01);
        assert_eq!(v(pa.transition_amplitude), 0.75);
    }
}

#[test]
fn configuration_derives_its_bounds() {
    let cfg = PhaseAmpCfg::new(f(80.0), f(200.0));
    let quarter = 0.5 * std::f32::consts::PI;
    assert_eq!(v(cfg.min_steps()), 80.0);
    assert_eq!(v(cfg.max_steps()), 200.0);
    assert_eq!(v(cfg.delta_phase_abs_max()), quarter / 80.0);
    assert_eq!(v(cfg.delta_delta_phase_abs_max()), quarter / 200.0 / 8.0);
}

#[test]
fn default_configuration_runs_from_100_to_200_steps() {
    let cfg = PhaseAmpCfg::default();
    assert_eq!(cfg.min_steps().to_bits(), MIN_STEPS);
    assert_eq!(cfg.max_steps().to_bits(), MAX_STEPS);
    assert_eq!(cfg, PhaseAmpCfg::new(f(100.0), f(200.0)));
}

#[test]
fn only_valid_bounds_are_accepted() {
    assert!(PhaseAmpCfg::accepts(f(80.0), f(200.0)));
    assert!(PhaseAmpCfg::accepts(f(1.001), f(1.002)));
    assert!(!PhaseAmpCfg::accepts(f(1.0), f(200.0)));
    assert!(!PhaseAmpCfg::accepts(f(0.5), f(200.0)));
    assert!(!PhaseAmpCfg::accepts(f(200.0), f(200.0)));
    assert!(!PhaseAmpCfg::accepts(f(200.0), f(80.0)));
    assert!(!PhaseAmpCfg::accepts(f(f32::NAN), f(80.0)));
    assert!(!PhaseAmpCfg::accepts(f(80.0), f(f32::NAN)));
}

#[test]
fn a_new_oscillator_rests_at_its_drawn_amplitude() {
    let pa = PhaseAmp::new(&SeedDraws {
        phase: f(3.0),
        delta_phase: f(-0.01),
        amplitude: f(0.25),
        target_amplitude: f(0.75),
        steps: f(128.0),
    });
    assert_eq!(v(pa.phase), 3.0);
    assert_eq!(v(pa.delta_phase), -0.01);
    assert_eq!(v(pa.amplitude), 0.25);
    assert_eq!(v(pa.source_amplitude), 0.25);
    assert_eq!(v(pa.delta_amplitude), 0.5);
    assert_eq!(v(pa.step_amplitude), 1.0 / 128.0);
    assert_eq!(v(pa.transition_amplitude), 0.0);
}

#[test]
fn easing_starts_at_zero_and_ends_at_one() {
    assert_eq!(v(transform(f(0.0))), 0.0);
    assert!((v(transform(f(1.0))) - 1.0).abs() < 0.01);
    assert!((v(transform(f(0.5))) - 0.25).abs() < 0.01);
    let mut t = 0.0f32;
    while t <= 1.0 {
        let exact = (0.5 * std::f32::consts::PI * t).sin().powi(4);
        assert!((v(transform(f(t))) - exact).abs() < 0.01, "{}", t);
        t += 0.05;
    }
}

fn moving(delta_phase: f32) -> PhaseAmp {
    PhaseAmp {
        phase: f(1.0),
        delta_phase: f(delta_phase),
        amplitude: f(0.25),
        source_amplitude: f(0.25),
        delta_amplitude: f(0.5),
        step_amplitude: f(0.125),
        transition_amplitude: f(0.25),
    }
}

#[test]
fn a_step_moves_the_phase_by_the_velocity() {
    let cfg = PhaseAmpCfg::new(f(2.0), f(4.0));
    let mut pa = moving(0.5);
    pa.update(&cfg, &TickDraws { jitter: f(0.0625), coin: true, ..Default::default() });
    assert_eq!(v(pa.phase), 1.5);
}

#[test]
fn between_the_bounds_the_coin_decides() {
    let cfg = PhaseAmpCfg::new(f(2.0), f(4.0));
    let mut up = moving(0.5);
    assert!(up.wants_coin(&cfg));
    up.update(&cfg, &TickDraws { jitter: f(0.0625), coin: true, ..Default::default() });
    assert_eq!(v(up.delta_phase), 0.5625);
    let mut down = moving(0.5);
    down.update(&cfg, &TickDraws { jitter: f(0.0625), coin: false, ..Default::default() });
    assert_eq!(v(down.delta_phase), 0.4375);
}

#[test]
fn at_a_bound_the_velocity_is_set_back_inside() {
    let cfg = PhaseAmpCfg::new(f(2.0), f(4.0));
    let bound = v(cfg.delta_phase_abs_max());
    for coin in [true, false] {
        let mut high = moving(bound);
        assert!(!high.wants_coin(&cfg));
        high.update(&cfg, &TickDraws { jitter: f(0.0625), coin, ..Default::default() });
        assert_eq!(v(high.delta_phase), bound - 0.0625);
        let mut beyond = moving(bound + 1.0);
        beyond.update(&cfg, &TickDraws { jitter: f(0.0625), coin, ..Default::default() });
        assert_eq!(v(beyond.delta_phase), bound - 0.0625);
        let mut low = moving(-bound);
        assert!(!low.wants_coin(&cfg));
        low.update(&cfg, &TickDraws { jitter: f(0.0625), coin, ..Default::default() });
        assert_eq!(v(low.delta_phase), -bound + 0.0625);
    }
}

#[test]
fn a_step_inside_a_transition_eases_the_amplitude() {
    let cfg = PhaseAmpCfg::new(f(2.0), f(4.0));
    let mut pa = moving(0.0);
    assert!(!pa.ends_transition());
    pa.update(
        &cfg,
        &TickDraws { jitter: f(0.0), coin: true, target_amplitude: f(0.9), steps: f(3.0) },
    );
    assert_eq!(v(pa.transition_amplitude), 0.375);
    assert_eq!(v(pa.amplitude), 0.25 + v(transform(f(0.375))) * 0.5);
    assert_eq!(v(pa.source_amplitude), 0.25);
    assert_eq!(v(pa.delta_amplitude), 0.5);
    assert_eq!(v(pa.step_amplitude), 0.125);
}

#[test]
fn the_last_step_of_a_transition_starts_the_next() {
    let cfg = PhaseAmpCfg::new(f(2.0), f(4.0));
    let mut pa = moving(0.0);
    pa.transition_amplitude = f(0.875);
    assert!(pa.ends_transition());
    pa.update(
        &cfg,
        &TickDraws { jitter: f(0.0), coin: true, target_amplitude: f(0.875), steps: f(4.0) },
    );
    let arrived = 0.25 + v(transform(f(1.0))) * 0.5;
    assert_eq!(v(pa.amplitude), arrived);
    assert_eq!(v(pa.source_amplitude), arrived);
    assert_eq!(v(pa.delta_amplitude), 0.875 - arrived);
    assert_eq!(v(pa.step_amplitude), 0.25);
    assert_eq!(v(pa.transition_amplitude), 0.0);
}

fn next_unit(state: &mut u64) -> f32 {
    *state = state.wrapping_mul(6364136223846793005).wrapping_add(1442695040888963407);
    ((*state >> 40) as f32) / 16_777_216.0
}

#[test]
fn many_steps_keep_velocity_and_amplitude_in_range() {
    let cfg = PhaseAmpCfg::new(f(5.0), f(20.0));
    let bound = v(cfg.delta_phase_abs_max());
    let jitter_bound = v(cfg.delta_delta_phase_abs_max());
    let mut state = 7u64;
    let mut pa = PhaseAmp::new(&SeedDraws {
        phase: f(next_unit(&mut state) * 6.28),
        delta_phase: f((next_unit(&mut state) * 2.0 - 1.0) * bound),
        amplitude: f(next_unit(&mut state)),
        target_amplitude: f(next_unit(&mut state)),
        steps: f(5.0 + next_unit(&mut state) * 15.0),
    });
    for _ in 0..5000 {
        let source = v(pa.source_amplitude);
        let target = source + v(pa.delta_amplitude);
        let draws = TickDraws {
            jitter: f(next_unit(&mut state) * jitter_bound),
            coin: next_unit(&mut state) < 0.5,
            target_amplitude: f(next_unit(&mut state)),
            steps: f(5.0 + next_unit(&mut state) * 15.0),
        };
        pa.update(&cfg, &draws);
        assert!(v(pa.delta_phase).abs() <= bound + jitter_bound);
        assert!(v(pa.amplitude) >= source.min(target) - 0.01);
        assert!(v(pa.amplitude) <= source.max(target) + 0.01);
        assert!(v(pa.transition_amplitude) >= 0.0 && v(pa.transition_amplitude) <= 1.0);
    }
}

#[test]
fn accessors_read_and_write_phase_and_amplitude() {
    let mut pa = moving(0.5);
    assert_eq!(v(pa.phase()), 1.0);
    assert_eq!(v(pa.amplitude()), 0.25);
    pa.set_phase(f(2.5));
    pa.set_amplitude(f(0.75));
    assert_eq!(pa, PhaseAmp { phase: f(2.5), amplitude: f(0.75), ..moving(0.5) });
    let mut out = vec![f(9.0)];
    pa.export(&mut out);
    assert_eq!(floats(&out), [9.0, 2.5, 0.75]);
    let mut point = PhaseAmpPoint { phase: f(1.0), amplitude: f(2.0) };
    point.set_phase(f(3.0));
    point.set_amplitude(f(4.0));
    point.export(&mut out);
    assert_eq!(floats(&out), [9.0, 2.5, 0.75, 3.0, 4.0]);
}

#[test]
fn draws_that_are_not_read_change_nothing() {
    let cfg = PhaseAmpCfg::new(f(2.0), f(4.0));
    let bound = v(cfg.delta_phase_abs_max());
    let mut one = moving(bound);
    let mut other = moving(bound);
    assert!(!one.wants_coin(&cfg) && !one.ends_transition());
    one.update(&cfg, &TickDraws { jitter: f(0.01), coin: true, target_amplitude: f(0.1), steps: f(2.5) });
    other.update(&cfg, &TickDraws { jitter: f(0.01), coin: false, target_amplitude: f(0.9), steps: f(3.5) });
    assert_eq!(one, other);
}

#[test]
fn a_step_up_just_below_the_bound_passes_it_by_less_than_the_jitter() {
    let cfg = PhaseAmpCfg::new(f(2.0), f(4.0));
    let bound = v(cfg.delta_phase_abs_max());
    let mut pa = moving(bound - 0.01);
    assert!(pa.wants_coin(&cfg));
    pa.update(&cfg, &TickDraws { jitter: f(0.04), coin: true, ..Default::default() });
    assert!(v(pa.delta_phase) > bound);
    assert!(v(pa.delta_phase) <= bound + 0.04);
    assert!(!pa.wants_coin(&cfg));
    pa.update(&cfg, &TickDraws { jitter: f(0.04), coin: true, ..Default::default() });
    assert_eq!(v(pa.delta_phase), bound - 0.04);
}
