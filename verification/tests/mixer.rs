use plasma::{
    compose4, Flt, IntermediateCalculator, Mixer, PhaseAmp, PhaseAmpDataExp, PhaseAmpPoint,
    PixelRgb, PlasmaLineCalc, PlasmaLineCalcProducer, PlasmaMixer,
};

fn f(v: f32) -> Flt {
    Flt::from_bits(v.to_bits())
}

fn v(x: Flt) -> f32 {
    f32::from_bits(x.to_bits())
}

fn point(phase: f32, amplitude: f32) -> PhaseAmpPoint {
    PhaseAmpPoint { phase: f(phase), amplitude: f(amplitude) }
}

fn rgb(p: PixelRgb) -> (f32, f32, f32) {
    (v(p.r), v(p.g), v(p.b))
}

#[test]
fn compose4_is_a_third_of_the_sum() {
    assert_eq!(v(compose4(f(0.75), f(0.5), f(0.5), f(0.5))), (0.75f32 + 0.5 * 0.5 + 0.5) * (1.0 / 3.0));
    assert_eq!(v(compose4(f(0.3), f(0.6), f(0.9), f(1.2))), (0.3f32 + 0.9 * 0.6 + 1.2) * (1.0 / 3.0));
    assert_eq!(v(compose4(f(3.0), f(0.0), f(5.0), f(0.0))), 3.0f32 * (1.0 / 3.0));
    assert_eq!(v(compose4(f(0.0), f(0.0), f(0.0), f(0.0))), 0.0);
}

#[test]
fn a_wave_without_amplitude_is_zero_everywhere() {
    let still = PlasmaLineCalc::new(point(1.0, 0.0), point(2.0, 0.0));
    let cancelling = PlasmaLineCalc::new(point(1.0, 0.5), point(2.0, -0.5));
    let negative_zero = PlasmaLineCalc::new(point(1.0, -0.0), point(2.0, -0.0));
    let mut angle = -10.0f32;
    while angle < 10.0 {
        assert_eq!(still.calculate(f(angle)).to_bits(), 0);
        assert_eq!(cancelling.calculate(f(angle)).to_bits(), 0);
        assert_eq!(negative_zero.calculate(f(angle)).to_bits(), 0);
        angle += 0.31;
    }
    assert_eq!(still.calculate(f(f32::NAN)).to_bits(), 0);
    assert_eq!(still.calculate(f(f32::INFINITY)).to_bits(), 0);
}

#[test]
fn a_wave_is_the_weighted_sine_and_cosine() {
    let calc = PlasmaLineCalc::new(point(0.5, 0.75), point(1.25, 0.25));
    assert_eq!(v(calc.normal), 1.0);
    let mut angle = 0.0f32;
    while angle < 6.3 {
        let exact = ((angle + 0.5).sin() * 0.75 + (angle + 1.25).cos() * 0.25) / 1.0;
        let ours = v(calc.calculate(f(angle)));
        assert!((ours - exact).abs() < 0.01, "{}: {} {}", angle, ours, exact);
        let rebuilt = f(angle)
            .plus(f(0.5))
            .sin()
            .times(f(0.75))
            .plus(f(angle).plus(f(1.25)).cos().times(f(0.25)))
            .over(f(1.0));
        assert_eq!(calc.calculate(f(angle)), rebuilt);
        angle += 0.1;
    }
    let single = PlasmaLineCalc::new(point(0.0, 2.0), point(0.0, 0.0));
    assert_eq!(v(single.calculate(f(0.0))), v(f(0.0).sin()));
}

#[test]
fn the_mixer_subtracts_two_colours() {
    let mixer = PlasmaMixer::new();
    let vxp = [f(0.1), f(-0.2), f(0.3), f(0.4), f(-0.5), f(0.6)];
    let vyp = [f(0.6), f(0.5), f(-0.4), f(0.3), f(0.2), f(-0.1)];
    let hue0 = 1.0 - (0.1f32 + 0.6 * -0.2 + 0.5) * (1.0 / 3.0) * 1.5;
    let hue1 = (0.3f32 + -0.4 * 0.4 + 0.3) * (1.0 / 3.0) * 3.0;
    let sat0 = (((-0.5f32) + 0.2 * 0.6 + -0.1) * (1.0 / 3.0) * 1.5).abs().min(1.0);
    let expected = PixelRgb::from_hsv(f(hue0), f(1.0), f(1.0)).minus(PixelRgb::from_hsv(
        f(hue1),
        f(sat0),
        f(1.0),
    ));
    assert_eq!(mixer.mix_pixels(&vxp, &vyp), expected);
}

#[test]
fn the_mixer_of_silence_is_cyan_less_white() {
    let mixer = PlasmaMixer::new();
    let zero = [f(0.0); 6];
    assert_eq!(rgb(mixer.mix_pixels(&zero, &zero)), (-1.0, 0.0, 0.0));
}

#[test]
fn the_second_saturation_is_held_to_one() {
    let mixer = PlasmaMixer::new();
    let zero = [f(0.0); 6];
    let mut loud = [f(0.0); 6];
    loud[4] = f(-30.0);
    let expected = PixelRgb::from_hsv(f(1.0), f(1.0), f(1.0)).minus(PixelRgb::from_hsv(
        f(0.0),
        f(1.0),
        f(1.0),
    ));
    assert_eq!(mixer.mix_pixels(&loud, &zero), expected);
    assert_eq!(rgb(expected), (-1.0, 1.0, 1.0));
}

fn bank() -> Vec<PhaseAmp> {
    (0..24)
        .map(|i| PhaseAmp {
            phase: f(0.25 * i as f32),
            amplitude: f(1.0 + i as f32),
            ..Default::default()
        })
        .collect()
}

#[test]
fn the_first_twelve_oscillators_run_across_and_the_rest_down() {
    let bank = bank();
    let across = PlasmaLineCalcProducer::compose_x_iter(bank.as_slice());
    let down = PlasmaLineCalcProducer::compose_y_iter(bank.as_slice());
    assert_eq!(across.len(), 6);
    assert_eq!(down.len(), 6);
    for k in 0..6 {
        let first = 2 * k;
        assert_eq!(v(across[k].phase1), 0.25 * first as f32);
        assert_eq!(v(across[k].amplitude1), 1.0 + first as f32);
        assert_eq!(v(across[k].phase2), 0.25 * (first + 1) as f32);
        assert_eq!(v(across[k].amplitude2), 2.0 + first as f32);
        assert_eq!(v(across[k].normal), 3.0 + 2.0 * first as f32);
        let first = 12 + 2 * k;
        assert_eq!(v(down[k].phase1), 0.25 * first as f32);
        assert_eq!(v(down[k].amplitude2), 2.0 + first as f32);
    }
}

#[test]
fn waves_of_the_flat_form_are_the_same_waves() {
    let bank = bank();
    let mut flat = Vec::new();
    bank.as_slice().export_phase_amps(&mut flat);
    assert_eq!(flat.len(), 48);
    assert_eq!(
        PlasmaLineCalcProducer::compose_x_iter(bank.as_slice()),
        PlasmaLineCalcProducer::compose_x_iter(flat.as_slice())
    );
    assert_eq!(
        PlasmaLineCalcProducer::compose_y_iter(bank.as_slice()),
        PlasmaLineCalcProducer::compose_y_iter(flat.as_slice())
    );
}
