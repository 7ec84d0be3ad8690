use plasma::{Flt, PixelRgb};

fn f(v: f32) -> Flt {
    Flt::from_bits(v.to_bits())
}

fn rgb(p: PixelRgb) -> (f32, f32, f32) {
    (f32::from_bits(p.r.to_bits()), f32::from_bits(p.g.to_bits()), f32::from_bits(p.b.to_bits()))
}

#[test]
fn color_it_works() {
    assert_eq!(rgb(PixelRgb::from_hsv(f(0.0), f(0.0), f(0.0))), (0.0, 0.0, 0.0));
    assert_eq!(rgb(PixelRgb::from_hsv(f(0.0), f(0.0), f(1.0))), (1.0, 1.0, 1.0));
    assert_eq!(rgb(PixelRgb::from_hsv(f(0.0), f(1.0), f(1.0))), (1.0, 0.0, 0.0));
    assert_eq!(rgb(PixelRgb::from_hsv(f(2.0), f(1.0), f(1.0))), (1.0, 0.0, 0.0));
    assert_eq!(rgb(PixelRgb::from_hsv(f(1.0), f(1.0), f(1.0))), (0.0, 1.0, 1.0));
    assert_eq!(rgb(PixelRgb::from_hsv(f(1.0), f(1.0), f(2.0))), (0.0, 2.0, 2.0));
    assert_eq!(rgb(PixelRgb::from_hsv(f(1.0), f(0.5), f(0.5))), (0.25, 0.5, 0.5));
    assert_eq!(rgb(PixelRgb::from_hsv(f(-1.0), f(1.0), f(1.0))), (0.0, 1.0, 1.0));
    assert_eq!(
        rgb(PixelRgb::from_hsv(f(-0.5), f(1.0), f(1.0))),
        rgb(PixelRgb::from_hsv(f(1.5), f(1.0), f(1.0)))
    );
}

#[test]
fn iterator_works() {
    let pixel = PixelRgb::new(f(0.0), f(0.5), f(1.0));
    let values: Vec<f32> =
        pixel.iter_rgb_values().iter().map(|c| f32::from_bits(c.to_bits())).collect();
    assert_eq!(values, vec![0.0, 0.5, 1.0]);
    let values: Vec<f32> =
        pixel.iter_rgba_values(f(0.25)).iter().map(|c| f32::from_bits(c.to_bits())).collect();
    assert_eq!(values, vec![0.0, 0.5, 1.0, 0.25]);
}

#[test]
fn hue_zero_is_red_and_hue_one_is_cyan() {
    assert_eq!(rgb(PixelRgb::from_hsv(f(0.0), f(1.0), f(1.0))), (1.0, 0.0, 0.0));
    assert_eq!(rgb(PixelRgb::from_hsv(f(1.0), f(1.0), f(1.0))), (0.0, 1.0, 1.0));
}

#[test]
fn hue_wraps_around_every_two_units() {
    let low = PixelRgb::from_hsv(f(-0.5), f(1.0), f(1.0));
    let high = PixelRgb::from_hsv(f(1.5), f(1.0), f(1.0));
    assert_eq!(low, high);
    assert_eq!(rgb(high), (0.5, 0.0, 1.0));
    assert_eq!(
        rgb(PixelRgb::from_hsv(f(4.25), f(1.0), f(1.0))),
        rgb(PixelRgb::from_hsv(f(0.25), f(1.0), f(1.0)))
    );
}

#[test]
fn each_sector_puts_the_chroma_on_its_own_component() {
    let sixth = 1.0f32 / 3.0;
    assert_eq!(rgb(PixelRgb::from_hsv(f(0.0), f(1.0), f(1.0))), (1.0, 0.0, 0.0));
    let yellow_green = rgb(PixelRgb::from_hsv(f(0.5), f(1.0), f(1.0)));
    assert_eq!(yellow_green, (0.5, 1.0, 0.0));
    let spring = rgb(PixelRgb::from_hsv(f(2.5 * sixth), f(1.0), f(1.0)));
    assert_eq!((spring.0, spring.1), (0.0, 1.0));
    assert!((spring.2 - 0.5).abs() < 1e-5);
    assert_eq!(rgb(PixelRgb::from_hsv(f(1.0), f(1.0), f(1.0))), (0.0, 1.0, 1.0));
    let violet = rgb(PixelRgb::from_hsv(f(1.5), f(1.0), f(1.0)));
    assert_eq!(violet, (0.5, 0.0, 1.0));
    let rose = rgb(PixelRgb::from_hsv(f(5.5 * sixth), f(1.0), f(1.0)));
    assert_eq!((rose.0, rose.1), (1.0, 0.0));
    assert!((rose.2 - 0.5).abs() < 1e-5);
}

#[test]
fn difference_of_colours_may_go_negative() {
    let a = PixelRgb::new(f(0.25), f(0.5), f(1.0));
    let b = PixelRgb::new(f(0.5), f(0.5), f(0.25));
    assert_eq!(rgb(a.minus(b)), (-0.25, 0.0, 0.75));
}
