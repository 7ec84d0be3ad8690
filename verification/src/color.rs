//! Colours in linear RGB, and their derivation from hue, saturation and value.
use crate::flt::{Flt, FIVE, FOUR, ONE, THREE, TWO};
use vstd::prelude::*;

verus! {

/// One pixel in the linear RGB colour space. Components are not held to any
/// range: the difference of two colours may be negative.
#[derive(Clone, Copy, Debug, Default, PartialEq, Eq, Structural)]
pub struct PixelRgb {
    pub r: Flt,
    pub g: Flt,
    pub b: Flt,
}

/// Where a hue falls in the colour wheel, as a number in `[0, 6)`: the hue
/// reduced modulo 2, times 3. Each unit is one sector of the wheel.
pub open spec fn wheel_position(hue: Flt) -> Flt {
    let two = Flt { bits: TWO };
    hue.minus_spec(hue.over_spec(two).floor_spec().times_spec(two)).times_spec(Flt { bits: THREE })
}

/// The chroma of a colour: value times saturation.
pub open spec fn chroma(sat: Flt, val: Flt) -> Flt {
    val.times_spec(sat)
}

/// The middle component of a colour of chroma `c` at wheel position `h`:
/// `c * (1 - |h mod 2 - 1|)`.
pub open spec fn middle_component(c: Flt, h: Flt) -> Flt {
    let one = Flt { bits: ONE };
    c.times_spec(one.minus_spec(h.modulo_spec(Flt { bits: TWO }).minus_spec(one).abs_spec()))
}

/// The colour of a hue, a saturation and a value, by the six-sector formula.
/// With `c` the chroma, `x` the middle component and `m = val - c`, the sector
/// of the wheel position decides which component gets `c + m`, which `x + m`
/// and which `m`.
pub open spec fn hsv_colour(hue: Flt, sat: Flt, val: Flt) -> PixelRgb {
    let c = chroma(sat, val);
    let h = wheel_position(hue);
    let x = middle_component(c, h);
    let m = val.minus_spec(c);
    let cm = c.plus_spec(m);
    let xm = x.plus_spec(m);
    if h.lt_spec(Flt { bits: ONE }) {
        PixelRgb { r: cm, g: xm, b: m }
    } else if h.lt_spec(Flt { bits: TWO }) {
        PixelRgb { r: xm, g: cm, b: m }
    } else if h.lt_spec(Flt { bits: THREE }) {
        PixelRgb { r: m, g: cm, b: xm }
    } else if h.lt_spec(Flt { bits: FOUR }) {
        PixelRgb { r: m, g: xm, b: cm }
    } else if h.lt_spec(Flt { bits: FIVE }) {
        PixelRgb { r: xm, g: m, b: cm }
    } else {
        PixelRgb { r: cm, g: m, b: xm }
    }
}

impl PixelRgb {
    /// A colour from its three components.
    pub fn new(r: Flt, g: Flt, b: Flt) -> (p: PixelRgb)
        ensures
            p == (PixelRgb { r, g, b }),
    {
        PixelRgb { r, g, b }
    }

    /// The components in the order red, green, blue.
    pub open spec fn rgb_seq(self) -> Seq<Flt> {
        seq![self.r, self.g, self.b]
    }

    /// The components in the order red, green, blue, followed by `alpha`.
    pub open spec fn rgba_seq(self, alpha: Flt) -> Seq<Flt> {
        seq![self.r, self.g, self.b, alpha]
    }

    /// The componentwise difference of two colours.
    pub open spec fn minus_spec(self, other: PixelRgb) -> PixelRgb {
        PixelRgb {
            r: self.r.minus_spec(other.r),
            g: self.g.minus_spec(other.g),
            b: self.b.minus_spec(other.b),
        }
    }

    /// The components in the order red, green, blue.
    pub fn iter_rgb_values(self) -> (values: [Flt; 3])
        ensures
            values@ == self.rgb_seq(),
    {
        let values = [self.r, self.g, self.b];
        assert(values@ =~= self.rgb_seq());
        values
    }

    /// The components in the order red, green, blue, followed by `alpha`.
    pub fn iter_rgba_values(self, alpha: Flt) -> (values: [Flt; 4])
        ensures
            values@ == self.rgba_seq(alpha),
    {
        let values = [self.r, self.g, self.b, alpha];
        assert(values@ =~= self.rgba_seq(alpha));
        values
    }

    /// The colour of a hue, a saturation and a value. The hue counts half
    /// turns and is reduced modulo 2 here; saturation and value are taken as
    /// they come.
    pub fn from_hsv(hue: Flt, sat: Flt, val: Flt) -> (p: PixelRgb)
        ensures
            p == hsv_colour(hue, sat, val),
    {
        let one = Flt { bits: ONE };
        let two = Flt { bits: TWO };
        let c = val.times(sat);
        let h = hue.minus(hue.over(two).floor().times(two)).times(Flt { bits: THREE });
        let x = c.times(one.minus(h.modulo(two).minus(one).abs()));
        let m = val.minus(c);
        if h.lt(one) {
            PixelRgb { r: c.plus(m), g: x.plus(m), b: m }
        } else if h.lt(two) {
            PixelRgb { r: x.plus(m), g: c.plus(m), b: m }
        } else if h.lt(Flt { bits: THREE }) {
            PixelRgb { r: m, g: c.plus(m), b: x.plus(m) }
        } else if h.lt(Flt { bits: FOUR }) {
            PixelRgb { r: m, g: x.plus(m), b: c.plus(m) }
        } else if h.lt(Flt { bits: FIVE }) {
            PixelRgb { r: x.plus(m), g: m, b: c.plus(m) }
        } else {
            PixelRgb { r: c.plus(m), g: m, b: x.plus(m) }
        }
    }

    /// The componentwise difference of two colours, not held to any range.
    pub fn minus(self, other: PixelRgb) -> (p: PixelRgb)
        ensures
            p == self.minus_spec(other),
    {
        PixelRgb { r: self.r.minus(other.r), g: self.g.minus(other.g), b: self.b.minus(other.b) }
    }
}

} // verus!
