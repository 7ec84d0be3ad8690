//! From oscillators to colours: the wave of a pair of oscillators along one
//! axis, and the mixing of six waves across with six waves down into one
//! pixel.
use crate::color::{hsv_colour, PixelRgb};
use crate::flt::{Flt, ONE, ONE_AND_HALF, THIRD, THREE};
use crate::phase_amp::{pairs_of, PhaseAmpPoint, PhaseAmpsSelect};
use vstd::prelude::*;

verus! {

/// How many waves run along each axis.
pub const WAVES: usize = 6;

/// How many neighbouring columns or rows the batched evaluation takes at a
/// time.
pub const LANES: usize = 8;

/// How many oscillators feed the waves of one axis.
pub const AXIS_OSCILLATORS: usize = 12;

/// How many oscillators a bank holds.
pub const BANK_SIZE: usize = 24;

/// A function of an angle that is evaluated once for each column or row.
pub trait IntermediateCalculator {
    /// The value at angle `v`.
    spec fn value_at(&self, v: Flt) -> Flt;

    /// The value at angle `v`.
    fn calculate(&self, v: Flt) -> (r: Flt)
        ensures
            r == self.value_at(v),
    ;
}

/// Turns the values of the waves at one column and at one row into the
/// colour of the pixel where they cross.
pub trait Mixer {
    /// The colour for the wave values `vxp` of a column and `vyp` of a row.
    spec fn mixed(vxp: Seq<Flt>, vyp: Seq<Flt>) -> PixelRgb;

    /// The colour for the wave values `vxp` of a column and `vyp` of a row.
    fn mix_pixels(&self, vxp: &[Flt; 6], vyp: &[Flt; 6]) -> (pixel: PixelRgb)
        ensures
            pixel == Self::mixed(vxp@, vyp@),
    ;
}

/// The default mixer: two hues and one saturation, each composed of two
/// waves across and two waves down, give two colours whose difference is the
/// pixel.
#[derive(Clone, Copy, Debug, Default, PartialEq, Eq, Structural)]
pub struct PlasmaMixer;

/// The wave of one pair of oscillators: a sine of the first and a cosine of
/// the second, weighted by their amplitudes.
#[derive(Clone, Copy, Debug, PartialEq, Eq, Structural)]
pub struct PlasmaLineCalc {
    pub amplitude1: Flt,
    pub phase1: Flt,
    pub amplitude2: Flt,
    pub phase2: Flt,
    pub normal: Flt,
}

/// Makes the waves of the two axes from a bank of oscillators.
pub struct PlasmaLineCalcProducer;

/// A third of `x1 + y1 * x2 + y2`.
pub open spec fn compose4_spec(x1: Flt, x2: Flt, y1: Flt, y2: Flt) -> Flt {
    x1.plus_spec(y1.times_spec(x2)).plus_spec(y2).times_spec(Flt { bits: THIRD })
}

/// A third of `x1 + y1 * x2 + y2`.
pub fn compose4(x1: Flt, x2: Flt, y1: Flt, y2: Flt) -> (r: Flt)
    ensures
        r == compose4_spec(x1, x2, y1, y2),
{
    x1.plus(y1.times(x2)).plus(y2).times(Flt { bits: THIRD })
}

/// The first hue, in half turns: one less one and a half times what the
/// first two waves of each axis compose.
pub open spec fn first_hue(vxp: Seq<Flt>, vyp: Seq<Flt>) -> Flt {
    Flt { bits: ONE }.minus_spec(
        compose4_spec(vxp[0], vxp[1], vyp[0], vyp[1]).times_spec(Flt { bits: ONE_AND_HALF }),
    )
}

/// The second hue, in half turns: three times what the middle two waves of
/// each axis compose.
pub open spec fn second_hue(vxp: Seq<Flt>, vyp: Seq<Flt>) -> Flt {
    compose4_spec(vxp[2], vxp[3], vyp[2], vyp[3]).times_spec(Flt { bits: THREE })
}

/// The saturation of the second colour: one and a half times what the last
/// two waves of each axis compose, without its sign and held to at most 1.
pub open spec fn second_saturation(vxp: Seq<Flt>, vyp: Seq<Flt>) -> Flt {
    Flt::min_spec(
        compose4_spec(vxp[4], vxp[5], vyp[4], vyp[5]).times_spec(
            Flt { bits: ONE_AND_HALF },
        ).abs_spec(),
        Flt { bits: ONE },
    )
}

impl PlasmaMixer {
    /// The default mixer.
    pub fn new() -> (mixer: PlasmaMixer)
        ensures
            mixer == PlasmaMixer,
    {
        PlasmaMixer
    }
}

impl Mixer for PlasmaMixer {
    /// A fully saturated colour of the first hue, less a colour of the second
    /// hue and the second saturation, component by component.
    open spec fn mixed(vxp: Seq<Flt>, vyp: Seq<Flt>) -> PixelRgb {
        let one = Flt { bits: ONE };
        hsv_colour(first_hue(vxp, vyp), one, one).minus_spec(
            hsv_colour(second_hue(vxp, vyp), second_saturation(vxp, vyp), one),
        )
    }

    fn mix_pixels(&self, vxp: &[Flt; 6], vyp: &[Flt; 6]) -> (pixel: PixelRgb) {
        let one = Flt { bits: ONE };
        let hue0 = compose4(vxp[0], vxp[1], vyp[0], vyp[1]);
        let hue1 = compose4(vxp[2], vxp[3], vyp[2], vyp[3]);
        let sat0 = compose4(vxp[4], vxp[5], vyp[4], vyp[5]);
        let hue0 = one.minus(hue0.times(Flt { bits: ONE_AND_HALF }));
        let hue1 = hue1.times(Flt { bits: THREE });
        let sat0 = sat0.times(Flt { bits: ONE_AND_HALF }).abs().min(one);
        let rgb0 = PixelRgb::from_hsv(hue0, one, one);
        let rgb1 = PixelRgb::from_hsv(hue1, sat0, one);
        rgb0.minus(rgb1)
    }
}

impl PlasmaLineCalc {
    /// The wave of a pair of oscillators.
    pub open spec fn of_pair(pair: (PhaseAmpPoint, PhaseAmpPoint)) -> PlasmaLineCalc {
        PlasmaLineCalc {
            amplitude1: pair.0.amplitude,
            phase1: pair.0.phase,
            amplitude2: pair.1.amplitude,
            phase2: pair.1.phase,
            normal: pair.0.amplitude.plus_spec(pair.1.amplitude),
        }
    }

    /// The sum of the two amplitudes is zero, so the wave is flat.
    pub open spec fn is_flat(self) -> bool {
        self.normal.same_number(Flt::zero())
    }

    /// The wave of a pair of oscillators.
    pub fn new(first: PhaseAmpPoint, second: PhaseAmpPoint) -> (calc: PlasmaLineCalc)
        ensures
            calc == PlasmaLineCalc::of_pair((first, second)),
    {
        PlasmaLineCalc {
            amplitude1: first.amplitude,
            phase1: first.phase,
            amplitude2: second.amplitude,
            phase2: second.phase,
            normal: first.amplitude.plus(second.amplitude),
        }
    }
}

impl PlasmaLineCalc {
    /// The wave at eight angles at once, lane by lane.
    pub fn calculate_lanes(&self, v: &[Flt; 8]) -> (r: [Flt; 8])
        ensures
            forall|l: int| 0 <= l < LANES ==> #[trigger] r@[l] == self.value_at(v@[l]),
    {
        let mut r: [Flt; 8] = [Flt { bits: 0 };8];
        let mut l: usize = 0;
        while l < 8
            invariant
                l <= 8,
                forall|i: int| 0 <= i < l ==> #[trigger] r@[i] == self.value_at(v@[i]),
            decreases 8 - l,
        {
            r[l] = self.calculate(v[l]);
            l = l + 1;
        }
        r
    }
}

impl IntermediateCalculator for PlasmaLineCalc {
    /// Zero where the amplitudes sum to zero. Elsewhere
    /// `(sin(v + phase1) * amplitude1 + cos(v + phase2) * amplitude2)`
    /// over the sum of the amplitudes.
    open spec fn value_at(&self, v: Flt) -> Flt {
        if self.is_flat() {
            Flt::zero()
        } else {
            v.plus_spec(self.phase1).sin_spec().times_spec(self.amplitude1).plus_spec(
                v.plus_spec(self.phase2).cos_spec().times_spec(self.amplitude2),
            ).over_spec(self.normal)
        }
    }

    fn calculate(&self, v: Flt) -> (r: Flt) {
        if self.normal.num_eq(Flt { bits: 0 }) {
            Flt { bits: 0 }
        } else {
            v.plus(self.phase1).sin().times(self.amplitude1).plus(
                v.plus(self.phase2).cos().times(self.amplitude2),
            ).over(self.normal)
        }
    }
}

/// A wave whose amplitudes sum to zero is exactly zero at every angle.
pub proof fn lemma_flat_wave_is_zero(calc: PlasmaLineCalc, v: Flt)
    requires
        calc.is_flat(),
    ensures
        calc.value_at(v) == Flt::zero(),
{
}

/// The waves of a run of oscillators: one of each pair, in order.
pub open spec fn waves_of(points: Seq<PhaseAmpPoint>) -> Seq<PlasmaLineCalc> {
    Seq::new(pairs_of(points).len(), |i: int| PlasmaLineCalc::of_pair(pairs_of(points)[i]))
}

/// The waves that run across: those of the first twelve oscillators.
pub open spec fn waves_across(points: Seq<PhaseAmpPoint>) -> Seq<PlasmaLineCalc> {
    waves_of(points.subrange(0, AXIS_OSCILLATORS as int))
}

/// The waves that run down: those of the second twelve oscillators.
pub open spec fn waves_down(points: Seq<PhaseAmpPoint>) -> Seq<PlasmaLineCalc> {
    waves_of(points.subrange(AXIS_OSCILLATORS as int, BANK_SIZE as int))
}

fn waves_from_pairs(pairs: &Vec<(PhaseAmpPoint, PhaseAmpPoint)>) -> (waves: Vec<PlasmaLineCalc>)
    ensures
        waves@.len() == pairs@.len(),
        forall|i: int| 0 <= i < pairs@.len() ==> waves@[i] == PlasmaLineCalc::of_pair(#[trigger] pairs@[i]),
{
    let mut waves: Vec<PlasmaLineCalc> = Vec::new();
    let mut i: usize = 0;
    while i < pairs.len()
        invariant
            i <= pairs.len(),
            waves@.len() == i,
            forall|k: int| 0 <= k < i ==> waves@[k] == PlasmaLineCalc::of_pair(#[trigger] pairs@[k]),
        decreases pairs.len() - i,
    {
        waves.push(PlasmaLineCalc::new(pairs[i].0, pairs[i].1));
        i = i + 1;
    }
    waves
}

impl PlasmaLineCalcProducer {
    /// The six waves that run across, made of oscillators 0 to 11.
    pub fn compose_x_iter<P: PhaseAmpsSelect + ?Sized>(pa: &P) -> (waves: Vec<PlasmaLineCalc>)
        requires
            pa.points().len() >= BANK_SIZE,
        ensures
            waves@ == waves_across(pa.points()),
            waves@.len() == WAVES,
    {
        let pairs = pa.select(0..12).iter_pa_pairs();
        let waves = waves_from_pairs(&pairs);
        assert(waves@ =~= waves_across(pa.points()));
        waves
    }

    /// The six waves that run down, made of oscillators 12 to 23.
    pub fn compose_y_iter<P: PhaseAmpsSelect + ?Sized>(pa: &P) -> (waves: Vec<PlasmaLineCalc>)
        requires
            pa.points().len() >= BANK_SIZE,
        ensures
            waves@ == waves_down(pa.points()),
            waves@.len() == WAVES,
    {
        let pairs = pa.select(12..24).iter_pa_pairs();
        let waves = waves_from_pairs(&pairs);
        assert(waves@ =~= waves_down(pa.points()));
        waves
    }
}

} // verus!
