//! Oscillators: a phase and an amplitude, each drifting at a bounded random
//! pace, and banks of them as structured values or as a flat run of numbers.
use crate::flt::{Flt, ALMOST_ONE, EIGHT, ONE, QUARTER_TURN};
use core::ops::Range;
use vstd::prelude::*;
use vstd::slice::slice_subrange;

verus! {

/// The least step count of the default configuration, 100.
pub const MIN_STEPS: u32 = 0x42c8_0000;

/// The upper bound of the step count of the default configuration, 200.
pub const MAX_STEPS: u32 = 0x4348_0000;

/// The pace at which phases and amplitudes change: an amplitude moves to its
/// next target in a number of steps drawn from `[min_steps, max_steps)`.
#[derive(Clone, Copy, Debug, PartialEq, Eq, Structural)]
pub struct PhaseAmpCfg {
    pub min_steps: Flt,
    pub max_steps: Flt,
    pub delta_phase_abs_max: Flt,
    pub delta_delta_phase_abs_max: Flt,
}

/// A phase and an amplitude with the state of their animation.
#[derive(Clone, Copy, Debug, Default, PartialEq, Eq, Structural)]
pub struct PhaseAmp {
    pub phase: Flt,
    pub delta_phase: Flt,
    pub amplitude: Flt,
    pub source_amplitude: Flt,
    pub delta_amplitude: Flt,
    pub step_amplitude: Flt,
    pub transition_amplitude: Flt,
}

/// The random numbers that a new oscillator is made of: a phase in
/// `[0, 2 pi)`, an angular velocity within the configured bound, an amplitude
/// and a target amplitude in `[0, 1)`, and a step count in
/// `[min_steps, max_steps)`.
#[derive(Clone, Copy, Debug, Default, PartialEq, Eq, Structural)]
pub struct SeedDraws {
    pub phase: Flt,
    pub delta_phase: Flt,
    pub amplitude: Flt,
    pub target_amplitude: Flt,
    pub steps: Flt,
}

/// The random numbers of one animation step: a jitter in
/// `[0, delta_delta_phase_abs_max)`, a fair coin, and, for the step that ends
/// an amplitude transition, the next target amplitude and step count. The
/// coin is read only where `PhaseAmp::wants_coin` holds, the last two only
/// where `PhaseAmp::ends_transition` holds.
#[derive(Clone, Copy, Debug, Default, PartialEq, Eq, Structural)]
pub struct TickDraws {
    pub jitter: Flt,
    pub coin: bool,
    pub target_amplitude: Flt,
    pub steps: Flt,
}

/// What the rest of the system reads of an oscillator.
#[derive(Clone, Copy, Debug, Default, PartialEq, Eq, Structural)]
pub struct PhaseAmpPoint {
    pub phase: Flt,
    pub amplitude: Flt,
}

/// The easing of an amplitude transition: the fourth power of the sine of
/// `val` quarter turns.
pub open spec fn transform_spec(val: Flt) -> Flt {
    Flt { bits: QUARTER_TURN }.times_spec(val).sin_spec().powi_spec(4)
}

/// The easing of an amplitude transition.
pub fn transform(val: Flt) -> (r: Flt)
    ensures
        r == transform_spec(val),
{
    Flt { bits: QUARTER_TURN }.times(val).sin().powi(4)
}

impl PhaseAmpCfg {
    /// Whether the two bounds make a configuration: `1 < min_steps < max_steps`.
    pub open spec fn valid_steps(min_steps: Flt, max_steps: Flt) -> bool {
        min_steps.lt_spec(max_steps) && Flt { bits: ONE }.lt_spec(min_steps)
    }

    /// The configuration of the two bounds: the angular velocity is held to a
    /// quarter turn per `min_steps`, its jitter to an eighth of a quarter turn
    /// per `max_steps`.
    pub open spec fn of_steps(min_steps: Flt, max_steps: Flt) -> PhaseAmpCfg {
        let quarter = Flt { bits: QUARTER_TURN };
        PhaseAmpCfg {
            min_steps,
            max_steps,
            delta_phase_abs_max: quarter.over_spec(min_steps),
            delta_delta_phase_abs_max: quarter.over_spec(max_steps).over_spec(Flt { bits: EIGHT }),
        }
    }

    /// The configuration is the one of its own two bounds, and they are valid.
    pub open spec fn wf(self) -> bool {
        PhaseAmpCfg::valid_steps(self.min_steps, self.max_steps) && self == PhaseAmpCfg::of_steps(
            self.min_steps,
            self.max_steps,
        )
    }

    /// Whether `new` accepts the two bounds.
    pub fn accepts(min_steps: Flt, max_steps: Flt) -> (ok: bool)
        ensures
            ok == PhaseAmpCfg::valid_steps(min_steps, max_steps),
    {
        min_steps.lt(max_steps) && Flt { bits: ONE }.lt(min_steps)
    }

    /// The configuration with step counts drawn from `[min_steps, max_steps)`.
    /// The larger the numbers, the slower the animation.
    pub fn new(min_steps: Flt, max_steps: Flt) -> (cfg: PhaseAmpCfg)
        requires
            PhaseAmpCfg::valid_steps(min_steps, max_steps),
        ensures
            cfg == PhaseAmpCfg::of_steps(min_steps, max_steps),
            cfg.wf(),
    {
        let quarter = Flt { bits: QUARTER_TURN };
        PhaseAmpCfg {
            min_steps,
            max_steps,
            delta_phase_abs_max: quarter.over(min_steps),
            delta_delta_phase_abs_max: quarter.over(max_steps).over(Flt { bits: EIGHT }),
        }
    }

}

/// The pace of an animation, as the oscillators read it.
pub trait PhaseAmpConfig {
    /// The four numbers of the configuration.
    spec fn pace(&self) -> PhaseAmpCfg;

    /// The least number of steps of an amplitude transition.
    fn min_steps(&self) -> (r: Flt)
        ensures
            r == self.pace().min_steps,
    ;

    /// The upper bound of the number of steps of an amplitude transition.
    fn max_steps(&self) -> (r: Flt)
        ensures
            r == self.pace().max_steps,
    ;

    /// The largest angular velocity, in radians a step.
    fn delta_phase_abs_max(&self) -> (r: Flt)
        ensures
            r == self.pace().delta_phase_abs_max,
    ;

    /// The largest change of the angular velocity in one step.
    fn delta_delta_phase_abs_max(&self) -> (r: Flt)
        ensures
            r == self.pace().delta_delta_phase_abs_max,
    ;
}

/// Reading and writing the phase and the amplitude of one oscillator.
pub trait PhaseAmpAccess {
    /// The phase and the amplitude.
    spec fn reading(&self) -> PhaseAmpPoint;

    fn phase(&self) -> (r: Flt)
        ensures
            r == self.reading().phase,
    ;

    fn amplitude(&self) -> (r: Flt)
        ensures
            r == self.reading().amplitude,
    ;

    fn set_phase(&mut self, phase: Flt)
        ensures
            final(self).reading() == (PhaseAmpPoint {
                phase,
                amplitude: old(self).reading().amplitude,
            }),
    ;

    fn set_amplitude(&mut self, amplitude: Flt)
        ensures
            final(self).reading() == (PhaseAmpPoint { phase: old(self).reading().phase, amplitude }),
    ;

    /// Appends the phase and then the amplitude to `out`.
    fn export(&self, out: &mut Vec<Flt>)
        ensures
            final(out)@ == old(out)@.push(self.reading().phase).push(self.reading().amplitude),
    ;
}

impl PhaseAmpConfig for PhaseAmpCfg {
    open spec fn pace(&self) -> PhaseAmpCfg {
        *self
    }

    fn min_steps(&self) -> (r: Flt) {
        self.min_steps
    }

    fn max_steps(&self) -> (r: Flt) {
        self.max_steps
    }

    fn delta_phase_abs_max(&self) -> (r: Flt) {
        self.delta_phase_abs_max
    }

    fn delta_delta_phase_abs_max(&self) -> (r: Flt) {
        self.delta_delta_phase_abs_max
    }
}

impl PhaseAmpAccess for PhaseAmp {
    open spec fn reading(&self) -> PhaseAmpPoint {
        self.point()
    }

    fn phase(&self) -> (r: Flt) {
        self.phase
    }

    fn amplitude(&self) -> (r: Flt) {
        self.amplitude
    }

    /// Sets the phase and leaves the amplitude and the animation state.
    fn set_phase(&mut self, phase: Flt)
        ensures
            *final(self) == (PhaseAmp { phase, ..*old(self) }),
    {
        self.phase = phase;
    }

    /// Sets the amplitude and leaves the phase and the animation state.
    fn set_amplitude(&mut self, amplitude: Flt)
        ensures
            *final(self) == (PhaseAmp { amplitude, ..*old(self) }),
    {
        self.amplitude = amplitude;
    }

    fn export(&self, out: &mut Vec<Flt>) {
        out.push(self.phase);
        out.push(self.amplitude);
    }
}

impl PhaseAmpAccess for PhaseAmpPoint {
    open spec fn reading(&self) -> PhaseAmpPoint {
        *self
    }

    fn phase(&self) -> (r: Flt) {
        self.phase
    }

    fn amplitude(&self) -> (r: Flt) {
        self.amplitude
    }

    fn set_phase(&mut self, phase: Flt) {
        self.phase = phase;
    }

    fn set_amplitude(&mut self, amplitude: Flt) {
        self.amplitude = amplitude;
    }

    fn export(&self, out: &mut Vec<Flt>) {
        out.push(self.phase);
        out.push(self.amplitude);
    }
}

impl Default for PhaseAmpCfg {
    /// The configuration with step counts from `[100, 200)`.
    fn default() -> (cfg: PhaseAmpCfg)
        ensures
            cfg == PhaseAmpCfg::of_steps(Flt { bits: MIN_STEPS }, Flt { bits: MAX_STEPS }),
            cfg.wf(),
    {
        assert(0x42c8_0000u32 & 0x7fff_ffff == 0x42c8_0000u32) by (bit_vector);
        assert(0x4348_0000u32 & 0x7fff_ffff == 0x4348_0000u32) by (bit_vector);
        assert(0x3f80_0000u32 & 0x7fff_ffff == 0x3f80_0000u32) by (bit_vector);
        assert(0x42c8_0000u32 & 0x8000_0000 == 0) by (bit_vector);
        assert(0x4348_0000u32 & 0x8000_0000 == 0) by (bit_vector);
        assert(0x3f80_0000u32 & 0x8000_0000 == 0) by (bit_vector);
        PhaseAmpCfg::new(Flt { bits: MIN_STEPS }, Flt { bits: MAX_STEPS })
    }
}

impl PhaseAmp {
    /// The oscillator made of the given draws: it rests at the drawn
    /// amplitude and starts a transition to the drawn target.
    pub open spec fn seeded(draws: SeedDraws) -> PhaseAmp {
        PhaseAmp {
            phase: draws.phase,
            delta_phase: draws.delta_phase,
            amplitude: draws.amplitude,
            source_amplitude: draws.amplitude,
            delta_amplitude: draws.target_amplitude.minus_spec(draws.amplitude),
            step_amplitude: draws.steps.recip_spec(),
            transition_amplitude: Flt::zero(),
        }
    }

    /// The angular velocity has not reached either bound, so the next step
    /// moves it up or down by the jitter as a coin decides.
    pub open spec fn wants_coin_spec(self, cfg: PhaseAmpCfg) -> bool {
        !cfg.delta_phase_abs_max.le_spec(self.delta_phase) && !self.delta_phase.le_spec(
            cfg.delta_phase_abs_max.neg_spec(),
        )
    }

    /// The angular velocity after one step. At or beyond a bound it is set
    /// back inside by the jitter; between the bounds it moves by the jitter,
    /// up on `coin`, down otherwise.
    pub open spec fn next_delta_phase(self, cfg: PhaseAmpCfg, jitter: Flt, coin: bool) -> Flt {
        let bound = cfg.delta_phase_abs_max;
        if bound.le_spec(self.delta_phase) {
            bound.minus_spec(jitter)
        } else if self.delta_phase.le_spec(bound.neg_spec()) {
            bound.neg_spec().plus_spec(jitter)
        } else if coin {
            self.delta_phase.plus_spec(jitter)
        } else {
            self.delta_phase.plus_spec(jitter.neg_spec())
        }
    }

    /// The progress of the amplitude transition after one more step.
    pub open spec fn next_transition(self) -> Flt {
        self.transition_amplitude.plus_spec(self.step_amplitude)
    }

    /// The amplitude at progress `t` of the current transition.
    pub open spec fn eased_amplitude(self, t: Flt) -> Flt {
        self.source_amplitude.plus_spec(transform_spec(t).times_spec(self.delta_amplitude))
    }

    /// The next step carries the transition past its end, so that a new one
    /// begins with it.
    pub open spec fn ends_transition_spec(self) -> bool {
        Flt { bits: ALMOST_ONE }.lt_spec(self.next_transition())
    }

    /// The oscillator one animation step later.
    pub open spec fn updated(self, cfg: PhaseAmpCfg, draws: TickDraws) -> PhaseAmp {
        let phase = self.phase.plus_spec(self.delta_phase);
        let delta_phase = self.next_delta_phase(cfg, draws.jitter, draws.coin);
        let amplitude = self.eased_amplitude(self.next_transition());
        if self.ends_transition_spec() {
            let source = self.eased_amplitude(Flt::one());
            PhaseAmp {
                phase,
                delta_phase,
                amplitude,
                source_amplitude: source,
                delta_amplitude: draws.target_amplitude.minus_spec(source),
                step_amplitude: draws.steps.recip_spec(),
                transition_amplitude: Flt::zero(),
            }
        } else {
            PhaseAmp {
                phase,
                delta_phase,
                amplitude,
                source_amplitude: self.source_amplitude,
                delta_amplitude: self.delta_amplitude,
                step_amplitude: self.step_amplitude,
                transition_amplitude: self.next_transition(),
            }
        }
    }

    /// What the rest of the system reads of the oscillator.
    pub open spec fn point(self) -> PhaseAmpPoint {
        PhaseAmpPoint { phase: self.phase, amplitude: self.amplitude }
    }

    /// A new oscillator from its random draws.
    pub fn new(draws: &SeedDraws) -> (pa: PhaseAmp)
        ensures
            pa == PhaseAmp::seeded(*draws),
    {
        PhaseAmp {
            phase: draws.phase,
            delta_phase: draws.delta_phase,
            amplitude: draws.amplitude,
            source_amplitude: draws.amplitude,
            delta_amplitude: draws.target_amplitude.minus(draws.amplitude),
            step_amplitude: draws.steps.recip(),
            transition_amplitude: Flt { bits: 0 },
        }
    }

    /// Whether the next step reads the coin.
    pub fn wants_coin<C: PhaseAmpConfig>(&self, cfg: &C) -> (r: bool)
        ensures
            r == self.wants_coin_spec(cfg.pace()),
    {
        let bound = cfg.delta_phase_abs_max();
        !self.delta_phase.ge(bound) && !self.delta_phase.le(bound.neg())
    }

    /// Whether the next step ends the amplitude transition, and so reads the
    /// next target and step count.
    pub fn ends_transition(&self) -> (r: bool)
        ensures
            r == self.ends_transition_spec(),
    {
        self.transition_amplitude.plus(self.step_amplitude).gt(Flt { bits: ALMOST_ONE })
    }

    /// One animation step: the phase moves on by the angular velocity, the
    /// angular velocity by the jitter, and the amplitude along its eased
    /// transition, which starts over with a new target when it has ended.
    pub fn update<C: PhaseAmpConfig>(&mut self, cfg: &C, draws: &TickDraws)
        ensures
            *final(self) == old(self).updated(cfg.pace(), *draws),
    {
        let delta_phase = self.delta_phase;
        let bound = cfg.delta_phase_abs_max();
        self.phase = self.phase.plus(delta_phase);
        self.delta_phase = if delta_phase.ge(bound) {
            bound.minus(draws.jitter)
        } else if delta_phase.le(bound.neg()) {
            bound.neg().plus(draws.jitter)
        } else if draws.coin {
            delta_phase.plus(draws.jitter)
        } else {
            delta_phase.plus(draws.jitter.neg())
        };
        self.transition_amplitude = self.transition_amplitude.plus(self.step_amplitude);
        self.amplitude = self.source_amplitude.plus(
            transform(self.transition_amplitude).times(self.delta_amplitude),
        );
        if self.transition_amplitude.gt(Flt { bits: ALMOST_ONE }) {
            self.source_amplitude = self.source_amplitude.plus(
                transform(Flt { bits: ONE }).times(self.delta_amplitude),
            );
            self.delta_amplitude = draws.target_amplitude.minus(self.source_amplitude);
            self.step_amplitude = draws.steps.recip();
            self.transition_amplitude = Flt { bits: 0 };
        }
    }
}

/// After a step that does not end a transition, the amplitude is the eased
/// amplitude at the progress that the oscillator now holds. (The step that
/// ends a transition leaves the amplitude where the old transition had it
/// and starts the new one from where that transition ends.)
pub proof fn lemma_amplitude_follows_transition(pa: PhaseAmp, cfg: PhaseAmpCfg, draws: TickDraws)
    requires
        !pa.ends_transition_spec(),
    ensures
        pa.updated(cfg, draws).amplitude == pa.updated(cfg, draws).eased_amplitude(
            pa.updated(cfg, draws).transition_amplitude,
        ),
        pa.updated(cfg, draws).source_amplitude == pa.source_amplitude,
        pa.updated(cfg, draws).delta_amplitude == pa.delta_amplitude,
        pa.updated(cfg, draws).step_amplitude == pa.step_amplitude,
{
}

/// A step reads of its draws only what it needs: the coin only while the
/// angular velocity is between the bounds, the next target and step count
/// only when the transition ends. Draws that differ in nothing else lead to
/// the same oscillator.
pub proof fn lemma_unread_draws_do_not_matter(
    pa: PhaseAmp,
    cfg: PhaseAmpCfg,
    draws: TickDraws,
    other: TickDraws,
)
    requires
        draws.jitter == other.jitter,
        pa.wants_coin_spec(cfg) ==> draws.coin == other.coin,
        pa.ends_transition_spec() ==> draws.target_amplitude == other.target_amplitude
            && draws.steps == other.steps,
    ensures
        pa.updated(cfg, draws) == pa.updated(cfg, other),
{
}

/// The oscillators of a bank that is held as structured values.
pub open spec fn points_of(bank: Seq<PhaseAmp>) -> Seq<PhaseAmpPoint> {
    Seq::new(bank.len(), |i: int| bank[i].point())
}

/// The oscillators of a bank that is held as a flat run of numbers: each
/// takes two numbers in a row, its phase and then its amplitude. A last
/// number without a partner belongs to no oscillator.
pub open spec fn points_of_flat(flat: Seq<Flt>) -> Seq<PhaseAmpPoint> {
    Seq::new(
        (flat.len() / 2) as nat,
        |i: int| PhaseAmpPoint { phase: flat[2 * i], amplitude: flat[2 * i + 1] },
    )
}

/// The flat form of a run of oscillators.
pub open spec fn flat_of(points: Seq<PhaseAmpPoint>) -> Seq<Flt> {
    Seq::new(
        2 * points.len(),
        |k: int|
            if k % 2 == 0 {
                points[k / 2].phase
            } else {
                points[k / 2].amplitude
            },
    )
}

/// The oscillators taken two by two, in order; a last one without a partner
/// is left out.
pub open spec fn pairs_of(points: Seq<PhaseAmpPoint>) -> Seq<(PhaseAmpPoint, PhaseAmpPoint)> {
    Seq::new((points.len() / 2) as nat, |i: int| (points[2 * i], points[2 * i + 1]))
}

/// The oscillators taken three by three, in order; what is left over at the
/// end is left out.
pub open spec fn triples_of(points: Seq<PhaseAmpPoint>) -> Seq<
    (PhaseAmpPoint, PhaseAmpPoint, PhaseAmpPoint),
> {
    Seq::new(
        (points.len() / 3) as nat,
        |i: int| (points[3 * i], points[3 * i + 1], points[3 * i + 2]),
    )
}

/// The oscillators taken four by four, in order; what is left over at the
/// end is left out.
pub open spec fn quads_of(points: Seq<PhaseAmpPoint>) -> Seq<
    (PhaseAmpPoint, PhaseAmpPoint, PhaseAmpPoint, PhaseAmpPoint),
> {
    Seq::new(
        (points.len() / 4) as nat,
        |i: int| (points[4 * i], points[4 * i + 1], points[4 * i + 2], points[4 * i + 3]),
    )
}

/// A bank of oscillators, from which a window can be selected and read one
/// by one or in groups.
pub trait PhaseAmpsSelect {
    /// The oscillators of the bank, in order.
    spec fn points(&self) -> Seq<PhaseAmpPoint>;

    /// The oscillators `range.start..range.end` of the bank.
    fn select(&self, range: Range<usize>) -> (window: &Self)
        requires
            range.start <= range.end <= self.points().len(),
        ensures
            window.points() == self.points().subrange(range.start as int, range.end as int),
    ;

    /// The oscillators one by one.
    fn iter_phase_amps(&self) -> (items: Vec<PhaseAmpPoint>)
        ensures
            items@ == self.points(),
    ;

    /// The oscillators two by two.
    fn iter_pa_pairs(&self) -> (items: Vec<(PhaseAmpPoint, PhaseAmpPoint)>)
        ensures
            items@ == pairs_of(self.points()),
    ;

    /// The oscillators three by three.
    fn iter_pa_triples(&self) -> (items: Vec<(PhaseAmpPoint, PhaseAmpPoint, PhaseAmpPoint)>)
        ensures
            items@ == triples_of(self.points()),
    ;

    /// The oscillators four by four.
    fn iter_pa_quads(&self) -> (items: Vec<
        (PhaseAmpPoint, PhaseAmpPoint, PhaseAmpPoint, PhaseAmpPoint),
    >)
        ensures
            items@ == quads_of(self.points()),
    ;
}

/// A bank of oscillators whose phases and amplitudes can be written out as
/// a flat run of numbers and read back from one.
pub trait PhaseAmpDataExp {
    /// The bank as a sequence of oscillators.
    spec fn bank(&self) -> Seq<PhaseAmp>;

    /// Appends to `out` the phase and the amplitude of each oscillator, in
    /// the order of the bank.
    fn export_phase_amps(&self, out: &mut Vec<Flt>)
        ensures
            final(out)@ == old(out)@ + flat_of(points_of(self.bank())),
    ;

    /// Overwrites the phase and the amplitude of each oscillator from
    /// `source`, in the order of the bank, and leaves the rest of its state
    /// as it is. What `source` holds beyond the bank's length is not read.
    fn import_phase_amps(&mut self, source: &[Flt])
        requires
            source@.len() >= 2 * old(self).bank().len(),
        ensures
            final(self).bank() == imported(old(self).bank(), source@),
    ;
}

/// The bank with the phase and the amplitude of each oscillator replaced by
/// the two numbers that `source` holds for it.
pub open spec fn imported(bank: Seq<PhaseAmp>, source: Seq<Flt>) -> Seq<PhaseAmp> {
    Seq::new(
        bank.len(),
        |i: int|
            PhaseAmp {
                phase: source[2 * i],
                delta_phase: bank[i].delta_phase,
                amplitude: source[2 * i + 1],
                source_amplitude: bank[i].source_amplitude,
                delta_amplitude: bank[i].delta_amplitude,
                step_amplitude: bank[i].step_amplitude,
                transition_amplitude: bank[i].transition_amplitude,
            },
    )
}

fn collect_pairs(points: &Vec<PhaseAmpPoint>) -> (items: Vec<(PhaseAmpPoint, PhaseAmpPoint)>)
    ensures
        items@ == pairs_of(points@),
{
    let mut items: Vec<(PhaseAmpPoint, PhaseAmpPoint)> = Vec::new();
    let count: usize = points.len() / 2;
    let mut i: usize = 0;
    while i < count
        invariant
            count == points.len() / 2,
            i <= count,
            items@ == pairs_of(points@).subrange(0, i as int),
        decreases count - i,
    {
        items.push((points[2 * i], points[2 * i + 1]));
        i = i + 1;
        assert(items@ =~= pairs_of(points@).subrange(0, i as int));
    }
    assert(items@ =~= pairs_of(points@));
    items
}

fn collect_triples(points: &Vec<PhaseAmpPoint>) -> (items: Vec<
    (PhaseAmpPoint, PhaseAmpPoint, PhaseAmpPoint),
>)
    ensures
        items@ == triples_of(points@),
{
    let mut items: Vec<(PhaseAmpPoint, PhaseAmpPoint, PhaseAmpPoint)> = Vec::new();
    let count: usize = points.len() / 3;
    let mut i: usize = 0;
    while i < count
        invariant
            count == points.len() / 3,
            i <= count,
            items@ == triples_of(points@).subrange(0, i as int),
        decreases count - i,
    {
        items.push((points[3 * i], points[3 * i + 1], points[3 * i + 2]));
        i = i + 1;
        assert(items@ =~= triples_of(points@).subrange(0, i as int));
    }
    assert(items@ =~= triples_of(points@));
    items
}

fn collect_quads(points: &Vec<PhaseAmpPoint>) -> (items: Vec<
    (PhaseAmpPoint, PhaseAmpPoint, PhaseAmpPoint, PhaseAmpPoint),
>)
    ensures
        items@ == quads_of(points@),
{
    let mut items: Vec<(PhaseAmpPoint, PhaseAmpPoint, PhaseAmpPoint, PhaseAmpPoint)> = Vec::new();
    let count: usize = points.len() / 4;
    let mut i: usize = 0;
    while i < count
        invariant
            count == points.len() / 4,
            i <= count,
            items@ == quads_of(points@).subrange(0, i as int),
        decreases count - i,
    {
        items.push((points[4 * i], points[4 * i + 1], points[4 * i + 2], points[4 * i + 3]));
        i = i + 1;
        assert(items@ =~= quads_of(points@).subrange(0, i as int));
    }
    assert(items@ =~= quads_of(points@));
    items
}

impl PhaseAmpsSelect for [PhaseAmp] {
    open spec fn points(&self) -> Seq<PhaseAmpPoint> {
        points_of(self@)
    }

    fn select(&self, range: Range<usize>) -> (window: &Self) {
        let window = slice_subrange(self, range.start, range.end);
        assert(window.points() =~= self.points().subrange(range.start as int, range.end as int));
        window
    }

    fn iter_phase_amps(&self) -> (items: Vec<PhaseAmpPoint>) {
        let mut items: Vec<PhaseAmpPoint> = Vec::new();
        let mut i: usize = 0;
        while i < self.len()
            invariant
                i <= self.len(),
                items@ == self.points().subrange(0, i as int),
            decreases self.len() - i,
        {
            items.push(PhaseAmpPoint { phase: self[i].phase, amplitude: self[i].amplitude });
            i = i + 1;
            assert(items@ =~= self.points().subrange(0, i as int));
        }
        assert(items@ =~= self.points());
        items
    }

    fn iter_pa_pairs(&self) -> (items: Vec<(PhaseAmpPoint, PhaseAmpPoint)>) {
        let points = self.iter_phase_amps();
        collect_pairs(&points)
    }

    fn iter_pa_triples(&self) -> (items: Vec<(PhaseAmpPoint, PhaseAmpPoint, PhaseAmpPoint)>) {
        let points = self.iter_phase_amps();
        collect_triples(&points)
    }

    fn iter_pa_quads(&self) -> (items: Vec<
        (PhaseAmpPoint, PhaseAmpPoint, PhaseAmpPoint, PhaseAmpPoint),
    >) {
        let points = self.iter_phase_amps();
        collect_quads(&points)
    }
}

impl PhaseAmpsSelect for [Flt] {
    open spec fn points(&self) -> Seq<PhaseAmpPoint> {
        points_of_flat(self@)
    }

    fn select(&self, range: Range<usize>) -> (window: &Self) {
        let total: usize = self.len();
        assert(self.points().len() == total / 2);
        let window = slice_subrange(self, 2 * range.start, 2 * range.end);
        assert(window.points() =~= self.points().subrange(range.start as int, range.end as int));
        window
    }

    fn iter_phase_amps(&self) -> (items: Vec<PhaseAmpPoint>) {
        let mut items: Vec<PhaseAmpPoint> = Vec::new();
        let count: usize = self.len() / 2;
        let mut i: usize = 0;
        while i < count
            invariant
                count == self.len() / 2,
                i <= count,
                items@ == self.points().subrange(0, i as int),
            decreases count - i,
        {
            items.push(PhaseAmpPoint { phase: self[2 * i], amplitude: self[2 * i + 1] });
            i = i + 1;
            assert(items@ =~= self.points().subrange(0, i as int));
        }
        assert(items@ =~= self.points());
        items
    }

    fn iter_pa_pairs(&self) -> (items: Vec<(PhaseAmpPoint, PhaseAmpPoint)>) {
        let points = self.iter_phase_amps();
        collect_pairs(&points)
    }

    fn iter_pa_triples(&self) -> (items: Vec<(PhaseAmpPoint, PhaseAmpPoint, PhaseAmpPoint)>) {
        let points = self.iter_phase_amps();
        collect_triples(&points)
    }

    fn iter_pa_quads(&self) -> (items: Vec<
        (PhaseAmpPoint, PhaseAmpPoint, PhaseAmpPoint, PhaseAmpPoint),
    >) {
        let points = self.iter_phase_amps();
        collect_quads(&points)
    }
}

impl PhaseAmpDataExp for [PhaseAmp] {
    open spec fn bank(&self) -> Seq<PhaseAmp> {
        self@
    }

    fn export_phase_amps(&self, out: &mut Vec<Flt>) {
        let ghost flat = flat_of(points_of(self@));
        let mut i: usize = 0;
        while i < self.len()
            invariant
                i <= self.len(),
                flat == flat_of(points_of(self@)),
                out@ == old(out)@ + flat.subrange(0, 2 * i),
            decreases self.len() - i,
        {
            self[i].export(out);
            i = i + 1;
            assert(out@ =~= old(out)@ + flat.subrange(0, 2 * i));
        }
        assert(flat.subrange(0, 2 * i) =~= flat);
    }

    fn import_phase_amps(&mut self, source: &[Flt]) {
        let available: usize = source.len();
        let mut i: usize = 0;
        while i < self.len()
            invariant
                i <= self.len(),
                self@.len() == old(self)@.len(),
                source@.len() >= 2 * self@.len(),
                source@.len() == available,
                forall|k: int| 0 <= k < i ==> self@[k] == #[trigger] imported(old(self)@, source@)[k],
                forall|k: int| i <= k < self@.len() ==> self@[k] == #[trigger] old(self)@[k],
            decreases self.len() - i,
        {
            let mut pa = self[i];
            pa.set_phase(source[2 * i]);
            pa.set_amplitude(source[2 * i + 1]);
            self[i] = pa;
            i = i + 1;
        }
        assert(self@ =~= imported(old(self)@, source@));
    }
}

/// Writing a bank out and reading what was written back into the same bank
/// changes nothing: every oscillator keeps its phase, its amplitude and the
/// state of its animation.
pub proof fn lemma_export_import_round_trip(bank: Seq<PhaseAmp>)
    ensures
        imported(bank, flat_of(points_of(bank))) == bank,
{
    assert(imported(bank, flat_of(points_of(bank))) =~= bank);
}

/// Reading into any bank what another bank of the same length wrote out
/// gives every oscillator the phase and the amplitude of its counterpart.
pub proof fn lemma_import_takes_exported_points(target: Seq<PhaseAmp>, origin: Seq<PhaseAmp>)
    requires
        target.len() == origin.len(),
    ensures
        points_of(imported(target, flat_of(points_of(origin)))) == points_of(origin),
{
    assert(points_of(imported(target, flat_of(points_of(origin)))) =~= points_of(origin));
}

/// A bank and what it writes out are the same bank to a reader: the flat
/// form holds the same oscillators, so windows and groups taken of either
/// are equal.
pub proof fn lemma_flat_form_holds_same_points(points: Seq<PhaseAmpPoint>)
    ensures
        points_of_flat(flat_of(points)) == points,
{
    assert(points_of_flat(flat_of(points)) =~= points);
}

/// Taken two by two, a run of oscillators gives half as many pairs as it has
/// oscillators, rounded down, and pair `i` holds oscillators `2 i` and
/// `2 i + 1`.
pub proof fn lemma_pairs_are_exact(points: Seq<PhaseAmpPoint>, i: int)
    requires
        0 <= i < points.len() / 2,
    ensures
        pairs_of(points).len() == points.len() / 2,
        pairs_of(points)[i] == (points[2 * i], points[2 * i + 1]),
{
}

} // verus!
