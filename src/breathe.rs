//! The four-phase breathing cycle and the scale and hue derived from it.

use vstd::prelude::*;
use crate::easing::{
    ease_in_out_cubic, eased, lemma_eased_bounds, lemma_eased_monotone, lemma_lerp_bounds,
    lemma_lerp_monotone, lerp, lerp_spec, EASE_DEN, PERIOD,
};

verus! {

/// One full breath: four phases, in nanoseconds.
pub const CYCLE: u64 = 16_000_000_000;

/// Smallest disc scale, in millionths.
pub const SCALE_MIN: u64 = 250_000;

/// Largest disc scale, in millionths.
pub const SCALE_MAX: u64 = 1_000_000;

/// Hue while breathing in, in millionths of a degree.
pub const HUE_BLUE: u64 = 260_000_000;

/// Hue while breathing out, in millionths of a degree.
pub const HUE_RED: u64 = 330_000_000;

/// The current phase of the breath, with the nanoseconds spent in it so far.
#[derive(Clone, Copy, Debug, PartialEq, Eq, Structural)]
pub enum BreatheState {
    In(u64),
    HoldIn(u64),
    Out(u64),
    HoldOut(u64),
}

impl BreatheState {
    /// Nanoseconds spent in the current phase.
    pub open spec fn time(self) -> int {
        match self {
            BreatheState::In(t) => t as int,
            BreatheState::HoldIn(t) => t as int,
            BreatheState::Out(t) => t as int,
            BreatheState::HoldOut(t) => t as int,
        }
    }

    /// Place of the phase in the cycle, from `0` (breathing in) to `3`.
    pub open spec fn index(self) -> int {
        match self {
            BreatheState::In(_) => 0,
            BreatheState::HoldIn(_) => 1,
            BreatheState::Out(_) => 2,
            BreatheState::HoldOut(_) => 3,
        }
    }

    /// The timer has not yet run through its phase.
    pub open spec fn wf(self) -> bool {
        self.time() < PERIOD
    }

    /// Nanoseconds since the start of the cycle.
    pub open spec fn position(self) -> int {
        self.index() * PERIOD + self.time()
    }

    /// The state at `p` nanoseconds into the cycle, for `0 <= p < CYCLE`.
    pub open spec fn at_position(p: int) -> BreatheState {
        if p < PERIOD {
            BreatheState::In(p as u64)
        } else if p < 2 * PERIOD {
            BreatheState::HoldIn((p - PERIOD) as u64)
        } else if p < 3 * PERIOD {
            BreatheState::Out((p - 2 * PERIOD) as u64)
        } else {
            BreatheState::HoldOut((p - 3 * PERIOD) as u64)
        }
    }

    /// The state reached after `dt` more nanoseconds: no time is dropped and
    /// none is counted twice, however many phases `dt` spans.
    pub open spec fn advanced(self, dt: int) -> BreatheState {
        BreatheState::at_position((self.position() + dt) % (CYCLE as int))
    }

    /// The disc scale, in millionths.
    pub open spec fn scale_spec(self) -> int {
        match self {
            BreatheState::In(t) => lerp_spec(eased(t as int), SCALE_MIN as int, SCALE_MAX as int),
            BreatheState::HoldIn(_) => SCALE_MAX as int,
            BreatheState::Out(t) => lerp_spec(eased(t as int), SCALE_MAX as int, SCALE_MIN as int),
            BreatheState::HoldOut(_) => SCALE_MIN as int,
        }
    }

    /// The disc hue, in millionths of a degree.
    pub open spec fn hue_spec(self) -> int {
        match self {
            BreatheState::In(_) => HUE_BLUE as int,
            BreatheState::HoldIn(t) => lerp_spec(eased(t as int), HUE_BLUE as int, HUE_RED as int),
            BreatheState::Out(_) => HUE_RED as int,
            BreatheState::HoldOut(t) => lerp_spec(eased(t as int), HUE_RED as int, HUE_BLUE as int),
        }
    }

    /// The start of the cycle: breathing in, no time spent.
    pub fn new() -> (r: BreatheState)
        ensures
            r == BreatheState::In(0),
            r.wf(),
    {
        BreatheState::In(0)
    }

    /// Nanoseconds spent in the current phase.
    pub fn elapsed(&self) -> (r: u64)
        ensures
            r == self.time(),
    {
        match *self {
            BreatheState::In(t) => t,
            BreatheState::HoldIn(t) => t,
            BreatheState::Out(t) => t,
            BreatheState::HoldOut(t) => t,
        }
    }

    /// The next phase of the cycle, entered with its timer at `t`.
    fn next(&self, t: u64) -> (r: BreatheState)
        ensures
            r.time() == t,
            r.index() == (self.index() + 1) % 4,
    {
        match *self {
            BreatheState::In(_) => BreatheState::HoldIn(t),
            BreatheState::HoldIn(_) => BreatheState::Out(t),
            BreatheState::Out(_) => BreatheState::HoldOut(t),
            BreatheState::HoldOut(_) => BreatheState::In(t),
        }
    }

    /// The same phase with its timer at `t`.
    fn with_time(&self, t: u64) -> (r: BreatheState)
        ensures
            r.time() == t,
            r.index() == self.index(),
    {
        match *self {
            BreatheState::In(_) => BreatheState::In(t),
            BreatheState::HoldIn(_) => BreatheState::HoldIn(t),
            BreatheState::Out(_) => BreatheState::Out(t),
            BreatheState::HoldOut(_) => BreatheState::HoldOut(t),
        }
    }

    /// Lets `dt` nanoseconds pass: the timer grows by `dt`, and each time it
    /// reaches a whole phase the state moves on to the next phase, carrying
    /// the excess.
    pub fn advance(&mut self, dt: u64)
        requires
            old(self).wf(),
        ensures
            final(self).wf(),
            *final(self) == old(self).advanced(dt as int),
    {
        let ghost goal = (old(self).position() + dt) % (CYCLE as int);
        let mut s = *self;
        let mut t: u64 = self.elapsed() + dt % CYCLE;
        proof {
            vstd::arithmetic::div_mod::lemma_add_mod_noop(
                old(self).position(),
                dt as int,
                CYCLE as int,
            );
            vstd::arithmetic::div_mod::lemma_add_mod_noop(
                old(self).position(),
                (dt % CYCLE) as int,
                CYCLE as int,
            );
            vstd::arithmetic::div_mod::lemma_mod_twice(dt as int, CYCLE as int);
        }
        while t >= PERIOD
            invariant
                t < PERIOD + CYCLE,
                0 <= s.index() < 4,
                (s.index() * PERIOD + t) % (CYCLE as int) == goal,
            decreases t,
        {
            let ghost before = s.index() * PERIOD + t;
            t = t - PERIOD;
            s = s.next(0);
            proof {
                if s.index() == 0 {
                    vstd::arithmetic::div_mod::lemma_mod_sub_multiples_vanish(
                        before,
                        CYCLE as int,
                    );
                }
            }
        }
        proof {
            vstd::arithmetic::div_mod::lemma_small_mod(
                (s.index() * PERIOD + t) as nat,
                CYCLE as nat,
            );
        }
        *self = s.with_time(t);
    }

    /// The disc scale, in millionths: eased from a quarter up to whole while
    /// breathing in, whole while holding, eased back down while breathing
    /// out, a quarter while holding empty.
    pub fn scale(&self) -> (r: u64)
        requires
            self.wf(),
        ensures
            r == self.scale_spec(),
            SCALE_MIN <= r <= SCALE_MAX,
    {
        match *self {
            BreatheState::In(t) => lerp(ease_in_out_cubic(t), SCALE_MIN, SCALE_MAX),
            BreatheState::HoldIn(_) => SCALE_MAX,
            BreatheState::Out(t) => lerp(ease_in_out_cubic(t), SCALE_MAX, SCALE_MIN),
            BreatheState::HoldOut(_) => SCALE_MIN,
        }
    }

    /// The disc hue, in millionths of a degree: blue while breathing in, eased
    /// to red while holding full, red while breathing out, eased back to blue
    /// while holding empty. Saturation and lightness stay at one half.
    pub fn hue(&self) -> (r: u64)
        requires
            self.wf(),
        ensures
            r == self.hue_spec(),
            HUE_BLUE <= r <= HUE_RED,
    {
        match *self {
            BreatheState::In(_) => HUE_BLUE,
            BreatheState::HoldIn(t) => lerp(ease_in_out_cubic(t), HUE_BLUE, HUE_RED),
            BreatheState::Out(_) => HUE_RED,
            BreatheState::HoldOut(t) => lerp(ease_in_out_cubic(t), HUE_RED, HUE_BLUE),
        }
    }
}

/// Total of a sequence of time steps.
pub open spec fn total(dts: Seq<u64>) -> int
    decreases dts.len(),
{
    if dts.len() == 0 {
        0
    } else {
        total(dts.drop_last()) + dts.last()
    }
}

impl BreatheState {
    /// The state reached by advancing through each step of `dts` in turn.
    pub open spec fn advanced_all(self, dts: Seq<u64>) -> BreatheState
        decreases dts.len(),
    {
        if dts.len() == 0 {
            self
        } else {
            self.advanced_all(dts.drop_last()).advanced(dts.last() as int)
        }
    }
}

/// A position in the cycle and the state at it determine each other.
pub proof fn lemma_position_round_trip(s: BreatheState, p: int)
    requires
        s.wf(),
        0 <= p < CYCLE,
    ensures
        BreatheState::at_position(s.position()) == s,
        BreatheState::at_position(p).wf(),
        BreatheState::at_position(p).position() == p,
{
}

/// Advancing keeps the timer inside its phase.
pub proof fn lemma_advanced_wf(s: BreatheState, dt: int)
    requires
        s.wf(),
        dt >= 0,
    ensures
        s.advanced(dt).wf(),
        s.advanced(dt).position() == (s.position() + dt) % (CYCLE as int),
{
    let p = (s.position() + dt) % (CYCLE as int);
    lemma_position_round_trip(s, p);
}

/// Advancing by `a` and then by `b` is advancing by `a + b`.
pub proof fn lemma_advanced_compose(s: BreatheState, a: int, b: int)
    requires
        s.wf(),
        a >= 0,
        b >= 0,
    ensures
        s.advanced(a).advanced(b) == s.advanced(a + b),
{
    let c = CYCLE as int;
    lemma_advanced_wf(s, a);
    vstd::arithmetic::div_mod::lemma_add_mod_noop(s.position() + a, b, c);
    vstd::arithmetic::div_mod::lemma_mod_twice(s.position() + a, c);
    vstd::arithmetic::div_mod::lemma_add_mod_noop((s.position() + a) % c, b, c);
    assert(s.position() + a + b == s.position() + (a + b));
}

/// Advancing step by step is advancing once by the total of the steps:
/// the state depends on how much time passed, not on how it was sliced.
pub proof fn lemma_advanced_all(s: BreatheState, dts: Seq<u64>)
    requires
        s.wf(),
    ensures
        s.advanced_all(dts) == s.advanced(total(dts)),
        s.advanced_all(dts).wf(),
        total(dts) >= 0,
    decreases dts.len(),
{
    if dts.len() == 0 {
        lemma_position_round_trip(s, 0);
        vstd::arithmetic::div_mod::lemma_small_mod(s.position() as nat, CYCLE as nat);
    } else {
        lemma_advanced_all(s, dts.drop_last());
        lemma_advanced_compose(s, total(dts.drop_last()), dts.last() as int);
        lemma_advanced_wf(s, total(dts));
    }
}

/// The cycle is exactly periodic: from any state, steps that add up to one
/// full breath lead back to that very state.
pub proof fn lemma_full_breath_returns(s: BreatheState, dts: Seq<u64>)
    requires
        s.wf(),
        total(dts) == CYCLE,
    ensures
        s.advanced_all(dts) == s,
{
    lemma_advanced_all(s, dts);
    lemma_position_round_trip(s, 0);
    vstd::arithmetic::div_mod::lemma_add_mod_noop(s.position(), CYCLE as int, CYCLE as int);
    vstd::arithmetic::div_mod::lemma_small_mod(s.position() as nat, CYCLE as nat);
}

/// Scale and hue do not jump when a phase ends: at the last nanosecond of
/// a phase they already equal their values at the start of the next one.
/// The eased curve itself reaches its target exactly at the end of a phase.
pub proof fn lemma_continuous_at_phase_end(s: BreatheState)
    requires
        s.wf(),
        s.time() == PERIOD - 1,
    ensures
        s.scale_spec() == s.advanced(1).scale_spec(),
        s.hue_spec() == s.advanced(1).hue_spec(),
        eased(PERIOD as int) == EASE_DEN,
{
    let d = EASE_DEN as int;
    assert(crate::easing::cube(1) == 1);
    assert(eased(PERIOD - 1) == d - 4);
    assert(eased(0) == 0);
    lemma_advanced_wf(s, 1);
    if s.index() == 3 {
        vstd::arithmetic::div_mod::lemma_mod_self_0(CYCLE as int);
    } else {
        vstd::arithmetic::div_mod::lemma_small_mod((s.position() + 1) as nat, CYCLE as nat);
    }
    assert(lerp_spec(d - 4, SCALE_MIN as int, SCALE_MAX as int) == SCALE_MAX);
    assert(lerp_spec(d - 4, SCALE_MAX as int, SCALE_MIN as int) == SCALE_MIN);
    assert(lerp_spec(d - 4, HUE_BLUE as int, HUE_RED as int) == HUE_RED);
    assert(lerp_spec(d - 4, HUE_RED as int, HUE_BLUE as int) == HUE_BLUE);
    assert(lerp_spec(0, SCALE_MIN as int, SCALE_MAX as int) == SCALE_MIN);
    assert(lerp_spec(0, SCALE_MAX as int, SCALE_MIN as int) == SCALE_MAX);
    assert(lerp_spec(0, HUE_BLUE as int, HUE_RED as int) == HUE_BLUE);
    assert(lerp_spec(0, HUE_RED as int, HUE_BLUE as int) == HUE_RED);
}

/// The scale at the edges of the phases: a quarter at the start of breathing
/// in and throughout the empty hold, whole at the start of breathing out and
/// throughout the full hold.
pub proof fn lemma_scale_boundaries(t: u64)
    requires
        t < PERIOD,
    ensures
        BreatheState::In(0).scale_spec() == SCALE_MIN,
        BreatheState::HoldIn(t).scale_spec() == SCALE_MAX,
        BreatheState::Out(0).scale_spec() == SCALE_MAX,
        BreatheState::HoldOut(t).scale_spec() == SCALE_MIN,
{
    assert(eased(0) == 0);
    assert(lerp_spec(0, SCALE_MIN as int, SCALE_MAX as int) == SCALE_MIN);
    assert(lerp_spec(0, SCALE_MAX as int, SCALE_MIN as int) == SCALE_MAX);
}

/// The disc never shrinks while breathing in, and never grows while
/// breathing out.
pub proof fn lemma_scale_monotone(t1: u64, t2: u64)
    requires
        t1 <= t2 < PERIOD,
    ensures
        BreatheState::In(t1).scale_spec() <= BreatheState::In(t2).scale_spec(),
        BreatheState::Out(t1).scale_spec() >= BreatheState::Out(t2).scale_spec(),
{
    lemma_eased_monotone(t1 as int, t2 as int);
    lemma_eased_bounds(t1 as int);
    lemma_eased_bounds(t2 as int);
    lemma_lerp_monotone(eased(t1 as int), eased(t2 as int), SCALE_MIN as int, SCALE_MAX as int);
    lemma_lerp_monotone(eased(t1 as int), eased(t2 as int), SCALE_MAX as int, SCALE_MIN as int);
}

} // verus!
