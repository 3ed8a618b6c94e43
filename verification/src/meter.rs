//! The meter presenter: turns the measurement read each render pass into a
//! bounded visual indicator with peak-hold behaviour.
//!
//! Display levels are in centibels (hundredths of a decibel), fixed point,
//! so that hold, decay and normalization are exact integer arithmetic. The
//! logarithmic conversion from a linear magnitude to centibels is the
//! caller's concern; a measurement at or below the representable silence
//! threshold is handed in as `None` and lands on the scale's floor, so the
//! presenter never sees an unbounded value.

use vstd::prelude::*;
use vstd::arithmetic::div_mod::lemma_div_is_ordered;
use vstd::arithmetic::div_mod::lemma_div_multiples_vanish;
use vstd::arithmetic::mul::lemma_mul_inequality;
use vstd::arithmetic::mul::lemma_mul_strictly_positive;

verus! {

/// Number of fraction units that stand for a full meter: a normalized
/// fraction is an integer in `0 ..= FRACTION_ONE`.
pub const FRACTION_ONE: u32 = 10_000;

/// The fixed display range, floor to ceiling, in centibels. Levels at or
/// below the floor show as empty, levels at or above the ceiling as full.
#[derive(Clone, Copy, PartialEq, Eq, Structural, Debug)]
pub struct MeterScale {
    pub floor_cb: i32,
    pub ceil_cb: i32,
}

/// Where a display level lands on a scale, as a fraction of
/// [`FRACTION_ONE`]: clamped to the nearest bound outside the range, linear
/// interpolation inside it.
pub open spec fn normalized(scale: MeterScale, level_cb: int) -> int {
    if level_cb <= scale.floor_cb {
        0
    } else if level_cb >= scale.ceil_cb {
        FRACTION_ONE as int
    } else {
        ((level_cb - scale.floor_cb) * FRACTION_ONE) / (scale.ceil_cb - scale.floor_cb)
    }
}

/// The display level one measurement yields: silence (or anything under the
/// floor) lands on the floor, everything else passes through — never an
/// unbounded or undefined value.
pub open spec fn display_cb(scale: MeterScale, measured_cb: Option<i32>) -> int {
    match measured_cb {
        Option::None => scale.floor_cb as int,
        Option::Some(level) => if level <= scale.floor_cb {
            scale.floor_cb as int
        } else {
            level as int
        },
    }
}

/// The held level after one render pass: an incoming level at or above the
/// held one replaces it immediately; a lower one pulls the held level down
/// by the decay amount, floored at the incoming level.
pub open spec fn hold_step(held_cb: int, incoming_cb: int, decay_amount: int) -> int {
    if incoming_cb >= held_cb {
        incoming_cb
    } else if held_cb - decay_amount >= incoming_cb {
        held_cb - decay_amount
    } else {
        incoming_cb
    }
}

/// Law (decay monotonicity): with a lower incoming level and a
/// non-negative decay amount, the next held level never rises above the
/// held one and never undershoots the incoming one.
pub proof fn lemma_decay_monotonic(held_cb: int, incoming_cb: int, decay_amount: int)
    requires
        incoming_cb < held_cb,
        0 <= decay_amount,
    ensures
        incoming_cb <= hold_step(held_cb, incoming_cb, decay_amount) <= held_cb,
{
}

/// Law (instant attack): an incoming level at or above the held one becomes
/// the next held level exactly, whatever the decay amount.
pub proof fn lemma_instant_attack(held_cb: int, incoming_cb: int, decay_amount: int)
    requires
        incoming_cb >= held_cb,
    ensures
        hold_step(held_cb, incoming_cb, decay_amount) == incoming_cb,
{
}

/// Law (no time, no decay): two render passes at the same timestamp leave
/// the held level where it was.
pub proof fn lemma_no_time_no_decay(held_cb: int, incoming_cb: int)
    requires
        incoming_cb < held_cb,
    ensures
        hold_step(held_cb, incoming_cb, 0) == held_cb,
{
}

/// Law (clamping): on a well-formed scale every level normalizes into
/// `0 ..= FRACTION_ONE`; the floor and everything below it to 0, the ceiling
/// and everything above it to `FRACTION_ONE`.
pub proof fn lemma_normalized_clamped(scale: MeterScale, level_cb: int)
    requires
        scale.floor_cb < scale.ceil_cb,
    ensures
        0 <= normalized(scale, level_cb) <= FRACTION_ONE,
        level_cb <= scale.floor_cb ==> normalized(scale, level_cb) == 0,
        level_cb >= scale.ceil_cb ==> normalized(scale, level_cb) == FRACTION_ONE,
{
    if scale.floor_cb < level_cb < scale.ceil_cb {
        let offset = level_cb - scale.floor_cb;
        let span = scale.ceil_cb - scale.floor_cb;
        lemma_mul_strictly_positive(offset, FRACTION_ONE as int);
        lemma_div_is_ordered(0, offset * FRACTION_ONE, span);
        lemma_mul_inequality(offset, span, FRACTION_ONE as int);
        lemma_div_is_ordered(offset * FRACTION_ONE, span * FRACTION_ONE, span);
        lemma_div_multiples_vanish(FRACTION_ONE as int, span);
    }
}

impl MeterScale {
    /// A scale is well formed when its floor lies strictly under its
    /// ceiling.
    pub open spec fn wf(&self) -> bool {
        self.floor_cb < self.ceil_cb
    }

    /// Maps a display level onto the scale as a fraction of
    /// [`FRACTION_ONE`]: 0 at or below the floor, `FRACTION_ONE` at or
    /// above the ceiling, linear in between — never outside the range.
    pub fn normalize(&self, level_cb: i32) -> (fraction: u32)
        requires
            self.wf(),
        ensures
            fraction == normalized(*self, level_cb as int),
            fraction <= FRACTION_ONE,
    {
        proof {
            lemma_normalized_clamped(*self, level_cb as int);
        }
        if level_cb <= self.floor_cb {
            0
        } else if level_cb >= self.ceil_cb {
            FRACTION_ONE
        } else {
            let offset: u64 = (level_cb as i64 - self.floor_cb as i64) as u64;
            let span: u64 = (self.ceil_cb as i64 - self.floor_cb as i64) as u64;
            let fraction: u64 = offset * (FRACTION_ONE as u64) / span;
            fraction as u32
        }
    }
}

/// The state the meter keeps across render passes: the level it shows now
/// and the rate at which that level falls when the signal does.
pub struct PeakHoldState {
    held_cb: i32,
    decay_cb_per_ms: u32,
}

impl PeakHoldState {
    /// The level shown now, in centibels.
    pub closed spec fn held(&self) -> int {
        self.held_cb as int
    }

    /// How fast the shown level falls, in centibels per millisecond.
    pub closed spec fn decay_rate(&self) -> int {
        self.decay_cb_per_ms as int
    }

    /// Fresh hold state, showing `initial_cb` (typically the scale's
    /// floor).
    pub fn new(initial_cb: i32, decay_cb_per_ms: u32) -> (state: Self)
        ensures
            state.held() == initial_cb,
            state.decay_rate() == decay_cb_per_ms,
    {
        PeakHoldState { held_cb: initial_cb, decay_cb_per_ms }
    }

    /// The level shown now, in centibels.
    pub fn held_cb(&self) -> (level: i32)
        ensures
            level == self.held(),
    {
        self.held_cb
    }

    /// One render pass: the held level attacks instantly to an incoming
    /// level at or above it, and otherwise decays by rate times elapsed
    /// time, floored at the incoming level.
    pub fn tick(&mut self, incoming_cb: i32, elapsed_ms: u32)
        ensures
            final(self).held() == hold_step(
                old(self).held(),
                incoming_cb as int,
                old(self).decay_rate() * elapsed_ms,
            ),
            final(self).decay_rate() == old(self).decay_rate(),
    {
        if incoming_cb >= self.held_cb {
            self.held_cb = incoming_cb;
        } else {
            proof {
                lemma_mul_inequality(
                    self.decay_cb_per_ms as int,
                    u32::MAX as int,
                    elapsed_ms as int,
                );
                lemma_mul_inequality(elapsed_ms as int, u32::MAX as int, u32::MAX as int);
            }
            let decay: u64 = (self.decay_cb_per_ms as u64) * (elapsed_ms as u64);
            let gap: u64 = (self.held_cb as i64 - incoming_cb as i64) as u64;
            if decay >= gap {
                self.held_cb = incoming_cb;
            } else {
                self.held_cb = (self.held_cb as i64 - decay as i64) as i32;
            }
        }
    }
}

/// Consumes one measurement each render pass, keeps the peak-hold state,
/// and emits the normalized fraction to draw. Read-only with respect to the
/// measurement source; all mutation is confined to the hold state.
pub struct MeterPresenter {
    scale: MeterScale,
    hold: PeakHoldState,
}

impl MeterPresenter {
    /// The presenter's display range.
    pub closed spec fn scale(&self) -> MeterScale {
        self.scale
    }

    /// The level the meter shows now, in centibels.
    pub closed spec fn held(&self) -> int {
        self.hold.held()
    }

    /// How fast the shown level falls, in centibels per millisecond.
    pub closed spec fn decay_rate(&self) -> int {
        self.hold.decay_rate()
    }

    /// The presenter's invariant: a well-formed scale, and a shown level
    /// that never sinks below the scale's floor.
    pub open spec fn wf(&self) -> bool {
        &&& self.scale().wf()
        &&& self.held() >= self.scale().floor_cb
    }

    /// A fresh presenter shows silence: the scale's floor.
    pub fn new(scale: MeterScale, decay_cb_per_ms: u32) -> (presenter: Self)
        requires
            scale.wf(),
        ensures
            presenter.scale() == scale,
            presenter.held() == scale.floor_cb,
            presenter.decay_rate() == decay_cb_per_ms,
            presenter.wf(),
    {
        MeterPresenter { scale, hold: PeakHoldState::new(scale.floor_cb, decay_cb_per_ms) }
    }

    /// The presenter's display range.
    pub fn display_scale(&self) -> (scale: MeterScale)
        ensures
            scale == self.scale(),
    {
        self.scale
    }

    /// The level the meter shows now, in centibels.
    pub fn held_cb(&self) -> (level: i32)
        ensures
            level == self.held(),
    {
        self.hold.held_cb()
    }

    /// One render pass: floors the measurement (`None` is silence), feeds
    /// it through the peak hold, and returns the normalized fraction of the
    /// held level — always in `0 ..= FRACTION_ONE`.
    pub fn render(&mut self, measured_cb: Option<i32>, elapsed_ms: u32) -> (fraction: u32)
        requires
            old(self).wf(),
        ensures
            final(self).held() == hold_step(
                old(self).held(),
                display_cb(old(self).scale(), measured_cb),
                old(self).decay_rate() * elapsed_ms,
            ),
            fraction == normalized(old(self).scale(), final(self).held()),
            fraction <= FRACTION_ONE,
            final(self).scale() == old(self).scale(),
            final(self).decay_rate() == old(self).decay_rate(),
            final(self).wf(),
    {
        let incoming_cb: i32 = match measured_cb {
            Option::None => self.scale.floor_cb,
            Option::Some(level) => if level <= self.scale.floor_cb {
                self.scale.floor_cb
            } else {
                level
            },
        };
        self.hold.tick(incoming_cb, elapsed_ms);
        self.scale.normalize(self.hold.held_cb())
    }
}

} // verus!
