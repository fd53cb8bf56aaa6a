//! Per-switch debounce filter: a saturating confidence counter with a
//! hysteresis band.
//!
//! Each scan tick moves the confidence level one step towards the raw sample.
//! The transmitted state turns on only when the level has climbed into the
//! upper third of its range and turns off only when it has fallen into the
//! lower third, so contact bounce inside the band never reaches the host.

use vstd::prelude::*;

verus! {

/// Highest confidence level; the counter saturates here.
pub const LEVEL_MAX: u8 = 15;

/// A pressed switch is released once its level has fallen to this value.
pub const LOWER_THRESHOLD: u8 = 5;

/// A released switch is pressed once its level has risen to this value.
pub const UPPER_THRESHOLD: u8 = 10;

/// Mathematical state of one filter: the confidence level and the state last
/// transmitted.
pub struct Filter {
    pub level: int,
    pub pressed: bool,
}

impl Filter {
    /// The level stays in range, and the transmitted state is consistent with
    /// the side of the hysteresis band the level was last seen on.
    pub open spec fn wf(self) -> bool {
        &&& 0 <= self.level <= LEVEL_MAX
        &&& !self.pressed ==> self.level < UPPER_THRESHOLD
        &&& self.pressed ==> self.level > LOWER_THRESHOLD
    }

    /// A filter at power-on: no confidence, nothing transmitted.
    pub open spec fn initial() -> Filter {
        Filter { level: 0, pressed: false }
    }

    /// The level after one raw sample: one step up or down, saturating.
    pub open spec fn next_level(self, raw: bool) -> int {
        if raw {
            if self.level < LEVEL_MAX {
                self.level + 1
            } else {
                self.level
            }
        } else {
            if self.level > 0 {
                self.level - 1
            } else {
                self.level
            }
        }
    }

    /// The filter after one raw sample.
    pub open spec fn step(self, raw: bool) -> Filter {
        let level = self.next_level(raw);
        let pressed = if !self.pressed && level >= UPPER_THRESHOLD {
            true
        } else if self.pressed && level <= LOWER_THRESHOLD {
            false
        } else {
            self.pressed
        };
        Filter { level, pressed }
    }

    /// The filter after a whole sequence of raw samples, oldest first.
    pub open spec fn run(self, samples: Seq<bool>) -> Filter
        decreases samples.len(),
    {
        if samples.len() == 0 {
            self
        } else {
            self.run(samples.drop_last()).step(samples.last())
        }
    }

    /// Whether this sample makes the transmitted state rise.
    pub open spec fn press_edge(self, raw: bool) -> bool {
        !self.pressed && self.step(raw).pressed
    }

    /// How many contrary steps the level is away from flipping the
    /// transmitted state.
    pub open spec fn margin(self) -> int {
        if self.pressed {
            self.level - LOWER_THRESHOLD
        } else {
            UPPER_THRESHOLD - self.level
        }
    }
}

/// Number of samples in `samples` equal to `value`.
pub open spec fn count_of(samples: Seq<bool>, value: bool) -> nat
    decreases samples.len(),
{
    if samples.len() == 0 {
        0
    } else {
        count_of(samples.drop_last(), value) + if samples.last() == value {
            1nat
        } else {
            0nat
        }
    }
}

/// `n` copies of the same raw sample.
pub open spec fn steady(value: bool, n: nat) -> Seq<bool> {
    Seq::new(n, |i: int| value)
}

/// Debounce state of one matrix position.
#[derive(Clone, Copy, Debug)]
pub struct DebounceState {
    level: u8,
    state: bool,
}

impl View for DebounceState {
    type V = Filter;

    closed spec fn view(&self) -> Filter {
        Filter { level: self.level as int, pressed: self.state }
    }
}

impl DebounceState {
    /// Every filter that exists is well formed.
    #[verifier::type_invariant]
    pub open spec fn inv(self) -> bool {
        self@.wf()
    }

    /// A filter at power-on.
    pub fn new() -> (s: Self)
        ensures
            s@ == Filter::initial(),
    {
        DebounceState { level: 0, state: false }
    }

    /// Feeds one raw sample and returns the stable state to transmit.
    pub fn update(&mut self, signal_input: bool) -> (stable: bool)
        ensures
            final(self)@ == old(self)@.step(signal_input),
            final(self)@.wf(),
            stable == final(self)@.pressed,
    {
        proof {
            use_type_invariant(&*self);
        }
        let level: u8 = if signal_input {
            if self.level < LEVEL_MAX {
                self.level + 1
            } else {
                self.level
            }
        } else {
            if self.level > 0 {
                self.level - 1
            } else {
                self.level
            }
        };
        let state: bool = if !self.state && level >= UPPER_THRESHOLD {
            true
        } else if self.state && level <= LOWER_THRESHOLD {
            false
        } else {
            self.state
        };
        *self = DebounceState { level, state };
        state
    }

    /// Feeds one raw sample and returns the stable state together with
    /// whether this sample made it rise.  The second value is `true` exactly
    /// once per press: a caller that counts presses, or acts on them, does so
    /// when it sees it.
    pub fn update_with_edge(&mut self, signal_input: bool) -> (r: (bool, bool))
        ensures
            final(self)@ == old(self)@.step(signal_input),
            final(self)@.wf(),
            r.0 == final(self)@.pressed,
            r.1 == old(self)@.press_edge(signal_input),
    {
        let was: bool = self.state;
        let stable: bool = self.update(signal_input);
        (stable, stable && !was)
    }

    /// The stable state last transmitted.
    pub fn is_pressed(&self) -> (pressed: bool)
        ensures
            pressed == self@.pressed,
    {
        self.state
    }

    /// The current confidence level.
    pub fn level(&self) -> (level: u8)
        ensures
            level == self@.level,
            level <= LEVEL_MAX,
    {
        proof {
            use_type_invariant(self);
        }
        self.level
    }
}

impl Default for DebounceState {
    fn default() -> (s: Self)
        ensures
            s@ == Filter::initial(),
    {
        DebounceState::new()
    }
}

/// A well-formed filter stays well formed, whatever it is fed.
pub proof fn law_filter_stays_well_formed(filter: Filter, samples: Seq<bool>)
    requires
        filter.wf(),
    ensures
        filter.run(samples).wf(),
    decreases samples.len(),
{
    if samples.len() > 0 {
        law_filter_stays_well_formed(filter, samples.drop_last());
    }
}

/// The transmitted state rises only with a "true" sample that takes the
/// level up to the upper threshold, and falls only with a "false" sample
/// that takes it down to the lower threshold.
pub proof fn law_edge_only_at_threshold(filter: Filter, raw: bool)
    requires
        filter.wf(),
    ensures
        !filter.pressed && filter.step(raw).pressed ==> raw && filter.level == UPPER_THRESHOLD - 1
            && filter.step(raw).level == UPPER_THRESHOLD,
        filter.pressed && !filter.step(raw).pressed ==> !raw && filter.level == LOWER_THRESHOLD + 1
            && filter.step(raw).level == LOWER_THRESHOLD,
{
}

/// A single contrary sample between samples that agree with the transmitted
/// state never changes the transmitted state.
pub proof fn law_isolated_glitch_is_absorbed(filter: Filter)
    requires
        filter.wf(),
    ensures
        filter.step(filter.pressed).pressed == filter.pressed,
        filter.step(filter.pressed).step(!filter.pressed).pressed == filter.pressed,
        filter.step(filter.pressed).step(!filter.pressed).step(filter.pressed).pressed
            == filter.pressed,
{
}

proof fn lemma_margin_after_run(filter: Filter, samples: Seq<bool>)
    requires
        filter.wf(),
    ensures
        filter.run(samples).wf(),
        filter.run(samples).pressed != filter.pressed ==> count_of(samples, !filter.pressed)
            >= filter.margin(),
        filter.run(samples).pressed == filter.pressed ==> filter.run(samples).margin()
            >= filter.margin() - count_of(samples, !filter.pressed),
    decreases samples.len(),
{
    if samples.len() > 0 {
        lemma_margin_after_run(filter, samples.drop_last());
    }
}

/// The transmitted state cannot change before the filter has seen as many
/// contrary samples as its level is steps away from the far threshold.  A
/// filter that has just changed state, or was just switched on, is at least
/// a full hysteresis band away.
pub proof fn law_flip_needs_contrary_samples(filter: Filter, samples: Seq<bool>)
    requires
        filter.wf(),
    ensures
        filter.margin() >= 1,
        filter.run(samples).pressed != filter.pressed ==> count_of(samples, !filter.pressed)
            >= filter.margin(),
        Filter::initial().margin() == UPPER_THRESHOLD,
{
    lemma_margin_after_run(filter, samples);
}

proof fn lemma_steady_run(filter: Filter, n: nat)
    requires
        filter.wf(),
    ensures
        filter.run(steady(!filter.pressed, n)).pressed != filter.pressed <==> n >= filter.margin(),
        filter.run(steady(!filter.pressed, n)).level == if filter.pressed {
            if filter.level - n < 0 {
                0
            } else {
                filter.level - n
            }
        } else {
            if filter.level + n > LEVEL_MAX {
                LEVEL_MAX as int
            } else {
                filter.level + n
            }
        },
    decreases n,
{
    if n > 0 {
        lemma_steady_run(filter, (n - 1) as nat);
        assert(steady(!filter.pressed, n).drop_last() =~= steady(
            !filter.pressed,
            (n - 1) as nat,
        ));
    }
}

/// Under an unbroken run of contrary samples the transmitted state changes
/// exactly when the run is as long as the level is steps away from the far
/// threshold, and stays changed for the rest of the run.  From power-on that
/// is a run of `UPPER_THRESHOLD` "true" samples.
pub proof fn law_steady_run_flips_at_margin(filter: Filter, n: nat)
    requires
        filter.wf(),
    ensures
        filter.run(steady(!filter.pressed, n)).pressed != filter.pressed <==> n >= filter.margin(),
        Filter::initial().run(steady(true, n)).pressed <==> n >= UPPER_THRESHOLD,
{
    lemma_steady_run(filter, n);
    lemma_steady_run(Filter::initial(), n);
}

/// Once the level is saturated, more of the same raw value changes nothing:
/// the level stays clamped at the boundary, and so does the whole filter.
pub proof fn law_saturation_is_idempotent(filter: Filter, n: nat)
    ensures
        filter.level == LEVEL_MAX ==> filter.run(steady(true, n)).level == LEVEL_MAX,
        filter.level == 0 ==> filter.run(steady(false, n)).level == 0,
        filter.wf() && filter.level == LEVEL_MAX ==> filter.run(steady(true, n)) == filter,
        filter.wf() && filter.level == 0 ==> filter.run(steady(false, n)) == filter,
    decreases n,
{
    if n > 0 {
        law_saturation_is_idempotent(filter, (n - 1) as nat);
        assert(steady(true, n).drop_last() =~= steady(true, (n - 1) as nat));
        assert(steady(false, n).drop_last() =~= steady(false, (n - 1) as nat));
    }
}

} // verus!
