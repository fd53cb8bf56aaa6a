//! The mode arbiter: decides whether dual-purpose keys act as pointer
//! buttons.
//!
//! Every reporting cycle adds the magnitude of the pointer motion just
//! reported to an accumulator.  While the accumulator has reached the
//! threshold, pointer mode is on.  Typing resets it: any keyboard code that
//! is not a modifier, or any consumer code, puts the accumulator back to
//! zero.

use crate::key_table::{is_modifier, is_mouse_modifier};
use crate::pointer::magnitude;
use vstd::prelude::*;

verus! {

/// Distance the pointer must move before dual-purpose keys become pointer
/// buttons.
pub const MOUSENESS_THRESHOLD: u64 = 5;

/// Every code is a modifier.
pub open spec fn only_modifiers(codes: Seq<u8>) -> bool {
    forall|i: int| 0 <= i < codes.len() ==> is_modifier(#[trigger] codes[i])
}

/// What is held down is compatible with pointer mode: no consumer code, and
/// no keyboard code other than modifiers.
pub open spec fn keeps_pointer_mode(key_codes: Seq<u8>, consumer_codes: Seq<u16>) -> bool {
    consumer_codes.len() == 0 && only_modifiers(key_codes)
}

/// The accumulator after the motion of one cycle has been added.  It stops
/// at the largest value it can hold.
pub open spec fn accumulated(mouseness: nat, dx: int, dy: int) -> nat {
    let sum = mouseness + magnitude(dx) + magnitude(dy);
    if sum > u64::MAX {
        u64::MAX as nat
    } else {
        sum as nat
    }
}

/// The accumulator after one evaluation.
pub open spec fn arbitrated(
    mouseness: nat,
    dx: int,
    dy: int,
    key_codes: Seq<u8>,
    consumer_codes: Seq<u16>,
) -> nat {
    if keeps_pointer_mode(key_codes, consumer_codes) {
        accumulated(mouseness, dx, dy)
    } else {
        0
    }
}

/// Whether an accumulator value means that pointer mode is on.
pub open spec fn pointer_mode_at(mouseness: nat) -> bool {
    mouseness >= MOUSENESS_THRESHOLD
}

/// Whether every code in `codes` is a modifier.
pub fn all_modifiers(codes: &[u8]) -> (all: bool)
    ensures
        all == only_modifiers(codes@),
{
    let mut i: usize = 0;
    while i < codes.len()
        invariant
            i <= codes.len(),
            forall|j: int| 0 <= j < i ==> is_modifier(#[trigger] codes@[j]),
        decreases codes.len() - i,
    {
        if !is_mouse_modifier(codes[i]) {
            return false;
        }
        i += 1;
    }
    true
}

/// The magnitude of a report value.
fn magnitude_of(v: i8) -> (m: u64)
    ensures
        m == magnitude(v as int),
        m <= 128,
{
    if v < 0 {
        (-(v as i16)) as u64
    } else {
        v as u64
    }
}

/// The accumulator of pointer motion since typing last reset it.  The view
/// is the accumulator's value.
#[derive(Clone, Copy, Debug)]
pub struct ModeArbiter {
    mouseness: u64,
}

impl View for ModeArbiter {
    type V = nat;

    closed spec fn view(&self) -> nat {
        self.mouseness as nat
    }
}

impl ModeArbiter {
    /// An arbiter at power-on: nothing accumulated, pointer mode off.
    pub fn new() -> (arbiter: Self)
        ensures
            arbiter@ == 0,
            !pointer_mode_at(arbiter@),
    {
        ModeArbiter { mouseness: 0 }
    }

    /// The accumulated pointer motion.
    pub fn mouseness(&self) -> (mouseness: u64)
        ensures
            mouseness == self@,
    {
        self.mouseness
    }

    /// Whether pointer mode is on.
    pub fn pointer_mode(&self) -> (on: bool)
        ensures
            on == pointer_mode_at(self@),
    {
        self.mouseness >= MOUSENESS_THRESHOLD
    }

    /// One evaluation, once per reporting cycle: takes the motion `dx`, `dy`
    /// of the pointer report of this cycle and the codes that the last scan
    /// collected, and returns whether pointer mode is on for the next scan.
    pub fn evaluate(
        &mut self,
        dx: i8,
        dy: i8,
        key_codes: &[u8],
        consumer_codes: &[u16],
    ) -> (on: bool)
        ensures
            final(self)@ == arbitrated(
                old(self)@,
                dx as int,
                dy as int,
                key_codes@,
                consumer_codes@,
            ),
            on == pointer_mode_at(final(self)@),
    {
        if consumer_codes.len() == 0 && all_modifiers(key_codes) {
            let moved: u64 = magnitude_of(dx) + magnitude_of(dy);
            self.mouseness = if self.mouseness > u64::MAX - moved {
                u64::MAX
            } else {
                self.mouseness + moved
            };
        } else {
            self.mouseness = 0;
        }
        self.mouseness >= MOUSENESS_THRESHOLD
    }
}

impl Default for ModeArbiter {
    fn default() -> (arbiter: Self)
        ensures
            arbiter@ == 0,
    {
        ModeArbiter::new()
    }
}

/// While nothing but modifiers is held and no consumer code is active, the
/// accumulator never shrinks: pointer mode, once on, stays on, and it comes
/// on as soon as the accumulated motion reaches the threshold.
pub proof fn law_modifiers_keep_pointer_mode(
    mouseness: nat,
    dx: int,
    dy: int,
    key_codes: Seq<u8>,
    consumer_codes: Seq<u16>,
)
    requires
        mouseness <= u64::MAX,
        only_modifiers(key_codes),
        consumer_codes.len() == 0,
    ensures
        arbitrated(mouseness, dx, dy, key_codes, consumer_codes) >= mouseness,
        pointer_mode_at(mouseness) ==> pointer_mode_at(
            arbitrated(mouseness, dx, dy, key_codes, consumer_codes),
        ),
        mouseness + magnitude(dx) + magnitude(dy) >= MOUSENESS_THRESHOLD ==> pointer_mode_at(
            arbitrated(mouseness, dx, dy, key_codes, consumer_codes),
        ),
        (dx != 0 || dy != 0) ==> arbitrated(mouseness, dx, dy, key_codes, consumer_codes) > 0,
{
}

/// A single keyboard code that is not a modifier puts the accumulator back
/// to zero and pointer mode off, whatever the pointer did in that cycle.
pub proof fn law_typing_resets_pointer_mode(
    mouseness: nat,
    dx: int,
    dy: int,
    key_codes: Seq<u8>,
    consumer_codes: Seq<u16>,
    code: u8,
)
    requires
        key_codes.contains(code),
        !is_modifier(code),
    ensures
        arbitrated(mouseness, dx, dy, key_codes, consumer_codes) == 0,
        !pointer_mode_at(arbitrated(mouseness, dx, dy, key_codes, consumer_codes)),
{
}

/// Any consumer code does the same.
pub proof fn law_media_resets_pointer_mode(
    mouseness: nat,
    dx: int,
    dy: int,
    key_codes: Seq<u8>,
    consumer_codes: Seq<u16>,
)
    requires
        consumer_codes.len() > 0,
    ensures
        arbitrated(mouseness, dx, dy, key_codes, consumer_codes) == 0,
        !pointer_mode_at(arbitrated(mouseness, dx, dy, key_codes, consumer_codes)),
{
}

} // verus!
