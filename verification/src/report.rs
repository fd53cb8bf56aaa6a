//! Assembling reports from what the scan and the pointer produced, and
//! deciding what the outcome of a write means.

use crate::key_table::MouseButton;
use crate::pointer::{MouseTracker, PointerReport};
use vstd::prelude::*;

verus! {

/// Number of codes in one consumer report.
pub const CONSUMER_REPORT_CODES: usize = 4;

/// Bit of the left button in a pointer report.
pub const LEFT_BUTTON_BIT: u8 = 0x1;

/// Bit of the right button in a pointer report.
pub const RIGHT_BUTTON_BIT: u8 = 0x2;

/// What became of an attempt to write a report to the host.
#[derive(Clone, Copy, Debug, PartialEq, Eq, Structural)]
pub enum WriteOutcome {
    /// The report went out.
    Sent,
    /// The endpoint was busy; try again next cycle.
    WouldBlock,
    /// The report equals the last one sent; nothing went out.
    Duplicate,
    /// Anything else.
    Failed,
}

/// The transport failed in a way that the next cycle cannot repair.
#[derive(Clone, Copy, Debug, PartialEq, Eq, Structural)]
pub enum TransportError {
    /// A write failed for a reason other than a busy endpoint or a repeated
    /// report.
    WriteFailed,
}

/// The button bits that a set of pointer buttons stands for.
pub open spec fn mask_of(buttons: Seq<MouseButton>) -> u8 {
    (if buttons.contains(MouseButton::Left) {
        LEFT_BUTTON_BIT as int
    } else {
        0
    } + if buttons.contains(MouseButton::Right) {
        RIGHT_BUTTON_BIT as int
    } else {
        0
    }) as u8
}

/// The consumer report for a sequence of consumer codes: the first four, in
/// order, and zero ("unassigned") in the slots that are left.
pub open spec fn consumer_slots(codes: Seq<u16>) -> Seq<u16> {
    Seq::new(
        CONSUMER_REPORT_CODES as nat,
        |i: int|
            if i < codes.len() {
                codes[i]
            } else {
                0u16
            },
    )
}

/// The button bits that `buttons` stands for.
pub fn button_mask(buttons: &[MouseButton]) -> (mask: u8)
    ensures
        mask == mask_of(buttons@),
{
    let mut left: bool = false;
    let mut right: bool = false;
    let mut i: usize = 0;
    while i < buttons.len()
        invariant
            i <= buttons.len(),
            left == buttons@.take(i as int).contains(MouseButton::Left),
            right == buttons@.take(i as int).contains(MouseButton::Right),
        decreases buttons.len() - i,
    {
        proof {
            let seen = buttons@.take(i as int);
            assert(buttons@.take(i + 1) =~= seen.push(buttons@[i as int]));
            vstd::seq_lib::lemma_seq_contains_after_push(seen, buttons@[i as int], MouseButton::Left);
            vstd::seq_lib::lemma_seq_contains_after_push(
                seen,
                buttons@[i as int],
                MouseButton::Right,
            );
        }
        match buttons[i] {
            MouseButton::Left => {
                left = true;
            },
            MouseButton::Right => {
                right = true;
            },
        }
        i += 1;
    }
    proof {
        assert(buttons@.take(buttons@.len() as int) =~= buttons@);
    }
    let left_bit: u8 = if left {
        LEFT_BUTTON_BIT
    } else {
        0
    };
    let right_bit: u8 = if right {
        RIGHT_BUTTON_BIT
    } else {
        0
    };
    left_bit + right_bit
}

/// Presses, in `report`, the buttons that the scan collected, on top of
/// those already pressed there.
pub fn press_buttons(report: &mut PointerReport, buttons: &[MouseButton])
    ensures
        final(report).buttons == old(report).buttons | mask_of(buttons@),
        final(report).x == old(report).x,
        final(report).y == old(report).y,
{
    let mask: u8 = button_mask(buttons);
    report.buttons = report.buttons | mask;
}

/// The codes of the consumer report for what the scan collected.
pub fn consumer_report(codes: &[u16]) -> (report: [u16; 4])
    ensures
        report@ == consumer_slots(codes@),
{
    let mut report: [u16; 4] = [0u16; 4];
    let mut i: usize = 0;
    while i < CONSUMER_REPORT_CODES && i < codes.len()
        invariant
            i <= CONSUMER_REPORT_CODES,
            i <= codes.len(),
            forall|j: int| 0 <= j < i ==> report@[j] == codes@[j],
            forall|j: int| i <= j < CONSUMER_REPORT_CODES ==> report@[j] == 0,
        decreases CONSUMER_REPORT_CODES - i,
    {
        report[i] = codes[i];
        i += 1;
    }
    assert(report@ =~= consumer_slots(codes@));
    report
}

/// Whether a write outcome lets the system go on: `Ok(true)` when the
/// report went out, `Ok(false)` when it did not but the next cycle will try
/// again, and an error when the transport failed.
pub fn check_write(outcome: WriteOutcome) -> (r: Result<bool, TransportError>)
    ensures
        r == match outcome {
            WriteOutcome::Sent => Ok::<bool, TransportError>(true),
            WriteOutcome::WouldBlock => Ok(false),
            WriteOutcome::Duplicate => Ok(false),
            WriteOutcome::Failed => Err(TransportError::WriteFailed),
        },
{
    match outcome {
        WriteOutcome::Sent => Ok(true),
        WriteOutcome::WouldBlock => Ok(false),
        WriteOutcome::Duplicate => Ok(false),
        WriteOutcome::Failed => Err(TransportError::WriteFailed),
    }
}

/// Settles a pointer report after the attempt to write it: what it carried
/// is taken off the unreported motion if, and only if, it went out.
pub fn settle_pointer_report(
    tracker: &mut MouseTracker,
    report: &PointerReport,
    outcome: WriteOutcome,
) -> (r: Result<(), TransportError>)
    ensures
        r is Err <==> outcome == WriteOutcome::Failed,
        final(tracker)@ == if outcome == WriteOutcome::Sent {
            old(tracker)@.reconcile(report.x as int, report.y as int)
        } else {
            old(tracker)@
        },
{
    match check_write(outcome) {
        Ok(sent) => {
            if sent {
                tracker.account_report(report);
            }
            Ok(())
        },
        Err(e) => Err(e),
    }
}

} // verus!
