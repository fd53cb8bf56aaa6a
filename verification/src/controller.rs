//! One controller: the state of all four components and the two ticks that
//! drive them.
//!
//! The caller owns the timers and the hardware.  On every scan tick it reads
//! the matrix and calls [`Controller::scan_tick`]; on every keyboard-report
//! tick it tries to read the pointing device and calls
//! [`Controller::report_tick`], writes the reports, and tells the controller
//! what became of the pointer report.

use crate::arbiter::{arbitrated, pointer_mode_at, ModeArbiter};
use crate::buffers::{Collected, ScanBuffers, ScanError};
use crate::debounce::{DebounceState, Filter};
use crate::key_table::KeyFunction;
use crate::pointer::{MouseTracker, PointerReport, PointerSample, TrackerState};
use crate::report::{
    consumer_report, consumer_slots, mask_of, press_buttons, settle_pointer_report,
    TransportError, WriteOutcome,
};
use crate::scanner::{collect, press_edges, saturated, scan_keys};
use vstd::prelude::*;

verus! {

/// Period of the matrix scan, in milliseconds.
pub const SCAN_PERIOD_MS: u64 = 1;

/// Period between keyboard and pointer reports, in milliseconds.
pub const KEYBOARD_REPORT_PERIOD_MS: u64 = 10;

/// Period between consumer reports, in milliseconds.
pub const CONSUMER_REPORT_PERIOD_MS: u64 = 50;

/// Time after power-on during which the pointing device is not read: its
/// readings are garbage shortly after boot.
pub const POINTER_WARM_UP_MS: u64 = 500;

/// Whether, after `scans` scan ticks, the pointing device may be read.
pub open spec fn warmed_up(scans: nat) -> bool {
    scans * SCAN_PERIOD_MS >= POINTER_WARM_UP_MS
}

/// A counter after `by` has been added: exact up to `u64::MAX`, and
/// `u64::MAX` beyond.
pub open spec fn advanced(counter: u64, by: nat) -> u64 {
    if counter + by > u64::MAX {
        u64::MAX
    } else {
        (counter + by) as u64
    }
}

/// The state of one keyboard with `R` rows and `C` columns.
pub struct Controller<'a, const R: usize, const C: usize> {
    /// The function of every position.
    pub key_table: [[KeyFunction<'a>; C]; R],
    /// The debounce filter of every position.
    pub debounce_states: [[DebounceState; C]; R],
    /// What the last scan collected.
    pub buffers: ScanBuffers,
    /// The pointer integrator.
    pub mouse_tracker: MouseTracker,
    /// The mode arbiter.
    pub arbiter: ModeArbiter,
    /// Number of scans so far.
    pub scan_clock: u64,
    /// Number of presses so far.
    pub press_counter: u64,
}

impl<'a, const R: usize, const C: usize> Controller<'a, R, C> {
    /// A controller at power-on.
    pub fn new(key_table: [[KeyFunction<'a>; C]; R]) -> (controller: Self)
        ensures
            controller.key_table == key_table,
            forall|i: int, j: int|
                0 <= i < R && 0 <= j < C ==> #[trigger] controller.debounce_states[i][j]@
                    == Filter::initial(),
            controller.buffers@ == Collected::empty(),
            controller.mouse_tracker@ == TrackerState::initial(),
            controller.arbiter@ == 0,
            controller.scan_clock == 0,
            controller.press_counter == 0,
    {
        Controller {
            key_table,
            debounce_states: [[DebounceState::new(); C]; R],
            buffers: ScanBuffers::new(),
            mouse_tracker: MouseTracker::new(),
            arbiter: ModeArbiter::new(),
            scan_clock: 0,
            press_counter: 0,
        }
    }

    /// Whether pointer mode is on.
    pub fn pointer_mode(&self) -> (on: bool)
        ensures
            on == pointer_mode_at(self.arbiter@),
    {
        self.arbiter.pointer_mode()
    }

    /// Whether the pointing device may be read yet.
    pub fn pointer_warmed_up(&self) -> (ready: bool)
        ensures
            ready == warmed_up(self.scan_clock as nat),
    {
        let scans: u128 = self.scan_clock as u128;
        let period: u128 = SCAN_PERIOD_MS as u128;
        assert(scans * period <= 0xFFFF_FFFF_FFFF_FFFF * 0xFFFF_FFFF_FFFF_FFFF) by (nonlinear_arith)
            requires
                scans <= 0xFFFF_FFFF_FFFF_FFFF,
                period <= 0xFFFF_FFFF_FFFF_FFFF,
        ;
        scans * period >= POINTER_WARM_UP_MS as u128
    }

    /// One scan tick: counts the scan, runs the matrix scan on the raw
    /// samples with dual-purpose keys resolved according to the current
    /// pointer mode, and counts the presses.  Returns whether any switch was
    /// newly pressed.
    pub fn scan_tick(&mut self, raw: &[[bool; C]; R]) -> (r: Result<bool, ScanError>)
        ensures
            final(self).key_table == old(self).key_table,
            final(self).mouse_tracker == old(self).mouse_tracker,
            final(self).arbiter == old(self).arbiter,
            final(self).scan_clock == advanced(old(self).scan_clock, 1),
            forall|i: int, j: int|
                0 <= i < R && 0 <= j < C ==> #[trigger] final(self).debounce_states[i][j]@ == old(
                    self,
                ).debounce_states[i][j]@.step(raw[i][j]),
            r is Ok <==> collect(
                old(self).key_table,
                final(self).debounce_states,
                pointer_mode_at(old(self).arbiter@),
                R as int,
            ).fits(),
            r is Ok ==> final(self).buffers@ == collect(
                old(self).key_table,
                final(self).debounce_states,
                pointer_mode_at(old(self).arbiter@),
                R as int,
            ),
            r is Err ==> final(self).buffers@ == Collected::empty(),
            r is Err ==> final(self).press_counter == old(self).press_counter,
            r matches Ok(pressed) ==> final(self).press_counter == advanced(
                old(self).press_counter,
                saturated(press_edges(old(self).debounce_states, *raw, R as int)) as nat,
            ) && pressed == (final(self).press_counter != old(self).press_counter),
    {
        if self.scan_clock < u64::MAX {
            self.scan_clock += 1;
        }
        let mouse_mode: bool = self.arbiter.pointer_mode();
        let edges: u32 = scan_keys(
            raw,
            &self.key_table,
            &mut self.debounce_states,
            &mut self.buffers,
            mouse_mode,
        )?;
        let before: u64 = self.press_counter;
        self.press_counter = if before > u64::MAX - edges as u64 {
            u64::MAX
        } else {
            before + edges as u64
        };
        Ok(self.press_counter != before)
    }

    /// One report tick.  Takes in the outcome of reading the pointing
    /// device, unless the device is still warming up; produces the pointer
    /// report, with the buttons that the last scan collected pressed in it;
    /// and lets the arbiter judge the cycle.
    pub fn report_tick(&mut self, reading: Option<PointerSample>) -> (report: PointerReport)
        ensures
            final(self).key_table == old(self).key_table,
            final(self).debounce_states == old(self).debounce_states,
            final(self).buffers@ == old(self).buffers@,
            final(self).scan_clock == old(self).scan_clock,
            final(self).press_counter == old(self).press_counter,
            final(self).mouse_tracker@ == match reading {
                Some(sample) if warmed_up(old(self).scan_clock as nat) => old(
                    self,
                ).mouse_tracker@.ingest(sample),
                _ => old(self).mouse_tracker@,
            },
            report.x == final(self).mouse_tracker@.report().x,
            report.y == final(self).mouse_tracker@.report().y,
            report.buttons == final(self).mouse_tracker@.report().buttons | mask_of(
                old(self).buffers@.buttons,
            ),
            final(self).arbiter@ == arbitrated(
                old(self).arbiter@,
                report.x as int,
                report.y as int,
                old(self).buffers@.keys,
                old(self).buffers@.media,
            ),
    {
        if self.pointer_warmed_up() {
            self.mouse_tracker.update(reading);
        }
        let mut report = PointerReport { buttons: 0, x: 0, y: 0 };
        self.mouse_tracker.populate_report(&mut report);
        press_buttons(&mut report, self.buffers.mouse_buttons());
        self.arbiter.evaluate(
            report.x,
            report.y,
            self.buffers.key_codes(),
            self.buffers.consumer_codes(),
        );
        report
    }

    /// Settles the pointer report of this cycle: what it carried leaves the
    /// unreported motion if, and only if, it went out.
    pub fn pointer_report_written(
        &mut self,
        report: &PointerReport,
        outcome: WriteOutcome,
    ) -> (r: Result<(), TransportError>)
        ensures
            r is Err <==> outcome == WriteOutcome::Failed,
            final(self).mouse_tracker@ == if outcome == WriteOutcome::Sent {
                old(self).mouse_tracker@.reconcile(report.x as int, report.y as int)
            } else {
                old(self).mouse_tracker@
            },
            final(self).key_table == old(self).key_table,
            final(self).debounce_states == old(self).debounce_states,
            final(self).buffers@ == old(self).buffers@,
            final(self).arbiter == old(self).arbiter,
            final(self).scan_clock == old(self).scan_clock,
            final(self).press_counter == old(self).press_counter,
    {
        settle_pointer_report(&mut self.mouse_tracker, report, outcome)
    }

    /// The codes of the consumer report for what the last scan collected.
    pub fn consumer_report(&self) -> (report: [u16; 4])
        ensures
            report@ == consumer_slots(self.buffers@.media),
    {
        consumer_report(self.buffers.consumer_codes())
    }

    /// The keyboard codes that the last scan collected.
    pub fn key_codes(&self) -> (codes: &[u8])
        ensures
            codes@ == self.buffers@.keys,
    {
        self.buffers.key_codes()
    }
}

} // verus!
