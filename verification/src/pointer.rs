//! The pointer integrator: absolute samples of a joystick-like device in,
//! clamped relative motion out.
//!
//! The first sample calibrates the origin.  Every later sample adds its
//! offset from the origin, passed through the transfer curve, to the motion
//! not yet reported.  A report carries as many whole report units as fit in
//! a signed byte; once the report has been sent, exactly what it carried is
//! taken off again, so that neither the fraction below one unit nor the
//! excess above the clamp is ever lost.

use vstd::prelude::*;

verus! {

/// Accumulated motion per report unit.  Bigger means a slower cursor.
pub const MOUSE_REPORT_SCALE: i64 = 40_000;

/// Slope of the linear transfer curve.
pub const CURVE_GAIN: i64 = 500;

/// A pair of coordinates.
#[derive(Debug)]
pub struct Point2D<T> {
    pub x: T,
    pub y: T,
}

impl<T: Copy> Copy for Point2D<T> {

}

impl<T: Copy> Clone for Point2D<T> {
    fn clone(&self) -> (copy: Self)
        ensures
            copy == *self,
    {
        *self
    }
}

/// One raw reading of the pointing device.
#[derive(Clone, Copy, Debug)]
pub struct PointerSample {
    pub x: i16,
    pub y: i16,
    pub button: bool,
}

/// Relative motion and buttons as they go to the host.
#[derive(Clone, Copy, Debug, PartialEq, Eq, Structural)]
pub struct PointerReport {
    pub buttons: u8,
    pub x: i8,
    pub y: i8,
}

/// `v` limited to the range from `lo` to `hi`.
pub open spec fn clamp(v: int, lo: int, hi: int) -> int {
    if v < lo {
        lo
    } else if v > hi {
        hi
    } else {
        v
    }
}

/// `v` limited to what the accumulator can hold.
pub open spec fn clamp_wide(v: int) -> int {
    clamp(v, i64::MIN as int, i64::MAX as int)
}

/// Quotient of `a` by a positive `b`, rounded towards zero.
pub open spec fn trunc_div(a: int, b: int) -> int {
    if a >= 0 {
        a / b
    } else {
        -((-a) / b)
    }
}

/// The transfer curve: accumulated motion for a given offset from the
/// origin.
pub open spec fn curve(offset: int) -> int {
    offset * CURVE_GAIN
}

/// The signed 16-bit value of two big-endian bytes.
pub open spec fn be_i16(hi: u8, lo: u8) -> int {
    let unsigned = hi * 256 + lo;
    if unsigned >= 0x8000 {
        unsigned - 0x1_0000
    } else {
        unsigned
    }
}

/// The sample that a five-byte record from the device stands for: bytes 0
/// and 1 are Y, bytes 2 and 3 are X with its sign flipped to correct the
/// sensor's orientation, byte 4 is 1 while the button is pressed.  The one
/// X value whose negation does not fit is read as the largest X.
pub open spec fn sample_of(bytes: Seq<u8>) -> PointerSample {
    PointerSample {
        x: clamp(-be_i16(bytes[2], bytes[3]), i16::MIN as int, i16::MAX as int) as i16,
        y: be_i16(bytes[0], bytes[1]) as i16,
        button: bytes[4] == 1,
    }
}

/// One axis of the accumulator after a sample at `raw` with the origin at
/// `origin`.
pub open spec fn ingest_axis(unreported: int, origin: int, raw: int) -> int {
    clamp_wide(unreported + curve(raw - origin))
}

/// The report value for one axis of the accumulator.
pub open spec fn report_axis(unreported: int) -> int {
    clamp(trunc_div(unreported, MOUSE_REPORT_SCALE as int), i8::MIN as int, i8::MAX as int)
}

/// One axis of the accumulator after a report carrying `sent` has gone out.
pub open spec fn reconcile_axis(unreported: int, sent: int) -> int {
    clamp_wide(unreported - sent * MOUSE_REPORT_SCALE)
}

/// One axis of the accumulator after a report has been produced from it and
/// sent as it was.
pub open spec fn drain(unreported: int) -> int {
    reconcile_axis(unreported, report_axis(unreported))
}

/// One axis of the accumulator after `cycles` reports in a row with no
/// sample in between.
pub open spec fn drain_many(unreported: int, cycles: nat) -> int
    decreases cycles,
{
    if cycles == 0 {
        unreported
    } else {
        drain(drain_many(unreported, (cycles - 1) as nat))
    }
}

/// The magnitude of `v`.
pub open spec fn magnitude(v: int) -> int {
    if v < 0 {
        -v
    } else {
        v
    }
}

/// Mathematical state of the integrator.
pub struct TrackerState {
    pub unreported_movement: Point2D<int>,
    pub button: bool,
    pub origin: Option<Point2D<int>>,
}

impl TrackerState {
    /// The values are ones the integrator can hold.
    pub open spec fn wf(self) -> bool {
        &&& i64::MIN <= self.unreported_movement.x <= i64::MAX
        &&& i64::MIN <= self.unreported_movement.y <= i64::MAX
        &&& self.origin matches Some(o) ==> i16::MIN <= o.x <= i16::MAX && i16::MIN <= o.y
            <= i16::MAX
    }

    /// The integrator at power-on: nothing accumulated, no origin yet.
    pub open spec fn initial() -> TrackerState {
        TrackerState {
            unreported_movement: Point2D { x: 0, y: 0 },
            button: false,
            origin: None,
        }
    }

    /// The origin in force for `sample`: the recorded one, or the sample
    /// itself when none is recorded yet.
    pub open spec fn origin_for(self, sample: PointerSample) -> Point2D<int> {
        match self.origin {
            Some(o) => o,
            None => Point2D { x: sample.x as int, y: sample.y as int },
        }
    }

    /// The state after a sample.
    pub open spec fn ingest(self, sample: PointerSample) -> TrackerState {
        let origin = self.origin_for(sample);
        TrackerState {
            unreported_movement: Point2D {
                x: ingest_axis(self.unreported_movement.x, origin.x, sample.x as int),
                y: ingest_axis(self.unreported_movement.y, origin.y, sample.y as int),
            },
            button: sample.button,
            origin: Some(origin),
        }
    }

    /// The report that the state calls for.
    pub open spec fn report(self) -> PointerReport {
        PointerReport {
            buttons: if self.button {
                1
            } else {
                0
            },
            x: report_axis(self.unreported_movement.x) as i8,
            y: report_axis(self.unreported_movement.y) as i8,
        }
    }

    /// The state after a report carrying `x` and `y` has gone out.
    pub open spec fn reconcile(self, x: int, y: int) -> TrackerState {
        TrackerState {
            unreported_movement: Point2D {
                x: reconcile_axis(self.unreported_movement.x, x),
                y: reconcile_axis(self.unreported_movement.y, y),
            },
            ..self
        }
    }
}

/// The transfer curve applied to an offset from the origin.
pub fn mouse_curve(d: i32) -> (moved: i64)
    ensures
        moved == curve(d as int),
{
    (d as i64) * CURVE_GAIN
}

/// Decodes the five-byte record that the pointing device sends.
pub fn parse_mouse_raw(bytes: &[u8; 5]) -> (sample: PointerSample)
    ensures
        sample == sample_of(bytes@),
{
    let x_wire: i32 = signed_be(bytes[2], bytes[3]);
    let y_wire: i32 = signed_be(bytes[0], bytes[1]);
    let x: i16 = if x_wire == -0x8000 {
        i16::MAX
    } else {
        (-x_wire) as i16
    };
    PointerSample { x, y: y_wire as i16, button: bytes[4] == 1 }
}

/// The signed 16-bit value of two big-endian bytes.
fn signed_be(hi: u8, lo: u8) -> (value: i32)
    ensures
        value == be_i16(hi, lo),
        i16::MIN <= value <= i16::MAX,
{
    let unsigned: i32 = (hi as i32) * 256 + (lo as i32);
    if unsigned >= 0x8000 {
        unsigned - 0x1_0000
    } else {
        unsigned
    }
}

/// `v` limited to what the accumulator can hold.
fn saturate(v: i128) -> (r: i64)
    ensures
        r == clamp_wide(v as int),
{
    if v < i64::MIN as i128 {
        i64::MIN
    } else if v > i64::MAX as i128 {
        i64::MAX
    } else {
        v as i64
    }
}

/// The report value for one axis of the accumulator.
fn report_value(unreported: i64) -> (r: i8)
    ensures
        r == report_axis(unreported as int),
{
    let units: i64 = unreported / MOUSE_REPORT_SCALE;
    if units < i8::MIN as i64 {
        i8::MIN
    } else if units > i8::MAX as i64 {
        i8::MAX
    } else {
        units as i8
    }
}

/// Tracks the pointing device between reports.
#[derive(Clone, Copy, Debug)]
pub struct MouseTracker {
    unreported_movement: Point2D<i64>,
    button: bool,
    origin: Option<Point2D<i16>>,
}

impl View for MouseTracker {
    type V = TrackerState;

    closed spec fn view(&self) -> TrackerState {
        TrackerState {
            unreported_movement: Point2D {
                x: self.unreported_movement.x as int,
                y: self.unreported_movement.y as int,
            },
            button: self.button,
            origin: match self.origin {
                Some(o) => Some(Point2D { x: o.x as int, y: o.y as int }),
                None => None,
            },
        }
    }
}

impl MouseTracker {
    /// A tracker at power-on.
    pub fn new() -> (tracker: Self)
        ensures
            tracker@ == TrackerState::initial(),
    {
        MouseTracker { unreported_movement: Point2D { x: 0, y: 0 }, button: false, origin: None }
    }

    /// Takes in one sample: records it as the origin if there is none yet,
    /// adds its curved offset from the origin to the unreported motion, and
    /// notes the button.
    pub fn ingest(&mut self, sample: PointerSample)
        ensures
            final(self)@ == old(self)@.ingest(sample),
            final(self)@.wf(),
    {
        let origin: Point2D<i16> = match self.origin {
            Some(o) => o,
            None => Point2D { x: sample.x, y: sample.y },
        };
        let dx: i64 = mouse_curve(sample.x as i32 - origin.x as i32);
        let dy: i64 = mouse_curve(sample.y as i32 - origin.y as i32);
        self.unreported_movement = Point2D {
            x: saturate(self.unreported_movement.x as i128 + dx as i128),
            y: saturate(self.unreported_movement.y as i128 + dy as i128),
        };
        self.button = sample.button;
        self.origin = Some(origin);
    }

    /// Takes in the outcome of one attempt to read the device.  A failed
    /// read changes nothing: no motion is made up.
    pub fn update(&mut self, reading: Option<PointerSample>)
        ensures
            final(self)@ == match reading {
                Some(sample) => old(self)@.ingest(sample),
                None => old(self)@,
            },
            final(self)@.wf(),
    {
        if let Some(sample) = reading {
            self.ingest(sample);
        }
    }

    /// Fills `report` with the whole report units of unreported motion,
    /// clamped to a signed byte per axis, and with the device's own button.
    pub fn populate_report(&self, report: &mut PointerReport)
        ensures
            *final(report) == self@.report(),
    {
        report.x = report_value(self.unreported_movement.x);
        report.y = report_value(self.unreported_movement.y);
        report.buttons = if self.button {
            0x1
        } else {
            0x0
        };
    }

    /// Takes what `report` carried off the unreported motion.  To be called
    /// once the report has been sent, and only then.
    pub fn account_report(&mut self, report: &PointerReport)
        ensures
            final(self)@ == old(self)@.reconcile(report.x as int, report.y as int),
            final(self)@.wf(),
    {
        self.unreported_movement = Point2D {
            x: saturate(
                self.unreported_movement.x as i128 - (report.x as i128) * (MOUSE_REPORT_SCALE
                    as i128),
            ),
            y: saturate(
                self.unreported_movement.y as i128 - (report.y as i128) * (MOUSE_REPORT_SCALE
                    as i128),
            ),
        };
    }

    /// Motion accumulated and not yet reported.
    pub fn unreported_movement(&self) -> (movement: Point2D<i64>)
        ensures
            movement.x == self@.unreported_movement.x,
            movement.y == self@.unreported_movement.y,
    {
        self.unreported_movement
    }

    /// The button state of the latest sample.
    pub fn button(&self) -> (button: bool)
        ensures
            button == self@.button,
    {
        self.button
    }

    /// The calibration point, once a sample has been taken in.
    pub fn origin(&self) -> (origin: Option<Point2D<i16>>)
        ensures
            origin is Some <==> self@.origin is Some,
            origin matches Some(o) ==> self@.origin == Some(
                Point2D { x: o.x as int, y: o.y as int },
            ),
    {
        self.origin
    }
}

impl Default for MouseTracker {
    fn default() -> (tracker: Self)
        ensures
            tracker@ == TrackerState::initial(),
    {
        MouseTracker::new()
    }
}

/// The transfer curve is zero at zero, odd-symmetric and monotonic.
pub proof fn law_curve_shape(a: int, b: int)
    ensures
        curve(0) == 0,
        curve(-a) == -curve(a),
        a <= b ==> curve(a) <= curve(b),
{
}

/// The first sample after power-on becomes the origin and contributes no
/// motion, wherever the device happens to stand.
pub proof fn law_first_sample_is_origin(state: TrackerState, sample: PointerSample)
    requires
        state.wf(),
        state.origin is None,
    ensures
        state.ingest(sample).unreported_movement == state.unreported_movement,
        state.ingest(sample).origin == Some(Point2D { x: sample.x as int, y: sample.y as int }),
        TrackerState::initial().ingest(sample).unreported_movement == (Point2D { x: 0int, y: 0int }),
{
}

/// Once an origin is recorded it never changes.
pub proof fn law_origin_is_kept(state: TrackerState, sample: PointerSample, x: int, y: int)
    requires
        state.origin is Some,
    ensures
        state.ingest(sample).origin == state.origin,
        state.reconcile(x, y).origin == state.origin,
{
}

/// Taking in a sample and then accounting for a report that was sent leaves
/// the unreported motion at its value before, plus the curved offset of the
/// sample from the origin, minus what the report carried times the scale; as
/// long as the accumulator does not hit the end of its range on the way.
pub proof fn law_cycle_accounts_for_motion(
    state: TrackerState,
    sample: PointerSample,
    sent: PointerReport,
)
    requires
        state.wf(),
        i64::MIN <= state.unreported_movement.x + curve(sample.x - state.origin_for(sample).x)
            <= i64::MAX,
        i64::MIN <= state.unreported_movement.y + curve(sample.y - state.origin_for(sample).y)
            <= i64::MAX,
        i64::MIN <= state.unreported_movement.x + curve(sample.x - state.origin_for(sample).x)
            - sent.x * MOUSE_REPORT_SCALE <= i64::MAX,
        i64::MIN <= state.unreported_movement.y + curve(sample.y - state.origin_for(sample).y)
            - sent.y * MOUSE_REPORT_SCALE <= i64::MAX,
    ensures
        state.ingest(sample).reconcile(sent.x as int, sent.y as int).unreported_movement.x
            == state.unreported_movement.x + curve(sample.x - state.origin_for(sample).x) - sent.x
            * MOUSE_REPORT_SCALE,
        state.ingest(sample).reconcile(sent.x as int, sent.y as int).unreported_movement.y
            == state.unreported_movement.y + curve(sample.y - state.origin_for(sample).y) - sent.y
            * MOUSE_REPORT_SCALE,
{
}

/// The same for the report that the tracker itself produces after the
/// sample: accounting for one's own report can never leave the range.
pub proof fn law_cycle_with_own_report(state: TrackerState, sample: PointerSample)
    requires
        state.wf(),
        i64::MIN <= state.unreported_movement.x + curve(sample.x - state.origin_for(sample).x)
            <= i64::MAX,
        i64::MIN <= state.unreported_movement.y + curve(sample.y - state.origin_for(sample).y)
            <= i64::MAX,
    ensures
        ({
            let taken = state.ingest(sample);
            let sent = taken.report();
            let settled = taken.reconcile(sent.x as int, sent.y as int);
            &&& settled.unreported_movement.x == state.unreported_movement.x + curve(
                sample.x - state.origin_for(sample).x,
            ) - sent.x * MOUSE_REPORT_SCALE
            &&& settled.unreported_movement.y == state.unreported_movement.y + curve(
                sample.y - state.origin_for(sample).y,
            ) - sent.y * MOUSE_REPORT_SCALE
        }),
{
    let taken = state.ingest(sample);
    law_drain_shrinks(taken.unreported_movement.x);
    law_drain_shrinks(taken.unreported_movement.y);
}

/// One report cycle without a new sample never saturates, never overshoots
/// zero and never grows the remainder.  A remainder below one report unit
/// is kept as it is; anything more shrinks by at least one unit, and by all
/// its whole units unless the report is clamped.
pub proof fn law_drain_shrinks(unreported: int)
    requires
        i64::MIN <= unreported <= i64::MAX,
    ensures
        drain(unreported) == unreported - report_axis(unreported) * MOUSE_REPORT_SCALE,
        unreported >= 0 ==> 0 <= drain(unreported) <= unreported,
        unreported <= 0 ==> unreported <= drain(unreported) <= 0,
        magnitude(unreported) < MOUSE_REPORT_SCALE ==> drain(unreported) == unreported,
        magnitude(unreported) >= MOUSE_REPORT_SCALE ==> magnitude(drain(unreported)) <= magnitude(
            unreported,
        ) - MOUSE_REPORT_SCALE,
        magnitude(drain(unreported)) < MOUSE_REPORT_SCALE || magnitude(drain(unreported))
            <= magnitude(unreported) - 127 * MOUSE_REPORT_SCALE,
{
}

/// Repeating the report cycle with no sample in between brings the
/// remainder below one report unit after at most one cycle per 127 units of
/// motion, and there it stays.
pub proof fn law_drain_converges(unreported: int, cycles: nat)
    requires
        i64::MIN <= unreported <= i64::MAX,
    ensures
        i64::MIN <= drain_many(unreported, cycles) <= i64::MAX,
        magnitude(drain_many(unreported, cycles)) <= magnitude(unreported),
        magnitude(drain_many(unreported, cycles)) < MOUSE_REPORT_SCALE || magnitude(
            drain_many(unreported, cycles),
        ) <= magnitude(unreported) - cycles * (127 * MOUSE_REPORT_SCALE),
        cycles * (127 * MOUSE_REPORT_SCALE) >= magnitude(unreported) ==> magnitude(
            drain_many(unreported, cycles),
        ) < MOUSE_REPORT_SCALE,
    decreases cycles,
{
    if cycles > 0 {
        law_drain_converges(unreported, (cycles - 1) as nat);
        law_drain_shrinks(drain_many(unreported, (cycles - 1) as nat));
    }
}

/// Number of report cycles after which any accumulated motion whatever has
/// drained to less than one report unit.
pub open spec fn drain_cycles_bound() -> nat {
    1_815_624_416_704
}

/// However much motion has accumulated, that many cycles drain it.
pub proof fn law_drain_is_bounded(unreported: int)
    requires
        i64::MIN <= unreported <= i64::MAX,
    ensures
        magnitude(drain_many(unreported, drain_cycles_bound())) < MOUSE_REPORT_SCALE,
{
    law_drain_converges(unreported, drain_cycles_bound());
}

} // verus!
