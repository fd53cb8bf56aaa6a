//! Core logic of a keyboard-matrix input controller.
//!
//! The crate turns raw electrical samples into host reports:
//!
//! * [`debounce`]: every switch is debounced by a saturating confidence
//!   counter with a hysteresis band;
//! * [`key_table`], [`buffers`], [`scanner`]: the stable matrix is resolved
//!   through a table of key functions into bounded buffers of keyboard codes,
//!   consumer codes and pointer buttons;
//! * [`pointer`]: the absolute samples of a pointing device are integrated
//!   into clamped relative motion;
//! * [`arbiter`]: an accumulator of recent pointer motion decides whether
//!   dual-purpose keys act as pointer buttons;
//! * [`report`], [`controller`]: reports are assembled, write outcomes are
//!   judged, and the components are driven by two ticks.
//!
//! Nothing here touches pins, buses or the USB stack: callers hand in plain
//! samples and take plain reports back.  The buffers are the fixed-capacity
//! vectors of the `heapless` crate; [`bounded`] states what is taken on trust
//! about them.

pub mod arbiter;
pub mod bounded;
pub mod buffers;
pub mod controller;
pub mod debounce;
pub mod key_table;
pub mod pointer;
pub mod report;
pub mod scanner;
