//! The bounded buffers that one matrix scan fills.
//!
//! Keyboard codes and pointer buttons are sets: a value enters at most once.
//! Consumer codes are a sequence.  Each buffer has a fixed capacity, and an
//! insertion that does not fit is reported, never dropped.

use crate::bounded::{
    buttons_clear, buttons_held, buttons_new, buttons_push, buttons_slice, key_codes_clear,
    key_codes_held, key_codes_new, key_codes_push, key_codes_slice, media_codes_clear,
    media_codes_held, media_codes_new, media_codes_push, media_codes_slice, BUTTON_CAPACITY,
    KEY_CAPACITY, MEDIA_CAPACITY,
};
use crate::key_table::{Event, MouseButton, NO_EVENT};
use vstd::prelude::*;

verus! {

/// Why a scan could not be completed.
#[derive(Clone, Copy, Debug, PartialEq, Eq, Structural)]
pub enum ScanError {
    /// More simultaneous events than a buffer can hold.
    CapacityExceeded,
}

/// Mathematical contents of the scan buffers, each in order of arrival.
#[verifier::ext_equal]
pub struct Collected {
    pub keys: Seq<u8>,
    pub media: Seq<u16>,
    pub buttons: Seq<MouseButton>,
}

impl Collected {
    /// Nothing collected.
    pub open spec fn empty() -> Collected {
        Collected { keys: Seq::empty(), media: Seq::empty(), buttons: Seq::empty() }
    }

    /// Every buffer is within its capacity.
    pub open spec fn fits(self) -> bool {
        &&& self.keys.len() <= KEY_CAPACITY
        &&& self.media.len() <= MEDIA_CAPACITY
        &&& self.buttons.len() <= BUTTON_CAPACITY
    }

    /// Keyboard codes and pointer buttons are sets, and "no event" is never
    /// among the keyboard codes.
    pub open spec fn wf(self) -> bool {
        &&& self.keys.no_duplicates()
        &&& !self.keys.contains(NO_EVENT)
        &&& self.buttons.no_duplicates()
    }

    /// Whether `event` is among the contents.
    pub open spec fn holds(self, event: Event) -> bool {
        match event {
            Event::Key(code) => self.keys.contains(code),
            Event::Media(code) => self.media.contains(code),
            Event::Button(button) => self.buttons.contains(button),
        }
    }

    /// The contents after a keyboard code arrives: "no event" and codes
    /// already present change nothing.
    pub open spec fn with_key(self, code: u8) -> Collected {
        if code == NO_EVENT || self.keys.contains(code) {
            self
        } else {
            Collected { keys: self.keys.push(code), ..self }
        }
    }

    /// The contents after several keyboard codes arrive in order.
    pub open spec fn with_keys(self, codes: Seq<u8>) -> Collected
        decreases codes.len(),
    {
        if codes.len() == 0 {
            self
        } else {
            self.with_keys(codes.drop_last()).with_key(codes.last())
        }
    }

    /// The contents after a consumer code arrives.
    pub open spec fn with_media(self, code: u16) -> Collected {
        Collected { media: self.media.push(code), ..self }
    }

    /// The contents after a pointer button arrives: a button already present
    /// changes nothing.
    pub open spec fn with_button(self, button: MouseButton) -> Collected {
        if self.buttons.contains(button) {
            self
        } else {
            Collected { buttons: self.buttons.push(button), ..self }
        }
    }
}

/// Whether `code` occurs in `items`.
fn holds_code(items: &[u8], code: u8) -> (found: bool)
    ensures
        found == items@.contains(code),
{
    let mut i: usize = 0;
    while i < items.len()
        invariant
            i <= items.len(),
            forall|j: int| 0 <= j < i ==> items@[j] != code,
        decreases items.len() - i,
    {
        if items[i] == code {
            return true;
        }
        i += 1;
    }
    false
}

/// Whether `button` occurs in `items`.
fn holds_button(items: &[MouseButton], button: MouseButton) -> (found: bool)
    ensures
        found == items@.contains(button),
{
    let mut i: usize = 0;
    while i < items.len()
        invariant
            i <= items.len(),
            forall|j: int| 0 <= j < i ==> items@[j] != button,
        decreases items.len() - i,
    {
        if items[i] == button {
            return true;
        }
        i += 1;
    }
    false
}

/// The result of scanning which keys are pressed.
pub struct ScanBuffers {
    key_codes: heapless::Vec<u8, KEY_CAPACITY>,
    consumer_codes: heapless::Vec<u16, MEDIA_CAPACITY>,
    mouse_buttons: heapless::Vec<MouseButton, BUTTON_CAPACITY>,
}

impl View for ScanBuffers {
    type V = Collected;

    closed spec fn view(&self) -> Collected {
        Collected {
            keys: key_codes_held(self.key_codes),
            media: media_codes_held(self.consumer_codes),
            buttons: buttons_held(self.mouse_buttons),
        }
    }
}

impl ScanBuffers {
    /// Whatever the buffers hold is well formed and within capacity.
    #[verifier::type_invariant]
    pub open spec fn inv(self) -> bool {
        self@.wf() && self@.fits()
    }

    /// Empty buffers.
    pub fn new() -> (buffers: Self)
        ensures
            buffers@ == Collected::empty(),
    {
        ScanBuffers {
            key_codes: key_codes_new(),
            consumer_codes: media_codes_new(),
            mouse_buttons: buttons_new(),
        }
    }

    /// Empties all three buffers.
    pub fn clear(&mut self)
        ensures
            final(self)@ == Collected::empty(),
    {
        proof {
            use_type_invariant(&*self);
        }
        key_codes_clear(&mut self.key_codes);
        media_codes_clear(&mut self.consumer_codes);
        buttons_clear(&mut self.mouse_buttons);
    }

    /// Adds a keyboard code unless it is "no event" or already present.
    /// Fails, changing nothing, when the code is new and the buffer is full.
    pub fn insert_key(&mut self, code: u8) -> (r: Result<(), ScanError>)
        ensures
            r is Ok <==> old(self)@.with_key(code).fits(),
            r is Ok ==> final(self)@ == old(self)@.with_key(code),
            r is Err ==> final(self)@ == old(self)@,
            final(self)@.wf(),
    {
        proof {
            use_type_invariant(&*self);
        }
        if code == NO_EVENT || holds_code(key_codes_slice(&self.key_codes), code) {
            return Ok(());
        }
        match key_codes_push(&mut self.key_codes, code) {
            Ok(()) => Ok(()),
            Err(_) => Err(ScanError::CapacityExceeded),
        }
    }

    /// Appends a consumer code.  Fails, changing nothing, when the buffer is
    /// full.
    pub fn push_consumer(&mut self, code: u16) -> (r: Result<(), ScanError>)
        ensures
            r is Ok <==> old(self)@.with_media(code).fits(),
            r is Ok ==> final(self)@ == old(self)@.with_media(code),
            r is Err ==> final(self)@ == old(self)@,
            final(self)@.wf(),
    {
        proof {
            use_type_invariant(&*self);
        }
        match media_codes_push(&mut self.consumer_codes, code) {
            Ok(()) => Ok(()),
            Err(_) => Err(ScanError::CapacityExceeded),
        }
    }

    /// Adds a pointer button unless it is already present.  Fails, changing
    /// nothing, when the button is new and the buffer is full.
    pub fn insert_button(&mut self, button: MouseButton) -> (r: Result<(), ScanError>)
        ensures
            r is Ok <==> old(self)@.with_button(button).fits(),
            r is Ok ==> final(self)@ == old(self)@.with_button(button),
            r is Err ==> final(self)@ == old(self)@,
            final(self)@.wf(),
    {
        proof {
            use_type_invariant(&*self);
        }
        if holds_button(buttons_slice(&self.mouse_buttons), button) {
            return Ok(());
        }
        match buttons_push(&mut self.mouse_buttons, button) {
            Ok(()) => Ok(()),
            Err(_) => Err(ScanError::CapacityExceeded),
        }
    }

    /// The keyboard codes collected by the last scan.
    pub fn key_codes(&self) -> (codes: &[u8])
        ensures
            codes@ == self@.keys,
            self@.wf(),
            self@.fits(),
    {
        proof {
            use_type_invariant(self);
        }
        key_codes_slice(&self.key_codes)
    }

    /// The consumer codes collected by the last scan, in scan order.
    pub fn consumer_codes(&self) -> (codes: &[u16])
        ensures
            codes@ == self@.media,
    {
        media_codes_slice(&self.consumer_codes)
    }

    /// The pointer buttons collected by the last scan.
    pub fn mouse_buttons(&self) -> (buttons: &[MouseButton])
        ensures
            buttons@ == self@.buttons,
    {
        buttons_slice(&self.mouse_buttons)
    }
}

impl Default for ScanBuffers {
    fn default() -> (buffers: Self)
        ensures
            buffers@ == Collected::empty(),
    {
        ScanBuffers::new()
    }
}

} // verus!
