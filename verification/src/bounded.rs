//! The fixed-capacity vectors that back the scan buffers.
//!
//! The vectors come from the `heapless` crate.  Verus cannot look inside
//! them, so this module names what each one holds and states, without proof,
//! what the four operations the buffers need do to those contents.

use crate::key_table::MouseButton;
use vstd::prelude::*;

verus! {

/// Most keyboard codes one scan can report.
pub const KEY_CAPACITY: usize = 32;

/// Most consumer codes one scan can report.
pub const MEDIA_CAPACITY: usize = 10;

/// Most pointer buttons one scan can report.
pub const BUTTON_CAPACITY: usize = 2;

/// `heapless::Vec`, a vector of at most `N` items stored in place.  Its
/// fields are hidden from the verifier: what a vector holds is known only
/// through the names and operations below.
#[verifier::external_type_specification]
#[verifier::external_body]
#[verifier::reject_recursive_types(T)]
pub struct ExBoundedVec<T, const N: usize>(heapless::Vec<T, N>);

/// The keyboard codes held by a vector, oldest first.
pub uninterp spec fn key_codes_held(v: heapless::Vec<u8, KEY_CAPACITY>) -> Seq<u8>;

/// The consumer codes held by a vector, oldest first.
pub uninterp spec fn media_codes_held(v: heapless::Vec<u16, MEDIA_CAPACITY>) -> Seq<u16>;

/// The pointer buttons held by a vector, oldest first.
pub uninterp spec fn buttons_held(v: heapless::Vec<MouseButton, BUTTON_CAPACITY>) -> Seq<
    MouseButton,
>;

/// `heapless::Vec::new`: the new vector holds nothing.
#[verifier::external_body]
pub(crate) fn key_codes_new() -> (v: heapless::Vec<u8, KEY_CAPACITY>)
    ensures
        key_codes_held(v) == Seq::<u8>::empty(),
{
    heapless::Vec::new()
}

/// `heapless::Vec::clear`: afterwards the vector holds nothing.  Its items
/// need no clean-up, so it never panics.
#[verifier::external_body]
pub(crate) fn key_codes_clear(v: &mut heapless::Vec<u8, KEY_CAPACITY>)
    ensures
        key_codes_held(*final(v)) == Seq::<u8>::empty(),
    no_unwind
{
    v.clear()
}

/// `heapless::Vec::push`: while fewer items are held than the vector has
/// room for, the item is appended at the back; otherwise the item is handed
/// back and the vector is left as it was.  It never panics.
#[verifier::external_body]
pub(crate) fn key_codes_push(
    v: &mut heapless::Vec<u8, KEY_CAPACITY>,
    code: u8,
) -> (r: Result<(), u8>)
    ensures
        r is Ok <==> key_codes_held(*old(v)).len() < KEY_CAPACITY,
        r is Ok ==> key_codes_held(*final(v)) == key_codes_held(*old(v)).push(code),
        r matches Err(back) ==> back == code && key_codes_held(*final(v)) == key_codes_held(
            *old(v),
        ),
    no_unwind
{
    v.push(code)
}

/// `heapless::Vec::as_slice`: the slice is the vector's contents in order.
#[verifier::external_body]
pub(crate) fn key_codes_slice(v: &heapless::Vec<u8, KEY_CAPACITY>) -> (s: &[u8])
    ensures
        s@ == key_codes_held(*v),
{
    v.as_slice()
}

/// `heapless::Vec::new`: the new vector holds nothing.
#[verifier::external_body]
pub(crate) fn media_codes_new() -> (v: heapless::Vec<u16, MEDIA_CAPACITY>)
    ensures
        media_codes_held(v) == Seq::<u16>::empty(),
{
    heapless::Vec::new()
}

/// `heapless::Vec::clear`: afterwards the vector holds nothing.  Its items
/// need no clean-up, so it never panics.
#[verifier::external_body]
pub(crate) fn media_codes_clear(v: &mut heapless::Vec<u16, MEDIA_CAPACITY>)
    ensures
        media_codes_held(*final(v)) == Seq::<u16>::empty(),
    no_unwind
{
    v.clear()
}

/// `heapless::Vec::push`: while fewer items are held than the vector has
/// room for, the item is appended at the back; otherwise the item is handed
/// back and the vector is left as it was.  It never panics.
#[verifier::external_body]
pub(crate) fn media_codes_push(
    v: &mut heapless::Vec<u16, MEDIA_CAPACITY>,
    code: u16,
) -> (r: Result<(), u16>)
    ensures
        r is Ok <==> media_codes_held(*old(v)).len() < MEDIA_CAPACITY,
        r is Ok ==> media_codes_held(*final(v)) == media_codes_held(*old(v)).push(code),
        r matches Err(back) ==> back == code && media_codes_held(*final(v)) == media_codes_held(
            *old(v),
        ),
    no_unwind
{
    v.push(code)
}

/// `heapless::Vec::as_slice`: the slice is the vector's contents in order.
#[verifier::external_body]
pub(crate) fn media_codes_slice(v: &heapless::Vec<u16, MEDIA_CAPACITY>) -> (s: &[u16])
    ensures
        s@ == media_codes_held(*v),
{
    v.as_slice()
}

/// `heapless::Vec::new`: the new vector holds nothing.
#[verifier::external_body]
pub(crate) fn buttons_new() -> (v: heapless::Vec<MouseButton, BUTTON_CAPACITY>)
    ensures
        buttons_held(v) == Seq::<MouseButton>::empty(),
{
    heapless::Vec::new()
}

/// `heapless::Vec::clear`: afterwards the vector holds nothing.  Its items
/// need no clean-up, so it never panics.
#[verifier::external_body]
pub(crate) fn buttons_clear(v: &mut heapless::Vec<MouseButton, BUTTON_CAPACITY>)
    ensures
        buttons_held(*final(v)) == Seq::<MouseButton>::empty(),
    no_unwind
{
    v.clear()
}

/// `heapless::Vec::push`: while fewer items are held than the vector has
/// room for, the item is appended at the back; otherwise the item is handed
/// back and the vector is left as it was.  It never panics.
#[verifier::external_body]
pub(crate) fn buttons_push(
    v: &mut heapless::Vec<MouseButton, BUTTON_CAPACITY>,
    button: MouseButton,
) -> (r: Result<(), MouseButton>)
    ensures
        r is Ok <==> buttons_held(*old(v)).len() < BUTTON_CAPACITY,
        r is Ok ==> buttons_held(*final(v)) == buttons_held(*old(v)).push(button),
        r matches Err(back) ==> back == button && buttons_held(*final(v)) == buttons_held(*old(v)),
    no_unwind
{
    v.push(button)
}

/// `heapless::Vec::as_slice`: the slice is the vector's contents in order.
#[verifier::external_body]
pub(crate) fn buttons_slice(v: &heapless::Vec<MouseButton, BUTTON_CAPACITY>) -> (s: &[MouseButton])
    ensures
        s@ == buttons_held(*v),
{
    v.as_slice()
}

} // verus!
