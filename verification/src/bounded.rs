//! Contracts for the fixed-capacity `heapless` containers used by the
//! library.  Each capacity is its own type, so each gets its own view.

use vstd::prelude::*;
use crate::controls::ControlEvent;
use crate::hal::{ButtonId, PressType, RotaryEvent};
use crate::midi::MidiMessage;
use crate::storage::MidiAssignment;

verus! {

#[verifier::external_type_specification]
#[verifier::external_body]
#[verifier::reject_recursive_types(T)]
pub struct ExHeaplessVec<T, const N: usize>(heapless::Vec<T, N>);

#[verifier::external_type_specification]
#[verifier::external_body]
pub struct ExHeaplessString<const N: usize>(heapless::String<N>);

/// `Clone::clone` for `heapless::String`: the copy is a new string value;
/// no clause here says which characters it holds.
pub assume_specification<const N: usize> [<heapless::String<N> as Clone>::clone](s: &heapless::String<N>) -> heapless::String<N>;

/// `Clone::clone` for `heapless::Vec`: the copy is a new vector value;
/// no clause here says which items it holds.
pub assume_specification<T: Clone, const N: usize> [<heapless::Vec<T, N> as Clone>::clone](v: &heapless::Vec<T, N>) -> heapless::Vec<T, N>;

/// The characters held by a 16-byte `heapless::String`.
pub uninterp spec fn chars16(s: heapless::String<16>) -> Seq<char>;

/// True when every character is ASCII, so that its UTF-8 encoding takes one
/// byte per character.
pub open spec fn all_ascii(s: Seq<char>) -> bool {
    forall|i: int| 0 <= i < s.len() ==> (#[trigger] s[i]) < '\u{80}'
}

/// `heapless::String::<16>::new`: an empty string.
#[verifier::external_body]
pub(crate) fn string16_new() -> (r: heapless::String<16>)
    ensures
        chars16(r) == Seq::<char>::empty(),
{
    heapless::String::new()
}

/// `heapless::String::<16>::is_empty`: true exactly when no character is held.
#[verifier::external_body]
pub(crate) fn string16_is_empty(s: &heapless::String<16>) -> (r: bool)
    ensures
        r == (chars16(*s).len() == 0),
{
    s.is_empty()
}

/// `heapless::String::<16>::push_str`: appends the whole of `t` when its
/// UTF-8 bytes fit in the remaining capacity, and leaves the string unchanged
/// otherwise.  For ASCII text the byte count equals the character count.
#[verifier::external_body]
pub(crate) fn string16_push_str(s: &mut heapless::String<16>, t: &str) -> (r: Result<(), ()>)
    ensures
        r is Ok ==> chars16(*final(s)) == chars16(*old(s)) + t@,
        r is Err ==> chars16(*final(s)) == chars16(*old(s)),
        all_ascii(chars16(*old(s))) && all_ascii(t@)
            ==> (r is Ok <==> chars16(*old(s)).len() + t@.len() <= 16),
{
    s.push_str(t)
}

/// The bytes held by a `heapless::Vec<u8, 8>`.
pub uninterp spec fn bytes8(v: heapless::Vec<u8, 8>) -> Seq<u8>;

/// `heapless::Vec::<u8, 8>::new`: an empty vector.
#[verifier::external_body]
pub(crate) fn vec8_new() -> (r: heapless::Vec<u8, 8>)
    ensures
        bytes8(r) == Seq::<u8>::empty(),
{
    heapless::Vec::new()
}

/// `heapless::Vec::<u8, 8>::push`: appends `b` when fewer than 8 bytes
/// are held and hands `b` back, leaving the vector unchanged, otherwise.
#[verifier::external_body]
pub(crate) fn vec8_push(v: &mut heapless::Vec<u8, 8>, b: u8) -> (r: Result<(), u8>)
    ensures
        bytes8(*final(v)).len() <= 8,
        r is Ok <==> bytes8(*old(v)).len() < 8,
        r is Ok ==> bytes8(*final(v)) == bytes8(*old(v)).push(b),
        r is Err ==> bytes8(*final(v)) == bytes8(*old(v)),
        r matches Err(x) ==> x == b,
{
    v.push(b)
}

/// `heapless::Vec::<u8, 8>::as_slice`: the held bytes, at most 8.
#[verifier::external_body]
pub(crate) fn vec8_as_slice(v: &heapless::Vec<u8, 8>) -> (r: &[u8])
    ensures
        r@ == bytes8(*v),
        r@.len() <= 8,
{
    v.as_slice()
}

/// The bytes held by a `heapless::Vec<u8, 64>`.
pub uninterp spec fn bytes64(v: heapless::Vec<u8, 64>) -> Seq<u8>;

/// `heapless::Vec::<u8, 64>::new`: an empty vector.
#[verifier::external_body]
pub(crate) fn vec64_new() -> (r: heapless::Vec<u8, 64>)
    ensures
        bytes64(r) == Seq::<u8>::empty(),
{
    heapless::Vec::new()
}

/// `heapless::Vec::<u8, 64>::push`: appends `b` when fewer than 64 bytes
/// are held and hands `b` back, leaving the vector unchanged, otherwise.
#[verifier::external_body]
pub(crate) fn vec64_push(v: &mut heapless::Vec<u8, 64>, b: u8) -> (r: Result<(), u8>)
    ensures
        bytes64(*final(v)).len() <= 64,
        r is Ok <==> bytes64(*old(v)).len() < 64,
        r is Ok ==> bytes64(*final(v)) == bytes64(*old(v)).push(b),
        r is Err ==> bytes64(*final(v)) == bytes64(*old(v)),
        r matches Err(x) ==> x == b,
{
    v.push(b)
}

/// `heapless::Vec::<u8, 64>::as_slice`: the held bytes, at most 64.
#[verifier::external_body]
pub(crate) fn vec64_as_slice(v: &heapless::Vec<u8, 64>) -> (r: &[u8])
    ensures
        r@ == bytes64(*v),
        r@.len() <= 64,
{
    v.as_slice()
}

/// The bytes held by a `heapless::Vec<u8, 256>`.
pub uninterp spec fn bytes256(v: heapless::Vec<u8, 256>) -> Seq<u8>;

/// `heapless::Vec::<u8, 256>::new`: an empty vector.
#[verifier::external_body]
pub(crate) fn vec256_new() -> (r: heapless::Vec<u8, 256>)
    ensures
        bytes256(r) == Seq::<u8>::empty(),
{
    heapless::Vec::new()
}

/// `heapless::Vec::<u8, 256>::push`: appends `b` when fewer than 256 bytes
/// are held and hands `b` back, leaving the vector unchanged, otherwise.
#[verifier::external_body]
pub(crate) fn vec256_push(v: &mut heapless::Vec<u8, 256>, b: u8) -> (r: Result<(), u8>)
    ensures
        bytes256(*final(v)).len() <= 256,
        r is Ok <==> bytes256(*old(v)).len() < 256,
        r is Ok ==> bytes256(*final(v)) == bytes256(*old(v)).push(b),
        r is Err ==> bytes256(*final(v)) == bytes256(*old(v)),
        r matches Err(x) ==> x == b,
{
    v.push(b)
}

/// `heapless::Vec::<u8, 256>::as_slice`: the held bytes, at most 256.
#[verifier::external_body]
pub(crate) fn vec256_as_slice(v: &heapless::Vec<u8, 256>) -> (r: &[u8])
    ensures
        r@ == bytes256(*v),
        r@.len() <= 256,
{
    v.as_slice()
}

/// `heapless::Vec::<u8, 256>::clear`: removes every byte.
#[verifier::external_body]
pub(crate) fn vec256_clear(v: &mut heapless::Vec<u8, 256>)
    ensures
        bytes256(*final(v)) == Seq::<u8>::empty(),
{
    v.clear()
}

/// `heapless::Vec::<u8, 256>::remove`: takes out the byte at `index`,
/// shifting the later ones down; it panics unless `index` is in range.
#[verifier::external_body]
pub(crate) fn vec256_remove(v: &mut heapless::Vec<u8, 256>, index: usize) -> (r: u8)
    requires
        index < bytes256(*old(v)).len(),
    ensures
        r == bytes256(*old(v))[index as int],
        bytes256(*final(v)) == bytes256(*old(v)).remove(index as int),
{
    v.remove(index)
}

/// The bytes held by a `heapless::Vec<u8, 512>`.
pub uninterp spec fn bytes512(v: heapless::Vec<u8, 512>) -> Seq<u8>;

/// `heapless::Vec::<u8, 512>::new`: an empty vector.
#[verifier::external_body]
pub(crate) fn vec512_new() -> (r: heapless::Vec<u8, 512>)
    ensures
        bytes512(r) == Seq::<u8>::empty(),
{
    heapless::Vec::new()
}

/// `heapless::Vec::<u8, 512>::push`: appends `b` when fewer than 512 bytes
/// are held and hands `b` back, leaving the vector unchanged, otherwise.
#[verifier::external_body]
pub(crate) fn vec512_push(v: &mut heapless::Vec<u8, 512>, b: u8) -> (r: Result<(), u8>)
    ensures
        bytes512(*final(v)).len() <= 512,
        r is Ok <==> bytes512(*old(v)).len() < 512,
        r is Ok ==> bytes512(*final(v)) == bytes512(*old(v)).push(b),
        r is Err ==> bytes512(*final(v)) == bytes512(*old(v)),
        r matches Err(x) ==> x == b,
{
    v.push(b)
}

/// `heapless::Vec::<u8, 512>::as_slice`: the held bytes, at most 512.
#[verifier::external_body]
pub(crate) fn vec512_as_slice(v: &heapless::Vec<u8, 512>) -> (r: &[u8])
    ensures
        r@ == bytes512(*v),
        r@.len() <= 512,
{
    v.as_slice()
}

/// `heapless::Vec::<u8, 512>::clear`: removes every byte.
#[verifier::external_body]
pub(crate) fn vec512_clear(v: &mut heapless::Vec<u8, 512>)
    ensures
        bytes512(*final(v)) == Seq::<u8>::empty(),
{
    v.clear()
}

/// The events held by a `heapless::Vec<RotaryEvent, 4>`, in order.
pub uninterp spec fn rotary_events4(v: heapless::Vec<RotaryEvent, 4>) -> Seq<RotaryEvent>;

/// `heapless::Vec::<RotaryEvent, 4>::new`: an empty vector.
#[verifier::external_body]
pub(crate) fn events4_new() -> (r: heapless::Vec<RotaryEvent, 4>)
    ensures
        rotary_events4(r) == Seq::<RotaryEvent>::empty(),
{
    heapless::Vec::new()
}

/// `heapless::Vec::<RotaryEvent, 4>::push`: appends `e` when fewer than
/// four events are held and hands `e` back, leaving the vector unchanged,
/// otherwise.
#[verifier::external_body]
pub(crate) fn events4_push(v: &mut heapless::Vec<RotaryEvent, 4>, e: RotaryEvent) -> (r: Result<(), RotaryEvent>)
    ensures
        rotary_events4(*final(v)).len() <= 4,
        r is Ok <==> rotary_events4(*old(v)).len() < 4,
        r is Ok ==> rotary_events4(*final(v)) == rotary_events4(*old(v)).push(e),
        r is Err ==> rotary_events4(*final(v)) == rotary_events4(*old(v)),
        r matches Err(x) ==> x == e,
{
    v.push(e)
}

/// The events held by a `heapless::Vec<ControlEvent, 16>`, in order.
pub uninterp spec fn control_events16(v: heapless::Vec<ControlEvent, 16>) -> Seq<ControlEvent>;

/// `heapless::Vec::<ControlEvent, 16>::new`: an empty vector.
#[verifier::external_body]
pub(crate) fn control_events16_new() -> (r: heapless::Vec<ControlEvent, 16>)
    ensures
        control_events16(r) == Seq::<ControlEvent>::empty(),
{
    heapless::Vec::new()
}

/// `heapless::Vec::<ControlEvent, 16>::push`: appends `e` when fewer than
/// sixteen events are held and hands `e` back, leaving the vector
/// unchanged, otherwise.
#[verifier::external_body]
pub(crate) fn control_events16_push(v: &mut heapless::Vec<ControlEvent, 16>, e: ControlEvent) -> (r: Result<(), ControlEvent>)
    ensures
        control_events16(*final(v)).len() <= 16,
        r is Ok <==> control_events16(*old(v)).len() < 16,
        r is Ok ==> control_events16(*final(v)) == control_events16(*old(v)).push(e),
        r is Err ==> control_events16(*final(v)) == control_events16(*old(v)),
        r matches Err(x) ==> x == e,
{
    v.push(e)
}

/// The bytes held by a `heapless::Vec<u8, 255>`.
pub uninterp spec fn bytes255(v: heapless::Vec<u8, 255>) -> Seq<u8>;

/// `heapless::Vec::<u8, 255>::new`: an empty vector.
#[verifier::external_body]
pub(crate) fn vec255_new() -> (r: heapless::Vec<u8, 255>)
    ensures
        bytes255(r) == Seq::<u8>::empty(),
{
    heapless::Vec::new()
}

/// `heapless::Vec::<u8, 255>::push`: appends `b` when fewer than 255 bytes
/// are held and hands `b` back, leaving the vector unchanged, otherwise.
#[verifier::external_body]
pub(crate) fn vec255_push(v: &mut heapless::Vec<u8, 255>, b: u8) -> (r: Result<(), u8>)
    ensures
        bytes255(*final(v)).len() <= 255,
        r is Ok <==> bytes255(*old(v)).len() < 255,
        r is Ok ==> bytes255(*final(v)) == bytes255(*old(v)).push(b),
        r is Err ==> bytes255(*final(v)) == bytes255(*old(v)),
        r matches Err(x) ==> x == b,
{
    v.push(b)
}

/// The words held by a `heapless::Vec<u32, 8>`, in order.
pub uninterp spec fn words8(v: heapless::Vec<u32, 8>) -> Seq<u32>;

/// `heapless::Vec::<u32, 8>::new`: an empty vector.
#[verifier::external_body]
pub(crate) fn words8_new() -> (r: heapless::Vec<u32, 8>)
    ensures
        words8(r) == Seq::<u32>::empty(),
{
    heapless::Vec::new()
}

/// `heapless::Vec::<u32, 8>::push`: appends `w` when fewer than eight
/// words are held and hands `w` back, leaving the vector unchanged,
/// otherwise.
#[verifier::external_body]
pub(crate) fn words8_push(v: &mut heapless::Vec<u32, 8>, w: u32) -> (r: Result<(), u32>)
    ensures
        words8(*final(v)).len() <= 8,
        r is Ok <==> words8(*old(v)).len() < 8,
        r is Ok ==> words8(*final(v)) == words8(*old(v)).push(w),
        r is Err ==> words8(*final(v)) == words8(*old(v)),
        r matches Err(x) ==> x == w,
{
    v.push(w)
}

/// `heapless::Vec::<u32, 8>::remove`: takes out the word at `index`,
/// shifting the later ones down; it panics unless `index` is in range.
#[verifier::external_body]
pub(crate) fn words8_remove(v: &mut heapless::Vec<u32, 8>, index: usize) -> (r: u32)
    requires
        index < words8(*old(v)).len(),
    ensures
        r == words8(*old(v))[index as int],
        words8(*final(v)) == words8(*old(v)).remove(index as int),
{
    v.remove(index)
}

/// `heapless::Vec::<u32, 8>::clear`: removes every word.
#[verifier::external_body]
pub(crate) fn words8_clear(v: &mut heapless::Vec<u32, 8>)
    ensures
        words8(*final(v)) == Seq::<u32>::empty(),
{
    v.clear()
}

/// `heapless::Vec::<u32, 8>::as_slice`: the held words, at most eight.
#[verifier::external_body]
pub(crate) fn words8_as_slice(v: &heapless::Vec<u32, 8>) -> (r: &[u32])
    ensures
        r@ == words8(*v),
        r@.len() <= 8,
{
    v.as_slice()
}

/// The messages held by a `heapless::Vec<MidiMessage, 16>`, in order.
pub uninterp spec fn midi_messages16(v: heapless::Vec<MidiMessage, 16>) -> Seq<MidiMessage>;

/// `heapless::Vec::<MidiMessage, 16>::new`: an empty vector.
#[verifier::external_body]
pub(crate) fn midi16_new() -> (r: heapless::Vec<MidiMessage, 16>)
    ensures
        midi_messages16(r) == Seq::<MidiMessage>::empty(),
{
    heapless::Vec::new()
}

/// `heapless::Vec::<MidiMessage, 16>::push`: appends `m` when fewer than
/// sixteen messages are held and hands `m` back, leaving the vector
/// unchanged, otherwise.
#[verifier::external_body]
pub(crate) fn midi16_push(v: &mut heapless::Vec<MidiMessage, 16>, m: MidiMessage) -> (r: Result<(), MidiMessage>)
    ensures
        midi_messages16(*final(v)).len() <= 16,
        r is Ok <==> midi_messages16(*old(v)).len() < 16,
        r is Ok ==> midi_messages16(*final(v)) == midi_messages16(*old(v)).push(m),
        r is Err ==> midi_messages16(*final(v)) == midi_messages16(*old(v)),
        r matches Err(x) ==> x == m,
{
    v.push(m)
}

/// The assignments held by a `heapless::Vec<MidiAssignment, 32>`, in order.
pub uninterp spec fn midi_assignments32(v: heapless::Vec<MidiAssignment, 32>) -> Seq<MidiAssignment>;

/// `heapless::Vec::<MidiAssignment, 32>::new`: an empty vector.
#[verifier::external_body]
pub(crate) fn midi_assignments32_new() -> (r: heapless::Vec<MidiAssignment, 32>)
    ensures
        midi_assignments32(r) == Seq::<MidiAssignment>::empty(),
{
    heapless::Vec::new()
}

/// The button events held by a `heapless::Vec<(ButtonId, PressType), 16>`,
/// in order.
pub uninterp spec fn button_events16(v: heapless::Vec<(ButtonId, PressType), 16>) -> Seq<(ButtonId, PressType)>;

/// `heapless::Vec::<(ButtonId, PressType), 16>::new`: an empty vector.
#[verifier::external_body]
pub(crate) fn button_events16_new() -> (r: heapless::Vec<(ButtonId, PressType), 16>)
    ensures
        button_events16(r) == Seq::<(ButtonId, PressType)>::empty(),
{
    heapless::Vec::new()
}

/// `heapless::Vec::<(ButtonId, PressType), 16>::push`: appends `e` when
/// fewer than sixteen events are held and hands `e` back, leaving the
/// vector unchanged, otherwise.
#[verifier::external_body]
pub(crate) fn button_events16_push(
    v: &mut heapless::Vec<(ButtonId, PressType), 16>,
    e: (ButtonId, PressType),
) -> (r: Result<(), (ButtonId, PressType)>)
    ensures
        button_events16(*final(v)).len() <= 16,
        r is Ok <==> button_events16(*old(v)).len() < 16,
        r is Ok ==> button_events16(*final(v)) == button_events16(*old(v)).push(e),
        r is Err ==> button_events16(*final(v)) == button_events16(*old(v)),
        r matches Err(x) ==> x == e,
{
    v.push(e)
}

} // verus!
