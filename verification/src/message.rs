//! Controller events, and the decoding of wire frames into them.
use vstd::prelude::*;

verus! {

/// A controller event, reduced to what the state tables read.
///
/// Indices are kept as `usize` so that an event can name an index outside any
/// table; such events are ignored by the reducers.
#[derive(Clone, Copy, Debug, PartialEq, Eq, Structural)]
pub enum Message {
    /// A continuous control moved to `value`.
    ControlChange { control: usize, value: u8 },
    /// A key or button went down with `velocity`; velocity 0 means it is up.
    NoteOn { note: usize, velocity: u8 },
    /// A key or button was released.
    NoteOff { note: usize },
}

/// Whether `status` is the status byte of a note-off frame, on any channel.
pub open spec fn is_note_off_status(status: u8) -> bool {
    0x80 <= status <= 0x8F
}

/// Whether `status` is the status byte of a note-on frame, on any channel.
pub open spec fn is_note_on_status(status: u8) -> bool {
    0x90 <= status <= 0x9F
}

/// Whether `status` is the status byte of a control-change frame, on any channel.
pub open spec fn is_control_change_status(status: u8) -> bool {
    0xB0 <= status <= 0xBF
}

/// The event that a wire frame carries, if it carries one that the reducers act on.
///
/// A frame counts when it starts with a note-off, note-on or control-change
/// status byte followed by two data bytes, each below `0x80`. Bytes after the
/// third are not looked at. A note-on frame with velocity 0 is a note-off.
/// Every other frame, the empty one included, carries nothing.
pub open spec fn frame_message(bytes: Seq<u8>) -> Option<Message> {
    if bytes.len() < 3 || bytes[1] >= 0x80 || bytes[2] >= 0x80 {
        None
    } else if is_note_off_status(bytes[0]) {
        Some(Message::NoteOff { note: bytes[1] as usize })
    } else if is_note_on_status(bytes[0]) {
        if bytes[2] == 0 {
            Some(Message::NoteOff { note: bytes[1] as usize })
        } else {
            Some(Message::NoteOn { note: bytes[1] as usize, velocity: bytes[2] })
        }
    } else if is_control_change_status(bytes[0]) {
        Some(Message::ControlChange { control: bytes[1] as usize, value: bytes[2] })
    } else {
        None
    }
}

/// Decodes one frame with `wmidi::MidiMessage::try_from`.
///
/// Trusted, not proved: the contract claims that wmidi accepts a frame as
/// `NoteOff`, `NoteOn` or `ControlChange` exactly as [`frame_message`] says,
/// with the note or control number taken from the second byte and the velocity
/// or value from the third, and that a note-on frame with velocity 0 comes back
/// as `NoteOff`. Frames that wmidi rejects and messages of any other kind both
/// give `None`.
#[verifier::external_body]
pub(crate) fn decode_frame(bytes: &[u8]) -> (r: Option<Message>)
    ensures
        r == frame_message(bytes@),
{
    match wmidi::MidiMessage::try_from(bytes) {
        Ok(wmidi::MidiMessage::NoteOff(_, note, _)) => {
            Some(Message::NoteOff { note: usize::from(u8::from(note)) })
        },
        Ok(wmidi::MidiMessage::NoteOn(_, note, velocity)) => {
            Some(Message::NoteOn { note: usize::from(u8::from(note)), velocity: u8::from(velocity) })
        },
        Ok(wmidi::MidiMessage::ControlChange(_, control, value)) => {
            Some(Message::ControlChange { control: usize::from(u8::from(control)), value: u8::from(value) })
        },
        Ok(_) => None,
        Err(_) => None,
    }
}

/// A note-on frame with velocity 0 carries the same event as a note-off frame
/// for the same note, whatever the channels and the release velocity.
pub proof fn silent_note_on_frame_is_note_off(on_status: u8, off_status: u8, note: u8, release: u8)
    requires
        is_note_on_status(on_status),
        is_note_off_status(off_status),
        note < 0x80,
        release < 0x80,
    ensures
        frame_message(seq![on_status, note, 0u8]) == frame_message(
            seq![off_status, note, release],
        ),
        frame_message(seq![on_status, note, 0u8]) == Some(Message::NoteOff { note: note as usize }),
{
}

} // verus!
