//! Timed note events and the step action that realizes a detected boundary.

use vstd::prelude::*;

verus! {

/// The kind of a note event.
#[derive(Clone, Copy, Debug, PartialEq, Eq, Structural)]
pub enum EventKind {
    NoteOn,
    NoteOff,
}

/// One note event, scheduled at a sample offset inside the current buffer.
///
/// `velocity_milli` is the velocity in thousandths of full scale
/// (`800` = 0.8); the host glue converts it to whatever its event type wants.
#[derive(Clone, Copy, Debug, PartialEq, Eq, Structural)]
pub struct TimedEvent {
    pub sample_offset: u32,
    pub kind: EventKind,
    pub channel: u8,
    pub note: u8,
    pub velocity_milli: u16,
}

/// Number of distinct note values; the all-notes-off flush covers them all.
pub const NOTE_VALUE_COUNT: u16 = 128;

/// The step action policy is a fixed two-note chord: a root and the note a
/// perfect fifth above it, on two channels, both note-on at the boundary
/// offset.  Detection (the scheduler) only picks the offset; this module
/// alone decides what sounds there.
pub const CHORD_ROOT_NOTE: u8 = 60;

pub const CHORD_ROOT_CHANNEL: u8 = 0;

pub const CHORD_FIFTH_NOTE: u8 = 67;

pub const CHORD_FIFTH_CHANNEL: u8 = 1;

/// Velocity of the chord notes, in thousandths of full scale.
pub const STEP_VELOCITY_MILLI: u16 = 800;

/// The note-off event the flush emits for one note value.
pub open spec fn note_off_event(note: u8) -> TimedEvent {
    TimedEvent {
        sample_offset: 0,
        kind: EventKind::NoteOff,
        channel: 0,
        note,
        velocity_milli: 0,
    }
}

/// The all-notes-off flush: one note-off for every note value `0..=127`,
/// channel 0, velocity 0, at sample offset 0.
pub open spec fn all_notes_off_seq() -> Seq<TimedEvent> {
    Seq::new(NOTE_VALUE_COUNT as nat, |i: int| note_off_event(i as u8))
}

/// The step action emitted at a detected boundary: the fixed two-note chord,
/// both events sharing the boundary's sample offset.
pub open spec fn step_chord_seq(sample_offset: u32) -> Seq<TimedEvent> {
    seq![
        TimedEvent {
            sample_offset,
            kind: EventKind::NoteOn,
            channel: CHORD_ROOT_CHANNEL,
            note: CHORD_ROOT_NOTE,
            velocity_milli: STEP_VELOCITY_MILLI,
        },
        TimedEvent {
            sample_offset,
            kind: EventKind::NoteOn,
            channel: CHORD_FIFTH_CHANNEL,
            note: CHORD_FIFTH_NOTE,
            velocity_milli: STEP_VELOCITY_MILLI,
        },
    ]
}

/// Builds the all-notes-off flush.
pub fn all_notes_off() -> (v: Vec<TimedEvent>)
    ensures
        v@ == all_notes_off_seq(),
{
    let mut v: Vec<TimedEvent> = Vec::new();
    let mut n: u16 = 0;
    while n < NOTE_VALUE_COUNT
        invariant
            n <= NOTE_VALUE_COUNT,
            v@.len() == n,
            forall|i: int| 0 <= i < n ==> v@[i] == note_off_event(i as u8),
        decreases NOTE_VALUE_COUNT - n,
    {
        v.push(TimedEvent {
            sample_offset: 0,
            kind: EventKind::NoteOff,
            channel: 0,
            note: n as u8,
            velocity_milli: 0,
        });
        n = n + 1;
    }
    proof {
        assert(v@ =~= all_notes_off_seq());
    }
    v
}

/// Builds the step action for a boundary at `sample_offset`.
pub fn step_chord(sample_offset: u32) -> (v: Vec<TimedEvent>)
    ensures
        v@ == step_chord_seq(sample_offset),
{
    let mut v: Vec<TimedEvent> = Vec::new();
    v.push(TimedEvent {
        sample_offset,
        kind: EventKind::NoteOn,
        channel: CHORD_ROOT_CHANNEL,
        note: CHORD_ROOT_NOTE,
        velocity_milli: STEP_VELOCITY_MILLI,
    });
    v.push(TimedEvent {
        sample_offset,
        kind: EventKind::NoteOn,
        channel: CHORD_FIFTH_CHANNEL,
        note: CHORD_FIFTH_NOTE,
        velocity_milli: STEP_VELOCITY_MILLI,
    });
    proof {
        assert(v@ =~= step_chord_seq(sample_offset));
    }
    v
}

/// Every event of the flush sits at sample offset 0.
pub proof fn lemma_all_notes_off_offsets()
    ensures
        all_notes_off_seq().len() == NOTE_VALUE_COUNT,
        forall|i: int|
            0 <= i < all_notes_off_seq().len() ==> (#[trigger] all_notes_off_seq()[i]).sample_offset
                == 0,
{
    assert forall|i: int| 0 <= i < all_notes_off_seq().len() implies (
    #[trigger] all_notes_off_seq()[i]).sample_offset == 0 by {
        assert(all_notes_off_seq()[i] == note_off_event(i as u8));
    }
}

} // verus!
