//! The scheduler: state kept across buffer calls and the per-buffer
//! transition that turns a transport snapshot into timed note events.
//!
//! The transitions, evaluated once per buffer and in this order:
//! 1. Not playing: on the falling edge, flush all notes off once and reset;
//!    while stopped, emit nothing further.
//! 2. Preroll: leave the state entirely untouched and emit nothing.
//! 3. Resume edge: a pause followed by resume always re-arms the search,
//!    whatever the flag held before.
//! 4. Missed-boundary catch-up: while searching, a whole beat crossed since
//!    the previous playing buffer is emitted immediately at offset 0.
//! 5. Near-boundary resume: resuming within a 1/32-step threshold after a
//!    boundary also emits at offset 0.
//! 6. Normal search: the step clock places the boundary; inside the buffer
//!    it is emitted at its offset, provided that offset is strictly below
//!    the buffer length.
//!
//! After every buffer that passes the preroll gate, the state records the
//! playing flag and, when known, the beat position.

use vstd::prelude::*;
use crate::clock::{
    locate_step, floor_beats, frac_micro_beats, spec_boundary_inside, spec_boundary_offset,
    spec_floor_beats, spec_frac_micro_beats, lemma_inside_offset_bounds, StepLocation,
};
use crate::events::{
    all_notes_off, all_notes_off_seq, step_chord, step_chord_seq, lemma_all_notes_off_offsets,
    TimedEvent,
};
use crate::transport::TransportSnapshot;

verus! {

/// Beat position stored before any playing position was seen: minus one
/// beat, so the first observed position always counts as lying beyond the
/// last seen boundary.
pub const SENTINEL_LAST_POS_MICRO_BEATS: i64 = -1_000_000;

/// Divisor of the step length that sets the near-boundary resume window:
/// "play" pressed within 1/32 of a step after a boundary lands on it.
pub const STEP_THRESHOLD_DIVISOR: u64 = 32;

/// A non-fatal condition noticed while processing one buffer.  Advisories
/// are for operator visibility only; they never stop processing.
#[derive(Clone, Copy, Debug, PartialEq, Eq, Structural)]
pub enum Advisory {
    /// The host supplied no beat position this call.
    MissingBeatPosition,
    /// The host supplied no tempo this call.
    MissingTempo,
    /// No usable sample rate is cached: `process_buffer` ran before
    /// `initialize`, or the host handed a rate of zero.
    MissingSampleRate,
    /// The computed boundary offset fell outside the buffer and the event
    /// was discarded for this buffer: an internal consistency fault, never
    /// fatal.
    OffsetOutOfRange,
}

/// What one buffer call produces: the timed events for this buffer and at
/// most one advisory.  Processing always continues normally afterwards; no
/// condition here is fatal.
pub struct ProcessOutput {
    pub events: Vec<TimedEvent>,
    pub advisory: Option<Advisory>,
}

/// The state the scheduler keeps across buffer calls.
#[derive(Clone, Copy, Debug)]
pub struct SchedulerState {
    /// Sample rate in Hz, cached by `initialize`; `None` until then.
    pub sample_rate_hz: Option<u32>,
    /// Playing flag observed on the previous buffer.  Starts `true`, so the
    /// very first not-playing observation still triggers exactly one flush.
    pub last_playing: bool,
    /// Beat position of the previous playing buffer, or the sentinel.
    pub last_pos_micro_beats: i64,
    /// `true` while no boundary has been located yet for the step in
    /// progress (Seeking); `false` once it was found and emitted
    /// (Tracking).
    pub searching_for_step: bool,
}

/// The state after the falling play edge: stopped, re-armed, position back
/// at the sentinel.  The cached sample rate survives.
pub open spec fn spec_stopped_state(s: SchedulerState) -> SchedulerState {
    SchedulerState {
        last_playing: false,
        last_pos_micro_beats: SENTINEL_LAST_POS_MICRO_BEATS,
        searching_for_step: true,
        ..s
    }
}

/// The search flag after the resume re-arm: forced on when the previous
/// buffer was not playing.
pub open spec fn spec_rearmed_searching(s: SchedulerState) -> bool {
    s.searching_for_step || !s.last_playing
}

/// The state after a playing buffer: playing remembered, position updated,
/// search flag as the transitions left it.
pub open spec fn spec_played_state(
    s: SchedulerState,
    pos_micro_beats: i64,
    searching: bool,
) -> SchedulerState {
    SchedulerState {
        last_playing: true,
        last_pos_micro_beats: pos_micro_beats,
        searching_for_step: searching,
        ..s
    }
}

/// The near-boundary resume window: the fractional beat position is below
/// `(60 / tempo_bpm) / 32` (the step length in seconds over
/// `STEP_THRESHOLD_DIVISOR`, read as beats).  Cross-multiplying by the
/// divisor, the milli scale of the tempo and the micro scale of the
/// fraction leaves `60 * 1_000 * 1_000_000` on the right.  A negative
/// fraction is below any such window, and a zero tempo widens it without
/// limit.
pub open spec fn spec_near_boundary(frac_micro_beats: int, tempo_milli_bpm: int) -> bool {
    frac_micro_beats * (STEP_THRESHOLD_DIVISOR as int) * tempo_milli_bpm < 60_000_000_000
}

/// Transition 6, the normal search, once playing, position, and tempo are
/// at hand: consult the step clock, remember whether the boundary is still
/// ahead, and emit at its offset when it falls inside the buffer.
pub open spec fn spec_normal_search(
    s: SchedulerState,
    pos_micro_beats: i64,
    tempo_milli_bpm: u64,
    buffer_samples: u32,
    searching: bool,
) -> (SchedulerState, Seq<TimedEvent>, Option<Advisory>) {
    if s.sample_rate_hz is None || s.sample_rate_hz->0 == 0 {
        (
            spec_played_state(s, pos_micro_beats, searching),
            Seq::empty(),
            Some(Advisory::MissingSampleRate),
        )
    } else {
        let sr = s.sample_rate_hz->0;
        if !spec_boundary_inside(
            pos_micro_beats as int,
            tempo_milli_bpm as int,
            sr as int,
            buffer_samples as int,
        ) {
            (spec_played_state(s, pos_micro_beats, true), Seq::empty(), None)
        } else {
            let off = spec_boundary_offset(
                pos_micro_beats as int,
                tempo_milli_bpm as int,
                sr as int,
            );
            if off >= buffer_samples {
                (
                    spec_played_state(s, pos_micro_beats, false),
                    Seq::empty(),
                    Some(Advisory::OffsetOutOfRange),
                )
            } else {
                (
                    spec_played_state(s, pos_micro_beats, false),
                    step_chord_seq(off as u32),
                    None,
                )
            }
        }
    }
}

/// Transitions 3 to 6: the buffer is playing and past the preroll gate.
/// A missing beat position or tempo skips detection for this buffer but
/// still records what is known.  A tempo of zero is unusable the same way a
/// missing one is, except inside the near-boundary window, which a zero
/// tempo widens without limit.
pub open spec fn spec_process_playing(
    s: SchedulerState,
    t: TransportSnapshot,
    buffer_samples: u32,
) -> (SchedulerState, Seq<TimedEvent>, Option<Advisory>) {
    let searching = spec_rearmed_searching(s);
    if t.pos_micro_beats is None {
        (
            SchedulerState { last_playing: true, searching_for_step: searching, ..s },
            Seq::empty(),
            Some(Advisory::MissingBeatPosition),
        )
    } else {
        let pos = t.pos_micro_beats->0;
        if t.tempo_milli_bpm is None {
            (spec_played_state(s, pos, searching), Seq::empty(), Some(Advisory::MissingTempo))
        } else {
            let tempo = t.tempo_milli_bpm->0;
            let crossed = searching && spec_floor_beats(pos as int) > spec_floor_beats(
                s.last_pos_micro_beats as int,
            );
            if crossed && s.last_playing {
                // missed-boundary catch-up: the boundary slipped between
                // buffers; emit it now, at the buffer start
                (spec_played_state(s, pos, searching), step_chord_seq(0), None)
            } else if crossed && !s.last_playing && spec_near_boundary(
                spec_frac_micro_beats(pos as int),
                tempo as int,
            ) {
                // near-boundary resume: play was pressed on the beat
                (spec_played_state(s, pos, searching), step_chord_seq(0), None)
            } else {
                spec_normal_search(s, pos, tempo, buffer_samples, searching)
            }
        }
    }
}

/// The whole per-buffer transition: the state after the call, the events
/// emitted for the buffer, and at most one advisory.
pub open spec fn spec_process(s: SchedulerState, t: TransportSnapshot, buffer_samples: u32) -> (
    SchedulerState,
    Seq<TimedEvent>,
    Option<Advisory>,
) {
    if !t.playing {
        if s.last_playing {
            (spec_stopped_state(s), all_notes_off_seq(), None)
        } else {
            (s, Seq::empty(), None)
        }
    } else if t.preroll_active {
        (s, Seq::empty(), None)
    } else {
        spec_process_playing(s, t, buffer_samples)
    }
}

impl SchedulerState {
    /// The state of a freshly constructed scheduler: no sample rate yet,
    /// previous buffer assumed playing, position at the sentinel, search
    /// armed.
    pub open spec fn spec_initial() -> SchedulerState {
        SchedulerState {
            sample_rate_hz: None,
            last_playing: true,
            last_pos_micro_beats: SENTINEL_LAST_POS_MICRO_BEATS,
            searching_for_step: true,
        }
    }

    /// A fresh scheduler, before `initialize` supplied a sample rate.
    pub fn new() -> (s: SchedulerState)
        ensures
            s == SchedulerState::spec_initial(),
    {
        SchedulerState {
            sample_rate_hz: None,
            last_playing: true,
            last_pos_micro_beats: SENTINEL_LAST_POS_MICRO_BEATS,
            searching_for_step: true,
        }
    }

    /// Caches the sample rate and resets the transition state, as the
    /// host's initialization call does.
    pub fn initialize(&mut self, sample_rate_hz: u32)
        ensures
            *final(self) == (SchedulerState {
                sample_rate_hz: Some(sample_rate_hz),
                last_playing: true,
                last_pos_micro_beats: SENTINEL_LAST_POS_MICRO_BEATS,
                searching_for_step: true,
            }),
    {
        self.sample_rate_hz = Some(sample_rate_hz);
        self.reset();
    }

    /// Resets the transition state without needing a new sample rate: the
    /// cached rate survives.
    pub fn reset(&mut self)
        ensures
            *final(self) == (SchedulerState {
                sample_rate_hz: old(self).sample_rate_hz,
                last_playing: true,
                last_pos_micro_beats: SENTINEL_LAST_POS_MICRO_BEATS,
                searching_for_step: true,
            }),
    {
        self.last_playing = true;
        self.last_pos_micro_beats = SENTINEL_LAST_POS_MICRO_BEATS;
        self.searching_for_step = true;
    }

    /// Processes one buffer: applies the per-buffer transition to `self`
    /// and returns the events to emit inside this buffer, each at a sample
    /// offset strictly below the buffer length whenever the buffer has any
    /// samples at all.
    pub fn process_buffer(&mut self, t: &TransportSnapshot, buffer_samples: u32) -> (out:
        ProcessOutput)
        ensures
            *final(self) == spec_process(*old(self), *t, buffer_samples).0,
            out.events@ == spec_process(*old(self), *t, buffer_samples).1,
            out.advisory == spec_process(*old(self), *t, buffer_samples).2,
            buffer_samples >= 1 ==> forall|i: int|
                0 <= i < out.events@.len() ==> (#[trigger] out.events@[i]).sample_offset
                    < buffer_samples,
    {
        proof {
            if buffer_samples >= 1 {
                lemma_offsets_within_buffer(*self, *t, buffer_samples);
            }
        }
        if !t.playing {
            if self.last_playing {
                // falling play edge: flush all notes off exactly once
                self.last_playing = false;
                self.last_pos_micro_beats = SENTINEL_LAST_POS_MICRO_BEATS;
                self.searching_for_step = true;
                return ProcessOutput { events: all_notes_off(), advisory: None };
            }
            return ProcessOutput { events: Vec::new(), advisory: None };
        }
        if t.preroll_active {
            // preroll: position advances, nothing sounds, nothing changes
            return ProcessOutput { events: Vec::new(), advisory: None };
        }
        let searching: bool = self.searching_for_step || !self.last_playing;
        self.searching_for_step = searching;
        let pos: i64 = match t.pos_micro_beats {
            Some(p) => p,
            None => {
                self.last_playing = true;
                return ProcessOutput {
                    events: Vec::new(),
                    advisory: Some(Advisory::MissingBeatPosition),
                };
            },
        };
        let tempo: u64 = match t.tempo_milli_bpm {
            Some(v) => v,
            None => {
                self.last_playing = true;
                self.last_pos_micro_beats = pos;
                return ProcessOutput {
                    events: Vec::new(),
                    advisory: Some(Advisory::MissingTempo),
                };
            },
        };
        let was_playing: bool = self.last_playing;
        let crossed: bool = searching && floor_beats(pos) > floor_beats(
            self.last_pos_micro_beats,
        );
        self.last_playing = true;
        self.last_pos_micro_beats = pos;
        if crossed && was_playing {
            return ProcessOutput { events: step_chord(0), advisory: None };
        }
        if crossed && !was_playing {
            let f: i64 = frac_micro_beats(pos);
            if near_boundary(f, tempo) {
                return ProcessOutput { events: step_chord(0), advisory: None };
            }
        }
        let sr: u32 = match self.sample_rate_hz {
            Some(v) => v,
            None => 0,
        };
        if sr == 0 {
            return ProcessOutput {
                events: Vec::new(),
                advisory: Some(Advisory::MissingSampleRate),
            };
        }
        match locate_step(pos, tempo, sr, buffer_samples) {
            StepLocation::Outside => {
                self.searching_for_step = true;
                ProcessOutput { events: Vec::new(), advisory: None }
            },
            StepLocation::Inside { remain_samples } => {
                self.searching_for_step = false;
                if remain_samples >= buffer_samples as u64 {
                    // the rounded offset belongs to the next buffer:
                    // discard, never clamp
                    ProcessOutput {
                        events: Vec::new(),
                        advisory: Some(Advisory::OffsetOutOfRange),
                    }
                } else {
                    ProcessOutput {
                        events: step_chord(remain_samples as u32),
                        advisory: None,
                    }
                }
            },
        }
    }
}

impl Default for SchedulerState {
    /// Same state as `SchedulerState::new`.
    fn default() -> (s: SchedulerState)
        ensures
            s == SchedulerState::spec_initial(),
    {
        SchedulerState::new()
    }
}

/// Exact exec form of the near-boundary window test.
fn near_boundary(frac_micro_beats: i64, tempo_milli_bpm: u64) -> (r: bool)
    requires
        -1_000_000 < frac_micro_beats < 1_000_000,
    ensures
        r == spec_near_boundary(frac_micro_beats as int, tempo_milli_bpm as int),
{
    if frac_micro_beats < 0 {
        proof {
            assert((frac_micro_beats as int) * (STEP_THRESHOLD_DIVISOR as int) * (
            tempo_milli_bpm as int) <= 0) by (nonlinear_arith)
                requires
                    frac_micro_beats < 0,
                    tempo_milli_bpm >= 0,
            ;
        }
        true
    } else {
        proof {
            assert((frac_micro_beats as int) * (STEP_THRESHOLD_DIVISOR as int) * (
            tempo_milli_bpm as int) <= 32_000_000 * (0xffff_ffff_ffff_ffff as int))
                by (nonlinear_arith)
                requires
                    0 <= frac_micro_beats <= 1_000_000,
                    0 <= tempo_milli_bpm <= 0xffff_ffff_ffff_ffff,
                    STEP_THRESHOLD_DIVISOR == 32,
            ;
        }
        let lhs: u128 = (frac_micro_beats as u128) * (STEP_THRESHOLD_DIVISOR as u128) * (
        tempo_milli_bpm as u128);
        lhs < 60_000_000_000
    }
}

/// Repeated not-playing buffers flush exactly once: the first one after
/// playing emits the all-notes-off batch (and only the first — a scheduler
/// already stopped emits nothing), and every further not-playing buffer
/// leaves the state stopped and emits nothing, whatever the buffers'
/// lengths.
pub proof fn lemma_flush_emitted_once(
    s: SchedulerState,
    t1: TransportSnapshot,
    t2: TransportSnapshot,
    n1: u32,
    n2: u32,
)
    requires
        !t1.playing,
        !t2.playing,
    ensures
        s.last_playing ==> spec_process(s, t1, n1).1 == all_notes_off_seq(),
        !s.last_playing ==> spec_process(s, t1, n1).1 == Seq::<TimedEvent>::empty(),
        !spec_process(s, t1, n1).0.last_playing,
        spec_process(spec_process(s, t1, n1).0, t2, n2).1 == Seq::<TimedEvent>::empty(),
        spec_process(spec_process(s, t1, n1).0, t2, n2).0 == spec_process(s, t1, n1).0,
{
}

/// A pause followed by resume re-enters Seeking whatever the search flag
/// held before: on a resume edge that actually plays (past the preroll
/// gate, whose no-op keeps the state as it is), the buffer's outcome does
/// not depend on the stored `searching_for_step` at all.
pub proof fn lemma_resume_rearms(s: SchedulerState, t: TransportSnapshot, n: u32)
    requires
        !s.last_playing,
        t.playing,
        !t.preroll_active,
    ensures
        ({
            let rearmed = SchedulerState { searching_for_step: true, ..s };
            spec_process(s, t, n) == spec_process(rearmed, t, n)
        }),
{
}

/// Missed-boundary catch-up: while still seeking, a whole beat crossed
/// between two consecutive playing buffers is emitted immediately at
/// offset 0.  The step clock is never consulted: the conclusion holds for
/// every cached sample rate, even none at all, and every buffer length.
pub proof fn lemma_missed_boundary_catch_up(s: SchedulerState, t: TransportSnapshot, n: u32)
    requires
        s.last_playing,
        s.searching_for_step,
        t.playing,
        !t.preroll_active,
        t.pos_micro_beats is Some,
        t.tempo_milli_bpm is Some,
        spec_floor_beats(t.pos_micro_beats->0 as int) > spec_floor_beats(
            s.last_pos_micro_beats as int,
        ),
    ensures
        spec_process(s, t, n).1 == step_chord_seq(0),
        spec_process(s, t, n).2 is None,
        spec_process(s, t, n).0 == spec_played_state(s, t.pos_micro_beats->0, true),
{
}

/// Near-boundary resume: resuming from a pause within the 1/32-step window
/// after a boundary emits at offset 0, again for every cached sample rate
/// and buffer length.  (The beat must have advanced past the stored
/// position's whole beat, which the pause's sentinel guarantees for every
/// nonnegative resume position.)
pub proof fn lemma_near_boundary_resume(s: SchedulerState, t: TransportSnapshot, n: u32)
    requires
        !s.last_playing,
        t.playing,
        !t.preroll_active,
        t.pos_micro_beats is Some,
        t.tempo_milli_bpm is Some,
        spec_floor_beats(t.pos_micro_beats->0 as int) > spec_floor_beats(
            s.last_pos_micro_beats as int,
        ),
        spec_near_boundary(
            spec_frac_micro_beats(t.pos_micro_beats->0 as int),
            t.tempo_milli_bpm->0 as int,
        ),
    ensures
        spec_process(s, t, n).1 == step_chord_seq(0),
        spec_process(s, t, n).2 is None,
        spec_process(s, t, n).0 == spec_played_state(s, t.pos_micro_beats->0, true),
{
}

/// Every event a buffer call emits sits at a sample offset strictly inside
/// the buffer, whenever the buffer has at least one sample.
pub proof fn lemma_offsets_within_buffer(s: SchedulerState, t: TransportSnapshot, n: u32)
    requires
        1 <= n,
    ensures
        forall|i: int|
            0 <= i < spec_process(s, t, n).1.len() ==> (#[trigger] spec_process(
                s,
                t,
                n,
            ).1[i]).sample_offset < n,
{
    let events = spec_process(s, t, n).1;
    lemma_all_notes_off_offsets();
    if t.playing && !t.preroll_active && t.pos_micro_beats is Some && t.tempo_milli_bpm is Some {
        let pos = t.pos_micro_beats->0;
        let tempo = t.tempo_milli_bpm->0;
        if s.sample_rate_hz is Some && s.sample_rate_hz->0 != 0 && spec_boundary_inside(
            pos as int,
            tempo as int,
            s.sample_rate_hz->0 as int,
            n as int,
        ) {
            lemma_inside_offset_bounds(
                pos as int,
                tempo as int,
                s.sample_rate_hz->0 as int,
                n as int,
            );
        }
    }
}

} // verus!
