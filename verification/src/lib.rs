//! Timing core of a beat-synchronized note-event generator.
//!
//! Once per audio buffer, the host hands the scheduler a read-only snapshot of
//! its transport (play/pause state, tempo, beat position) together with the
//! buffer's length in samples.  The scheduler decides whether a step boundary
//! (one beat) falls inside that buffer and, if so, at which sample offset the
//! step's note events must be emitted.  It also flushes all notes off exactly
//! once when playback stops, recovers when a boundary slipped between two
//! buffers, and treats "play" pressed essentially on a beat as landing on that
//! beat.
//!
//! All quantities are exact fixed-point integers: beat positions in
//! micro-beats, tempos in thousandths of a BPM, sample rates in Hz.  The host
//! glue converts its own floating-point transport values at the boundary of
//! this crate.

pub mod clock;
pub mod events;
pub mod scheduler;
pub mod transport;
