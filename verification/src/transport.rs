//! The transport snapshot the host supplies once per buffer.

use vstd::prelude::*;

verus! {

/// A read-only snapshot of the host transport, taken once per buffer call.
///
/// Units are exact fixed-point integers:
/// - `pos_micro_beats`: beat position in millionths of a beat
///   (`1_000_000` micro-beats = one beat),
/// - `tempo_milli_bpm`: tempo in thousandths of a beat per minute
///   (`120_000` = 120 BPM),
/// - `pos_samples`: position of the buffer start on the host's sample
///   timeline.
///
/// An optional field is `None` when the host could not supply it this call;
/// that is a soft failure, never a crash.  The snapshot is consumed, never
/// mutated.
#[derive(Clone, Copy, Debug)]
pub struct TransportSnapshot {
    /// Whether the transport is currently playing.
    pub playing: bool,
    /// Whether the host is in a preroll lead-in: position advances but no
    /// musical output may occur.
    pub preroll_active: bool,
    /// Tempo in milli-BPM, if the host knows it this call.
    pub tempo_milli_bpm: Option<u64>,
    /// Beat position in micro-beats, if the host knows it this call.
    pub pos_micro_beats: Option<i64>,
    /// Sample position, if the host knows it this call.
    pub pos_samples: Option<i64>,
}

} // verus!
