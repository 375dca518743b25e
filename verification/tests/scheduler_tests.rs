use note_sequencer::events::{EventKind, TimedEvent};
use note_sequencer::scheduler::{Advisory, SchedulerState, SENTINEL_LAST_POS_MICRO_BEATS};
use note_sequencer::transport::TransportSnapshot;

fn playing_snapshot(pos_micro_beats: i64, tempo_milli_bpm: u64) -> TransportSnapshot {
    TransportSnapshot {
        playing: true,
        preroll_active: false,
        tempo_milli_bpm: Some(tempo_milli_bpm),
        pos_micro_beats: Some(pos_micro_beats),
        pos_samples: None,
    }
}

fn stopped_snapshot() -> TransportSnapshot {
    TransportSnapshot {
        playing: false,
        preroll_active: false,
        tempo_milli_bpm: None,
        pos_micro_beats: None,
        pos_samples: None,
    }
}

fn chord_at(sample_offset: u32) -> Vec<TimedEvent> {
    vec![
        TimedEvent {
            sample_offset,
            kind: EventKind::NoteOn,
            channel: 0,
            note: 60,
            velocity_milli: 800,
        },
        TimedEvent {
            sample_offset,
            kind: EventKind::NoteOn,
            channel: 1,
            note: 67,
            velocity_milli: 800,
        },
    ]
}

#[test]
fn fresh_state_defaults() {
    let s = SchedulerState::new();
    assert_eq!(s.sample_rate_hz, None);
    assert!(s.last_playing);
    assert_eq!(s.last_pos_micro_beats, SENTINEL_LAST_POS_MICRO_BEATS);
    assert!(s.searching_for_step);
    let d = SchedulerState::default();
    assert_eq!(d.sample_rate_hz, None);
    assert!(d.last_playing);
    assert_eq!(d.last_pos_micro_beats, SENTINEL_LAST_POS_MICRO_BEATS);
    assert!(d.searching_for_step);
}

#[test]
fn initialize_caches_rate_and_reset_keeps_it() {
    let mut s = SchedulerState::new();
    s.initialize(48_000);
    assert_eq!(s.sample_rate_hz, Some(48_000));
    assert!(s.last_playing);
    assert_eq!(s.last_pos_micro_beats, SENTINEL_LAST_POS_MICRO_BEATS);
    assert!(s.searching_for_step);
    s.last_playing = false;
    s.last_pos_micro_beats = 7_250_000;
    s.searching_for_step = false;
    s.reset();
    assert_eq!(s.sample_rate_hz, Some(48_000));
    assert!(s.last_playing);
    assert_eq!(s.last_pos_micro_beats, SENTINEL_LAST_POS_MICRO_BEATS);
    assert!(s.searching_for_step);
}

#[test]
fn stop_edge_flushes_all_notes_off_once() {
    let mut s = SchedulerState::new();
    s.initialize(48_000);
    let out = s.process_buffer(&stopped_snapshot(), 512);
    assert_eq!(out.events.len(), 128);
    for (i, e) in out.events.iter().enumerate() {
        assert_eq!(e.sample_offset, 0);
        assert_eq!(e.kind, EventKind::NoteOff);
        assert_eq!(e.channel, 0);
        assert_eq!(e.note, i as u8);
        assert_eq!(e.velocity_milli, 0);
    }
    assert_eq!(out.advisory, None);
    assert!(!s.last_playing);
    assert_eq!(s.last_pos_micro_beats, SENTINEL_LAST_POS_MICRO_BEATS);
    assert!(s.searching_for_step);
    // repeated not-playing buffers emit nothing further
    let out2 = s.process_buffer(&stopped_snapshot(), 512);
    assert!(out2.events.is_empty());
    assert_eq!(out2.advisory, None);
    let out3 = s.process_buffer(&stopped_snapshot(), 64);
    assert!(out3.events.is_empty());
}

#[test]
fn resume_rearms_search_whatever_it_held() {
    // a paused state whose search flag was (artificially) left off: the
    // resume edge must still re-arm and take the near-boundary branch
    let mut s = SchedulerState {
        sample_rate_hz: Some(48_000),
        last_playing: false,
        last_pos_micro_beats: SENTINEL_LAST_POS_MICRO_BEATS,
        searching_for_step: false,
    };
    let out = s.process_buffer(&playing_snapshot(4_007_800, 120_000), 512);
    assert_eq!(out.events, chord_at(0));
    assert!(s.last_playing);
    assert_eq!(s.last_pos_micro_beats, 4_007_800);
}

#[test]
fn missed_boundary_emits_at_buffer_start() {
    // beat 3.2 -> 4.1 between two consecutive playing buffers while seeking
    let mut s = SchedulerState {
        sample_rate_hz: Some(48_000),
        last_playing: true,
        last_pos_micro_beats: 3_200_000,
        searching_for_step: true,
    };
    let out = s.process_buffer(&playing_snapshot(4_100_000, 120_000), 512);
    assert_eq!(out.events, chord_at(0));
    assert_eq!(out.advisory, None);
    assert!(s.searching_for_step);
    assert_eq!(s.last_pos_micro_beats, 4_100_000);
}

#[test]
fn missed_boundary_needs_no_step_clock() {
    // same catch-up with no sample rate cached at all: still emitted
    let mut s = SchedulerState {
        sample_rate_hz: None,
        last_playing: true,
        last_pos_micro_beats: 3_200_000,
        searching_for_step: true,
    };
    let out = s.process_buffer(&playing_snapshot(4_100_000, 120_000), 512);
    assert_eq!(out.events, chord_at(0));
    assert_eq!(out.advisory, None);
}

#[test]
fn near_boundary_resume_lands_on_the_beat() {
    // 120 BPM, resume at beat 4.0078: within 1/32 step of boundary 4.0
    let mut s = SchedulerState {
        sample_rate_hz: Some(48_000),
        last_playing: false,
        last_pos_micro_beats: SENTINEL_LAST_POS_MICRO_BEATS,
        searching_for_step: true,
    };
    let out = s.process_buffer(&playing_snapshot(4_007_800, 120_000), 512);
    assert_eq!(out.events, chord_at(0));
    assert_eq!(out.advisory, None);
}

#[test]
fn resume_outside_window_waits_for_next_boundary() {
    // 120 BPM, resume at beat 4.02: outside the 1/32-step window, and the
    // next boundary (5.0) is far beyond a 512-sample buffer
    let mut s = SchedulerState {
        sample_rate_hz: Some(48_000),
        last_playing: false,
        last_pos_micro_beats: SENTINEL_LAST_POS_MICRO_BEATS,
        searching_for_step: true,
    };
    let out = s.process_buffer(&playing_snapshot(4_020_000, 120_000), 512);
    assert!(out.events.is_empty());
    assert_eq!(out.advisory, None);
    assert!(s.searching_for_step);
}

#[test]
fn boundary_beyond_buffer_emits_nothing() {
    // beat 3.75 at 120 BPM, 48 kHz, 512 samples: 0.125 s remain, the
    // buffer spans ~0.0107 s, so no event this call
    let mut s = SchedulerState {
        sample_rate_hz: Some(48_000),
        last_playing: true,
        last_pos_micro_beats: 3_700_000,
        searching_for_step: true,
    };
    let out = s.process_buffer(&playing_snapshot(3_750_000, 120_000), 512);
    assert!(out.events.is_empty());
    assert_eq!(out.advisory, None);
    assert!(s.searching_for_step);
    assert_eq!(s.last_pos_micro_beats, 3_750_000);
}

#[test]
fn boundary_inside_buffer_emits_at_exact_offset() {
    // beat 3.9 at 120 BPM, 48 kHz, 4800 samples: 0.05 s remain = sample
    // 2400, inside the 0.1 s buffer
    let mut s = SchedulerState {
        sample_rate_hz: Some(48_000),
        last_playing: true,
        last_pos_micro_beats: 3_850_000,
        searching_for_step: true,
    };
    let out = s.process_buffer(&playing_snapshot(3_900_000, 120_000), 4800);
    assert_eq!(out.events, chord_at(2400));
    assert_eq!(out.advisory, None);
    assert!(!s.searching_for_step);
}

#[test]
fn offset_rounds_half_up() {
    // 120 BPM, 2 Hz, half a beat remaining: 0.25 s remain = 0.5 samples,
    // which rounds up to sample 1 of a 2-sample buffer
    let mut s = SchedulerState {
        sample_rate_hz: Some(2),
        last_playing: true,
        last_pos_micro_beats: 3_400_000,
        searching_for_step: true,
    };
    let out = s.process_buffer(&playing_snapshot(3_500_000, 120_000), 2);
    assert_eq!(out.events, chord_at(1));
}

#[test]
fn offset_at_buffer_end_is_discarded() {
    // as above but with a 1-sample buffer: the rounded offset equals the
    // buffer length and the event is discarded, not clamped
    let mut s = SchedulerState {
        sample_rate_hz: Some(2),
        last_playing: true,
        last_pos_micro_beats: 3_400_000,
        searching_for_step: true,
    };
    let out = s.process_buffer(&playing_snapshot(3_500_000, 120_000), 1);
    assert!(out.events.is_empty());
    assert_eq!(out.advisory, Some(Advisory::OffsetOutOfRange));
    assert!(!s.searching_for_step);
}

#[test]
fn preroll_buffer_changes_nothing() {
    let mut s = SchedulerState {
        sample_rate_hz: Some(48_000),
        last_playing: false,
        last_pos_micro_beats: 2_500_000,
        searching_for_step: false,
    };
    let t = TransportSnapshot {
        playing: true,
        preroll_active: true,
        tempo_milli_bpm: Some(120_000),
        pos_micro_beats: Some(4_100_000),
        pos_samples: Some(12_345),
    };
    let out = s.process_buffer(&t, 512);
    assert!(out.events.is_empty());
    assert_eq!(out.advisory, None);
    assert!(!s.last_playing);
    assert_eq!(s.last_pos_micro_beats, 2_500_000);
    assert!(!s.searching_for_step);
}

#[test]
fn missing_beat_position_skips_but_records_playing() {
    let mut s = SchedulerState {
        sample_rate_hz: Some(48_000),
        last_playing: false,
        last_pos_micro_beats: 2_500_000,
        searching_for_step: false,
    };
    let t = TransportSnapshot {
        playing: true,
        preroll_active: false,
        tempo_milli_bpm: Some(120_000),
        pos_micro_beats: None,
        pos_samples: None,
    };
    let out = s.process_buffer(&t, 512);
    assert!(out.events.is_empty());
    assert_eq!(out.advisory, Some(Advisory::MissingBeatPosition));
    assert!(s.last_playing);
    // no position to record, but the resume edge still re-armed the search
    assert_eq!(s.last_pos_micro_beats, 2_500_000);
    assert!(s.searching_for_step);
}

#[test]
fn missing_tempo_skips_but_records_position() {
    let mut s = SchedulerState {
        sample_rate_hz: Some(48_000),
        last_playing: true,
        last_pos_micro_beats: 2_500_000,
        searching_for_step: true,
    };
    let t = TransportSnapshot {
        playing: true,
        preroll_active: false,
        tempo_milli_bpm: None,
        pos_micro_beats: Some(2_600_000),
        pos_samples: None,
    };
    let out = s.process_buffer(&t, 512);
    assert!(out.events.is_empty());
    assert_eq!(out.advisory, Some(Advisory::MissingTempo));
    assert_eq!(s.last_pos_micro_beats, 2_600_000);
}

#[test]
fn uninitialized_sample_rate_skips() {
    // process before initialize, from a position inside the beat already
    // seen, so only the normal search could emit -- and it cannot run
    let mut s2 = SchedulerState {
        sample_rate_hz: None,
        last_playing: true,
        last_pos_micro_beats: 3_700_000,
        searching_for_step: true,
    };
    let out2 = s2.process_buffer(&playing_snapshot(3_750_000, 120_000), 512);
    assert!(out2.events.is_empty());
    assert_eq!(out2.advisory, Some(Advisory::MissingSampleRate));
}

#[test]
fn zero_sample_rate_is_unusable() {
    let mut s = SchedulerState {
        sample_rate_hz: Some(0),
        last_playing: true,
        last_pos_micro_beats: 3_700_000,
        searching_for_step: true,
    };
    let out = s.process_buffer(&playing_snapshot(3_750_000, 120_000), 512);
    assert!(out.events.is_empty());
    assert_eq!(out.advisory, Some(Advisory::MissingSampleRate));
}

#[test]
fn tracking_rearms_on_the_next_buffer() {
    // a buffer that emits leaves Tracking; the following buffer, with the
    // next boundary far ahead, re-enters Seeking
    let mut s = SchedulerState {
        sample_rate_hz: Some(48_000),
        last_playing: true,
        last_pos_micro_beats: 3_850_000,
        searching_for_step: true,
    };
    let out = s.process_buffer(&playing_snapshot(3_900_000, 120_000), 4800);
    assert_eq!(out.events.len(), 2);
    assert!(!s.searching_for_step);
    let out2 = s.process_buffer(&playing_snapshot(4_000_000, 120_000), 512);
    assert!(out2.events.is_empty());
    assert!(s.searching_for_step);
}

#[test]
fn first_playing_buffer_from_fresh_state_catches_initial_beat() {
    // fresh state: last_playing true, sentinel position; the first playing
    // buffer at beat 0.0 crosses floor(-1) -> floor(0) and emits at 0
    let mut s = SchedulerState::new();
    s.initialize(48_000);
    let out = s.process_buffer(&playing_snapshot(0, 120_000), 512);
    assert_eq!(out.events, chord_at(0));
}
