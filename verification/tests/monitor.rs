use playback_core::bus::{bus_reaction, BusNote};
use playback_core::monitor::{monitor_step, FINISH_MARGIN_NANOS};
use playback_core::state::{PipelineState, PlaybackStats, PlayerCmd};

const SEC: i64 = 1_000_000_000;

#[test]
fn eos_at_window_end_forces_ready() {
    // Raw position at the window end: exactly one Eos, engine forced to
    // Ready, position rebased to the full track length.
    let phase = PlaybackStats::Playing { start: 10 * SEC, end: 40 * SEC };
    let o = monitor_step(&phase, Some(40 * SEC));
    assert_eq!(o.event, Some(PlayerCmd::Eos));
    assert!(o.force_ready);
    assert_eq!(o.cell, Some(30 * SEC));
    assert!(!o.finished);
}

#[test]
fn eos_past_window_end_is_clamped() {
    let phase = PlaybackStats::Playing { start: 10 * SEC, end: 40 * SEC };
    let o = monitor_step(&phase, Some(41 * SEC));
    assert_eq!(o.event, Some(PlayerCmd::Eos));
    assert!(o.force_ready);
    assert_eq!(o.cell, Some(30 * SEC));
}

#[test]
fn about_to_finish_fires_inside_margin() {
    // The freshest raw position has entered the 250 ms pre-end margin but
    // not the end: AboutToFinish, no forced state change.
    let phase = PlaybackStats::Playing { start: 10 * SEC, end: 40 * SEC };
    let o = monitor_step(&phase, Some(40 * SEC - FINISH_MARGIN_NANOS));
    assert_eq!(o.event, Some(PlayerCmd::AboutToFinish));
    assert!(!o.force_ready);
    assert_eq!(o.cell, Some(30 * SEC - FINISH_MARGIN_NANOS));
}

#[test]
fn no_event_before_the_margin() {
    let phase = PlaybackStats::Playing { start: 10 * SEC, end: 40 * SEC };
    let o = monitor_step(&phase, Some(40 * SEC - FINISH_MARGIN_NANOS - 1));
    assert_eq!(o.event, None);
    assert!(!o.force_ready);
    assert_eq!(o.cell, Some(30 * SEC - FINISH_MARGIN_NANOS - 1));
}

#[test]
fn about_to_finish_comes_before_eos() {
    // Walking the raw position toward the end: the margin entry emits
    // AboutToFinish strictly before any position reaches the end.
    let phase = PlaybackStats::Playing { start: 0, end: 2 * SEC };
    let near = monitor_step(&phase, Some(2 * SEC - FINISH_MARGIN_NANOS));
    let done = monitor_step(&phase, Some(2 * SEC));
    assert_eq!(near.event, Some(PlayerCmd::AboutToFinish));
    assert!(2 * SEC - FINISH_MARGIN_NANOS < 2 * SEC);
    assert_eq!(done.event, Some(PlayerCmd::Eos));
}

#[test]
fn raw_position_below_start_is_clamped_to_zero() {
    let phase = PlaybackStats::Playing { start: 10 * SEC, end: 40 * SEC };
    let o = monitor_step(&phase, Some(3 * SEC));
    assert_eq!(o.event, None);
    assert_eq!(o.cell, Some(0));
}

#[test]
fn rebase_uses_raw_bounds_not_relative_ones() {
    // A cue starting at 10s with raw position 12s is only 2s into the
    // track and far from its end: no boundary event fires.
    let phase = PlaybackStats::Playing { start: 10 * SEC, end: 40 * SEC };
    let o = monitor_step(&phase, Some(12 * SEC));
    assert_eq!(o.event, None);
    assert_eq!(o.cell, Some(2 * SEC));
}

#[test]
fn no_position_means_no_boundary_check() {
    let phase = PlaybackStats::Playing { start: 10 * SEC, end: 40 * SEC };
    let o = monitor_step(&phase, None);
    assert_eq!(o.event, None);
    assert!(!o.force_ready);
    assert_eq!(o.cell, None);
    assert!(!o.finished);
}

#[test]
fn finished_clears_cell_and_exits() {
    let o = monitor_step(&PlaybackStats::Finished, Some(5 * SEC));
    assert_eq!(o.event, None);
    assert_eq!(o.cell, None);
    assert!(o.finished);
}

#[test]
fn idle_and_switching_pass_raw_position_through() {
    let idle = monitor_step(&PlaybackStats::Idle, Some(7 * SEC));
    assert_eq!(idle.event, None);
    assert_eq!(idle.cell, Some(7 * SEC));
    assert!(!idle.finished);
    let switching = monitor_step(&PlaybackStats::Switching, None);
    assert_eq!(switching.cell, None);
    assert!(!switching.finished);
}

#[test]
fn zero_length_window_ends_at_once() {
    let phase = PlaybackStats::Playing { start: 5 * SEC, end: 5 * SEC };
    let o = monitor_step(&phase, Some(5 * SEC));
    assert_eq!(o.event, Some(PlayerCmd::Eos));
    assert!(o.force_ready);
    assert_eq!(o.cell, Some(0));
}

#[test]
fn fault_bounces_engine_through_ready() {
    let acts = bus_reaction(&BusNote::Fault);
    assert_eq!(acts, vec![PipelineState::Ready, PipelineState::Playing]);
}

#[test]
fn non_fault_bus_notes_change_nothing() {
    // End-of-stream from the bus is deliberately ignored: end-of-track
    // detection belongs to the monitor's boundary arithmetic alone.
    assert!(bus_reaction(&BusNote::Eos).is_empty());
    assert!(bus_reaction(&BusNote::StreamStart).is_empty());
    assert!(bus_reaction(&BusNote::Other).is_empty());
}
