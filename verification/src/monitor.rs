use vstd::prelude::*;

use crate::state::{PlaybackStats, PlayerCmd};

verus! {

/// How far before a track's end the `AboutToFinish` notification fires,
/// in nanoseconds (250 ms).
pub const FINISH_MARGIN_NANOS: i64 = 250_000_000;

/// How long the monitor waits for a fresh phase each iteration before
/// re-using the last known one, in milliseconds.
pub const MONITOR_TICK_MILLIS: u64 = 100;

/// The raw position at which `AboutToFinish` arms for a window ending at
/// `end`.
pub open spec fn finish_point(end: int) -> int {
    end - FINISH_MARGIN_NANOS
}

/// A raw (resource-absolute) position rebased to be track-relative, clamped
/// into the window: positions below `start` are treated as the track's own
/// zero rather than rebased negative, and positions at or past `end` as the
/// track's full length.
pub open spec fn rebased(raw: int, start: int, end: int) -> int
    recommends
        0 <= start <= end,
{
    if raw <= start {
        0
    } else if raw >= end {
        end - start
    } else {
        raw - start
    }
}

/// The lifecycle event one monitor iteration emits: boundary detection runs
/// only in the `Playing` phase and only when the engine reported a position,
/// and compares the raw position against the raw window bounds.
pub open spec fn monitor_event_spec(stats: PlaybackStats, raw: Option<i64>) -> Option<PlayerCmd> {
    match stats {
        PlaybackStats::Playing { start, end } => match raw {
            Some(p) => if p >= end {
                Some(PlayerCmd::Eos)
            } else if p >= finish_point(end as int) {
                Some(PlayerCmd::AboutToFinish)
            } else {
                None
            },
            None => None,
        },
        _ => None,
    }
}

/// Whether one monitor iteration forces the engine to `Ready`: exactly when
/// it observes the raw position at or past the window's end.
pub open spec fn monitor_force_ready_spec(stats: PlaybackStats, raw: Option<i64>) -> bool {
    match stats {
        PlaybackStats::Playing { start, end } => raw matches Some(p) && p >= end,
        _ => false,
    }
}

/// The value one monitor iteration writes into the shared position cell:
/// track-relative while `Playing`, cleared on `Finished`, and the raw
/// engine report (possibly absent) while `Idle` or `Switching`.
pub open spec fn monitor_cell_spec(stats: PlaybackStats, raw: Option<i64>) -> Option<i64> {
    match stats {
        PlaybackStats::Playing { start, end } => match raw {
            Some(p) => Some(rebased(p as int, start as int, end as int) as i64),
            None => None,
        },
        PlaybackStats::Finished => None,
        PlaybackStats::Idle => raw,
        PlaybackStats::Switching => raw,
    }
}

/// Everything one iteration of the position monitor decides: the lifecycle
/// event to emit (if any), whether to force the engine to `Ready`, the new
/// value of the shared position cell, and whether the monitor must exit.
#[derive(Debug, Clone, Copy, PartialEq, Eq, Structural)]
pub struct MonitorOutcome {
    pub event: Option<PlayerCmd>,
    pub force_ready: bool,
    pub cell: Option<i64>,
    pub finished: bool,
}

/// One iteration of the position monitor, as a pure decision: `stats` is
/// the current playback phase and `raw` the freshest raw engine position
/// read in this same iteration.
pub fn monitor_step(stats: &PlaybackStats, raw: Option<i64>) -> (o: MonitorOutcome)
    requires
        stats.wf(),
    ensures
        o.event == monitor_event_spec(*stats, raw),
        o.force_ready == monitor_force_ready_spec(*stats, raw),
        o.cell == monitor_cell_spec(*stats, raw),
        o.finished == (*stats is Finished),
{
    match stats {
        PlaybackStats::Playing { start, end } => match raw {
            Some(p) => {
                let event: Option<PlayerCmd> = if p >= *end {
                    Some(PlayerCmd::Eos)
                } else if p >= *end - FINISH_MARGIN_NANOS {
                    Some(PlayerCmd::AboutToFinish)
                } else {
                    None
                };
                let rebase: i64 = if p <= *start {
                    0
                } else if p >= *end {
                    *end - *start
                } else {
                    p - *start
                };
                MonitorOutcome {
                    event,
                    force_ready: p >= *end,
                    cell: Some(rebase),
                    finished: false,
                }
            },
            None => MonitorOutcome { event: None, force_ready: false, cell: None, finished: false },
        },
        PlaybackStats::Finished => MonitorOutcome {
            event: None,
            force_ready: false,
            cell: None,
            finished: true,
        },
        _ => MonitorOutcome { event: None, force_ready: false, cell: raw, finished: false },
    }
}

/// Rebasing law: for a well-formed window, the track-relative position
/// always lies in `[0, end - start]`, and equals `raw - start` exactly on
/// the raw positions inside the window; a raw position below `start` is
/// clamped to zero, never rebased negative.
pub proof fn lemma_rebased_in_window(raw: int, start: int, end: int)
    requires
        0 <= start <= end,
    ensures
        0 <= rebased(raw, start, end) <= end - start,
        start <= raw <= end ==> rebased(raw, start, end) == raw - start,
        raw < start ==> rebased(raw, start, end) == 0,
{
}

/// End-of-stream law: in a well-formed `Playing` phase, an iteration emits
/// `Eos` exactly when it observes a raw position at or past the window's
/// end, and exactly those iterations force the engine to `Ready`.
pub proof fn lemma_eos_forces_ready(stats: PlaybackStats, raw: Option<i64>)
    requires
        stats.wf(),
    ensures
        monitor_event_spec(stats, raw) == Some(PlayerCmd::Eos) <==> (stats matches
            PlaybackStats::Playing { start, end } && raw matches Some(p) && p >= end),
        monitor_event_spec(stats, raw) == Some(PlayerCmd::Eos) <==> monitor_force_ready_spec(
            stats,
            raw,
        ),
        monitor_event_spec(stats, None) is None,
{
}

/// The number of reads in `reads` that lie at or past `end`.
pub open spec fn past_end_count(end: int, reads: Seq<Option<i64>>) -> int
    decreases reads.len(),
{
    if reads.len() == 0 {
        0
    } else {
        (if reads[0] matches Some(p) && p >= end {
            1int
        } else {
            0int
        }) + past_end_count(end, reads.drop_first())
    }
}

/// The number of `Eos` events the monitor emits over the reads of `reads`,
/// all taken within the unchanged phase `stats`.
pub open spec fn eos_count(stats: PlaybackStats, reads: Seq<Option<i64>>) -> int
    decreases reads.len(),
{
    if reads.len() == 0 {
        0
    } else {
        (if monitor_event_spec(stats, reads[0]) == Some(PlayerCmd::Eos) {
            1int
        } else {
            0int
        }) + eos_count(stats, reads.drop_first())
    }
}

/// Counting law for end-of-stream: within one unchanged, well-formed
/// `Playing` phase, the monitor emits one `Eos` for exactly the iterations
/// whose read lies at or past the window's end — a trace that observes the
/// end exactly once emits exactly one `Eos` until the phase changes.
pub proof fn lemma_eos_once_per_observation(start: i64, end: i64, reads: Seq<Option<i64>>)
    requires
        0 <= start <= end,
    ensures
        eos_count(PlaybackStats::Playing { start, end }, reads) == past_end_count(
            end as int,
            reads,
        ),
    decreases reads.len(),
{
    if reads.len() > 0 {
        lemma_eos_once_per_observation(start, end, reads.drop_first());
    }
}

/// Near-end law: for a window strictly longer than the finish margin, the
/// `AboutToFinish` region `[end - margin, end)` is non-empty, lies strictly
/// before `end`, every raw position in it emits `AboutToFinish`, and no raw
/// position strictly below `end` ever emits `Eos` — so `AboutToFinish` fires
/// strictly before the raw position reaches `end`.
pub proof fn lemma_about_to_finish_before_eos(start: i64, end: i64, p: i64)
    requires
        0 <= start <= end,
        end - start > FINISH_MARGIN_NANOS,
    ensures
        finish_point(end as int) < end,
        start < finish_point(end as int),
        finish_point(end as int) <= p < end ==> monitor_event_spec(
            PlaybackStats::Playing { start, end },
            Some(p),
        ) == Some(PlayerCmd::AboutToFinish),
        p < end ==> monitor_event_spec(PlaybackStats::Playing { start, end }, Some(p)) != Some(
            PlayerCmd::Eos,
        ),
{
}

} // verus!
