use vstd::prelude::*;

use crate::{clamp_spec, clamp_volume, VOLUME_SCALE};
use crate::state::{Locator, PipelineState, PlaybackStats, PlayerState, SeekError, phase_step_valid, player_state_of};

verus! {

/// The bounded wall-clock window, in milliseconds, within which the
/// cue-track start seek must succeed; exhausting it is fatal.
pub const CUE_SEEK_WINDOW_MILLIS: u64 = 20;

/// How long to wait between cue-seek attempts, in milliseconds.
pub const CUE_SEEK_POLL_MILLIS: u64 = 1;

/// How long to wait between readiness polls after loading a plain
/// resource, in milliseconds.
pub const READY_POLL_MILLIS: u64 = 10;

/// An absolute engine seek the host must perform: mute the engine, issue a
/// flushing seek to `target_nanos`, then restore the volume to
/// `restore_volume` (in millionths of full scale).
#[derive(Debug, Clone, Copy, PartialEq, Eq, Structural)]
pub struct SeekPlan {
    pub target_nanos: i64,
    pub restore_volume: i64,
}

/// The engine/monitor directives of a `stop`: set the engine to `first`,
/// then to `second`, and announce `phase` to the monitor.
#[derive(Debug, Clone, Copy, PartialEq, Eq, Structural)]
pub struct StopPlan {
    pub first: PipelineState,
    pub second: PipelineState,
    pub phase: PlaybackStats,
}

/// The teardown directives: drive the engine to `engine_state` and announce
/// `phase` to the monitor, which then exits.
#[derive(Debug, Clone, Copy, PartialEq, Eq, Structural)]
pub struct ShutdownPlan {
    pub engine_state: PipelineState,
    pub phase: PlaybackStats,
}

/// What the host must do after the coordinator accepts a new source. In
/// both variants it first announces `Switching`, loads `uri` into the
/// engine, and starts playback. For a cue track it then announces `phase`
/// and retries a seek to the track-relative `seek_target` under the
/// cue-seek deadline; for a plain resource it polls until the engine
/// reports a changed resource and a known position, then finishes with
/// `finish_plain_source`.
#[derive(Debug, Clone, PartialEq, Eq)]
pub enum SourcePlan {
    Cue { uri: String, phase: PlaybackStats, seek_target: i64 },
    Plain { uri: String },
}

/// The decision after one cue-seek attempt: stop on success, retry while
/// the deadline window has not elapsed, and fail fatally once it has.
#[derive(Debug, Clone, Copy, PartialEq, Eq, Structural)]
pub enum CueSeekStep {
    Done,
    Retry,
    Fatal,
}

/// Where an absolute seek lands: `target` is track-relative, so the engine
/// target is `target + start`, clamped into the raw window `[start, end]`.
pub open spec fn clamped_seek(target: int, start: int, end: int) -> int
    recommends
        start <= end,
{
    clamp_spec(target + start, start, end)
}

/// The playback coordinator's own state: the façade the caller drives.
/// Engine commands and the blocking waits live with the host; every
/// decision — window arithmetic, clamping, phase announcements — is here.
pub struct Player {
    /// The locator most recently submitted via `set_source`.
    pub source: Option<Locator>,
    /// The stored volume, in millionths of full scale.
    pub volume: i64,
    /// The active window's absolute start, in nanoseconds.
    pub start: Option<i64>,
    /// The active window's absolute end, in nanoseconds.
    pub end: Option<i64>,
    /// The coordinator's mirror of the shared position cell: the latest
    /// track-relative position the monitor recorded.
    pub position: Option<i64>,
    /// The playback phase most recently announced to the monitor.
    pub phase: PlaybackStats,
}

impl Player {
    /// The coordinator's invariant: volume stays clamped, window offsets
    /// are non-negative, a complete window is ordered, and an announced
    /// `Playing` phase carries exactly the stored window.
    pub open spec fn wf(self) -> bool {
        &&& 0 <= self.volume <= VOLUME_SCALE
        &&& self.start matches Some(s) ==> s >= 0
        &&& self.end matches Some(e) ==> e >= 0
        &&& (self.start is Some && self.end is Some) ==> self.start->0 <= self.end->0
        &&& self.phase matches PlaybackStats::Playing { start, end } ==> self.start == Some(start)
            && self.end == Some(end)
    }

    /// What `seek_to` decides for a given track-relative target: an error
    /// naming the missing bound if the window is not fully set, else the
    /// clamped engine seek together with the volume to restore.
    pub open spec fn seek_to_spec(self, target: int) -> Result<SeekPlan, SeekError> {
        if self.start is None {
            Err(SeekError::NoStart)
        } else if self.end is None {
            Err(SeekError::NoEnd)
        } else {
            Ok(
                SeekPlan {
                    target_nanos: clamped_seek(target, self.start->0 as int, self.end->0 as int) as i64,
                    restore_volume: self.volume,
                },
            )
        }
    }

    /// A fresh coordinator: no source, full volume, no window, no position.
    pub fn new() -> (p: Player)
        ensures
            p.wf(),
            p.source is None,
            p.volume == VOLUME_SCALE,
            p.start is None,
            p.end is None,
            p.position is None,
            p.phase is Idle,
    {
        Player {
            source: None,
            volume: VOLUME_SCALE,
            start: None,
            end: None,
            position: None,
            phase: PlaybackStats::Idle,
        }
    }

    /// The locator currently loaded, if any.
    pub fn source(&self) -> (r: &Option<Locator>)
        ensures
            *r == self.source,
    {
        &self.source
    }

    /// Stores `volume` clamped into `[0, VOLUME_SCALE]` and returns the
    /// stored value, which the host forwards to the engine.
    pub fn set_volume(&mut self, volume: i64) -> (r: i64)
        ensures
            final(self).volume == clamp_spec(volume as int, 0, VOLUME_SCALE as int),
            r == final(self).volume,
            final(self).source == old(self).source,
            final(self).start == old(self).start,
            final(self).end == old(self).end,
            final(self).position == old(self).position,
            final(self).phase == old(self).phase,
            old(self).wf() ==> final(self).wf(),
    {
        self.volume = clamp_volume(volume);
        self.volume
    }

    /// The stored volume, in millionths of full scale.
    pub fn volume(&mut self) -> (r: i64)
        ensures
            r == old(self).volume,
            *final(self) == *old(self),
    {
        self.volume
    }

    /// The engine state a `ready` request asks for.
    pub fn ready(&mut self) -> (s: PipelineState)
        ensures
            s is Ready,
            *final(self) == *old(self),
    {
        PipelineState::Ready
    }

    /// The engine state a `play` request asks for.
    pub fn play(&mut self) -> (s: PipelineState)
        ensures
            s is Playing,
            *final(self) == *old(self),
    {
        PipelineState::Playing
    }

    /// The engine state a `pause` request asks for.
    pub fn pause(&mut self) -> (s: PipelineState)
        ensures
            s is Paused,
            *final(self) == *old(self),
    {
        PipelineState::Paused
    }

    /// The engine state a `resume` request asks for.
    pub fn resume(&mut self) -> (s: PipelineState)
        ensures
            s is Playing,
            *final(self) == *old(self),
    {
        PipelineState::Playing
    }

    /// Whether the engine, currently reporting `current`, is paused.
    pub fn is_paused(&self, current: PipelineState) -> (r: bool)
        ensures
            r == (current is Paused),
    {
        matches!(current, PipelineState::Paused)
    }

    /// The caller-facing playback state for the engine's reported state.
    pub fn state(&self, current: PipelineState) -> (r: PlayerState)
        ensures
            r == player_state_of(current),
    {
        PlayerState::from(current)
    }

    /// The latest track-relative position the monitor recorded, if any.
    pub fn position(&mut self) -> (r: Option<i64>)
        ensures
            r == old(self).position,
            *final(self) == *old(self),
    {
        self.position
    }

    /// Records the monitor's latest write to the shared position cell.
    pub fn record_position(&mut self, cell: Option<i64>)
        ensures
            final(self).position == cell,
            final(self).source == old(self).source,
            final(self).volume == old(self).volume,
            final(self).start == old(self).start,
            final(self).end == old(self).end,
            final(self).phase == old(self).phase,
            old(self).wf() ==> final(self).wf(),
    {
        self.position = cell;
    }

    /// The active track's length: `end - start` while a window is set,
    /// else the engine's raw duration report `raw`, if any.
    pub fn duration(&mut self, raw: Option<i64>) -> (r: Option<i64>)
        requires
            old(self).wf(),
        ensures
            *final(self) == *old(self),
            (old(self).start is Some && old(self).end is Some) ==> r == Some(
                (old(self).end->0 - old(self).start->0) as i64,
            ),
            !(old(self).start is Some && old(self).end is Some) ==> r == raw,
    {
        if self.end.is_some() && self.start.is_some() {
            Some(self.end.unwrap() - self.start.unwrap())
        } else {
            raw
        }
    }

    /// Resolves a track-relative absolute seek: fails while the window is
    /// not fully set, else clamps `target + start` into `[start, end]` and
    /// returns the engine seek to perform.
    pub fn seek_to(&mut self, target: i64) -> (r: Result<SeekPlan, SeekError>)
        requires
            old(self).wf(),
        ensures
            *final(self) == *old(self),
            r == old(self).seek_to_spec(target as int),
    {
        let start: i64 = match self.start {
            Some(s) => s,
            None => {
                return Err(SeekError::NoStart);
            },
        };
        let end: i64 = match self.end {
            Some(e) => e,
            None => {
                return Err(SeekError::NoEnd);
            },
        };
        let clamped: i64 = if target <= 0 {
            start
        } else if target >= end - start {
            end
        } else {
            start + target
        };
        Ok(SeekPlan { target_nanos: clamped, restore_volume: self.volume })
    }

    /// Resolves a seek relative to the current position: fails while no
    /// position is known, else seeks to `position + delta`, clamped as
    /// `seek_to` clamps.
    pub fn seek_by(&mut self, delta: i64) -> (r: Result<SeekPlan, SeekError>)
        requires
            old(self).wf(),
            old(self).position matches Some(p) ==> i64::MIN <= p + delta <= i64::MAX,
        ensures
            *final(self) == *old(self),
            old(self).position is None ==> r == Err::<SeekPlan, SeekError>(SeekError::NoPosition),
            old(self).position matches Some(p) ==> r == old(self).seek_to_spec(p + delta),
    {
        let pos: i64 = match self.position {
            Some(p) => p,
            None => {
                return Err(SeekError::NoPosition);
            },
        };
        self.seek_to(pos + delta)
    }

    /// Stops playback: directs the host to pause, then hold the engine at
    /// `Ready`, announces `Idle` to the monitor, and clears the window and
    /// the position.
    pub fn stop(&mut self) -> (plan: StopPlan)
        requires
            !(old(self).phase is Finished),
        ensures
            plan.first is Paused,
            plan.second is Ready,
            plan.phase is Idle,
            final(self).position is None,
            final(self).start is None,
            final(self).end is None,
            final(self).phase is Idle,
            phase_step_valid(old(self).phase, final(self).phase),
            final(self).source == old(self).source,
            final(self).volume == old(self).volume,
            old(self).wf() ==> final(self).wf(),
    {
        self.position = None;
        self.start = None;
        self.end = None;
        self.phase = PlaybackStats::Idle;
        StopPlan {
            first: PipelineState::Paused,
            second: PipelineState::Ready,
            phase: PlaybackStats::Idle,
        }
    }

    /// Tears the coordinator down: directs the host to drive the engine to
    /// `Null` and to announce `Finished`, on which the monitor clears the
    /// position cell and exits.
    pub fn shutdown(&mut self) -> (plan: ShutdownPlan)
        requires
            !(old(self).phase is Finished),
        ensures
            plan.engine_state is Null,
            plan.phase is Finished,
            final(self).phase is Finished,
            phase_step_valid(old(self).phase, final(self).phase),
            final(self).source == old(self).source,
            final(self).volume == old(self).volume,
            final(self).start == old(self).start,
            final(self).end == old(self).end,
            final(self).position == old(self).position,
    {
        self.phase = PlaybackStats::Finished;
        ShutdownPlan { engine_state: PipelineState::Null, phase: PlaybackStats::Finished }
    }

    /// Accepts a new source. For a cue track the window is the cue's own
    /// bounds and the plan announces `Playing` at once, with a retried seek
    /// to the track's own start (track-relative zero); for a plain resource
    /// the window stays untouched until `finish_plain_source`.
    pub fn set_source(&mut self, source: &Locator) -> (plan: SourcePlan)
        requires
            old(self).wf(),
            source.wf(),
            !(old(self).phase is Finished),
        ensures
            final(self).wf(),
            final(self).source == Some(*source),
            final(self).volume == old(self).volume,
            final(self).position == old(self).position,
            phase_step_valid(old(self).phase, PlaybackStats::Switching),
            phase_step_valid(PlaybackStats::Switching, final(self).phase),
            *source matches Locator::Cue { uri, start, end } ==> {
                &&& final(self).start == Some(start)
                &&& final(self).end == Some(end)
                &&& final(self).phase == (PlaybackStats::Playing { start, end })
                &&& plan matches SourcePlan::Cue { uri: pu, phase, seek_target } && pu@ == uri@
                    && phase == (PlaybackStats::Playing { start, end }) && seek_target == 0
            },
            *source matches Locator::Plain { uri } ==> {
                &&& final(self).start == old(self).start
                &&& final(self).end == old(self).end
                &&& final(self).phase is Switching
                &&& plan matches SourcePlan::Plain { uri: pu } && pu@ == uri@
            },
    {
        match source {
            Locator::Cue { uri, start, end } => {
                self.source = Some(
                    Locator::Cue { uri: uri.clone(), start: *start, end: *end },
                );
                self.start = Some(*start);
                self.end = Some(*end);
                self.phase = PlaybackStats::Playing { start: *start, end: *end };
                SourcePlan::Cue {
                    uri: uri.clone(),
                    phase: PlaybackStats::Playing { start: *start, end: *end },
                    seek_target: 0,
                }
            },
            Locator::Plain { uri } => {
                self.source = Some(Locator::Plain { uri: uri.clone() });
                self.phase = PlaybackStats::Switching;
                SourcePlan::Plain { uri: uri.clone() }
            },
        }
    }

    /// Accepts the next track; the plan is exactly that of `set_source`.
    pub fn enqueue_next(&mut self, next_track: &Locator) -> (plan: SourcePlan)
        requires
            old(self).wf(),
            next_track.wf(),
            !(old(self).phase is Finished),
        ensures
            final(self).wf(),
            final(self).source == Some(*next_track),
            final(self).volume == old(self).volume,
            final(self).position == old(self).position,
            phase_step_valid(old(self).phase, PlaybackStats::Switching),
            phase_step_valid(PlaybackStats::Switching, final(self).phase),
            *next_track matches Locator::Cue { uri, start, end } ==> {
                &&& final(self).start == Some(start)
                &&& final(self).end == Some(end)
                &&& final(self).phase == (PlaybackStats::Playing { start, end })
                &&& plan matches SourcePlan::Cue { uri: pu, phase, seek_target } && pu@ == uri@
                    && phase == (PlaybackStats::Playing { start, end }) && seek_target == 0
            },
            *next_track matches Locator::Plain { uri } ==> {
                &&& final(self).start == old(self).start
                &&& final(self).end == old(self).end
                &&& final(self).phase is Switching
                &&& plan matches SourcePlan::Plain { uri: pu } && pu@ == uri@
            },
    {
        self.set_source(next_track)
    }

    /// Completes a plain-resource load once the engine reports a raw
    /// duration: the window becomes `[0, raw_duration]` and the returned
    /// phase announces it to the monitor.
    pub fn finish_plain_source(&mut self, raw_duration: i64) -> (phase: PlaybackStats)
        requires
            old(self).wf(),
            raw_duration >= 0,
            old(self).phase is Switching,
        ensures
            final(self).wf(),
            final(self).start == Some(0i64),
            final(self).end == Some(raw_duration),
            phase == (PlaybackStats::Playing { start: 0i64, end: raw_duration }),
            phase.wf(),
            final(self).phase == phase,
            phase_step_valid(old(self).phase, final(self).phase),
            final(self).source == old(self).source,
            final(self).volume == old(self).volume,
            final(self).position == old(self).position,
    {
        self.start = Some(0);
        self.end = Some(raw_duration);
        self.phase = PlaybackStats::Playing { start: 0, end: raw_duration };
        PlaybackStats::Playing { start: 0, end: raw_duration }
    }
}

/// The decision after one cue-seek attempt, given how many milliseconds
/// have elapsed since the attempts began: success ends the retries; a
/// failure retries while the deadline window has not elapsed, and becomes
/// fatal once it has — the deadline is never extended.
pub fn cue_seek_step(elapsed_millis: u64, seek_ok: bool) -> (r: CueSeekStep)
    ensures
        r is Done <==> seek_ok,
        r is Fatal <==> (!seek_ok && elapsed_millis >= CUE_SEEK_WINDOW_MILLIS),
        r is Retry <==> (!seek_ok && elapsed_millis < CUE_SEEK_WINDOW_MILLIS),
{
    if seek_ok {
        CueSeekStep::Done
    } else if elapsed_millis >= CUE_SEEK_WINDOW_MILLIS {
        CueSeekStep::Fatal
    } else {
        CueSeekStep::Retry
    }
}

/// Whether a freshly loaded plain resource is ready to be measured: the
/// engine must report a resource different from the one loaded before, and
/// the position cell must hold a value.
pub fn plain_source_ready(uri_changed: bool, position_known: bool) -> (r: bool)
    ensures
        r == (uri_changed && position_known),
{
    uri_changed && position_known
}

/// Seek clamp law: wherever the window is ordered, the engine target a
/// seek resolves to lies in `[start, end]`, whatever the requested target;
/// a target that lands inside the window is taken exactly.
pub proof fn lemma_seek_clamp(target: int, start: int, end: int)
    requires
        start <= end,
    ensures
        start <= clamped_seek(target, start, end) <= end,
        start <= target + start <= end ==> clamped_seek(target, start, end) == target + start,
{
}

/// Volume clamp law: the stored volume always lies in `[0, VOLUME_SCALE]`,
/// and a request already in range is stored unchanged.
pub proof fn lemma_volume_clamp(v: int)
    ensures
        0 <= clamp_spec(v, 0, VOLUME_SCALE as int) <= VOLUME_SCALE,
        0 <= v <= VOLUME_SCALE ==> clamp_spec(v, 0, VOLUME_SCALE as int) == v,
{
}

} // verus!

