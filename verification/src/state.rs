use vstd::prelude::*;

verus! {

/// The closed set of states the external pipeline engine can be asked to
/// take or can report. Unrecognized or in-flight transitions surface as
/// `VoidPending` rather than being dropped.
#[derive(Debug, Clone, Copy, PartialEq, Eq, Structural)]
pub enum PipelineState {
    VoidPending,
    Null,
    Ready,
    Paused,
    Playing,
}

/// The playback state reported to callers. It mirrors the engine's state,
/// with one extra variant for a buffering engine (carrying the percentage).
#[derive(Debug, Clone, Copy, PartialEq, Eq, Structural)]
pub enum PlayerState {
    Playing,
    Paused,
    Ready,
    Buffering(u8),
    Null,
    VoidPending,
}

/// Lifecycle events sent outward to the caller. `Eos` and `AboutToFinish`
/// originate in the position monitor's boundary detection.
#[derive(Debug, Clone, Copy, PartialEq, Eq, Structural)]
pub enum PlayerCmd {
    Play,
    Pause,
    Eos,
    AboutToFinish,
}

/// Errors surfaced by the coordinator.
#[derive(Debug, Clone, Copy, PartialEq, Eq, Structural)]
pub enum PlayerError {
    /// The pipeline engine could not initialize.
    Init,
    /// The engine's core element could not be constructed.
    Factory,
    /// A requested pipeline state transition was rejected.
    StateChange,
    /// An engine-side object could not be built.
    Build,
    /// A guarding lock was left inconsistent by a prior panic.
    Poison,
    /// Any other unrecoverable player fault.
    General,
}

/// Errors from the seek operations.
#[derive(Debug, Clone, Copy, PartialEq, Eq, Structural)]
pub enum SeekError {
    /// A relative seek was requested while no position is known.
    NoPosition,
    /// An absolute seek was requested while no window start is set.
    NoStart,
    /// An absolute seek was requested while no window end is set.
    NoEnd,
}

/// The playback intent sent from the coordinator to the position monitor.
/// `Finished` is terminal: on receiving it the monitor clears the position
/// cell and exits.
#[derive(Debug, Clone, Copy, PartialEq, Eq, Structural)]
pub enum PlaybackStats {
    Idle,
    Switching,
    Playing { start: i64, end: i64 },
    Finished,
}

impl PlaybackStats {
    /// A `Playing` phase always carries a well-ordered, non-negative window.
    pub open spec fn wf(self) -> bool {
        match self {
            PlaybackStats::Playing { start, end } => 0 <= start <= end,
            _ => true,
        }
    }
}

/// A resolved media locator handed in by the (external) metadata layer:
/// either a plain resource, or a cue-bounded sub-range of one resource.
/// Offsets are absolute nanosecond positions within the resource.
#[derive(Debug, Clone, PartialEq, Eq)]
pub enum Locator {
    Plain { uri: String },
    Cue { uri: String, start: i64, end: i64 },
}

impl Locator {
    /// A cue window is well-formed when `0 <= start <= end`.
    pub open spec fn wf(self) -> bool {
        match self {
            Locator::Cue { start, end, .. } => 0 <= start <= end,
            Locator::Plain { .. } => true,
        }
    }
}

/// Which phase announcements may follow one another. `Finished` is a
/// one-way terminal reachable from every live phase; a `Playing` window is
/// only ever announced right after a `Switching`; a stop (`Idle`) or a new
/// switch may interrupt any live phase.
pub open spec fn phase_step_valid(from: PlaybackStats, to: PlaybackStats) -> bool {
    match (from, to) {
        (PlaybackStats::Finished, _) => false,
        (_, PlaybackStats::Finished) => true,
        (_, PlaybackStats::Idle) => true,
        (_, PlaybackStats::Switching) => true,
        (PlaybackStats::Switching, PlaybackStats::Playing { .. }) => true,
        _ => false,
    }
}

/// Terminality law: no phase announcement whatever may follow `Finished`.
pub proof fn lemma_finished_is_terminal(to: PlaybackStats)
    ensures
        !phase_step_valid(PlaybackStats::Finished, to),
{
}

/// Window-announcement law: a `Playing` window may follow exactly a
/// `Switching` — a track is always announced through a switch first.
pub proof fn lemma_playing_follows_switching(from: PlaybackStats, start: i64, end: i64)
    ensures
        phase_step_valid(from, PlaybackStats::Playing { start, end }) <==> from is Switching,
{
}

/// What the engine's state is after it honors a successful set-state
/// request: exactly the requested state, whatever it was before.
pub open spec fn engine_after_set(prev: PipelineState, req: PipelineState) -> PipelineState {
    req
}

/// The caller-facing state corresponding to a raw engine state.
pub open spec fn player_state_of(s: PipelineState) -> PlayerState {
    match s {
        PipelineState::VoidPending => PlayerState::VoidPending,
        PipelineState::Playing => PlayerState::Playing,
        PipelineState::Paused => PlayerState::Paused,
        PipelineState::Ready => PlayerState::Ready,
        PipelineState::Null => PlayerState::Null,
    }
}

impl From<PipelineState> for PlayerState {
    fn from(value: PipelineState) -> (r: Self)
        ensures
            r == player_state_of(value),
    {
        match value {
            PipelineState::VoidPending => PlayerState::VoidPending,
            PipelineState::Playing => PlayerState::Playing,
            PipelineState::Paused => PlayerState::Paused,
            PipelineState::Ready => PlayerState::Ready,
            PipelineState::Null => PlayerState::Null,
        }
    }
}

impl vstd::std_specs::convert::FromSpecImpl<PipelineState> for PlayerState {
    open spec fn obeys_from_spec() -> bool {
        true
    }

    open spec fn from_spec(value: PipelineState) -> Self {
        player_state_of(value)
    }
}

impl PlayerState {
    /// Maps back to an engine state. Only `Buffering` has no engine
    /// counterpart and is rejected.
    pub fn try_to_pipeline(self) -> (r: Result<PipelineState, PlayerError>)
        ensures
            self is Buffering <==> r is Err,
            r is Err ==> r->Err_0 is General,
            r is Ok ==> player_state_of(r->Ok_0) == self,
    {
        match self {
            PlayerState::VoidPending => Ok(PipelineState::VoidPending),
            PlayerState::Playing => Ok(PipelineState::Playing),
            PlayerState::Paused => Ok(PipelineState::Paused),
            PlayerState::Ready => Ok(PipelineState::Ready),
            PlayerState::Null => Ok(PipelineState::Null),
            PlayerState::Buffering(_) => Err(PlayerError::General),
        }
    }
}

/// Pausing is idempotent: after a successful request for `Paused` the
/// engine is `Paused`, and a second successful request leaves it `Paused`
/// again, whatever state it started from.
pub proof fn lemma_pause_idempotent(s: PipelineState)
    ensures
        engine_after_set(s, PipelineState::Paused) is Paused,
        engine_after_set(
            engine_after_set(s, PipelineState::Paused),
            PipelineState::Paused,
        ) is Paused,
{
}

} // verus!
