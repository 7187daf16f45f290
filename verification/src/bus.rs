use vstd::prelude::*;

use crate::state::PipelineState;

verus! {

/// The engine's asynchronous bus notifications, as the listener reads them:
/// end-of-stream, the start of a new stream, a pipeline fault, or anything
/// else.
#[derive(Debug, Clone, Copy, PartialEq, Eq, Structural)]
pub enum BusNote {
    Eos,
    StreamStart,
    Fault,
    Other,
}

/// The bus listener's reaction to one notification: the engine states to
/// set, in order. A fault is recovered in place by bouncing the engine
/// through `Ready` back to `Playing`; everything else — end-of-stream
/// included, since end-of-track detection belongs to the position monitor's
/// boundary arithmetic alone — changes nothing.
pub fn bus_reaction(note: &BusNote) -> (acts: Vec<PipelineState>)
    ensures
        *note is Fault ==> acts@ =~= seq![PipelineState::Ready, PipelineState::Playing],
        !(*note is Fault) ==> acts@ =~= Seq::<PipelineState>::empty(),
{
    let mut acts: Vec<PipelineState> = Vec::new();
    match note {
        BusNote::Fault => {
            acts.push(PipelineState::Ready);
            acts.push(PipelineState::Playing);
        },
        _ => {},
    }
    acts
}

} // verus!
