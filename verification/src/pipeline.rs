//! The compute-pipeline sequencing state machine: the alternate tick
//! executor that runs the rule on a GPU. The machine itself only decides —
//! the caller polls the backend's pipeline cache, feeds the outcome in, and
//! performs whichever dispatch the state calls for.

use vstd::prelude::*;

verus! {

/// Where the compute backend stands: waiting for the program to compile
/// (`Loading`), ready to run the seeding dispatch (`Init`), or ping-ponging
/// between the two generation buffers (`Update(index)`).
#[derive(PartialEq, Eq, Structural, Copy, Clone, Debug)]
pub enum SimNodeState {
    Loading,
    Init,
    Update(usize),
}

/// What one poll of the backend's pipeline cache reported.
#[derive(PartialEq, Eq, Structural, Copy, Clone, Debug)]
pub enum PipelinePoll {
    /// The compute program is compiled and ready.
    Ready,
    /// The shader source has not finished loading yet.
    NotLoaded,
    /// The program is still queued or compiling.
    Queued,
    /// Compilation failed.
    Failed,
}

/// A compile failure is fatal for this backend: the caller must fall back to
/// the other executor or abort the run.
#[derive(PartialEq, Eq, Structural, Copy, Clone, Debug)]
pub enum PipelineError {
    ShaderInitFailed,
}

/// The dispatch the caller must perform for a state.
#[derive(PartialEq, Eq, Structural, Copy, Clone, Debug)]
pub enum DispatchAction {
    /// Nothing to run yet.
    Wait,
    /// Run the seeding dispatch that writes the first generation.
    DispatchInit,
    /// Run one update dispatch reading buffer `index` and writing the other.
    DispatchUpdate(usize),
}

/// The buffer index of an `Update` state is always 0 or 1.
pub open spec fn spec_node_wf(state: SimNodeState) -> bool {
    state matches SimNodeState::Update(i) ==> i <= 1
}

/// One step of the machine. While `Loading`, a ready init program moves to
/// `Init`, a compile failure is fatal, and anything else waits. While
/// `Init`, a ready update program starts the ping-pong at buffer 1 and
/// anything else waits. The two `Update` states alternate unconditionally,
/// one per tick.
pub open spec fn spec_pipeline_step(state: SimNodeState, poll: PipelinePoll) -> Result<
    SimNodeState,
    PipelineError,
> {
    match state {
        SimNodeState::Loading => match poll {
            PipelinePoll::Ready => Ok(SimNodeState::Init),
            PipelinePoll::Failed => Err(PipelineError::ShaderInitFailed),
            PipelinePoll::NotLoaded => Ok(SimNodeState::Loading),
            PipelinePoll::Queued => Ok(SimNodeState::Loading),
        },
        SimNodeState::Init => match poll {
            PipelinePoll::Ready => Ok(SimNodeState::Update(1)),
            _ => Ok(SimNodeState::Init),
        },
        SimNodeState::Update(i) => Ok(
            SimNodeState::Update(
                if i == 0 {
                    1
                } else {
                    0
                },
            ),
        ),
    }
}

/// Advances the pipeline machine by one poll outcome.
pub fn pipeline_step(state: SimNodeState, poll: PipelinePoll) -> (r: Result<
    SimNodeState,
    PipelineError,
>)
    requires
        spec_node_wf(state),
    ensures
        r == spec_pipeline_step(state, poll),
        r matches Ok(next) ==> spec_node_wf(next),
{
    match state {
        SimNodeState::Loading => match poll {
            PipelinePoll::Ready => Ok(SimNodeState::Init),
            PipelinePoll::Failed => Err(PipelineError::ShaderInitFailed),
            PipelinePoll::NotLoaded => Ok(SimNodeState::Loading),
            PipelinePoll::Queued => Ok(SimNodeState::Loading),
        },
        SimNodeState::Init => match poll {
            PipelinePoll::Ready => Ok(SimNodeState::Update(1)),
            _ => Ok(SimNodeState::Init),
        },
        SimNodeState::Update(i) => Ok(
            SimNodeState::Update(
                if i == 0 {
                    1
                } else {
                    0
                },
            ),
        ),
    }
}

/// The dispatch each state calls for: nothing while loading, the seeding
/// dispatch once the init program is ready, and one update dispatch per tick
/// reading the state's buffer index.
pub fn pipeline_action(state: SimNodeState) -> (a: DispatchAction)
    ensures
        state == SimNodeState::Loading ==> a == DispatchAction::Wait,
        state == SimNodeState::Init ==> a == DispatchAction::DispatchInit,
        state matches SimNodeState::Update(i) ==> a == DispatchAction::DispatchUpdate(i),
{
    match state {
        SimNodeState::Loading => DispatchAction::Wait,
        SimNodeState::Init => DispatchAction::DispatchInit,
        SimNodeState::Update(i) => DispatchAction::DispatchUpdate(i),
    }
}

/// The update states alternate: one tick after reading buffer `i`, the
/// machine reads the other buffer — the dispatch-level mirror of the
/// double-buffer hand-off.
pub proof fn lemma_update_alternates(i: usize)
    requires
        i <= 1,
    ensures
        forall|poll: PipelinePoll|
            #[trigger] spec_pipeline_step(SimNodeState::Update(i), poll) == Ok::<
                SimNodeState,
                PipelineError,
            >(SimNodeState::Update((1 - i) as usize)),
{
}

} // verus!
