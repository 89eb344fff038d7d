use territory_sim::pipeline::{
    pipeline_action, pipeline_step, DispatchAction, PipelineError, PipelinePoll, SimNodeState,
};

#[test]
fn loading_waits_until_the_program_is_ready() {
    assert_eq!(
        pipeline_step(SimNodeState::Loading, PipelinePoll::NotLoaded),
        Ok(SimNodeState::Loading)
    );
    assert_eq!(
        pipeline_step(SimNodeState::Loading, PipelinePoll::Queued),
        Ok(SimNodeState::Loading)
    );
    assert_eq!(pipeline_step(SimNodeState::Loading, PipelinePoll::Ready), Ok(SimNodeState::Init));
}

#[test]
fn compile_failure_is_fatal_while_loading() {
    assert_eq!(
        pipeline_step(SimNodeState::Loading, PipelinePoll::Failed),
        Err(PipelineError::ShaderInitFailed)
    );
}

#[test]
fn init_starts_the_ping_pong_at_buffer_one() {
    assert_eq!(pipeline_step(SimNodeState::Init, PipelinePoll::Queued), Ok(SimNodeState::Init));
    assert_eq!(
        pipeline_step(SimNodeState::Init, PipelinePoll::Ready),
        Ok(SimNodeState::Update(1))
    );
}

#[test]
fn update_states_alternate_every_tick() {
    let mut state = SimNodeState::Update(1);
    for i in 0..6 {
        state = pipeline_step(state, PipelinePoll::Queued).unwrap();
        let expected = if i % 2 == 0 { 0 } else { 1 };
        assert_eq!(state, SimNodeState::Update(expected));
    }
}

#[test]
fn each_state_calls_for_its_dispatch() {
    assert_eq!(pipeline_action(SimNodeState::Loading), DispatchAction::Wait);
    assert_eq!(pipeline_action(SimNodeState::Init), DispatchAction::DispatchInit);
    assert_eq!(pipeline_action(SimNodeState::Update(0)), DispatchAction::DispatchUpdate(0));
    assert_eq!(pipeline_action(SimNodeState::Update(1)), DispatchAction::DispatchUpdate(1));
}
