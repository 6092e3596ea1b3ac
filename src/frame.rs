use vstd::prelude::*;
use crate::geometry::{quad_index_seq, quad_indices};
use crate::window::PollOutcome;

verus! {

/// Where the frame loop stands.
#[derive(Clone, Copy, Debug, PartialEq, Eq, Structural)]
pub enum LoopState {
    Running,
    /// Terminal: a quit message was seen.
    Quitting,
}

/// One step of work the program performs on the GPU for a frame.
#[derive(Clone, Copy, Debug, PartialEq, Eq, Structural)]
pub enum FrameCommand {
    /// Bind the render-target view of the back buffer as the output (a
    /// flip-model present unbinds it).
    BindTarget,
    /// Clear the render target to the background colour.
    Clear,
    /// Advance the rotation angle, recompute the transform and upload it.
    UpdateTransform,
    /// Draw `index_count` indices from `start_index`, offset by `base_vertex`.
    DrawIndexed { index_count: u32, start_index: u32, base_vertex: i32 },
    /// Present the back buffer, waiting for `sync_interval` vertical blanks.
    Present { sync_interval: u32, flags: u32 },
}

/// The commands of one rendered frame, in order.
pub open spec fn frame_commands() -> Seq<FrameCommand> {
    seq![
        FrameCommand::BindTarget,
        FrameCommand::Clear,
        FrameCommand::UpdateTransform,
        FrameCommand::DrawIndexed {
            index_count: quad_index_seq().len() as u32,
            start_index: 0,
            base_vertex: 0,
        },
        FrameCommand::Present { sync_interval: 0, flags: 0 },
    ]
}

/// One iteration of the frame loop, given what the message poll reported:
/// a quit ends the loop with no work; otherwise the frame is rendered. A
/// loop that has quit stays quit and does nothing.
pub fn frame_step(state: LoopState, poll: PollOutcome) -> (r: (LoopState, Vec<FrameCommand>))
    ensures
        state == LoopState::Quitting ==> r.0 == LoopState::Quitting && r.1@.len() == 0,
        state == LoopState::Running && poll == PollOutcome::Quit ==> r.0 == LoopState::Quitting
            && r.1@.len() == 0,
        state == LoopState::Running && poll == PollOutcome::Continue ==> r.0 == LoopState::Running
            && r.1@ == frame_commands(),
{
    match (state, poll) {
        (LoopState::Running, PollOutcome::Continue) => {
            let count = quad_indices().len() as u32;
            let commands = vec![
                FrameCommand::BindTarget,
                FrameCommand::Clear,
                FrameCommand::UpdateTransform,
                FrameCommand::DrawIndexed { index_count: count, start_index: 0, base_vertex: 0 },
                FrameCommand::Present { sync_interval: 0, flags: 0 },
            ];
            assert(commands@ =~= frame_commands());
            (LoopState::Running, commands)
        },
        _ => (LoopState::Quitting, Vec::new()),
    }
}

} // verus!
