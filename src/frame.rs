//! The frame loop's decisions: what one frame does to the snapshot and
//! which drawing calls it makes.

use vstd::prelude::*;
use crate::input::Event;
use crate::state::{collect, transition, GameModel, PongGameState};

verus! {

/// One call to the rendering collaborator.
#[derive(Clone, Copy, Debug, PartialEq, Eq, Structural)]
pub enum DrawCommand {
    /// Clear the frame buffer with the background colour.
    Clear,
    DrawBall,
    /// Draw the paddle at this position of the paddle collection.
    DrawPaddle(usize),
    /// Present the finished frame.
    Present,
}

/// The drawing calls of a frame that ends with the window open: the ball,
/// then each of `n` paddles in collection order, then present.
pub open spec fn draw_plan(n: nat) -> Seq<DrawCommand> {
    seq![DrawCommand::DrawBall] + Seq::new(n, |i: int| DrawCommand::DrawPaddle(i as usize))
        + seq![DrawCommand::Present]
}

/// The snapshot after one frame whose poll cycle delivered `events`. A
/// closed window runs no more frames.
pub open spec fn frame(m: GameModel, events: Seq<Event>) -> GameModel {
    if m.window_open {
        transition(collect(m, events))
    } else {
        m
    }
}

/// The calls one frame makes: none once the window is closed; otherwise a
/// clear, followed by the draw plan unless this frame closed the window.
pub open spec fn frame_commands(m: GameModel, events: Seq<Event>) -> Seq<DrawCommand> {
    if !m.window_open {
        Seq::empty()
    } else if frame(m, events).window_open {
        seq![DrawCommand::Clear] + draw_plan(m.paddles.len())
    } else {
        seq![DrawCommand::Clear]
    }
}

/// The range condition of one frame's transition, where one runs.
pub open spec fn frame_fits(m: GameModel, events: Seq<Event>) -> bool {
    m.window_open ==> collect(m, events).transition_fits()
}

/// The snapshot after frames with the poll cycles of `inputs`, in order.
pub open spec fn run(m: GameModel, inputs: Seq<Seq<Event>>) -> GameModel
    decreases inputs.len(),
{
    if inputs.len() == 0 {
        m
    } else {
        frame(run(m, inputs.drop_last()), inputs.last())
    }
}

impl PongGameState {
    /// Whether the window is still open, that is, the loop is running.
    pub fn is_open(&self) -> (r: bool)
        ensures
            r == self@.window_open,
    {
        self.window_open
    }
}

/// One iteration of the frame loop: collect the events of this poll cycle,
/// run the transition, and list the drawing calls to make.
pub fn frame_step(state: PongGameState, events: &Vec<Event>) -> (r: (PongGameState, Vec<DrawCommand>))
    requires
        state@.wf(),
        frame_fits(state@, events@),
    ensures
        r.0@ == frame(state@, events@),
        r.0@.wf(),
        r.1@ == frame_commands(state@, events@),
{
    let mut commands: Vec<DrawCommand> = Vec::new();
    if !state.is_open() {
        return (state, commands);
    }
    let ghost m = state@;
    commands.push(DrawCommand::Clear);
    let next = PongGameState::loop_events(state, events);
    if next.is_open() {
        commands.push(DrawCommand::DrawBall);
        let mut i: usize = 0;
        while i < next.paddles.len()
            invariant
                0 <= i <= next@.paddles.len(),
                next@.paddles.len() == m.paddles.len(),
                commands@ == seq![DrawCommand::Clear, DrawCommand::DrawBall] + Seq::new(
                    i as nat,
                    |j: int| DrawCommand::DrawPaddle(j as usize),
                ),
            decreases next@.paddles.len() - i,
        {
            commands.push(DrawCommand::DrawPaddle(i));
            i = i + 1;
            assert(commands@ =~= seq![DrawCommand::Clear, DrawCommand::DrawBall] + Seq::new(
                i as nat,
                |j: int| DrawCommand::DrawPaddle(j as usize),
            ));
        }
        commands.push(DrawCommand::Present);
        assert(commands@ =~= frame_commands(m, events@));
    } else {
        assert(commands@ =~= frame_commands(m, events@));
    }
    (next, commands)
}

} // verus!
