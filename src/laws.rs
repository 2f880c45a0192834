//! Properties of the frame update that hold for every input.

use vstd::prelude::*;
use crate::entities::BALL_SPEED;
use crate::frame::{frame, frame_commands, run, DrawCommand};
use crate::input::{count_key, displacement, key_dy, pressed_keys, step_units, Event, Key};
use crate::state::{collect, transition, GameModel};

verus! {

/// Applying `a` then `b` moves a paddle by the sum of the two moves.
pub proof fn lemma_displacement_concat(a: Seq<Key>, b: Seq<Key>)
    ensures
        displacement(a + b) == displacement(a) + displacement(b),
    decreases b.len(),
{
    if b.len() == 0 {
        assert(a + b =~= a);
    } else {
        assert((a + b).drop_last() =~= a + b.drop_last());
        lemma_displacement_concat(a, b.drop_last());
    }
}

proof fn lemma_displacement_counts(keys: Seq<Key>)
    requires
        forall|i: int| 0 <= i < keys.len() ==> #[trigger] keys[i] == Key::K || keys[i] == Key::J,
    ensures
        displacement(keys) == step_units() * (count_key(keys, Key::J) - count_key(keys, Key::K)),
    decreases keys.len(),
{
    if keys.len() > 0 {
        let rest = keys.drop_last();
        assert forall|i: int| 0 <= i < rest.len() implies #[trigger] rest[i] == Key::K || rest[i]
            == Key::J by {
            assert(rest[i] == keys[i]);
        }
        lemma_displacement_counts(rest);
        assert(keys.last() == keys[keys.len() - 1]);
        let s = step_units();
        let (j0, k0) = (count_key(rest, Key::J) as int, count_key(rest, Key::K) as int);
        assert(displacement(keys) == displacement(rest) + key_dy(keys.last()));
        if keys.last() == Key::K {
            assert(key_dy(keys.last()) == -s);
            assert(count_key(keys, Key::K) == k0 + 1);
            assert(count_key(keys, Key::J) == j0);
            assert(s * (j0 - k0) - s == s * (j0 - (k0 + 1))) by (nonlinear_arith);
        } else {
            assert(key_dy(keys.last()) == s);
            assert(count_key(keys, Key::K) == k0);
            assert(count_key(keys, Key::J) == j0 + 1);
            assert(s * (j0 - k0) + s == s * ((j0 + 1) - k0)) by (nonlinear_arith);
        }
    } else {
        assert(count_key(keys, Key::J) == 0 && count_key(keys, Key::K) == 0);
        assert(step_units() * (0int - 0int) == 0);
    }
}

/// With only "up" (K) and "down" (J) keys buffered, a transition moves the
/// controlled paddle vertically by one step for every key, down for each J
/// and up for each K, all of them added together rather than the last one
/// winning; the other paddles stay where they are.
pub proof fn lemma_moves_add_up(m: GameModel)
    requires
        m.wf(),
        m.transition_fits(),
        forall|i: int| 0 <= i < m.keys.len() ==> #[trigger] m.keys[i] == Key::K || m.keys[i] == Key::J,
    ensures
        transition(m).controlled().position.x == m.controlled().position.x,
        transition(m).controlled().position.y == m.controlled().position.y + step_units() * (
        count_key(m.keys, Key::J) - count_key(m.keys, Key::K)),
        forall|i: int|
            0 <= i < m.paddles.len() && i != m.player_id.spec_index() ==> transition(m).paddles[i]
                == m.paddles[i],
{
    lemma_displacement_counts(m.keys);
    assert(m.keys.take(m.keys.len() as int) =~= m.keys);
    assert(crate::geometry::fits_i64(
        m.controlled().position.y + displacement(m.keys.take(m.keys.len() as int)),
    ));
}

/// A transition with an empty buffer leaves every paddle and the window as
/// they were and advances the ball by exactly one velocity-times-speed step;
/// so a second transition with an empty buffer leaves the paddles unchanged
/// again.
pub proof fn lemma_empty_buffer(m: GameModel)
    requires
        m.wf(),
        m.transition_fits(),
        m.keys.len() == 0,
    ensures
        transition(m).paddles == m.paddles,
        transition(m).window_open == m.window_open,
        transition(m).ball.position.x == m.ball.position.x + m.ball.velocity.x * BALL_SPEED,
        transition(m).ball.position.y == m.ball.position.y + m.ball.velocity.y * BALL_SPEED,
        transition(m).ball.velocity == m.ball.velocity,
        transition(transition(m)).paddles == transition(m).paddles,
{
    assert(displacement(m.keys) == 0);
    assert(m.paddles.update(m.player_id.spec_index(), m.controlled()) =~= m.paddles);
    let n = transition(m);
    assert(displacement(n.keys) == 0);
    assert(n.paddles.update(n.player_id.spec_index(), n.controlled()) =~= n.paddles);
}

/// The ball's velocity is the same after any number of frames, whatever
/// input they received.
pub proof fn lemma_velocity_constant(m: GameModel, inputs: Seq<Seq<Event>>)
    ensures
        run(m, inputs).ball.velocity == m.ball.velocity,
        run(m, inputs).player_id == m.player_id,
    decreases inputs.len(),
{
    if inputs.len() > 0 {
        lemma_velocity_constant(m, inputs.drop_last());
    }
}

/// The buffer is empty right after every transition, and after every frame.
pub proof fn lemma_buffer_emptied(m: GameModel, events: Seq<Event>)
    ensures
        transition(m).keys.len() == 0,
        m.window_open ==> frame(m, events).keys.len() == 0,
{
}

proof fn lemma_close_key_buffered(events: Seq<Event>)
    requires
        events.contains(Event::KeyPressed(Key::Escape)),
    ensures
        pressed_keys(events).contains(Key::Escape),
    decreases events.len(),
{
    let i = choose|i: int| 0 <= i < events.len() && events[i] == Event::KeyPressed(Key::Escape);
    if i == events.len() - 1 {
        assert(pressed_keys(events).last() == Key::Escape);
        assert(pressed_keys(events)[pressed_keys(events).len() - 1] == Key::Escape);
    } else {
        let rest = events.drop_last();
        assert(rest[i] == events[i]);
        lemma_close_key_buffered(rest);
        let j = choose|j: int|
            0 <= j < pressed_keys(rest).len() && pressed_keys(rest)[j] == Key::Escape;
        match events.last() {
            Event::KeyPressed(k) => {
                assert(pressed_keys(events)[j] == Key::Escape);
            },
            _ => {},
        }
    }
}

proof fn lemma_closed_stays_closed(m: GameModel, inputs: Seq<Seq<Event>>)
    requires
        !m.window_open,
    ensures
        run(m, inputs) == m,
    decreases inputs.len(),
{
    if inputs.len() > 0 {
        lemma_closed_stays_closed(m, inputs.drop_last());
    }
}

/// A close request, delivered either as a close event or as a press of the
/// close key, closes the window within the same poll cycle: that frame
/// makes no draw or present call, and no later frame makes any call at all.
pub proof fn lemma_close_request_stops_drawing(
    m: GameModel,
    events: Seq<Event>,
    later: Seq<Seq<Event>>,
)
    requires
        m.window_open,
        events.contains(Event::Closed) || events.contains(Event::KeyPressed(Key::Escape)),
    ensures
        !frame(m, events).window_open,
        frame_commands(m, events) == seq![DrawCommand::Clear],
        forall|k: int|
            0 <= k < later.len() ==> !(#[trigger] run(frame(m, events), later.take(k))).window_open
                && frame_commands(run(frame(m, events), later.take(k)), later[k]).len() == 0,
{
    if !events.contains(Event::Closed) {
        lemma_close_key_buffered(events);
        let c = collect(m, events);
        let j = choose|j: int|
            0 <= j < pressed_keys(events).len() && pressed_keys(events)[j] == Key::Escape;
        assert(c.keys[m.keys.len() + j] == Key::Escape);
    }
    let after = frame(m, events);
    assert forall|k: int| 0 <= k < later.len() implies !(#[trigger] run(after, later.take(k))).window_open
        && frame_commands(run(after, later.take(k)), later[k]).len() == 0 by {
        lemma_closed_stays_closed(after, later.take(k));
    }
}

} // verus!
