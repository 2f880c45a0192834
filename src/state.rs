//! The game-state snapshot, the input collector and the transition function.

use vstd::prelude::*;
use crate::entities::{valid_velocity, Ball, Paddle, PlayerId, BALL_SPEED, PADDLE_STEP};
use crate::geometry::{fits_i64, Vec2, UNITS_PER_PIXEL};
use crate::input::{action_of, displacement, pressed_keys, Event, Key, KeyAction};

verus! {

/// The mathematical content of a snapshot.
pub struct GameModel {
    pub paddles: Seq<Paddle>,
    pub player_id: PlayerId,
    pub ball: Ball,
    /// Keys pressed since the previous transition, in the order received.
    pub keys: Seq<Key>,
    /// False once a close request has been handled.
    pub window_open: bool,
}

impl GameModel {
    /// The controlling player owns a paddle of the collection, and the
    /// ball's velocity is within the scale.
    pub open spec fn wf(self) -> bool {
        &&& self.player_id.spec_index() < self.paddles.len()
        &&& valid_velocity(self.ball.velocity)
    }

    /// The controlled paddle.
    pub open spec fn controlled(self) -> Paddle {
        self.paddles[self.player_id.spec_index()]
    }

    /// Every intermediate position of the next transition fits in an `i64`:
    /// the controlled paddle after each prefix of the buffered keys, and the
    /// advanced ball.
    pub open spec fn transition_fits(self) -> bool {
        &&& path_fits(self.controlled().position.y as int, self.keys)
        &&& fits_i64(self.ball.position.x + self.ball.velocity.x * BALL_SPEED)
        &&& fits_i64(self.ball.position.y + self.ball.velocity.y * BALL_SPEED)
    }
}

/// `y` stays within `i64` after each prefix of `keys` is applied to it.
pub open spec fn path_fits(y: int, keys: Seq<Key>) -> bool {
    forall|k: int| 0 <= k <= keys.len() ==> fits_i64(y + #[trigger] displacement(keys.take(k)))
}

/// `p` translated vertically by `dy` units.
pub open spec fn moved(p: Paddle, dy: int) -> Paddle {
    Paddle { player: p.player, position: Vec2 { x: p.position.x, y: (p.position.y + dy) as i64 } }
}

/// `b` after one frame: its position advanced by velocity times speed.
pub open spec fn advanced(b: Ball) -> Ball {
    Ball {
        position: Vec2 {
            x: (b.position.x + b.velocity.x * BALL_SPEED) as i64,
            y: (b.position.y + b.velocity.y * BALL_SPEED) as i64,
        },
        velocity: b.velocity,
        radius: b.radius,
        outline_thickness: b.outline_thickness,
        fill_color: b.fill_color,
        outline_color: b.outline_color,
    }
}

/// The next snapshot: every buffered key applied in order to the controlled
/// paddle, the ball advanced once, the buffer emptied, and the window closed
/// if the close key was among the keys.
pub open spec fn transition(m: GameModel) -> GameModel {
    GameModel {
        paddles: m.paddles.update(
            m.player_id.spec_index(),
            moved(m.controlled(), displacement(m.keys)),
        ),
        player_id: m.player_id,
        ball: advanced(m.ball),
        keys: Seq::empty(),
        window_open: m.window_open && !m.keys.contains(Key::Escape),
    }
}

/// `m` after one poll cycle delivered `events`: each key press appended to
/// the buffer, and the window closed if a close request came.
pub open spec fn collect(m: GameModel, events: Seq<Event>) -> GameModel {
    GameModel {
        paddles: m.paddles,
        player_id: m.player_id,
        ball: m.ball,
        keys: m.keys + pressed_keys(events),
        window_open: m.window_open && !events.contains(Event::Closed),
    }
}

proof fn lemma_take_contains<A>(s: Seq<A>, i: int, x: A)
    requires
        0 <= i < s.len(),
    ensures
        s.take(i + 1).contains(x) <==> (s.take(i).contains(x) || s[i] == x),
{
    if s.take(i + 1).contains(x) {
        let j = choose|j: int| 0 <= j < i + 1 && #[trigger] s.take(i + 1)[j] == x;
        if j < i {
            assert(s.take(i)[j] == x);
        }
    }
    if s.take(i).contains(x) {
        let j = choose|j: int| 0 <= j < i && #[trigger] s.take(i)[j] == x;
        assert(s.take(i + 1)[j] == x);
    }
    if s[i] == x {
        assert(s.take(i + 1)[i] == x);
    }
}

proof fn lemma_pressed_keys_step(events: Seq<Event>, i: int)
    requires
        0 <= i < events.len(),
    ensures
        pressed_keys(events.take(i + 1)) == pressed_keys(events.take(i)) + pressed_keys(
            seq![events[i]],
        ),
{
    let t = events.take(i + 1);
    let one = seq![events[i]];
    assert(t.drop_last() =~= events.take(i));
    assert(one.drop_last() =~= Seq::<Event>::empty());
    assert(pressed_keys(one.drop_last()) =~= Seq::<Key>::empty());
    match events[i] {
        Event::KeyPressed(k) => {
            assert(pressed_keys(one) =~= seq![k]);
            assert(pressed_keys(t) =~= pressed_keys(events.take(i)) + pressed_keys(one));
        },
        _ => {
            assert(pressed_keys(one) =~= Seq::<Key>::empty());
            assert(pressed_keys(t) =~= pressed_keys(events.take(i)) + pressed_keys(one));
        },
    }
}

/// A snapshot of the game for one frame.
pub struct PongGameState {
    pub paddles: Vec<Paddle>,
    pub player_id: PlayerId,
    pub ball: Ball,
    pub keys: Vec<Key>,
    pub window_open: bool,
}

impl View for PongGameState {
    type V = GameModel;

    open spec fn view(&self) -> GameModel {
        GameModel {
            paddles: self.paddles@,
            player_id: self.player_id,
            ball: self.ball,
            keys: self.keys@,
            window_open: self.window_open,
        }
    }
}

impl PongGameState {
    /// The first snapshot of a session: the given paddles and ball, an empty
    /// buffer, and an open window. The controlling player must own a paddle.
    pub fn new_default(paddles: Vec<Paddle>, player_id: PlayerId, ball: Ball) -> (r: PongGameState)
        requires
            player_id.spec_index() < paddles@.len(),
            valid_velocity(ball.velocity),
        ensures
            r@.wf(),
            r@.paddles == paddles@,
            r@.player_id == player_id,
            r@.ball == ball,
            r@.keys.len() == 0,
            r@.window_open,
    {
        PongGameState { paddles, player_id, ball, keys: Vec::new(), window_open: true }
    }

    /// The next snapshot, built from `prev` (which it consumes).
    pub fn from_previous(prev: PongGameState) -> (r: PongGameState)
        requires
            prev@.wf(),
            prev@.transition_fits(),
        ensures
            r@ == transition(prev@),
            r@.wf(),
    {
        let ghost m = prev@;
        let mut state = prev;
        let idx = state.player_id.index();
        let mut paddle = state.paddles[idx];
        let mut open = state.window_open;
        let mut i: usize = 0;
        while i < state.keys.len()
            invariant
                m == state@,
                m.wf(),
                m.transition_fits(),
                idx == m.player_id.spec_index(),
                0 <= i <= m.keys.len(),
                paddle == moved(m.controlled(), displacement(m.keys.take(i as int))),
                open == (m.window_open && !m.keys.take(i as int).contains(Key::Escape)),
            decreases m.keys.len() - i,
        {
            let key = state.keys[i];
            proof {
                let k = m.keys.take(i as int + 1);
                assert(k.drop_last() =~= m.keys.take(i as int));
                assert(k.last() == key);
                assert(fits_i64(m.controlled().position.y + displacement(k)));
                assert(fits_i64(m.controlled().position.y + displacement(m.keys.take(i as int))));
                lemma_take_contains(m.keys, i as int, Key::Escape);
            }
            match action_of(key) {
                KeyAction::CloseWindow => {
                    open = false;
                },
                KeyAction::MoveUp => {
                    paddle.position.y = paddle.position.y - PADDLE_STEP * UNITS_PER_PIXEL;
                },
                KeyAction::MoveDown => {
                    paddle.position.y = paddle.position.y + PADDLE_STEP * UNITS_PER_PIXEL;
                },
                KeyAction::Ignore => {},
            }
            i = i + 1;
        }
        assert(m.keys.take(m.keys.len() as int) =~= m.keys);
        state.paddles.set(idx, paddle);
        state.ball.position = Vec2 {
            x: state.ball.position.x + state.ball.velocity.x * BALL_SPEED,
            y: state.ball.position.y + state.ball.velocity.y * BALL_SPEED,
        };
        state.keys.clear();
        state.window_open = open;
        assert(state@.paddles =~= transition(m).paddles);
        assert(state@.keys =~= transition(m).keys);
        state
    }
}

/// The keys of `keys` followed by those pressed in `events`.
fn buffer_with(keys: &Vec<Key>, events: &Vec<Event>) -> (r: Vec<Key>)
    ensures
        r@ == keys@ + pressed_keys(events@),
{
    let mut r: Vec<Key> = Vec::new();
    let mut i: usize = 0;
    while i < keys.len()
        invariant
            0 <= i <= keys@.len(),
            r@ == keys@.take(i as int),
        decreases keys@.len() - i,
    {
        r.push(keys[i]);
        i = i + 1;
        assert(r@ =~= keys@.take(i as int));
    }
    assert(keys@.take(keys@.len() as int) =~= keys@);
    let mut j: usize = 0;
    while j < events.len()
        invariant
            0 <= j <= events@.len(),
            r@ == keys@ + pressed_keys(events@.take(j as int)),
        decreases events@.len() - j,
    {
        assert(events@.take(j as int + 1).drop_last() =~= events@.take(j as int));
        match events[j] {
            Event::KeyPressed(k) => {
                r.push(k);
                assert(r@ =~= keys@ + pressed_keys(events@.take(j as int + 1)));
            },
            _ => {},
        }
        j = j + 1;
    }
    assert(events@.take(events@.len() as int) =~= events@);
    r
}

/// Whether `y` stays within `i64` after each prefix of `keys` is applied.
fn prefixes_fit(y: i64, keys: &Vec<Key>) -> (r: bool)
    ensures
        r == path_fits(y as int, keys@),
{
    let step: i64 = PADDLE_STEP * UNITS_PER_PIXEL;
    let mut cur: i64 = y;
    let mut i: usize = 0;
    assert(keys@.take(0) =~= Seq::<Key>::empty());
    while i < keys.len()
        invariant
            0 <= i <= keys@.len(),
            step == PADDLE_STEP * UNITS_PER_PIXEL,
            cur == y + displacement(keys@.take(i as int)),
            forall|k: int| 0 <= k <= i ==> fits_i64(y + #[trigger] displacement(keys@.take(k))),
        decreases keys@.len() - i,
    {
        assert(keys@.take(i as int + 1).drop_last() =~= keys@.take(i as int));
        let dy: i64 = match action_of(keys[i]) {
            KeyAction::MoveUp => -step,
            KeyAction::MoveDown => step,
            _ => 0,
        };
        match cur.checked_add(dy) {
            Some(next) => {
                cur = next;
            },
            None => {
                assert(keys@.take(i as int + 1).last() == keys@[i as int]);
                assert(!fits_i64(y + displacement(keys@.take(i as int + 1))));
                return false;
            },
        }
        i = i + 1;
    }
    assert(keys@.take(keys@.len() as int) =~= keys@);
    true
}

/// Whether the ball's next position fits in `i64` on both axes.
fn ball_step_fits(ball: &Ball) -> (r: bool)
    ensures
        r == (fits_i64(ball.position.x + ball.velocity.x * BALL_SPEED) && fits_i64(
            ball.position.y + ball.velocity.y * BALL_SPEED,
        )),
{
    let x = ball.position.x as i128 + ball.velocity.x as i128 * BALL_SPEED as i128;
    let y = ball.position.y as i128 + ball.velocity.y as i128 * BALL_SPEED as i128;
    i64::MIN as i128 <= x && x <= i64::MAX as i128 && i64::MIN as i128 <= y && y <= i64::MAX as i128
}

impl PongGameState {
    /// Whether `self` meets the next transition's range condition.
    pub fn can_transition(&self) -> (r: bool)
        requires
            self@.wf(),
        ensures
            r == self@.transition_fits(),
    {
        let idx = self.player_id.index();
        let ball_fits = ball_step_fits(&self.ball);
        ball_fits && prefixes_fit(self.paddles[idx].position.y, &self.keys)
    }

    /// Applies one polled event: a close request closes the window, a key
    /// press is appended to the buffer, anything else is ignored.
    pub fn apply_event(&mut self, event: Event)
        ensures
            final(self)@ == collect(old(self)@, seq![event]),
    {
        let ghost e = seq![event];
        assert(e.drop_last() =~= Seq::<Event>::empty());
        assert(pressed_keys(e.drop_last()) =~= Seq::<Key>::empty());
        assert(e.contains(Event::Closed) <==> event == Event::Closed) by {
            if event == Event::Closed {
                assert(e[0] == event);
            }
        }
        match event {
            Event::Closed => {
                self.window_open = false;
            },
            Event::KeyPressed(k) => {
                self.keys.push(k);
                assert(pressed_keys(e) =~= seq![k]);
            },
            Event::Other => {},
        }
        assert(self@.keys =~= collect(old(self)@, e).keys);
    }

    /// The input collector: applies every event drained from the window's
    /// queue during one poll cycle, in order.
    pub fn collect_events(&mut self, events: &Vec<Event>)
        ensures
            final(self)@ == collect(old(self)@, events@),
    {
        let ghost m = self@;
        let mut i: usize = 0;
        while i < events.len()
            invariant
                0 <= i <= events@.len(),
                self@ == collect(m, events@.take(i as int)),
            decreases events@.len() - i,
        {
            proof {
                lemma_take_contains(events@, i as int, Event::Closed);
                assert(events@.take(i as int + 1).drop_last() =~= events@.take(i as int));
            }
            self.apply_event(events[i]);
            proof {
                let t = events@.take(i as int + 1);
                assert(seq![events@[i as int]].drop_last() =~= Seq::<Event>::empty());
                assert(seq![events@[i as int]].contains(Event::Closed) ==> events@[i as int]
                    == Event::Closed);
                lemma_pressed_keys_step(events@, i as int);
                assert(self@.keys =~= collect(m, t).keys);
            }
            i = i + 1;
        }
        assert(events@.take(events@.len() as int) =~= events@);
    }

    /// Whether, once `events` are collected into `self`, the next transition
    /// meets its range condition.
    pub fn fits_after(&self, events: &Vec<Event>) -> (r: bool)
        requires
            self@.wf(),
        ensures
            r == collect(self@, events@).transition_fits(),
    {
        let idx = self.player_id.index();
        let ball_fits = ball_step_fits(&self.ball);
        let keys = buffer_with(&self.keys, events);
        ball_fits && prefixes_fit(self.paddles[idx].position.y, &keys)
    }

    /// One poll cycle's input collected into `prev`, then the transition.
    pub fn loop_events(prev: PongGameState, events: &Vec<Event>) -> (r: PongGameState)
        requires
            prev@.wf(),
            collect(prev@, events@).transition_fits(),
        ensures
            r@ == transition(collect(prev@, events@)),
            r@.wf(),
    {
        let mut state = prev;
        state.collect_events(events);
        PongGameState::from_previous(state)
    }
}

} // verus!
