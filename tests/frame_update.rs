use pong::entities::{
    asset_sources, create_ball, create_paddles, start_position, texture_path, velocity_component,
    Ball, Paddle, PlayerId, PLAYER_COUNT,
};
use pong::frame::{frame_step, DrawCommand};
use pong::geometry::{create_window, Color, Vec2};
use pong::input::{action_of, Event, Key, KeyAction};
use pong::state::PongGameState;

fn state_with(paddle_at: Vec2, velocity: Vec2, keys: Vec<Key>) -> PongGameState {
    let mut paddles = create_paddles();
    paddles[0].position = paddle_at;
    let mut state = PongGameState::new_default(paddles, PlayerId::BluePaddle, create_ball(velocity));
    for k in keys {
        state.apply_event(Event::KeyPressed(k));
    }
    state
}

#[test]
fn up_key_moves_paddle_towards_top() {
    let prev = state_with(Vec2::new(30_000, 30_000), Vec2::new(0, 0), vec![Key::K]);
    assert!(prev.can_transition());
    let next = PongGameState::from_previous(prev);
    assert_eq!(next.paddles[0].position, Vec2::new(30_000, 25_000));
}

#[test]
fn down_key_moves_paddle_towards_bottom() {
    let prev = state_with(Vec2::new(30_000, 30_000), Vec2::new(0, 0), vec![Key::J]);
    let next = PongGameState::from_previous(prev);
    assert_eq!(next.paddles[0].position, Vec2::new(30_000, 35_000));
}

#[test]
fn ball_advances_by_velocity_times_speed() {
    let prev = state_with(Vec2::new(30_000, 30_000), Vec2::new(400, -700), vec![]);
    assert_eq!(prev.ball.position, Vec2::new(512_000, 384_000));
    let next = PongGameState::from_previous(prev);
    assert_eq!(next.ball.position, Vec2::new(514_000, 380_500));
    assert_eq!(next.ball.velocity, Vec2::new(400, -700));
}

#[test]
fn up_and_down_keys_add_up() {
    let keys = vec![Key::K, Key::J, Key::J, Key::K, Key::J, Key::J];
    let prev = state_with(Vec2::new(30_000, 30_000), Vec2::new(0, 0), keys);
    let next = PongGameState::from_previous(prev);
    assert_eq!(next.paddles[0].position, Vec2::new(30_000, 40_000));

    let prev = state_with(Vec2::new(30_000, 30_000), Vec2::new(0, 0), vec![Key::K, Key::J]);
    let next = PongGameState::from_previous(prev);
    assert_eq!(next.paddles[0].position, Vec2::new(30_000, 30_000));

    let prev = state_with(Vec2::new(30_000, 30_000), Vec2::new(0, 0), vec![Key::K, Key::K, Key::K]);
    let next = PongGameState::from_previous(prev);
    assert_eq!(next.paddles[0].position, Vec2::new(30_000, 15_000));
}

#[test]
fn other_keys_do_nothing() {
    let keys = vec![Key::Other(7), Key::K, Key::Other(99)];
    let prev = state_with(Vec2::new(30_000, 30_000), Vec2::new(0, 0), keys);
    let next = PongGameState::from_previous(prev);
    assert_eq!(next.paddles[0].position, Vec2::new(30_000, 25_000));
    assert!(next.is_open());
}

#[test]
fn only_the_controlled_paddle_moves() {
    let paddles = create_paddles();
    let mut state = PongGameState::new_default(paddles, PlayerId::GreenPaddle, create_ball(Vec2::new(0, 0)));
    state.apply_event(Event::KeyPressed(Key::J));
    let next = PongGameState::from_previous(state);
    assert_eq!(next.paddles[0].position, Vec2::new(30_000, 30_000));
    assert_eq!(next.paddles[1].position, Vec2::new(974_000, 35_000));
}

#[test]
fn empty_buffer_leaves_paddles_and_advances_ball_once() {
    let prev = state_with(Vec2::new(30_000, 30_000), Vec2::new(-1000, 1000), vec![]);
    let paddles_before: Vec<Paddle> = prev.paddles.clone();
    let next = PongGameState::from_previous(prev);
    assert_eq!(next.paddles, paddles_before);
    assert_eq!(next.ball.position, Vec2::new(507_000, 389_000));
    let again = PongGameState::from_previous(next);
    assert_eq!(again.paddles, paddles_before);
    assert_eq!(again.ball.position, Vec2::new(502_000, 394_000));
}

#[test]
fn velocity_stays_constant_over_frames() {
    let mut state = state_with(Vec2::new(30_000, 30_000), Vec2::new(123, -456), vec![]);
    for i in 0..20 {
        let events = if i % 3 == 0 {
            vec![Event::KeyPressed(Key::K), Event::Other]
        } else {
            vec![Event::KeyPressed(Key::J)]
        };
        assert!(state.fits_after(&events));
        let (next, _) = frame_step(state, &events);
        assert_eq!(next.ball.velocity, Vec2::new(123, -456));
        state = next;
    }
    assert_eq!(state.ball.position, Vec2::new(512_000 + 20 * 615, 384_000 - 20 * 2280));
}

#[test]
fn buffer_is_empty_after_transition() {
    let keys = vec![Key::K; 50];
    let prev = state_with(Vec2::new(30_000, 300_000), Vec2::new(0, 0), keys);
    assert_eq!(prev.keys.len(), 50);
    let next = PongGameState::from_previous(prev);
    assert!(next.keys.is_empty());
    assert_eq!(next.paddles[0].position.y, 50_000);
}

#[test]
fn close_event_stops_drawing() {
    let state = state_with(Vec2::new(30_000, 30_000), Vec2::new(10, 10), vec![]);
    let events = vec![Event::Closed, Event::KeyPressed(Key::K)];
    let (next, commands) = frame_step(state, &events);
    assert!(!next.is_open());
    assert_eq!(commands, vec![DrawCommand::Clear]);
    assert_eq!(next.paddles[0].position, Vec2::new(30_000, 25_000));
    let (after, commands) = frame_step(next, &vec![Event::KeyPressed(Key::J)]);
    assert!(commands.is_empty());
    assert!(!after.is_open());
    assert_eq!(after.paddles[0].position, Vec2::new(30_000, 25_000));
}

#[test]
fn close_key_stops_drawing() {
    let state = state_with(Vec2::new(30_000, 30_000), Vec2::new(10, 10), vec![]);
    let events = vec![Event::KeyPressed(Key::J), Event::KeyPressed(Key::Escape)];
    let (next, commands) = frame_step(state, &events);
    assert!(!next.is_open());
    assert_eq!(commands, vec![DrawCommand::Clear]);
    let (_, commands) = frame_step(next, &vec![]);
    assert!(commands.is_empty());
}

#[test]
fn close_key_closes_through_transition() {
    let prev = state_with(Vec2::new(30_000, 30_000), Vec2::new(0, 0), vec![Key::Escape, Key::K]);
    let next = PongGameState::from_previous(prev);
    assert!(!next.is_open());
    assert_eq!(next.paddles[0].position, Vec2::new(30_000, 25_000));
}

#[test]
fn open_frame_draws_ball_then_paddles_then_presents() {
    let state = state_with(Vec2::new(30_000, 30_000), Vec2::new(0, 0), vec![]);
    let (next, commands) = frame_step(state, &vec![Event::Other]);
    assert!(next.is_open());
    assert_eq!(
        commands,
        vec![
            DrawCommand::Clear,
            DrawCommand::DrawBall,
            DrawCommand::DrawPaddle(0),
            DrawCommand::DrawPaddle(1),
            DrawCommand::Present,
        ]
    );
}

#[test]
fn collector_buffers_keys_in_order_and_ignores_other_events() {
    let mut state = state_with(Vec2::new(30_000, 30_000), Vec2::new(0, 0), vec![]);
    let events = vec![
        Event::KeyPressed(Key::J),
        Event::Other,
        Event::KeyPressed(Key::Other(3)),
        Event::KeyPressed(Key::K),
    ];
    state.collect_events(&events);
    assert_eq!(state.keys, vec![Key::J, Key::Other(3), Key::K]);
    assert!(state.is_open());
    state.collect_events(&vec![Event::Closed, Event::Closed]);
    assert!(!state.is_open());
    assert_eq!(state.keys.len(), 3);
}

#[test]
fn loop_events_collects_then_transitions() {
    let state = state_with(Vec2::new(30_000, 30_000), Vec2::new(200, 0), vec![Key::J]);
    let next = PongGameState::loop_events(state, &vec![Event::KeyPressed(Key::J)]);
    assert_eq!(next.paddles[0].position, Vec2::new(30_000, 40_000));
    assert_eq!(next.ball.position, Vec2::new(513_000, 384_000));
    assert!(next.keys.is_empty());
}

#[test]
fn range_checks_reject_overflowing_moves() {
    let state = state_with(Vec2::new(0, i64::MAX - 4_999), Vec2::new(0, 0), vec![Key::J]);
    assert!(!state.can_transition());
    let state = state_with(Vec2::new(0, i64::MAX - 5_000), Vec2::new(0, 0), vec![Key::J]);
    assert!(state.can_transition());
    assert!(!state.fits_after(&vec![Event::KeyPressed(Key::J)]));
    assert!(state.fits_after(&vec![Event::KeyPressed(Key::K)]));
    let mut ball_state = state_with(Vec2::new(0, 0), Vec2::new(1000, 0), vec![]);
    ball_state.ball.position.x = i64::MAX - 4_999;
    assert!(!ball_state.can_transition());
}

#[test]
fn paddles_start_at_their_players_corners() {
    let paddles = create_paddles();
    assert_eq!(paddles.len(), PLAYER_COUNT);
    assert_eq!(paddles[0], Paddle { player: PlayerId::BluePaddle, position: Vec2::new(30_000, 30_000) });
    assert_eq!(paddles[1], Paddle { player: PlayerId::GreenPaddle, position: Vec2::new(974_000, 30_000) });
    assert_eq!(start_position(2), Vec2::new(30_000, 688_000));
    assert_eq!(start_position(3), Vec2::new(974_000, 688_000));
    assert_eq!(PlayerId::BluePaddle.index(), 0);
    assert_eq!(PlayerId::GreenPaddle.index(), 1);
}

#[test]
fn ball_starts_at_center_with_its_style() {
    let ball: Ball = create_ball(Vec2::new(-250, 999));
    assert_eq!(ball.position, Vec2::new(512_000, 384_000));
    assert_eq!(ball.velocity, Vec2::new(-250, 999));
    assert_eq!(ball.radius, 10_000);
    assert_eq!(ball.outline_thickness, 3_000);
    assert_eq!(ball.fill_color, Color { red: 255, green: 0, blue: 0, alpha: 255 });
    assert_eq!(ball.outline_color, Color { red: 255, green: 0, blue: 255, alpha: 255 });
}

#[test]
fn velocity_draws_cover_the_whole_range() {
    assert_eq!(velocity_component(0), -1000);
    assert_eq!(velocity_component(1000), 0);
    assert_eq!(velocity_component(2000), 1000);
    assert_eq!(velocity_component(2001), -1000);
    assert_eq!(velocity_component(u64::MAX), (u64::MAX % 2001) as i64 - 1000);
}

#[test]
fn window_settings() {
    let w = create_window();
    assert_eq!((w.width, w.height, w.color_depth), (1024, 768, 32));
    assert_eq!(w.title, "RSFML Pong - Rust");
    assert!(w.closable);
    assert_eq!(w.clear_color, Color { red: 255, green: 255, blue: 255, alpha: 255 });
}

#[test]
fn assets_one_texture_per_player() {
    let assets = asset_sources();
    assert_eq!(assets.len(), 2);
    assert_eq!(assets[0].player, PlayerId::BluePaddle);
    assert_eq!(assets[0].path, "./assets/blue-paddle.png");
    assert_eq!(assets[1].player, PlayerId::GreenPaddle);
    assert_eq!(assets[1].path, "./assets/green-paddle.png");
    assert_eq!((assets[1].width, assets[1].height), (20, 50));
    assert_eq!(texture_path(PlayerId::GreenPaddle), "./assets/green-paddle.png");
}

#[test]
fn key_actions() {
    assert_eq!(action_of(Key::Escape), KeyAction::CloseWindow);
    assert_eq!(action_of(Key::K), KeyAction::MoveUp);
    assert_eq!(action_of(Key::J), KeyAction::MoveDown);
    assert_eq!(action_of(Key::Other(0)), KeyAction::Ignore);
}
