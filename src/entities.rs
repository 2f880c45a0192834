//! Players, paddles and the ball, with their fixed starting layout.

use vstd::prelude::*;
use crate::geometry::{Color, Vec2, UNITS_PER_PIXEL, WINDOW_HEIGHT, WINDOW_WIDTH};

verus! {

/// Paddle width, in pixels.
pub const PADDLE_WIDTH: i64 = 20;

/// Paddle height, in pixels.
pub const PADDLE_HEIGHT: i64 = 50;

/// Distance between a paddle's start position and the window edges, in pixels.
pub const PADDLE_PADDING: i64 = 30;

/// Distance a paddle moves for one key press, in pixels.
pub const PADDLE_STEP: i64 = 5;

/// Ball radius, in pixels.
pub const BALL_RADIUS: i64 = 10;

/// Ball outline thickness, in pixels.
pub const BALL_OUTLINE_THICKNESS: i64 = 3;

/// Scale of the ball's velocity: each component is a whole number of
/// thousandths in `[-VELOCITY_SCALE, VELOCITY_SCALE]`.
pub const VELOCITY_SCALE: i64 = 1000;

/// Pixels the ball travels per frame along an axis whose velocity component
/// is one whole unit. Because `VELOCITY_SCALE == UNITS_PER_PIXEL`, a frame
/// moves the ball by `velocity * BALL_SPEED` coordinate units.
pub const BALL_SPEED: i64 = 5;

/// Number of canonical start positions (the four corners).
pub const START_SLOTS: usize = 4;

/// The identity of a player; each one owns one paddle.
#[derive(Clone, Copy, Debug, PartialEq, Eq, Structural)]
pub enum PlayerId {
    BluePaddle,
    GreenPaddle,
}

/// Number of players in a session.
pub const PLAYER_COUNT: usize = 2;

impl PlayerId {
    pub open spec fn spec_index(self) -> int {
        match self {
            PlayerId::BluePaddle => 0,
            PlayerId::GreenPaddle => 1,
        }
    }

    /// Position of this player's paddle in a session's paddle collection.
    pub fn index(&self) -> (r: usize)
        ensures
            r == self.spec_index(),
            r < PLAYER_COUNT,
    {
        match self {
            PlayerId::BluePaddle => 0,
            PlayerId::GreenPaddle => 1,
        }
    }
}

/// The player whose paddle sits at `i` in a session's paddle collection.
pub open spec fn player_at(i: int) -> PlayerId {
    if i == 0 {
        PlayerId::BluePaddle
    } else {
        PlayerId::GreenPaddle
    }
}

/// The x coordinate of the left-hand start column, in units.
pub open spec fn left_x() -> int {
    PADDLE_PADDING * UNITS_PER_PIXEL
}

/// The x coordinate of the right-hand start column, in units.
pub open spec fn right_x() -> int {
    (WINDOW_WIDTH - PADDLE_PADDING - PADDLE_WIDTH) * UNITS_PER_PIXEL
}

/// The y coordinate of the top start row, in units.
pub open spec fn top_y() -> int {
    PADDLE_PADDING * UNITS_PER_PIXEL
}

/// The y coordinate of the bottom start row, in units.
pub open spec fn bottom_y() -> int {
    (WINDOW_HEIGHT - PADDLE_PADDING - PADDLE_HEIGHT) * UNITS_PER_PIXEL
}

/// The canonical start positions: left-top, right-top, left-bottom,
/// right-bottom, each inset from the window edges by the padding.
pub open spec fn start_position_spec(slot: int) -> (int, int) {
    if slot == 0 {
        (left_x(), top_y())
    } else if slot == 1 {
        (right_x(), top_y())
    } else if slot == 2 {
        (left_x(), bottom_y())
    } else {
        (right_x(), bottom_y())
    }
}

/// The start position of slot `slot`.
pub fn start_position(slot: usize) -> (r: Vec2)
    requires
        slot < START_SLOTS,
    ensures
        (r.x as int, r.y as int) == start_position_spec(slot as int),
{
    let left: i64 = PADDLE_PADDING * UNITS_PER_PIXEL;
    let right: i64 = (WINDOW_WIDTH as i64 - PADDLE_PADDING - PADDLE_WIDTH) * UNITS_PER_PIXEL;
    let top: i64 = PADDLE_PADDING * UNITS_PER_PIXEL;
    let bottom: i64 = (WINDOW_HEIGHT as i64 - PADDLE_PADDING - PADDLE_HEIGHT) * UNITS_PER_PIXEL;
    if slot == 0 {
        Vec2 { x: left, y: top }
    } else if slot == 1 {
        Vec2 { x: right, y: top }
    } else if slot == 2 {
        Vec2 { x: left, y: bottom }
    } else {
        Vec2 { x: right, y: bottom }
    }
}

/// A player's paddle: which player's texture it shows and where its
/// top-left corner is.
#[derive(Clone, Copy, Debug, PartialEq, Eq, Structural)]
pub struct Paddle {
    pub player: PlayerId,
    pub position: Vec2,
}

/// One paddle per player, in player order, each at its player's start
/// position.
pub fn create_paddles() -> (r: Vec<Paddle>)
    ensures
        r@.len() == PLAYER_COUNT,
        forall|i: int|
            0 <= i < PLAYER_COUNT ==> {
                &&& (#[trigger] r@[i]).player == player_at(i)
                &&& (r@[i].position.x as int, r@[i].position.y as int) == start_position_spec(i)
            },
{
    let mut r: Vec<Paddle> = Vec::new();
    r.push(Paddle { player: PlayerId::BluePaddle, position: start_position(0) });
    r.push(Paddle { player: PlayerId::GreenPaddle, position: start_position(1) });
    r
}

/// The ball: where its centre is, its constant velocity, and how it is
/// drawn.
#[derive(Clone, Copy, Debug, PartialEq, Eq, Structural)]
pub struct Ball {
    pub position: Vec2,
    /// Thousandths of a whole unit per axis, in `[-VELOCITY_SCALE, VELOCITY_SCALE]`.
    pub velocity: Vec2,
    pub radius: i64,
    pub outline_thickness: i64,
    pub fill_color: Color,
    pub outline_color: Color,
}

/// Whether `v` is a valid ball velocity: each component within the scale.
pub open spec fn valid_velocity(v: Vec2) -> bool {
    &&& -VELOCITY_SCALE <= v.x <= VELOCITY_SCALE
    &&& -VELOCITY_SCALE <= v.y <= VELOCITY_SCALE
}

/// The window centre, in units.
pub open spec fn center() -> (int, int) {
    ((WINDOW_WIDTH / 2) * UNITS_PER_PIXEL, (WINDOW_HEIGHT / 2) * UNITS_PER_PIXEL)
}

/// Maps a uniformly drawn 64-bit number to a velocity component in
/// `[-VELOCITY_SCALE, VELOCITY_SCALE]`.
pub fn velocity_component(draw: u64) -> (r: i64)
    ensures
        r == (draw % 2001) as int - VELOCITY_SCALE,
        -VELOCITY_SCALE <= r <= VELOCITY_SCALE,
{
    (draw % 2001) as i64 - VELOCITY_SCALE
}

/// The session's ball: at the window centre, with the given velocity, a
/// radius of 10 pixels, a 3-pixel outline, filled red and outlined magenta.
pub fn create_ball(velocity: Vec2) -> (r: Ball)
    requires
        valid_velocity(velocity),
    ensures
        (r.position.x as int, r.position.y as int) == center(),
        r.velocity == velocity,
        r.radius == BALL_RADIUS * UNITS_PER_PIXEL,
        r.outline_thickness == BALL_OUTLINE_THICKNESS * UNITS_PER_PIXEL,
        r.fill_color == (Color { red: 255, green: 0, blue: 0, alpha: 255 }),
        r.outline_color == (Color { red: 255, green: 0, blue: 255, alpha: 255 }),
{
    Ball {
        position: Vec2 {
            x: (WINDOW_WIDTH / 2) as i64 * UNITS_PER_PIXEL,
            y: (WINDOW_HEIGHT / 2) as i64 * UNITS_PER_PIXEL,
        },
        velocity,
        radius: BALL_RADIUS * UNITS_PER_PIXEL,
        outline_thickness: BALL_OUTLINE_THICKNESS * UNITS_PER_PIXEL,
        fill_color: Color { red: 255, green: 0, blue: 0, alpha: 255 },
        outline_color: Color { red: 255, green: 0, blue: 255, alpha: 255 },
    }
}

/// Where a player's paddle texture is found, relative to the working directory.
pub open spec fn texture_path_spec(player: PlayerId) -> Seq<char> {
    match player {
        PlayerId::BluePaddle => "./assets/blue-paddle.png"@,
        PlayerId::GreenPaddle => "./assets/green-paddle.png"@,
    }
}

/// The file of `player`'s paddle texture.
pub fn texture_path(player: PlayerId) -> (r: &'static str)
    ensures
        r@ == texture_path_spec(player),
{
    match player {
        PlayerId::BluePaddle => "./assets/blue-paddle.png",
        PlayerId::GreenPaddle => "./assets/green-paddle.png",
    }
}

/// A texture to load at startup: the player it belongs to, its file, and
/// the rectangle taken from the image, from the top-left corner.
pub struct TextureSource {
    pub player: PlayerId,
    pub path: &'static str,
    pub width: i64,
    pub height: i64,
}

/// The textures a session needs: one per player, in player order, each a
/// paddle-sized rectangle.
pub fn asset_sources() -> (r: Vec<TextureSource>)
    ensures
        r@.len() == PLAYER_COUNT,
        forall|i: int|
            0 <= i < PLAYER_COUNT ==> {
                &&& (#[trigger] r@[i]).player == player_at(i)
                &&& r@[i].path@ == texture_path_spec(player_at(i))
                &&& r@[i].width == PADDLE_WIDTH
                &&& r@[i].height == PADDLE_HEIGHT
            },
{
    let mut r: Vec<TextureSource> = Vec::new();
    let blue = PlayerId::BluePaddle;
    let green = PlayerId::GreenPaddle;
    r.push(TextureSource { player: blue, path: texture_path(blue), width: PADDLE_WIDTH, height: PADDLE_HEIGHT });
    r.push(TextureSource { player: green, path: texture_path(green), width: PADDLE_WIDTH, height: PADDLE_HEIGHT });
    r
}

} // verus!
