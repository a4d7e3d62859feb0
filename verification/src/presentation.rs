//! The integer side of what is shown and played: where a token stands in the
//! scene, what the countdown text reads, which part of the window each of the
//! three cameras fills, and which sound a signal plays.

use crate::color::{GameColor, BLUE_LAYER, GREEN_LAYER, RED_LAYER};
use crate::events::GameEvent;
use crate::grid::{GridPos, GRID_SIZE_Y};
use crate::level::LevelInfo;
use crate::timer::GameTimer;
use crate::world::Role;
use vstd::prelude::*;
use vstd::string::StringExecFns;

verus! {

/// A position in the scene, in whole world units.
#[derive(Copy, Clone, PartialEq, Eq, Structural, Debug)]
pub struct Translation {
    pub x: i64,
    pub y: i64,
    pub z: i64,
}

/// Height above the floor at which tokens are placed, in world units.
pub const TOKEN_HEIGHT: i64 = 1;

/// Scene position of a cell: the column maps to `x` as it is, the height is
/// fixed, and the row is mirrored into `z`.
pub open spec fn scene_position(pos: GridPos) -> Translation {
    Translation { x: pos.x as i64, y: TOKEN_HEIGHT, z: (GRID_SIZE_Y - pos.y - 1) as i64 }
}

/// Computes the scene position of a cell.
pub fn grid_to_translation(pos: GridPos) -> (t: Translation)
    ensures
        t == scene_position(pos),
        t.x == pos.x,
        t.y == 1,
        t.z == GRID_SIZE_Y - pos.y - 1,
{
    Translation { x: pos.x as i64, y: TOKEN_HEIGHT, z: GRID_SIZE_Y as i64 - pos.y as i64 - 1 }
}

/// Nanoseconds in a second.
pub const NS_PER_SECOND: u64 = 1_000_000_000;

/// What the countdown text shows: the number after "Timer: ", or nothing for
/// an empty text, and the colour of the text.
#[derive(Copy, Clone, PartialEq, Eq, Structural, Debug)]
pub struct TimerText {
    pub seconds: Option<u64>,
    pub color: GameColor,
}

/// Colour of the countdown text for the time that is left: red up to one
/// second, yellow up to two, white above.
pub open spec fn urgency_color(remaining_ns: nat) -> GameColor {
    if remaining_ns <= NS_PER_SECOND {
        GameColor::Red
    } else if remaining_ns <= 2 * NS_PER_SECOND {
        GameColor::Yellow
    } else {
        GameColor::White
    }
}

/// `numerator / denominator` rounded to the nearest whole number, a tie
/// going to the even neighbour.
pub open spec fn rounded_half_even(numerator: int, denominator: int) -> int {
    let q = numerator / denominator;
    let r = numerator % denominator;
    if 2 * r > denominator || (2 * r == denominator && q % 2 == 1) {
        q + 1
    } else {
        q
    }
}

/// The number of seconds that the countdown text shows: the time left plus
/// half a second, rounded to the nearest whole second.
pub open spec fn shown_seconds(remaining_ns: nat) -> int {
    rounded_half_even(remaining_ns + NS_PER_SECOND / 2, NS_PER_SECOND as int)
}

/// The countdown text for a timer and a level progress.
pub open spec fn timer_text(timer: GameTimer, level_info: LevelInfo) -> TimerText {
    TimerText {
        seconds: match timer.0 {
            Some(c) if !level_info.won() => Some(shown_seconds(c.remaining_ns()) as u64),
            _ => None,
        },
        color: match timer.0 {
            Some(c) => urgency_color(c.remaining_ns()),
            None => GameColor::White,
        },
    }
}

/// Decides what the countdown text shows.  With a running countdown the
/// number is the time left plus half a second, rounded to whole seconds, and
/// the colour warns of the last two seconds; the text is empty without a
/// countdown and once the game is won.
pub fn text_update_system(timer: &GameTimer, level_info: &LevelInfo) -> (text: TimerText)
    ensures
        text == timer_text(*timer, *level_info),
{
    match timer.0 {
        Some(c) => {
            let remaining: u64 = if c.elapsed_ns <= c.duration_ns {
                c.duration_ns - c.elapsed_ns
            } else {
                0
            };
            let color = if remaining <= NS_PER_SECOND {
                GameColor::Red
            } else if remaining <= 2 * NS_PER_SECOND {
                GameColor::Yellow
            } else {
                GameColor::White
            };
            if level_info.is_won() {
                return TimerText { seconds: None, color };
            }
            let padded: u128 = remaining as u128 + (NS_PER_SECOND / 2) as u128;
            let q: u128 = padded / (NS_PER_SECOND as u128);
            let r: u128 = padded % (NS_PER_SECOND as u128);
            let shown: u128 = if 2 * r > NS_PER_SECOND as u128 || (2 * r == NS_PER_SECOND as u128
                && q % 2 == 1) {
                q + 1
            } else {
                q
            };
            TimerText { seconds: Some(shown as u64), color }
        },
        None => TimerText { seconds: None, color: GameColor::White },
    }
}

/// The character of a decimal digit.
pub open spec fn digit_char(d: int) -> char {
    if d == 0 {
        '0'
    } else if d == 1 {
        '1'
    } else if d == 2 {
        '2'
    } else if d == 3 {
        '3'
    } else if d == 4 {
        '4'
    } else if d == 5 {
        '5'
    } else if d == 6 {
        '6'
    } else if d == 7 {
        '7'
    } else if d == 8 {
        '8'
    } else {
        '9'
    }
}

/// A number written in decimal, without leading zeros.
pub open spec fn decimal(n: nat) -> Seq<char>
    decreases n,
{
    if n < 10 {
        seq![digit_char(n as int)]
    } else {
        decimal(n / 10).push(digit_char((n % 10) as int))
    }
}

/// The characters of the countdown text: "Timer: " and the seconds in
/// decimal, or nothing.
pub open spec fn label_chars(seconds: Option<u64>) -> Seq<char> {
    match seconds {
        Some(n) => "Timer: "@ + decimal(n as nat),
        None => Seq::empty(),
    }
}

/// One decimal digit as text.
fn digit_str(d: u64) -> (s: &'static str)
    requires
        d < 10,
    ensures
        s@ == seq![digit_char(d as int)],
{
    proof {
        reveal_strlit("0");
        reveal_strlit("1");
        reveal_strlit("2");
        reveal_strlit("3");
        reveal_strlit("4");
        reveal_strlit("5");
        reveal_strlit("6");
        reveal_strlit("7");
        reveal_strlit("8");
        reveal_strlit("9");
    }
    match d {
        0 => "0",
        1 => "1",
        2 => "2",
        3 => "3",
        4 => "4",
        5 => "5",
        6 => "6",
        7 => "7",
        8 => "8",
        _ => "9",
    }
}

/// Appends a number in decimal to a text.
fn push_decimal(text: &mut String, n: u64)
    ensures
        final(text)@ == old(text)@ + decimal(n as nat),
    decreases n,
{
    if n >= 10 {
        push_decimal(text, n / 10);
    }
    text.append(digit_str(n % 10));
}

impl TimerText {
    /// Writes the countdown text out: "Timer: " followed by the seconds, or
    /// the empty text.
    pub fn label(&self) -> (text: String)
        ensures
            text@ == label_chars(self.seconds),
    {
        match self.seconds {
            Some(n) => {
                let mut text = String::from_str("Timer: ");
                push_decimal(&mut text, n);
                text
            },
            None => String::new(),
        }
    }
}

/// The solid that stands for a token in the scene.
#[derive(Copy, Clone, PartialEq, Eq, Structural, Debug)]
pub enum TokenShape {
    Sphere,
    Cube,
    Torus,
}

/// The solid for each role: a sphere for the player, a cube for a trap, a
/// torus for a goal.
pub open spec fn shape_of(role: Role) -> TokenShape {
    match role {
        Role::Player => TokenShape::Sphere,
        Role::Trap => TokenShape::Cube,
        Role::Goal => TokenShape::Torus,
    }
}

/// Picks the solid that stands for a token of the given role.
pub fn shape_for(role: Role) -> (shape: TokenShape)
    ensures
        shape == shape_of(role),
{
    match role {
        Role::Player => TokenShape::Sphere,
        Role::Trap => TokenShape::Cube,
        Role::Goal => TokenShape::Torus,
    }
}

/// One of the three side-by-side views of the board, each drawn by a camera
/// of its own.
#[derive(Copy, Clone, PartialEq, Eq, Structural, Debug)]
pub enum CameraView {
    Red,
    Green,
    Blue,
}

/// The part of the window that a camera draws to, in physical pixels, and
/// the layer that it shows.
#[derive(Copy, Clone, PartialEq, Eq, Structural, Debug)]
pub struct Viewport {
    pub x: u32,
    pub y: u32,
    pub width: u32,
    pub height: u32,
    pub layer: u8,
}

impl CameraView {
    /// Position of the view from the left, starting at zero.
    pub open spec fn slot(self) -> nat {
        match self {
            CameraView::Red => 0,
            CameraView::Green => 1,
            CameraView::Blue => 2,
        }
    }

    /// The layer that the camera of this view shows.
    pub open spec fn layer(self) -> u8 {
        match self {
            CameraView::Red => RED_LAYER,
            CameraView::Green => GREEN_LAYER,
            CameraView::Blue => BLUE_LAYER,
        }
    }
}

/// The viewport of a view in a window of the given physical size: the window
/// is cut into three columns of a third of its width, and the view in slot
/// `i` starts at `i` thirds (rounded down) from the left.
pub fn camera_viewport(view: CameraView, window_width: u32, window_height: u32) -> (v: Viewport)
    ensures
        v.x == (view.slot() * window_width) / 3,
        v.y == 0,
        v.width == window_width / 3,
        v.height == window_height,
        v.layer == view.layer(),
        v.layer == view.slot() + 1,
{
    let (slot, layer): (u64, u8) = match view {
        CameraView::Red => (0, RED_LAYER),
        CameraView::Green => (1, GREEN_LAYER),
        CameraView::Blue => (2, BLUE_LAYER),
    };
    let x: u64 = slot * (window_width as u64) / 3;
    Viewport { x: x as u32, y: 0, width: window_width / 3, height: window_height, layer }
}

/// Path of the sound that a signal plays, as characters.
pub open spec fn sound_path(event: GameEvent) -> Seq<char> {
    match event {
        GameEvent::ReachedGoal => "sounds/level-reached.ogg"@,
        GameEvent::HitTrap => "sounds/hit-trap.ogg"@,
        GameEvent::PlayerMoved => "sounds/move.ogg"@,
        GameEvent::TimerExpired => "sounds/hit-trap.ogg"@,
    }
}

/// The sound asset that a signal plays.
pub fn sound_for(event: GameEvent) -> (path: &'static str)
    ensures
        path@ == sound_path(event),
{
    match event {
        GameEvent::ReachedGoal => "sounds/level-reached.ogg",
        GameEvent::HitTrap => "sounds/hit-trap.ogg",
        GameEvent::PlayerMoved => "sounds/move.ogg",
        GameEvent::TimerExpired => "sounds/hit-trap.ogg",
    }
}

} // verus!
