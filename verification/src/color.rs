//! The seven colours of the game, their light channels and the camera layers
//! that show them.

use vstd::prelude::*;

verus! {

/// Colour of a token.  The names are those used in level files.
#[derive(Copy, Clone, PartialEq, Eq, Structural, Debug)]
pub enum GameColor {
    Red,
    Green,
    Blue,
    Yellow,
    Cyan,
    Pink,
    White,
}

/// A colour as three light channels, each fully on or fully off.
#[derive(Copy, Clone, PartialEq, Eq, Structural, Debug)]
pub struct Rgb {
    pub red: bool,
    pub green: bool,
    pub blue: bool,
}

/// Layer shown by the camera of the red view.
pub const RED_LAYER: u8 = 1;

/// Layer shown by the camera of the green view.
pub const GREEN_LAYER: u8 = 2;

/// Layer shown by the camera of the blue view.
pub const BLUE_LAYER: u8 = 3;

impl GameColor {
    /// The light channels that make up the colour.
    pub open spec fn channels(self) -> Rgb {
        match self {
            GameColor::Red => Rgb { red: true, green: false, blue: false },
            GameColor::Green => Rgb { red: false, green: true, blue: false },
            GameColor::Blue => Rgb { red: false, green: false, blue: true },
            GameColor::Yellow => Rgb { red: true, green: true, blue: false },
            GameColor::Cyan => Rgb { red: false, green: true, blue: true },
            GameColor::Pink => Rgb { red: true, green: false, blue: true },
            GameColor::White => Rgb { red: true, green: true, blue: true },
        }
    }

    /// The camera layers on which the colour is drawn, in increasing order:
    /// one layer for each channel that is on.
    pub open spec fn layer_seq(self) -> Seq<u8> {
        let c = self.channels();
        (if c.red {
            seq![RED_LAYER]
        } else {
            seq![]
        }) + (if c.green {
            seq![GREEN_LAYER]
        } else {
            seq![]
        }) + (if c.blue {
            seq![BLUE_LAYER]
        } else {
            seq![]
        })
    }
}

/// Light channels of a colour, for the material of a token.
pub fn rgb_from_game_color(game_color: GameColor) -> (rgb: Rgb)
    ensures
        rgb == game_color.channels(),
{
    match game_color {
        GameColor::Red => Rgb { red: true, green: false, blue: false },
        GameColor::Green => Rgb { red: false, green: true, blue: false },
        GameColor::Blue => Rgb { red: false, green: false, blue: true },
        GameColor::Yellow => Rgb { red: true, green: true, blue: false },
        GameColor::Cyan => Rgb { red: false, green: true, blue: true },
        GameColor::Pink => Rgb { red: true, green: false, blue: true },
        GameColor::White => Rgb { red: true, green: true, blue: true },
    }
}

/// Camera layers on which a token of the given colour is visible.
pub fn layers_from_game_color(game_color: GameColor) -> (layers: Vec<u8>)
    ensures
        layers@ == game_color.layer_seq(),
{
    let layers: Vec<u8> = match game_color {
        GameColor::Red => vec![1],
        GameColor::Green => vec![2],
        GameColor::Blue => vec![3],
        GameColor::Yellow => vec![1, 2],
        GameColor::Cyan => vec![2, 3],
        GameColor::Pink => vec![1, 3],
        GameColor::White => vec![1, 2, 3],
    };
    layers
}

} // verus!
