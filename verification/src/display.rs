//! What a renderer needs worked out before it draws: the digits of the
//! clock and of the scores, the countdown, who has won, and how two rows of
//! pixels become one row of text cells.

use crate::field::STARTING_DELAY_MILLISECONDS;
use crate::types::GameSide;
use vstd::prelude::*;

verus! {

/// A number as the big font shows it.
#[derive(Clone, Copy, PartialEq, Eq, Debug, Structural)]
pub enum BigNumber {
    /// One digit.
    Single(u8),
    /// Two digits: the tens, then the units.
    Double(u8, u8),
    /// A number of three digits, which the font has no room for: a colon
    /// stands in its place.
    Dots,
}

/// The digits of `x` in the big font.
pub open spec fn big_number(x: u8) -> BigNumber {
    if x < 10 {
        BigNumber::Single(x)
    } else if x < 100 {
        BigNumber::Double(x / 10, x % 10)
    } else {
        BigNumber::Dots
    }
}

/// The digits of `x` in the big font.
pub fn big_font(x: u8) -> (r: BigNumber)
    ensures
        r == big_number(x),
        r matches BigNumber::Single(d) ==> d < 10,
        r matches BigNumber::Double(t, u) ==> 1 <= t < 10 && u < 10 && 10 * t + u == x,
{
    if x < 10 {
        BigNumber::Single(x)
    } else if x < 100 {
        BigNumber::Double(x / 10, x % 10)
    } else {
        BigNumber::Dots
    }
}

/// The clock for `seconds` seconds: the minutes, the tens of the seconds
/// and their units, each as the byte that the big font takes.
pub open spec fn clock_of(seconds: u128) -> (u8, u8, u8) {
    (((seconds / 60) % 256) as u8, ((seconds % 60) / 10) as u8, ((seconds % 60) % 10) as u8)
}

/// The clock for `seconds` seconds.
pub fn clock(seconds: u128) -> (r: (u8, u8, u8))
    ensures
        r == clock_of(seconds),
        r.1 < 6,
        r.2 < 10,
        seconds < 60 * 256 ==> r.0 * 60 + r.1 * 10 + r.2 == seconds,
{
    let minutes: u128 = (seconds / 60) % 256;
    let rest: u128 = seconds % 60;
    (minutes as u8, (rest / 10) as u8, (rest % 10) as u8)
}

/// The number that the countdown shows `elapsed` milliseconds after it
/// began: one more than the whole seconds that are left; nothing once the
/// countdown is over.
pub open spec fn countdown_of(elapsed: u128) -> Option<u8> {
    if STARTING_DELAY_MILLISECONDS > elapsed {
        Some(((STARTING_DELAY_MILLISECONDS - elapsed) / 1000 + 1) as u8)
    } else {
        None
    }
}

/// The number that the countdown shows.
pub fn countdown(elapsed: u128) -> (r: Option<u8>)
    ensures
        r == countdown_of(elapsed),
        r matches Some(n) ==> 1 <= n <= 4,
{
    if STARTING_DELAY_MILLISECONDS > elapsed {
        let seconds: u128 = (STARTING_DELAY_MILLISECONDS - elapsed) / 1000;
        Some(seconds as u8 + 1)
    } else {
        None
    }
}

/// The side with more goals; none where both have as many.
pub open spec fn winner_of(red_score: u8, blue_score: u8) -> Option<GameSide> {
    if red_score > blue_score {
        Some(GameSide::Red)
    } else if blue_score > red_score {
        Some(GameSide::Blue)
    } else {
        None
    }
}

/// The winner of a match that ends with these scores, if it has one.
pub fn winner(red_score: u8, blue_score: u8) -> (r: Option<GameSide>)
    ensures
        r == winner_of(red_score, blue_score),
{
    if red_score > blue_score {
        Some(GameSide::Red)
    } else if blue_score > red_score {
        Some(GameSide::Blue)
    } else {
        None
    }
}

/// Columns that are left free on either side of a score: five beside one
/// digit, one beside two.
pub fn score_margin(score: u8) -> (r: u16)
    ensures
        r == (if score < 10 {
            5int
        } else {
            1int
        }),
{
    if score < 10 {
        5
    } else {
        1
    }
}

/// A colour, as red, green and blue.
pub type Rgb = (u8, u8, u8);

/// A pixel, as red, green, blue and opacity.
pub type Rgba = (u8, u8, u8, u8);

/// One text cell that shows two pixels, one above the other.
#[derive(Clone, Copy, PartialEq, Eq, Debug)]
pub enum HalfBlock {
    /// Nothing: both pixels are transparent.
    Blank,
    /// The upper half in this colour over nothing.
    Upper(Rgb),
    /// The lower half in this colour under nothing.
    Lower(Rgb),
    /// The upper half in the first colour before a background in the
    /// second.
    Both(Rgb, Rgb),
}

/// The colour of a pixel.
pub open spec fn colour(pixel: Rgba) -> Rgb {
    (pixel.0, pixel.1, pixel.2)
}

/// The text cell for the pixel `top` above the pixel `bottom`. A pixel
/// counts where its opacity is not zero.
pub open spec fn half_block_of(top: Rgba, bottom: Rgba) -> HalfBlock {
    if top.3 == 0 && bottom.3 == 0 {
        HalfBlock::Blank
    } else if bottom.3 == 0 {
        HalfBlock::Upper(colour(top))
    } else if top.3 == 0 {
        HalfBlock::Lower(colour(bottom))
    } else {
        HalfBlock::Both(colour(top), colour(bottom))
    }
}

/// The text cell for the pixel `top` above the pixel `bottom`.
pub fn half_block(top: Rgba, bottom: Rgba) -> (r: HalfBlock)
    ensures
        r == half_block_of(top, bottom),
{
    if top.3 == 0 && bottom.3 == 0 {
        return HalfBlock::Blank;
    }
    if top.3 > 0 && bottom.3 == 0 {
        HalfBlock::Upper((top.0, top.1, top.2))
    } else if top.3 == 0 && bottom.3 > 0 {
        HalfBlock::Lower((bottom.0, bottom.1, bottom.2))
    } else {
        HalfBlock::Both((top.0, top.1, top.2), (bottom.0, bottom.1, bottom.2))
    }
}

/// Tells whether a sprite of `sprite` columns and rows, put with its upper
/// left corner at `at`, lies within an image of `image` columns and rows.
pub fn sprite_fits(image: (u32, u32), sprite: (u32, u32), at: (u32, u32)) -> (r: bool)
    ensures
        r == (sprite.0 + at.0 <= image.0 && sprite.1 + at.1 <= image.1),
{
    let right: u64 = sprite.0 as u64 + at.0 as u64;
    let bottom: u64 = sprite.1 as u64 + at.1 as u64;
    right <= image.0 as u64 && bottom <= image.1 as u64
}

} // verus!
