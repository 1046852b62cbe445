//! The procedural crosshair: two diagonal strokes, one pixel thick, with one
//! pixel of half intensity on each side.

use crate::pixel::{argb_word, pack_argb};
use vstd::prelude::*;

verus! {

/// Intensity on the stroke.
pub const STROKE: u8 = 0xff;

/// Intensity one pixel beside the stroke.
pub const FRINGE: u8 = 0x88;

/// Signed distance of pixel `(x, y)` from the stroke. Columns up to and
/// including `width / 2` measure against the falling diagonal
/// `x + y = height`, the others against the rising diagonal `y = x`.
pub open spec fn crosshair_distance(width: int, height: int, x: int, y: int) -> int {
    if x <= width / 2 {
        x + y - height
    } else {
        y - x
    }
}

/// Intensity at a given distance from the stroke.
pub open spec fn crosshair_intensity(distance: int) -> u8 {
    if distance == 0 {
        STROKE
    } else if distance == 1 || distance == -1 {
        FRINGE
    } else {
        0
    }
}

/// The ARGB word of pixel `(x, y)`: its intensity in alpha and in all three
/// colour channels.
pub open spec fn crosshair_word(width: int, height: int, x: int, y: int) -> u32 {
    let v = crosshair_intensity(crosshair_distance(width, height, x, y));
    argb_word(v, v, v, v)
}

/// Intensity of pixel `(x, y)` of a `width` by `height` crosshair.
pub fn intensity_at(width: u32, height: u32, x: u32, y: u32) -> (v: u8)
    ensures
        v == crosshair_intensity(crosshair_distance(width as int, height as int, x as int, y as int)),
        v != 0 <==> -1 <= crosshair_distance(width as int, height as int, x as int, y as int) <= 1,
{
    let d: i64 = if x <= width / 2 {
        x as i64 + y as i64 - height as i64
    } else {
        y as i64 - x as i64
    };
    if d == 0 {
        STROKE
    } else if d == 1 || d == -1 {
        FRINGE
    } else {
        0
    }
}

/// ARGB word of pixel `(x, y)` of a `width` by `height` crosshair.
pub fn crosshair_pixel(width: u32, height: u32, x: u32, y: u32) -> (word: u32)
    ensures
        word == crosshair_word(width as int, height as int, x as int, y as int),
{
    let v = intensity_at(width, height, x, y);
    pack_argb(v, v, v, v)
}

} // verus!
