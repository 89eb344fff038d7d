//! RGBA pixels, the reserved sentinel colors, and cell classification.

use vstd::prelude::*;

verus! {

/// One RGBA pixel as stored in a grid buffer.
#[derive(PartialEq, Eq, Structural, Copy, Clone, Debug)]
pub struct Pixel {
    pub r: u8,
    pub g: u8,
    pub b: u8,
    pub a: u8,
}

/// The reserved "empty" sentinel color (black, fully opaque).
pub open spec fn spec_black() -> Pixel {
    Pixel { r: 0, g: 0, b: 0, a: 255 }
}

/// The reserved "active" sentinel color (white, fully opaque).
pub open spec fn spec_white() -> Pixel {
    Pixel { r: 255, g: 255, b: 255, a: 255 }
}

/// Returns the reserved "empty" sentinel color.
pub fn black() -> (p: Pixel)
    ensures
        p == spec_black(),
{
    Pixel { r: 0, g: 0, b: 0, a: 255 }
}

/// Returns the reserved "active" sentinel color.
pub fn white() -> (p: Pixel)
    ensures
        p == spec_white(),
{
    Pixel { r: 255, g: 255, b: 255, a: 255 }
}

/// How a stored pixel reads from the point of view of one team.
#[derive(PartialEq, Eq, Structural, Copy, Clone, Debug)]
pub enum CellCondition {
    Empty,
    Active,
    Owned,
    Enemy,
}

/// Classification of a pixel relative to the evaluating team's color:
/// the team's own color reads `Owned`, the black sentinel `Empty`, the
/// white sentinel `Active`, and anything else (another team) `Enemy`.
pub open spec fn spec_classify(pixel: Pixel, team_color: Pixel) -> CellCondition {
    if pixel == team_color {
        CellCondition::Owned
    } else if pixel == spec_black() {
        CellCondition::Empty
    } else if pixel == spec_white() {
        CellCondition::Active
    } else {
        CellCondition::Enemy
    }
}

/// Classifies a stored pixel relative to the evaluating team's color.
pub fn classify(pixel: Pixel, team_color: Pixel) -> (c: CellCondition)
    ensures
        c == spec_classify(pixel, team_color),
{
    if pixel == team_color {
        CellCondition::Owned
    } else if pixel == black() {
        CellCondition::Empty
    } else if pixel == white() {
        CellCondition::Active
    } else {
        CellCondition::Enemy
    }
}

} // verus!
