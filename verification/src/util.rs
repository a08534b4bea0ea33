//! Shared spatial and resource types: window bounds, positions, speeds,
//! health pools and axis-aligned hitboxes.

use crate::fx::FX_ONE;
use vstd::prelude::*;

verus! {

/// One simulated frame at 60 frames per second, in fixed-point seconds:
/// a sixtieth of `FX_ONE`.
pub const TIME_STEP: i64 = 60;

/// A point or extent in the plane, in fixed-point pixels.
#[derive(Clone, Copy, PartialEq, Eq, Structural, Debug)]
pub struct Vec2 {
    pub x: i64,
    pub y: i64,
}

/// An entity's placement in the world.
#[derive(Clone, Copy, PartialEq, Eq, Structural, Debug)]
pub struct Transform {
    pub translation: Vec2,
}

/// The window extents and the padding that bounds player movement, in
/// fixed-point pixels.
#[derive(Clone, Copy)]
pub struct WinSize {
    pub w: i64,
    pub h: i64,
    pub half_w: i64,
    pub half_h: i64,
    pub padding_top: i64,
    pub padding_right: i64,
    pub padding_bottom: i64,
    pub padding_left: i64,
}

impl WinSize {
    /// Builds the window resource from its pixel dimensions, halving them
    /// and applying the standard edge paddings.
    pub fn new(w: i64, h: i64) -> (r: WinSize)
        requires
            0 <= w,
            0 <= h,
        ensures
            r.w == w,
            r.h == h,
            r.half_w == w as int / 2,
            r.half_h == h as int / 2,
            r.padding_top == 10 * FX_ONE,
            r.padding_right == 10 * FX_ONE,
            r.padding_bottom == 25 * FX_ONE,
            r.padding_left == 10 * FX_ONE,
    {
        WinSize {
            w,
            h,
            half_w: w / 2,
            half_h: h / 2,
            padding_top: 10 * FX_ONE,
            padding_right: 10 * FX_ONE,
            padding_bottom: 25 * FX_ONE,
            padding_left: 10 * FX_ONE,
        }
    }
}

/// The pressed state of the logical keys the simulation reads, sampled
/// once per frame by the host shell.
#[derive(Clone, Copy, PartialEq, Eq, Structural, Debug, Default)]
pub struct InputState {
    pub left: bool,
    pub right: bool,
    pub up: bool,
    pub down: bool,
    pub fire: bool,
}

/// A velocity in fixed-point pixels per second, horizontal then vertical.
#[derive(Clone, Copy, PartialEq, Eq, Structural, Debug)]
pub struct Speed(pub i64, pub i64);

impl Default for Speed {
    /// A resting velocity.
    fn default() -> (r: Self)
        ensures
            r == (Speed(0, 0)),
    {
        Speed(0, 0)
    }
}

/// A health pool: current, then maximum, in fixed-point hit points.
#[derive(Clone, Copy, PartialEq, Eq, Structural, Debug)]
pub struct Health(pub i64, pub i64);

/// An axis-aligned hitbox held as a half-extent rectangle relative to the
/// owner's position; the rectangle reaches from `position - rect` to
/// `position` on both axes.
#[derive(Clone, Copy, PartialEq, Eq, Structural, Debug)]
pub struct HitBox {
    pub rect: Vec2,
}

impl HitBox {
    /// Whether `point` lies strictly inside the box anchored at `origin`:
    /// points exactly on the boundary are excluded.
    pub open spec fn spec_contains(self, origin: Vec2, point: Vec2) -> bool {
        &&& origin.x - self.rect.x < point.x < origin.x
        &&& origin.y - self.rect.y < point.y < origin.y
    }

    /// Strict containment test of `point` in the box anchored at `origin`.
    pub fn contains(&self, origin: &Vec2, point: &Vec2) -> (r: bool)
        ensures
            r == self.spec_contains(*origin, *point),
    {
        let ox: i128 = origin.x as i128;
        let oy: i128 = origin.y as i128;
        let px: i128 = point.x as i128;
        let py: i128 = point.y as i128;
        let rx: i128 = self.rect.x as i128;
        let ry: i128 = self.rect.y as i128;
        ox - rx < px && px < ox && oy - ry < py && py < oy
    }
}

} // verus!
