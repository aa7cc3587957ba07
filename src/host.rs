//! The host operations that take and return integers, as the offline
//! stand-in backend provides them: each one does nothing and reports status
//! `0`, whatever its arguments. The real host imports are bound outside this
//! library, where a build for the host target selects them.
#![allow(unused_variables)]

use vstd::prelude::*;

verus! {

/// What the stand-in reports for a create-object call that received these
/// two tags. It is `0` for every pair; it is closed so that a caller's
/// contract, stated over it, records which tags that caller handed over.
pub closed spec fn object_status(geometry_tag: i32, material_tag: i32) -> i32 {
    0
}

/// Creates a mesh from a geometry tag and a material tag; the stand-in
/// reports `0`.
pub fn createObject(geometry: i32, material: i32) -> (r: i32)
    ensures
        r == object_status(geometry, material),
        r == 0,
{
    0
}

/// Creates a sprite from a texture handle; the stand-in reports `0`.
pub fn createSprite(texture_id: i32) -> (r: i32)
    ensures
        r == 0,
{
    0
}

/// Sets the background colour; the stand-in reports `0`.
pub fn setBg(color: i32) -> (r: i32)
    ensures
        r == 0,
{
    0
}

/// Adds an object to the scene; the stand-in reports `0`.
pub fn addObjectToScene(object_id: i32) -> (r: i32)
    ensures
        r == 0,
{
    0
}

/// Removes an object from the scene; the stand-in reports `0`.
pub fn removeObjectFromScene(object_id: i32) -> (r: i32)
    ensures
        r == 0,
{
    0
}

/// Selects the frame a sprite shows; the stand-in reports `0`.
pub fn setSpriteAnimationOffset(object_id: i32, frame_x: i32, frame_y: i32) -> (r: i32)
    ensures
        r == 0,
{
    0
}

/// The raw key bitmask; the stand-in reports no key held.
pub fn getKeysPressed() -> (r: i32)
    ensures
        r == 0,
{
    0
}

/// The packed mouse delta; the stand-in reports no movement.
pub fn getMouseMovement() -> (r: i32)
    ensures
        r == 0,
{
    0
}

/// Draws the scene; the stand-in reports `0`.
pub fn render() -> (r: i32)
    ensures
        r == 0,
{
    0
}

} // verus!
