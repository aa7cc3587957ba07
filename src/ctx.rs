//! One wrapper per integer host operation, run over the offline stand-in
//! backend. Each passes its arguments through in the same order and returns
//! the stand-in's result unchanged, except that the create-object call hands
//! over the two enumerations as their integer tags, and the two input polls
//! decode the key bitmask and the packed mouse delta.
use vstd::prelude::*;

use crate::classes::{create_object_args, GeometryClass, MaterialClass};
use crate::host;
use crate::keys::KeysSet;
use crate::packed::TwoI16;

verus! {

/// Creates a mesh of the given shape and material, handing the host the
/// geometry's tag and the material's tag, and returns what the host reports.
pub fn create_object(geometry: GeometryClass, material: MaterialClass) -> (r: i32)
    ensures
        r == host::object_status(geometry.spec_tag(), material.spec_tag()),
        r == 0,
{
    let (g, m) = create_object_args(geometry, material);
    host::createObject(g, m)
}

/// Creates a sprite from a texture handle and returns what the host reports.
pub fn create_sprite(texture_id: i32) -> (r: i32)
    ensures
        r == 0,
{
    host::createSprite(texture_id)
}

/// Sets the background colour.
pub fn set_bg(color: i32) -> (r: i32)
    ensures
        r == 0,
{
    host::setBg(color)
}

/// Adds an object to the scene.
pub fn add_object_to_scene(object_id: i32) -> (r: i32)
    ensures
        r == 0,
{
    host::addObjectToScene(object_id)
}

/// Removes an object from the scene.
pub fn remove_object_from_scene(object_id: i32) -> (r: i32)
    ensures
        r == 0,
{
    host::removeObjectFromScene(object_id)
}

/// Selects the frame a sprite shows.
pub fn set_sprite_animation_offset(object_id: i32, frame_x: i32, frame_y: i32) -> (r: i32)
    ensures
        r == 0,
{
    host::setSpriteAnimationOffset(object_id, frame_x, frame_y)
}

/// Draws the scene.
pub fn render() -> (r: i32)
    ensures
        r == 0,
{
    host::render()
}

/// The keys held now, as the host's bitmask.
pub fn get_keys_pressed() -> (r: KeysSet)
    ensures
        r.0 == 0,
{
    KeysSet::from(host::getKeysPressed())
}

/// The mouse movement since the last poll, split from the host's packed word.
pub fn get_mouse_movement() -> (r: TwoI16)
    ensures
        r.x == 0,
        r.y == 0,
{
    TwoI16::from(host::getMouseMovement())
}

} // verus!
