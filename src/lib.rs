//! The verified core of the bindings to a host 3D rendering runtime: the
//! material and geometry tags handed to the host, the packed mouse-delta and
//! key-bitmask encodings read back from it, and one wrapper per integer host
//! operation, run here over the offline stand-in backend that reports `0`.
#![allow(non_snake_case)]

mod classes;
pub mod ctx;
mod host;
mod keys;
mod packed;

pub use classes::{create_object_args, GeometryClass, MaterialClass};
pub use host::{
    addObjectToScene, createObject, createSprite, getKeysPressed, getMouseMovement,
    removeObjectFromScene, render, setBg, setSpriteAnimationOffset,
};
pub use keys::KeysSet;
pub use packed::TwoI16;
