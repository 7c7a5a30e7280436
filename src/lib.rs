//! Sprite sheet descriptions: grid and list layouts resolved into sprite regions with
//! exact texture coordinates, and the state transitions that turn sheet and render
//! declarations into loaded handles.
use vstd::prelude::*;

pub mod grid;
pub mod list;
pub mod prefab;
pub mod region;
pub mod sheet;

verus! {

} // verus!
