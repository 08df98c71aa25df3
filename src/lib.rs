//! Exports of a MotionTag storyline: geometries read from JSON, encoded as
//! big-endian well-known binary and rendered as hexadecimal, and the CSV rows
//! and service responses around them.
use vstd::prelude::*;

pub mod geometry;
pub mod hex;
pub mod json;
pub mod motion_tag;
pub mod text;
pub mod wkb;

verus! {

} // verus!
