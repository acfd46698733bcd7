//! UI cursor component
use vstd::prelude::*;

verus! {

/// Path of the cursor sprite
pub const CURSOR_PATH: &'static str = "asset/hud/cursor.png";

/// Cursor component
pub struct Cursor;

} // verus!
