//! Dimensions of the switch matrix and of the layer table.

use vstd::prelude::*;

verus! {

/// Number of row lines in the switch matrix.
pub const MATRIX_ROWS: usize = 4;

/// Number of column lines in the switch matrix.
pub const MATRIX_COLS: usize = 8;

/// Number of keymap layers baked into the firmware.
pub const NUM_LAYERS: usize = 2;

} // verus!
