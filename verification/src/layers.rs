//! Layer resolver: the static keymap table and the active-layer selector.

use vstd::prelude::*;

use crate::keyboard_config::{MATRIX_COLS, MATRIX_ROWS, NUM_LAYERS};
use crate::keycodes::Keycode;

verus! {

/// The ordered set of keymaps, one full rows-by-columns grid of keycodes per
/// layer, together with the index of the layer that is currently active.
///
/// The keymaps are fixed at construction; only `current_layer` ever changes,
/// and [`Layers::set_layer`] keeps it inside the table.
pub struct Layers {
    pub keymaps: [[[Keycode; MATRIX_COLS]; MATRIX_ROWS]; NUM_LAYERS],
    pub current_layer: usize,
}

/// The keycode the firmware's built-in table assigns to a position: letters
/// and digits on the base layer, function keys on the second layer.
pub open spec fn default_key(layer: int, row: int, col: int) -> Keycode {
    if layer == 0 {
        if row == 0 {
            seq![
                Keycode::A,
                Keycode::B,
                Keycode::C,
                Keycode::D,
                Keycode::E,
                Keycode::F,
                Keycode::G,
                Keycode::H,
            ][col]
        } else if row == 1 {
            seq![
                Keycode::I,
                Keycode::J,
                Keycode::K,
                Keycode::L,
                Keycode::M,
                Keycode::N,
                Keycode::O,
                Keycode::P,
            ][col]
        } else if row == 2 {
            seq![
                Keycode::Q,
                Keycode::R,
                Keycode::S,
                Keycode::T,
                Keycode::U,
                Keycode::V,
                Keycode::W,
                Keycode::X,
            ][col]
        } else {
            seq![
                Keycode::Y,
                Keycode::Z,
                Keycode::N1,
                Keycode::N2,
                Keycode::N3,
                Keycode::N4,
                Keycode::N5,
                Keycode::N6,
            ][col]
        }
    } else {
        if row == 0 {
            seq![
                Keycode::F1,
                Keycode::F2,
                Keycode::F3,
                Keycode::F4,
                Keycode::F5,
                Keycode::F6,
                Keycode::F7,
                Keycode::F8,
            ][col]
        } else if row == 1 {
            seq![
                Keycode::F9,
                Keycode::F10,
                Keycode::F11,
                Keycode::F12,
                Keycode::No,
                Keycode::No,
                Keycode::No,
                Keycode::No,
            ][col]
        } else {
            seq![
                Keycode::No,
                Keycode::No,
                Keycode::No,
                Keycode::No,
                Keycode::No,
                Keycode::No,
                Keycode::No,
                Keycode::No,
            ][col]
        }
    }
}

impl Layers {
    /// The keycode stored at a (layer, row, column) position of the table.
    pub open spec fn spec_key(self, layer: int, row: int, col: int) -> Keycode {
        self.keymaps@[layer]@[row]@[col]
    }

    /// The active layer never leaves the table.
    pub open spec fn wf(self) -> bool {
        self.current_layer < NUM_LAYERS
    }

    /// Builds the layer table with the firmware's built-in keymaps and the
    /// base layer active.
    pub fn new() -> (r: Layers)
        ensures
            r.wf(),
            r.current_layer == 0,
            forall|layer: int, row: int, col: int|
                0 <= layer < NUM_LAYERS && 0 <= row < MATRIX_ROWS && 0 <= col < MATRIX_COLS
                    ==> r.spec_key(layer, row, col) == default_key(layer, row, col),
    {
        let keymaps = [
            [
                [
                    Keycode::A,
                    Keycode::B,
                    Keycode::C,
                    Keycode::D,
                    Keycode::E,
                    Keycode::F,
                    Keycode::G,
                    Keycode::H,
                ],
                [
                    Keycode::I,
                    Keycode::J,
                    Keycode::K,
                    Keycode::L,
                    Keycode::M,
                    Keycode::N,
                    Keycode::O,
                    Keycode::P,
                ],
                [
                    Keycode::Q,
                    Keycode::R,
                    Keycode::S,
                    Keycode::T,
                    Keycode::U,
                    Keycode::V,
                    Keycode::W,
                    Keycode::X,
                ],
                [
                    Keycode::Y,
                    Keycode::Z,
                    Keycode::N1,
                    Keycode::N2,
                    Keycode::N3,
                    Keycode::N4,
                    Keycode::N5,
                    Keycode::N6,
                ],
            ],
            [
                [
                    Keycode::F1,
                    Keycode::F2,
                    Keycode::F3,
                    Keycode::F4,
                    Keycode::F5,
                    Keycode::F6,
                    Keycode::F7,
                    Keycode::F8,
                ],
                [
                    Keycode::F9,
                    Keycode::F10,
                    Keycode::F11,
                    Keycode::F12,
                    Keycode::No,
                    Keycode::No,
                    Keycode::No,
                    Keycode::No,
                ],
                [
                    Keycode::No,
                    Keycode::No,
                    Keycode::No,
                    Keycode::No,
                    Keycode::No,
                    Keycode::No,
                    Keycode::No,
                    Keycode::No,
                ],
                [
                    Keycode::No,
                    Keycode::No,
                    Keycode::No,
                    Keycode::No,
                    Keycode::No,
                    Keycode::No,
                    Keycode::No,
                    Keycode::No,
                ],
            ],
        ];
        let r = Layers { keymaps, current_layer: 0 };
        assert forall|layer: int, row: int, col: int|
            0 <= layer < NUM_LAYERS && 0 <= row < MATRIX_ROWS && 0 <= col < MATRIX_COLS implies r.spec_key(
            layer,
            row,
            col,
        ) == default_key(layer, row, col) by {
            assert(0 <= layer < 2 && 0 <= row < 4 && 0 <= col < 8);
        }
        r
    }

    /// Pure lookup of the keycode at a position of a layer.
    pub fn get_keycode(&self, layer: usize, row: usize, col: usize) -> (r: Keycode)
        requires
            layer < NUM_LAYERS,
            row < MATRIX_ROWS,
            col < MATRIX_COLS,
        ensures
            r == self.spec_key(layer as int, row as int, col as int),
    {
        self.keymaps[layer][row][col]
    }

    /// The index of the layer that is currently active.
    pub fn get_current_layer(&self) -> (r: usize)
        ensures
            r == self.current_layer,
    {
        self.current_layer
    }

    /// Makes `layer` the active layer when it is a valid layer index; an
    /// out-of-range request is silently ignored, never a fault.
    pub fn set_layer(&mut self, layer: usize)
        ensures
            final(self).keymaps == old(self).keymaps,
            final(self).current_layer == if layer < NUM_LAYERS {
                layer
            } else {
                old(self).current_layer
            },
            old(self).wf() ==> final(self).wf(),
    {
        if layer < NUM_LAYERS {
            self.current_layer = layer;
        }
    }
}

} // verus!
