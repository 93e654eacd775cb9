//! Top-level driver: diffs each fresh scan grid against the previous one,
//! resolves every transition through the active layer, feeds the events to
//! the report synthesizer, and collects the reports that must be submitted.

use vstd::prelude::*;

use crate::keyboard_config::{MATRIX_COLS, MATRIX_ROWS, NUM_LAYERS};
use crate::layers::Layers;
use crate::report::{apply_event, blank_view, MyKeyboardReport, ReportState, ReportView};

verus! {

/// One pressed/released snapshot of the whole switch matrix, `true` meaning
/// "currently pressed".
pub type ScanGrid = [[bool; MATRIX_COLS]; MATRIX_ROWS];

/// The cell of a grid at (row, col).
pub open spec fn grid_at(g: ScanGrid, row: int, col: int) -> bool {
    g@[row]@[col]
}

/// The report after the first `n` cells of the row-major sweep over the two
/// grids: every cell whose pressed state changed contributes one event,
/// resolved through layer `layer` of the keymap table.
pub open spec fn state_after(
    rv: ReportView,
    prev: ScanGrid,
    next: ScanGrid,
    layers: Layers,
    layer: int,
    n: int,
) -> ReportView
    decreases n,
{
    if n <= 0 {
        rv
    } else {
        let before = state_after(rv, prev, next, layers, layer, n - 1);
        let row = (n - 1) / (MATRIX_COLS as int);
        let col = (n - 1) % (MATRIX_COLS as int);
        if grid_at(prev, row, col) != grid_at(next, row, col) {
            apply_event(before, layers.spec_key(layer, row, col), grid_at(next, row, col))
        } else {
            before
        }
    }
}

/// The reports submitted during the first `n` cells of the sweep, in order:
/// one for each event that changed the report.
pub open spec fn outputs_after(
    rv: ReportView,
    prev: ScanGrid,
    next: ScanGrid,
    layers: Layers,
    layer: int,
    n: int,
) -> Seq<ReportView>
    decreases n,
{
    if n <= 0 {
        Seq::empty()
    } else {
        let outs = outputs_after(rv, prev, next, layers, layer, n - 1);
        let before = state_after(rv, prev, next, layers, layer, n - 1);
        let after = state_after(rv, prev, next, layers, layer, n);
        if after == before {
            outs
        } else {
            outs.push(after)
        }
    }
}

/// The single owner of the input pipeline's state: the grid of the previous
/// tick, the layer table with its active-layer selector, and the report
/// synthesizer.  Both event sources of the firmware, the scan timer and the
/// transport poll, dispatch into methods of this one object.
pub struct Driver {
    pub matrix_state: ScanGrid,
    pub layers: Layers,
    pub report: ReportState,
}

impl Driver {
    /// The active layer is in range and the report's reserved byte is zero.
    pub open spec fn wf(self) -> bool {
        self.layers.wf() && self.report.wf()
    }

    /// Starts the pipeline: no switch remembered as pressed, the base layer
    /// active, the blank report stored.
    pub fn new() -> (r: Driver)
        ensures
            r.wf(),
            r.layers.current_layer == 0,
            r.report.last_report@ == blank_view(),
            forall|row: int, col: int|
                0 <= row < MATRIX_ROWS && 0 <= col < MATRIX_COLS ==> !grid_at(
                    r.matrix_state,
                    row,
                    col,
                ),
            forall|layer: int, row: int, col: int|
                0 <= layer < NUM_LAYERS && 0 <= row < MATRIX_ROWS && 0 <= col < MATRIX_COLS
                    ==> r.layers.spec_key(layer, row, col) == crate::layers::default_key(
                    layer,
                    row,
                    col,
                ),
    {
        Driver {
            matrix_state: [[false;MATRIX_COLS];MATRIX_ROWS],
            layers: Layers::new(),
            report: ReportState::new(),
        }
    }

    /// One timer tick: sweep the fresh grid against the stored one in
    /// row-major order, resolve each transition through the layer that was
    /// active when the tick began, feed the press/release events to the
    /// report synthesizer, and return every report that must be submitted,
    /// oldest first.  The fresh grid becomes the stored one.
    pub fn scan_tick(&mut self, new_state: &ScanGrid) -> (out: Vec<MyKeyboardReport>)
        requires
            old(self).wf(),
        ensures
            final(self).wf(),
            final(self).layers == old(self).layers,
            final(self).matrix_state == *new_state,
            final(self).report.last_report@ == state_after(
                old(self).report.last_report@,
                old(self).matrix_state,
                *new_state,
                old(self).layers,
                old(self).layers.current_layer as int,
                (MATRIX_ROWS * MATRIX_COLS) as int,
            ),
            out@.map_values(|rep: MyKeyboardReport| rep@) == outputs_after(
                old(self).report.last_report@,
                old(self).matrix_state,
                *new_state,
                old(self).layers,
                old(self).layers.current_layer as int,
                (MATRIX_ROWS * MATRIX_COLS) as int,
            ),
    {
        let layer = self.layers.get_current_layer();
        let mut out: Vec<MyKeyboardReport> = Vec::new();
        let ghost rv0 = self.report.last_report@;
        let ghost prev_g = self.matrix_state;
        let ghost table = self.layers;
        let mut k: usize = 0;
        while k < MATRIX_ROWS * MATRIX_COLS
        invariant
            k <= MATRIX_ROWS * MATRIX_COLS,
            layer < NUM_LAYERS,
            self.layers == table,
            self.layers.wf(),
            self.report.wf(),
            layer == table.current_layer,
            self.matrix_state == prev_g,
            self.report.last_report@ == state_after(rv0, prev_g, *new_state, table, layer as int, k as int),
            out@.map_values(|rep: MyKeyboardReport| rep@) == outputs_after(rv0, prev_g, *new_state, table, layer as int, k as int),
        decreases MATRIX_ROWS * MATRIX_COLS - k,
        {
            let row = k / MATRIX_COLS;
            let col = k % MATRIX_COLS;
            proof {
                assert(row < MATRIX_ROWS && col < MATRIX_COLS) by (nonlinear_arith)
                    requires
                        row == k / MATRIX_COLS,
                        col == k % MATRIX_COLS,
                        k < MATRIX_ROWS * MATRIX_COLS,
                        MATRIX_ROWS == 4,
                        MATRIX_COLS == 8,
                ;
            }
            let now = new_state[row][col];
            let was = self.matrix_state[row][col];
            let ghost outs_before = out@;
            let ghost st_before = self.report.last_report@;
            if now != was {
                let keycode = self.layers.get_keycode(layer, row, col);
                match self.report.handle_keypress(keycode, now) {
                    Some(rep) => out.push(rep),
                    None => {},
                }
            }
            proof {
                assert(state_after(rv0, prev_g, *new_state, table, layer as int, k + 1) == if grid_at(
                    prev_g,
                    row as int,
                    col as int,
                ) != grid_at(*new_state, row as int, col as int) {
                    apply_event(
                        st_before,
                        table.spec_key(layer as int, row as int, col as int),
                        grid_at(*new_state, row as int, col as int),
                    )
                } else {
                    st_before
                });
                assert(out@.map_values(|rep: MyKeyboardReport| rep@) =~= outputs_after(
                    rv0,
                    prev_g,
                    *new_state,
                    table,
                    layer as int,
                    k + 1,
                ));
            }
            k = k + 1;
        }
        self.matrix_state = *new_state;
        out
    }

    /// The transport-poll tick, reduced to its decision: given whether the
    /// session is fully configured, possibly clear the stored report and
    /// hand back the blank report for submission (see [`ReportState::poll`]).
    pub fn poll(&mut self, configured: bool) -> (r: Option<MyKeyboardReport>)
        requires
            old(self).wf(),
        ensures
            final(self).wf(),
            final(self).layers == old(self).layers,
            final(self).matrix_state == old(self).matrix_state,
            match r {
                Some(rep) => configured && old(self).report.last_report@ != blank_view() && rep@
                    == blank_view() && final(self).report.last_report@ == blank_view(),
                None => final(self).report == old(self).report && (configured ==> old(
                    self,
                ).report.last_report@ == blank_view()),
            },
    {
        self.report.poll(configured)
    }
}

/// A tick that sees the very grid of the previous tick, in particular a
/// blank grid twice in a row, finds no transition: the report is unchanged
/// and nothing is submitted.
pub proof fn lemma_unchanged_grid(rv: ReportView, g: ScanGrid, layers: Layers, layer: int, n: int)
    ensures
        state_after(rv, g, g, layers, layer, n) == rv,
        outputs_after(rv, g, g, layers, layer, n) == Seq::<ReportView>::empty(),
    decreases n,
{
    if n > 0 {
        lemma_unchanged_grid(rv, g, layers, layer, n - 1);
    }
}

} // verus!
