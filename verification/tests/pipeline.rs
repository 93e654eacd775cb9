use keycoury::driver::Driver;
use keycoury::keyboard_config::{MATRIX_COLS, MATRIX_ROWS};
use keycoury::keycodes::Keycode;
use keycoury::report::{MyKeyboardReport, ReportState};

fn blank_grid() -> [[bool; MATRIX_COLS]; MATRIX_ROWS] {
    [[false; MATRIX_COLS]; MATRIX_ROWS]
}

fn report(modifier: u8, keycodes: [u8; 6]) -> MyKeyboardReport {
    MyKeyboardReport { modifier, reserved: 0, keycodes }
}

#[test]
fn a_blank_grid_twice_in_a_row_submits_nothing() {
    let mut driver = Driver::new();
    let grid = blank_grid();
    assert!(driver.scan_tick(&grid).is_empty());
    assert!(driver.scan_tick(&grid).is_empty());
    assert_eq!(driver.report.last_report, report(0, [0; 6]));
}

#[test]
fn an_unchanged_grid_with_keys_held_submits_nothing() {
    let mut driver = Driver::new();
    let mut grid = blank_grid();
    grid[0][0] = true;
    assert_eq!(driver.scan_tick(&grid).len(), 1);
    assert!(driver.scan_tick(&grid).is_empty());
    assert!(driver.scan_tick(&grid).is_empty());
}

#[test]
fn pressing_row0_col0_reports_keycode_a_once() {
    let mut driver = Driver::new();
    let mut grid = blank_grid();
    grid[0][0] = true;
    let sent = driver.scan_tick(&grid);
    assert_eq!(sent.len(), 1);
    assert_eq!(sent[0], report(0, [0x04, 0, 0, 0, 0, 0]));
    assert_eq!(driver.report.last_report, report(0, [0x04, 0, 0, 0, 0, 0]));
}

#[test]
fn a_second_key_joins_the_next_free_slot() {
    let mut driver = Driver::new();
    let mut grid = blank_grid();
    grid[0][0] = true;
    driver.scan_tick(&grid);
    grid[0][1] = true;
    let sent = driver.scan_tick(&grid);
    assert_eq!(sent.len(), 1);
    assert_eq!(sent[0], report(0, [0x04, 0x05, 0, 0, 0, 0]));
}

#[test]
fn releasing_the_first_key_clears_only_its_slot() {
    let mut driver = Driver::new();
    let mut grid = blank_grid();
    grid[0][0] = true;
    driver.scan_tick(&grid);
    grid[0][1] = true;
    driver.scan_tick(&grid);
    grid[0][0] = false;
    let sent = driver.scan_tick(&grid);
    assert_eq!(sent.len(), 1);
    assert_eq!(sent[0], report(0, [0, 0x05, 0, 0, 0, 0]));
}

#[test]
fn the_seventh_key_is_dropped() {
    let mut state = ReportState::new();
    let keys = [
        Keycode::A,
        Keycode::B,
        Keycode::C,
        Keycode::D,
        Keycode::E,
        Keycode::F,
    ];
    for k in keys {
        assert!(state.handle_keypress(k, true).is_some());
    }
    let full = report(0, [0x04, 0x05, 0x06, 0x07, 0x08, 0x09]);
    assert_eq!(state.last_report, full);
    assert!(state.handle_keypress(Keycode::G, true).is_none());
    assert_eq!(state.last_report, full);
}

#[test]
fn a_layer_switch_changes_what_a_position_resolves_to() {
    let mut driver = Driver::new();
    let mut grid = blank_grid();
    grid[0][0] = true;
    let sent = driver.scan_tick(&grid);
    assert_eq!(sent[0], report(0, [0x04, 0, 0, 0, 0, 0]));
    driver.layers.set_layer(1);
    grid[0][1] = true;
    let sent = driver.scan_tick(&grid);
    assert_eq!(sent.len(), 1);
    assert_eq!(sent[0], report(0, [0x04, 0x3B, 0, 0, 0, 0]));
}

#[test]
fn pressing_and_releasing_a_modifier_restores_the_mask() {
    let mut state = ReportState::new();
    let sent = state.handle_keypress(Keycode::LShift, true);
    assert_eq!(sent.unwrap(), report(0x02, [0; 6]));
    let sent = state.handle_keypress(Keycode::LShift, false);
    assert_eq!(sent.unwrap(), report(0, [0; 6]));
    assert_eq!(state.last_report, report(0, [0; 6]));
}

#[test]
fn modifiers_combine_additively_in_the_mask() {
    let mut state = ReportState::new();
    state.handle_keypress(Keycode::LCtrl, true);
    state.handle_keypress(Keycode::RAlt, true);
    assert_eq!(state.last_report, report(0x41, [0; 6]));
    state.handle_keypress(Keycode::LCtrl, false);
    assert_eq!(state.last_report, report(0x40, [0; 6]));
}

#[test]
fn a_modifier_never_occupies_a_keycode_slot() {
    let mut state = ReportState::new();
    state.handle_keypress(Keycode::LGui, true);
    assert_eq!(state.last_report, report(0x08, [0; 6]));
}

#[test]
fn releasing_an_absent_keycode_changes_nothing() {
    let mut state = ReportState::new();
    state.handle_keypress(Keycode::A, true);
    let before = state.last_report;
    assert!(state.handle_keypress(Keycode::X, false).is_none());
    assert_eq!(state.last_report, before);
    assert!(state.handle_keypress(Keycode::RShift, false).is_none());
    assert_eq!(state.last_report, before);
}

#[test]
fn pressing_the_empty_sentinel_changes_nothing() {
    let mut state = ReportState::new();
    assert!(state.handle_keypress(Keycode::No, true).is_none());
    assert!(state.handle_keypress(Keycode::No, false).is_none());
    assert_eq!(state.last_report, report(0, [0; 6]));
}

#[test]
fn a_freed_slot_is_the_first_one_reused() {
    let mut state = ReportState::new();
    state.handle_keypress(Keycode::A, true);
    state.handle_keypress(Keycode::B, true);
    state.handle_keypress(Keycode::A, false);
    assert_eq!(state.last_report, report(0, [0, 0x05, 0, 0, 0, 0]));
    state.handle_keypress(Keycode::C, true);
    assert_eq!(state.last_report, report(0, [0x06, 0x05, 0, 0, 0, 0]));
}

#[test]
fn a_configured_poll_clears_a_non_blank_report() {
    let mut state = ReportState::new();
    state.handle_keypress(Keycode::A, true);
    let sent = state.poll(true);
    assert_eq!(sent.unwrap(), report(0, [0; 6]));
    assert_eq!(state.last_report, report(0, [0; 6]));
}

#[test]
fn a_poll_with_a_blank_report_submits_nothing() {
    let mut state = ReportState::new();
    assert!(state.poll(true).is_none());
    assert!(state.poll(false).is_none());
}

#[test]
fn an_unconfigured_poll_leaves_the_report_alone() {
    let mut state = ReportState::new();
    state.handle_keypress(Keycode::A, true);
    assert!(state.poll(false).is_none());
    assert_eq!(state.last_report, report(0, [0x04, 0, 0, 0, 0, 0]));
}

#[test]
fn the_driver_poll_mirrors_the_synthesizer_poll() {
    let mut driver = Driver::new();
    let mut grid = blank_grid();
    grid[2][3] = true;
    driver.scan_tick(&grid);
    assert_eq!(driver.report.last_report, report(0, [0x17, 0, 0, 0, 0, 0]));
    let sent = driver.poll(true);
    assert_eq!(sent.unwrap(), report(0, [0; 6]));
    assert!(driver.poll(true).is_none());
}

#[test]
fn one_tick_carries_several_transitions_in_row_major_order() {
    let mut driver = Driver::new();
    let mut grid = blank_grid();
    grid[0][0] = true;
    grid[1][0] = true;
    let sent = driver.scan_tick(&grid);
    assert_eq!(sent.len(), 2);
    assert_eq!(sent[0], report(0, [0x04, 0, 0, 0, 0, 0]));
    assert_eq!(sent[1], report(0, [0x04, 0x0C, 0, 0, 0, 0]));
}
