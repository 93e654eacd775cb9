//! Report synthesizer: the boot-keyboard report and the state machine that
//! patches it with press/release events and decides when it must be sent.

use vstd::prelude::*;

use crate::keycodes::{modifier_bit, spec_is_modifier, usage_id, Keycode};

verus! {

/// Number of keycode slots a boot-keyboard report carries.
pub const REPORT_SLOTS: usize = 6;

/// The boot-keyboard report: one modifier bitmask byte, one reserved byte
/// (always zero), and up to six simultaneously pressed non-modifier keycodes.
/// An empty slot holds zero, the usage ID of `Keycode::No`.
#[derive(Clone, Copy, Debug)]
pub struct MyKeyboardReport {
    pub modifier: u8,
    pub reserved: u8,
    pub keycodes: [u8; REPORT_SLOTS],
}

/// The mathematical shape of a report: the modifier mask, the reserved byte,
/// and the keycode slots as a sequence of six bytes.
pub struct ReportView {
    pub modifier: u8,
    pub reserved: u8,
    pub keys: Seq<u8>,
}

impl View for MyKeyboardReport {
    type V = ReportView;

    open spec fn view(&self) -> ReportView {
        ReportView { modifier: self.modifier, reserved: self.reserved, keys: self.keycodes@ }
    }
}

/// The all-zero report: no modifier held, no slot occupied.
pub open spec fn blank_view() -> ReportView {
    ReportView { modifier: 0, reserved: 0, keys: seq![0u8, 0u8, 0u8, 0u8, 0u8, 0u8] }
}

/// The lowest index at which `keys` holds `v`, if any.
pub open spec fn find_slot(keys: Seq<u8>, v: u8) -> Option<int>
    decreases keys.len(),
{
    if keys.len() == 0 {
        None
    } else if keys[0] == v {
        Some(0)
    } else {
        match find_slot(keys.drop_first(), v) {
            Some(i) => Some(i + 1),
            None => None,
        }
    }
}

/// What [`find_slot`] returns: the first index holding `v`, or `None` when no
/// index does.
pub proof fn lemma_find_slot(keys: Seq<u8>, v: u8)
    ensures
        match find_slot(keys, v) {
            Some(i) => 0 <= i < keys.len() && keys[i] == v && (forall|j: int|
                0 <= j < i ==> keys[j] != v),
            None => forall|j: int| 0 <= j < keys.len() ==> keys[j] != v,
        },
    decreases keys.len(),
{
    if keys.len() != 0 && keys[0] != v {
        let rest = keys.drop_first();
        lemma_find_slot(rest, v);
        assert(forall|j: int| 0 <= j < rest.len() ==> rest[j] == keys[j + 1]);
        match find_slot(rest, v) {
            Some(i) => {
                assert(keys[i + 1] == rest[i]);
                assert forall|j: int| 0 <= j < i + 1 implies keys[j] != v by {
                    if j > 0 {
                        assert(keys[j] == rest[j - 1]);
                    }
                }
            },
            None => {
                assert forall|j: int| 0 <= j < keys.len() implies keys[j] != v by {
                    if j > 0 {
                        assert(keys[j] == rest[j - 1]);
                    }
                }
            },
        }
    }
}

/// A press of a non-modifier keycode: its usage ID goes into the first free
/// slot; with no slot free the press is silently dropped.
pub open spec fn spec_press(r: ReportView, code: u8) -> ReportView {
    match find_slot(r.keys, 0) {
        Some(i) => ReportView { keys: r.keys.update(i, code), ..r },
        None => r,
    }
}

/// A release of a non-modifier keycode: the first slot holding its usage ID
/// is cleared; a keycode that is not present is a no-op.
pub open spec fn spec_release(r: ReportView, code: u8) -> ReportView {
    match find_slot(r.keys, code) {
        Some(i) => ReportView { keys: r.keys.update(i, 0), ..r },
        None => r,
    }
}

/// How one press/release event patches a report: a modifier toggles its own
/// bit of the mask, every other keycode goes through the slot array.
pub open spec fn apply_event(r: ReportView, k: Keycode, pressed: bool) -> ReportView {
    if spec_is_modifier(k) {
        if pressed {
            ReportView { modifier: r.modifier | modifier_bit(k), ..r }
        } else {
            ReportView { modifier: r.modifier & !modifier_bit(k), ..r }
        }
    } else {
        if pressed {
            spec_press(r, usage_id(k))
        } else {
            spec_release(r, usage_id(k))
        }
    }
}

impl MyKeyboardReport {
    /// Builds the all-zero report.
    pub fn blank() -> (r: MyKeyboardReport)
        ensures
            r@ == blank_view(),
    {
        let r = MyKeyboardReport { modifier: 0, reserved: 0, keycodes: [0u8; REPORT_SLOTS] };
        proof {
            assert(r@.keys =~= blank_view().keys);
        }
        r
    }
}

/// Whether two reports agree field by field, the six keycode slots included.
pub fn reports_equal(a: &MyKeyboardReport, b: &MyKeyboardReport) -> (r: bool)
    ensures
        r == (a@ == b@),
{
    let r = a.modifier == b.modifier && a.reserved == b.reserved && a.keycodes[0] == b.keycodes[0]
        && a.keycodes[1] == b.keycodes[1] && a.keycodes[2] == b.keycodes[2] && a.keycodes[3]
        == b.keycodes[3] && a.keycodes[4] == b.keycodes[4] && a.keycodes[5] == b.keycodes[5];
    proof {
        if r {
            assert(a@.keys =~= b@.keys);
        }
    }
    r
}

impl PartialEq for MyKeyboardReport {
    fn eq(&self, other: &Self) -> bool {
        reports_equal(self, other)
    }
}

impl vstd::std_specs::cmp::PartialEqSpecImpl for MyKeyboardReport {
    open spec fn obeys_eq_spec() -> bool {
        true
    }

    open spec fn eq_spec(&self, other: &Self) -> bool {
        self@ == other@
    }
}

/// The state the report synthesizer carries across ticks: the report as the
/// host is meant to see it after everything submitted so far.
pub struct ReportState {
    pub last_report: MyKeyboardReport,
}

impl ReportState {
    /// The reserved byte never leaves zero.
    pub open spec fn wf(self) -> bool {
        self.last_report.reserved == 0
    }

    /// Starts a session with the all-zero report, matching a host that has
    /// seen nothing yet.
    pub fn new() -> (r: ReportState)
        ensures
            r.wf(),
            r.last_report@ == blank_view(),
    {
        ReportState { last_report: MyKeyboardReport::blank() }
    }

    /// Patches the stored report with one press/release event and returns the
    /// patched report.
    pub fn update_report(&mut self, keycode: Keycode, pressed: bool) -> (r: MyKeyboardReport)
        ensures
            final(self).last_report@ == apply_event(old(self).last_report@, keycode, pressed),
            r == final(self).last_report,
            old(self).wf() ==> final(self).wf(),
    {
        if pressed {
            if keycode.is_modifier() {
                self.last_report.modifier = self.last_report.modifier
                    | keycode.to_modifier_bitfield();
            } else {
                press_slot(&mut self.last_report, keycode.to_byte());
            }
        } else {
            if keycode.is_modifier() {
                self.last_report.modifier = self.last_report.modifier
                    & !keycode.to_modifier_bitfield();
            } else {
                release_slot(&mut self.last_report, keycode.to_byte());
            }
        }
        self.last_report
    }

    /// Applies one event and says whether the patched report must go to the
    /// host: it is returned exactly when it differs from the report the
    /// synthesizer held before the event.
    pub fn handle_keypress(&mut self, keycode: Keycode, pressed: bool) -> (r: Option<
        MyKeyboardReport,
    >)
        ensures
            final(self).last_report@ == apply_event(old(self).last_report@, keycode, pressed),
            old(self).wf() ==> final(self).wf(),
            match r {
                Some(rep) => rep == final(self).last_report && final(self).last_report@ != old(
                    self,
                ).last_report@,
                None => final(self).last_report@ == old(self).last_report@,
            },
    {
        let prev = self.last_report;
        let report = self.update_report(keycode, pressed);
        if reports_equal(&prev, &report) {
            None
        } else {
            Some(report)
        }
    }

    /// The transport-poll side of the synthesizer: once the session is fully
    /// configured, a non-blank stored report is cleared, and the blank report
    /// is handed back for submission so the host never keeps a stuck key.
    pub fn poll(&mut self, configured: bool) -> (r: Option<MyKeyboardReport>)
        ensures
            old(self).wf() ==> final(self).wf(),
            match r {
                Some(rep) => configured && old(self).last_report@ != blank_view() && rep@
                    == blank_view() && final(self).last_report@ == blank_view(),
                None => *final(self) == *old(self) && (configured ==> old(self).last_report@
                    == blank_view()),
            },
    {
        if configured {
            let blank = MyKeyboardReport::blank();
            if !reports_equal(&self.last_report, &blank) {
                self.last_report = blank;
                return Some(blank);
            }
        }
        None
    }
}

/// A whole session of press/release events folded over a starting report,
/// oldest event first.
pub open spec fn apply_events(r: ReportView, evs: Seq<(Keycode, bool)>) -> ReportView
    decreases evs.len(),
{
    if evs.len() == 0 {
        r
    } else {
        apply_event(apply_events(r, evs.drop_last()), evs.last().0, evs.last().1)
    }
}

/// How many keycode slots are occupied, that is, hold a non-zero usage ID.
pub open spec fn occupied_slots(keys: Seq<u8>) -> nat {
    keys.filter(|v: u8| v != 0).len()
}

/// An event never changes how many slots a report has.
pub proof fn lemma_apply_event_len(r: ReportView, k: Keycode, pressed: bool)
    ensures
        apply_event(r, k, pressed).keys.len() == r.keys.len(),
{
    if !spec_is_modifier(k) {
        let code = usage_id(k);
        if pressed {
            lemma_find_slot(r.keys, 0);
        } else {
            lemma_find_slot(r.keys, code);
        }
    }
}

/// Whatever sequence of press/release events is applied to an initially
/// blank report, the report keeps exactly six keycode slots, so the number
/// of occupied slots never exceeds six.
pub proof fn lemma_slots_bounded(evs: Seq<(Keycode, bool)>)
    ensures
        apply_events(blank_view(), evs).keys.len() == 6,
        occupied_slots(apply_events(blank_view(), evs).keys) <= 6,
    decreases evs.len(),
{
    if evs.len() == 0 {
    } else {
        lemma_slots_bounded(evs.drop_last());
        lemma_apply_event_len(apply_events(blank_view(), evs.drop_last()), evs.last().0, evs.last().1);
    }
    apply_events(blank_view(), evs).keys.lemma_filter_len(|v: u8| v != 0);
}

/// Pressing a modifier that is not already held and then releasing it, with
/// no other events in between, restores the report exactly: the mask loses
/// the bit it gained and the keycode slots were never touched.
pub proof fn lemma_modifier_round_trip(r: ReportView, k: Keycode)
    requires
        spec_is_modifier(k),
        r.modifier & modifier_bit(k) == 0,
    ensures
        apply_event(apply_event(r, k, true), k, false) == r,
{
    let m = r.modifier;
    let b = modifier_bit(k);
    assert(((m | b) & !b) == m) by (bit_vector)
        requires
            m & b == 0,
    ;
}

/// Releasing a keycode that is not currently present in the report leaves
/// the report unchanged: for a modifier, "present" means its mask bit is
/// set; for any other keycode, that some slot holds its usage ID.
pub proof fn lemma_release_absent(r: ReportView, k: Keycode)
    requires
        spec_is_modifier(k) ==> r.modifier & modifier_bit(k) == 0,
        !spec_is_modifier(k) ==> !r.keys.contains(usage_id(k)),
    ensures
        apply_event(r, k, false) == r,
{
    if spec_is_modifier(k) {
        let m = r.modifier;
        let b = modifier_bit(k);
        assert((m & !b) == m) by (bit_vector)
            requires
                m & b == 0,
        ;
    } else {
        lemma_find_slot(r.keys, usage_id(k));
        if let Some(i) = find_slot(r.keys, usage_id(k)) {
            assert(r.keys.contains(usage_id(k)));
        }
    }
}

/// No usage ID occupies two slots at once.
pub open spec fn no_duplicates(keys: Seq<u8>) -> bool {
    forall|i: int, j: int|
        0 <= i < keys.len() && 0 <= j < keys.len() && i != j && keys[i] != 0 ==> keys[i] != keys[j]
}

/// The slot-array invariant is preserved by every event whose pressed
/// keycode is not already in a slot: a press fills at most one free slot
/// with a usage ID no other slot holds, and a release only empties a slot.
pub proof fn lemma_no_duplicates_preserved(r: ReportView, k: Keycode, pressed: bool)
    requires
        no_duplicates(r.keys),
        pressed && !spec_is_modifier(k) ==> !r.keys.contains(usage_id(k)),
    ensures
        no_duplicates(apply_event(r, k, pressed).keys),
{
    if !spec_is_modifier(k) {
        let code = usage_id(k);
        if pressed {
            lemma_find_slot(r.keys, 0);
            if let Some(p) = find_slot(r.keys, 0) {
                let keys = r.keys.update(p, code);
                assert forall|i: int, j: int|
                    0 <= i < keys.len() && 0 <= j < keys.len() && i != j && keys[i] != 0 implies keys[i]
                    != keys[j] by {
                    if i == p {
                        assert(!r.keys.contains(keys[j]) ==> r.keys[j] != keys[i] || keys[i] == 0);
                        assert(r.keys.contains(r.keys[j]));
                    } else if j == p {
                        assert(r.keys.contains(r.keys[i]));
                    }
                }
            }
        } else {
            lemma_find_slot(r.keys, code);
        }
    }
}

/// Writes `code` into the first free slot of the report, dropping the press
/// when every slot is taken.
fn press_slot(report: &mut MyKeyboardReport, code: u8)
    ensures
        final(report)@ == spec_press(old(report)@, code),
{
    let mut i: usize = 0;
    while i < REPORT_SLOTS
        invariant
            i <= REPORT_SLOTS,
            *report == *old(report),
            forall|j: int| 0 <= j < i ==> report.keycodes@[j] != 0,
        decreases REPORT_SLOTS - i,
    {
        if report.keycodes[i] == 0 {
            proof {
                lemma_find_slot(report.keycodes@, 0);
            }
            report.keycodes[i] = code;
            return ;
        }
        i = i + 1;
    }
    proof {
        lemma_find_slot(report.keycodes@, 0);
    }
}

/// Clears the first slot of the report that holds `code`; a `code` that is
/// nowhere in the slots leaves the report as it was.
fn release_slot(report: &mut MyKeyboardReport, code: u8)
    ensures
        final(report)@ == spec_release(old(report)@, code),
{
    let mut i: usize = 0;
    while i < REPORT_SLOTS
        invariant
            i <= REPORT_SLOTS,
            *report == *old(report),
            forall|j: int| 0 <= j < i ==> report.keycodes@[j] != code,
        decreases REPORT_SLOTS - i,
    {
        if report.keycodes[i] == code {
            proof {
                lemma_find_slot(report.keycodes@, code);
            }
            report.keycodes[i] = 0;
            return ;
        }
        i = i + 1;
    }
    proof {
        lemma_find_slot(report.keycodes@, code);
    }
}

} // verus!
