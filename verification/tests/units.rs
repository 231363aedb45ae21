use keyberon::debounce::{Debouncer, Event};
use keyberon::key_code::KeyCode;
use keyberon::layout::{Action, Layout};
use keyberon::matrix::PressedKeys;
use keyberon::report::KbHidReport;

fn bytes_of(r: &KbHidReport) -> [u8; 8] {
    let mut b = [0u8; 8];
    b.copy_from_slice(r.as_bytes());
    b
}

#[test]
fn modifier_range() {
    assert!(KeyCode::LCtrl.is_modifier());
    assert!(KeyCode::LShift.is_modifier());
    assert!(KeyCode::RGui.is_modifier());
    assert!(!KeyCode::ExSel.is_modifier());
    assert!(!KeyCode::MediaPlayPause.is_modifier());
    assert!(!KeyCode::A.is_modifier());
    assert!(!KeyCode::No.is_modifier());
    assert_eq!(KeyCode::LCtrl.as_byte(), 0xE0);
    assert_eq!(KeyCode::RGui.as_byte(), 0xE7);
    assert_eq!(KeyCode::ExSel.as_byte(), 0xA4);
    assert_eq!(KeyCode::MediaCalc.as_byte(), 0xFB);
}

#[test]
fn modifier_bits() {
    assert_eq!(KeyCode::LCtrl.as_modifier_bit(), 0x01);
    assert_eq!(KeyCode::LShift.as_modifier_bit(), 0x02);
    assert_eq!(KeyCode::LAlt.as_modifier_bit(), 0x04);
    assert_eq!(KeyCode::LGui.as_modifier_bit(), 0x08);
    assert_eq!(KeyCode::RCtrl.as_modifier_bit(), 0x10);
    assert_eq!(KeyCode::RShift.as_modifier_bit(), 0x20);
    assert_eq!(KeyCode::RAlt.as_modifier_bit(), 0x40);
    assert_eq!(KeyCode::RGui.as_modifier_bit(), 0x80);
    assert_eq!(KeyCode::A.as_modifier_bit(), 0);
    assert_eq!(KeyCode::No.as_modifier_bit(), 0);
}

#[test]
fn labels() {
    assert_eq!(KeyCode::A.as_str(), "A");
    assert_eq!(KeyCode::Kb1.as_str(), "1");
    assert_eq!(KeyCode::F12.as_str(), "F12");
    assert_eq!(KeyCode::LShift.as_str(), "LShift");
    assert_eq!(KeyCode::No.as_str(), "");
}

#[test]
fn report_default_is_zero() {
    let r = KbHidReport::default();
    assert_eq!(bytes_of(&r), [0; 8]);
}

#[test]
fn report_modifiers_and_slots() {
    let mut r = KbHidReport::default();
    r.pressed(KeyCode::LShift);
    r.pressed(KeyCode::A);
    r.pressed(KeyCode::RAlt);
    r.pressed(KeyCode::Z);
    assert_eq!(bytes_of(&r), [0x42, 0, 0x04, 0x1D, 0, 0, 0, 0]);
    // Slots never hold a modifier code; the bitfield holds both bits.
    for &b in &bytes_of(&r)[2..] {
        assert!(!(0xE0..=0xE7).contains(&b));
    }
}

#[test]
fn report_no_is_ignored() {
    let mut r = KbHidReport::default();
    r.pressed(KeyCode::No);
    assert_eq!(bytes_of(&r), [0; 8]);
}

#[test]
fn report_error_code_fills_slots() {
    let mut r = KbHidReport::default();
    r.pressed(KeyCode::LCtrl);
    r.pressed(KeyCode::A);
    r.pressed(KeyCode::PostFail);
    assert_eq!(
        bytes_of(&r),
        [0x01, 0, 0x02, 0x02, 0x02, 0x02, 0x02, 0x02]
    );
}

#[test]
fn report_rollover_overwrites_and_sticks() {
    let ks = vec![
        KeyCode::A,
        KeyCode::B,
        KeyCode::C,
        KeyCode::D,
        KeyCode::E,
        KeyCode::F,
        KeyCode::G,
    ];
    let mut r = KbHidReport::from_iter(&ks);
    assert_eq!(bytes_of(&r), [0, 0, 0x01, 0x01, 0x01, 0x01, 0x01, 0x01]);
    // Further insertions are idempotent after rollover.
    r.pressed(KeyCode::H);
    assert_eq!(bytes_of(&r), [0, 0, 0x01, 0x01, 0x01, 0x01, 0x01, 0x01]);
}

#[test]
fn report_from_iter_fills_in_order() {
    let ks = vec![KeyCode::X, KeyCode::LGui, KeyCode::Y];
    let r = KbHidReport::from_iter(&ks);
    assert_eq!(bytes_of(&r), [0x08, 0, 0x1B, 0x1C, 0, 0, 0, 0]);
}

#[test]
fn pressed_keys_rejects_ragged_rows() {
    assert!(PressedKeys::from_rows(vec![vec![false, true], vec![false]]).is_none());
    assert!(PressedKeys::from_rows(vec![vec![false, true], vec![true, false]]).is_some());
    assert!(PressedKeys::from_rows(Vec::new()).is_some());
}

#[test]
fn debounce_release_side() {
    let mut d = Debouncer::new(1, 2, 3);
    let pressed = || PressedKeys::from_rows(vec![vec![true, false]]).unwrap();
    let released = || PressedKeys::from_rows(vec![vec![false, false]]).unwrap();
    // Press must hold for three consecutive ticks past its first sight.
    assert!(!d.update(pressed()));
    assert!(!d.update(pressed()));
    assert!(!d.update(pressed()));
    assert!(d.update(pressed()));
    assert_eq!(d.events(), vec![Event::Press(0, 0)]);
    // The release is debounced symmetrically.
    assert!(!d.update(released()));
    assert!(!d.update(released()));
    assert!(!d.update(released()));
    assert!(d.update(released()));
    assert_eq!(d.events(), vec![Event::Release(0, 0)]);
}

#[test]
fn debounce_interleaved_events_are_row_major() {
    let mut d = Debouncer::new(2, 2, 1);
    let s = || PressedKeys::from_rows(vec![vec![true, false], vec![false, true]]).unwrap();
    assert!(!d.update(s()));
    assert!(d.update(s()));
    assert_eq!(d.events(), vec![Event::Press(0, 0), Event::Press(1, 1)]);
}

#[test]
fn layout_rejects_bad_tables() {
    assert!(Layout::new(Vec::new(), 200).is_none());
    // Ragged layers.
    let ragged = vec![
        vec![vec![Action::NoOp, Action::NoOp]],
        vec![vec![Action::NoOp]],
    ];
    assert!(Layout::new(ragged, 200).is_none());
    // A layer index out of range.
    let out_of_range = vec![vec![vec![Action::Layer(3)]]];
    assert!(Layout::new(out_of_range, 200).is_none());
    let fine = vec![vec![vec![Action::Layer(0)]]];
    assert!(Layout::new(fine, 200).is_some());
}

#[test]
fn layer_resolution_picks_highest_non_transparent() {
    // The cell is transparent everywhere but on layer 1.
    let layers = vec![
        vec![vec![Action::KeyCode(KeyCode::A), Action::Layer(2)]],
        vec![vec![Action::KeyCode(KeyCode::B), Action::Trans]],
        vec![vec![Action::Trans, Action::Trans]],
    ];
    let mut l = Layout::new(layers, 200).unwrap();
    assert_eq!(l.current_layer(), 0);
    // Overlay layer 2: the cell there is transparent, so the press
    // falls through to layer 1.
    l.event(Event::Press(0, 1));
    assert_eq!(l.current_layer(), 2);
    l.event(Event::Press(0, 0));
    assert_eq!(l.keycodes(), vec![KeyCode::B]);
}

#[test]
fn trans_on_every_layer_is_noop() {
    let layers = vec![vec![vec![Action::Trans, Action::Layer(1)]], vec![vec![
        Action::Trans,
        Action::Trans,
    ]]];
    let mut l = Layout::new(layers, 200).unwrap();
    l.event(Event::Press(0, 0));
    assert!(l.keycodes().is_empty());
}

#[test]
fn press_release_restores_overlays() {
    let layers = vec![
        vec![vec![Action::Layer(1), Action::Layer(1), Action::KeyCode(KeyCode::A)]],
        vec![vec![Action::Trans, Action::Trans, Action::KeyCode(KeyCode::B)]],
    ];
    let mut l = Layout::new(layers, 200).unwrap();
    l.event(Event::Press(0, 0));
    l.event(Event::Press(0, 1));
    assert_eq!(l.current_layer(), 1);
    // One of the two held overlay keys leaves: layer 1 stays active.
    l.event(Event::Release(0, 0));
    assert_eq!(l.current_layer(), 1);
    l.event(Event::Release(0, 1));
    assert_eq!(l.current_layer(), 0);
    assert!(l.keycodes().is_empty());
}

#[test]
fn default_layer_is_sticky() {
    let layers = vec![
        vec![vec![Action::DefaultLayer(1), Action::KeyCode(KeyCode::A)]],
        vec![vec![Action::Trans, Action::KeyCode(KeyCode::B)]],
    ];
    let mut l = Layout::new(layers, 200).unwrap();
    l.event(Event::Press(0, 0));
    l.event(Event::Release(0, 0));
    assert_eq!(l.current_layer(), 1);
    l.event(Event::Press(0, 1));
    assert_eq!(l.keycodes(), vec![KeyCode::B]);
}

#[test]
fn multiple_key_codes_all_active() {
    let layers = vec![vec![vec![Action::MultipleKeyCodes(vec![
        KeyCode::LCtrl,
        KeyCode::Insert,
    ])]]];
    let mut l = Layout::new(layers, 200).unwrap();
    l.event(Event::Press(0, 0));
    let r = KbHidReport::from_iter(&l.keycodes());
    assert_eq!(bytes_of(&r), [0x01, 0, 0x49, 0, 0, 0, 0, 0]);
    l.event(Event::Release(0, 0));
    assert!(l.keycodes().is_empty());
}

#[test]
fn spurious_release_is_dropped() {
    let layers = vec![vec![vec![Action::KeyCode(KeyCode::A)]]];
    let mut l = Layout::new(layers, 200).unwrap();
    l.event(Event::Release(0, 0));
    assert!(l.keycodes().is_empty());
    l.event(Event::Press(0, 0));
    assert_eq!(l.keycodes(), vec![KeyCode::A]);
}

#[test]
fn second_hold_tap_forces_first_to_tap() {
    let layers = vec![vec![vec![
        Action::HoldTap(KeyCode::LCtrl, KeyCode::Space),
        Action::HoldTap(KeyCode::LShift, KeyCode::Enter),
    ]]];
    let mut l = Layout::new(layers, 200).unwrap();
    l.event(Event::Press(0, 0));
    l.event(Event::Press(0, 1));
    // The first hold-tap was forced to its tap (Space, one tick).
    assert_eq!(l.keycodes(), vec![KeyCode::Space]);
    // The second is still waiting and resolves as hold at its timeout.
    for _ in 0..200 {
        l.tick();
    }
    assert_eq!(l.keycodes(), vec![KeyCode::LShift]);
}
