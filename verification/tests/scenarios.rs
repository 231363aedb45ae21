use keyberon::debounce::{Debouncer, Event};
use keyberon::key_code::KeyCode;
use keyberon::layout::{Action, Layout};
use keyberon::matrix::PressedKeys;
use keyberon::report::KbHidReport;

fn report_bytes(l: &Layout) -> [u8; 8] {
    let r = KbHidReport::from_iter(&l.keycodes());
    let mut b = [0u8; 8];
    b.copy_from_slice(r.as_bytes());
    b
}

fn sample_1x1(pressed: bool) -> PressedKeys {
    PressedKeys::from_rows(vec![vec![pressed]]).unwrap()
}

#[test]
fn shift_then_a() {
    let layers = vec![vec![vec![
        Action::KeyCode(KeyCode::LShift),
        Action::KeyCode(KeyCode::A),
    ]]];
    let mut l = Layout::new(layers, 200).unwrap();
    l.event(Event::Press(0, 0));
    assert_eq!(report_bytes(&l), [0x02, 0, 0, 0, 0, 0, 0, 0]);
    l.event(Event::Press(0, 1));
    assert_eq!(report_bytes(&l), [0x02, 0, 0x04, 0, 0, 0, 0, 0]);
    l.event(Event::Release(0, 1));
    assert_eq!(report_bytes(&l), [0x02, 0, 0, 0, 0, 0, 0, 0]);
    l.event(Event::Release(0, 0));
    assert_eq!(report_bytes(&l), [0, 0, 0, 0, 0, 0, 0, 0]);
}

#[test]
fn hold_tap_hold() {
    let layers = vec![vec![vec![
        Action::HoldTap(KeyCode::LCtrl, KeyCode::Space),
        Action::KeyCode(KeyCode::A),
    ]]];
    let mut l = Layout::new(layers, 200).unwrap();
    l.event(Event::Press(0, 0));
    assert_eq!(report_bytes(&l), [0, 0, 0, 0, 0, 0, 0, 0]);
    for _ in 0..199 {
        let codes = l.tick();
        assert!(codes.is_empty());
    }
    let codes = l.tick();
    assert_eq!(codes, vec![KeyCode::LCtrl]);
    assert_eq!(report_bytes(&l), [0x01, 0, 0, 0, 0, 0, 0, 0]);
    l.event(Event::Press(0, 1));
    assert_eq!(report_bytes(&l), [0x01, 0, 0x04, 0, 0, 0, 0, 0]);
    l.event(Event::Release(0, 1));
    assert_eq!(report_bytes(&l), [0x01, 0, 0, 0, 0, 0, 0, 0]);
    l.event(Event::Release(0, 0));
    assert_eq!(report_bytes(&l), [0, 0, 0, 0, 0, 0, 0, 0]);
}

#[test]
fn hold_tap_tap() {
    let layers = vec![vec![vec![
        Action::HoldTap(KeyCode::LCtrl, KeyCode::Space),
        Action::KeyCode(KeyCode::A),
    ]]];
    let mut l = Layout::new(layers, 200).unwrap();
    l.event(Event::Press(0, 0));
    for _ in 0..50 {
        let codes = l.tick();
        assert!(codes.is_empty());
    }
    l.event(Event::Release(0, 0));
    assert_eq!(report_bytes(&l), [0, 0, 0x2C, 0, 0, 0, 0, 0]);
    let codes = l.tick();
    assert!(codes.is_empty());
    assert_eq!(report_bytes(&l), [0, 0, 0, 0, 0, 0, 0, 0]);
}

#[test]
fn layer_tap_interruption() {
    let layers = vec![
        vec![vec![
            Action::LayerTap(1, KeyCode::Enter),
            Action::KeyCode(KeyCode::A),
        ]],
        vec![vec![Action::Trans, Action::KeyCode(KeyCode::B)]],
    ];
    let mut l = Layout::new(layers, 200).unwrap();
    l.event(Event::Press(0, 0));
    assert_eq!(report_bytes(&l), [0, 0, 0, 0, 0, 0, 0, 0]);
    // The second press forces the pending layer-tap to its tap (Enter,
    // for one tick) and itself resolves on the still-unchanged layer 0.
    l.event(Event::Press(0, 1));
    assert_eq!(report_bytes(&l), [0, 0, 0x04, 0x28, 0, 0, 0, 0]);
    let codes = l.tick();
    assert_eq!(codes, vec![KeyCode::A]);
    assert_eq!(report_bytes(&l), [0, 0, 0x04, 0, 0, 0, 0, 0]);
}

#[test]
fn rollover() {
    let letters = [
        KeyCode::A,
        KeyCode::B,
        KeyCode::C,
        KeyCode::D,
        KeyCode::E,
        KeyCode::F,
        KeyCode::G,
    ];
    let row: Vec<Action> = letters.iter().map(|k| Action::KeyCode(*k)).collect();
    let layers = vec![vec![row]];
    let mut l = Layout::new(layers, 200).unwrap();
    let mut expected = [0u8; 8];
    for i in 0..6 {
        l.event(Event::Press(0, i));
        expected[2 + i] = 0x04 + i as u8;
        assert_eq!(report_bytes(&l), expected);
    }
    l.event(Event::Press(0, 6));
    assert_eq!(
        report_bytes(&l),
        [0, 0, 0x01, 0x01, 0x01, 0x01, 0x01, 0x01]
    );
}

#[test]
fn debounce_chatter() {
    let mut d = Debouncer::new(1, 1, 5);
    // Alternating samples for ten ticks: no stable change, no events.
    for t in 0..10 {
        let changed = d.update(sample_1x1(t % 2 == 1));
        assert!(!changed);
    }
    // The alternation ended on a pressed sample; holding it for five
    // consecutive ticks publishes exactly one press, on the fifth.
    for _ in 0..4 {
        let changed = d.update(sample_1x1(true));
        assert!(!changed);
    }
    let changed = d.update(sample_1x1(true));
    assert!(changed);
    assert_eq!(d.events(), vec![Event::Press(0, 0)]);
    // Holding further republishes nothing.
    let changed = d.update(sample_1x1(true));
    assert!(!changed);
}
