use keyberon::key_code::KeyCode;
use keyberon::keyboard::Keyboard;
use keyberon::layout::Action;
use keyberon::matrix::PressedKeys;
use keyberon::report::KbHidReport;

fn bytes_of(r: &KbHidReport) -> [u8; 8] {
    let mut b = [0u8; 8];
    b.copy_from_slice(r.as_bytes());
    b
}

fn sample_1x1(pressed: bool) -> PressedKeys {
    PressedKeys::from_rows(vec![vec![pressed]]).unwrap()
}

#[test]
fn pipeline_rejects_bad_tables() {
    assert!(Keyboard::new(Vec::new(), 200, 5).is_none());
    let out_of_range = vec![vec![vec![Action::Layer(7)]]];
    assert!(Keyboard::new(out_of_range, 200, 5).is_none());
}

#[test]
fn caps_lock_led_bit() {
    assert!(keyberon::report::caps_lock_led(0x02));
    assert!(keyberon::report::caps_lock_led(0x03));
    assert!(!keyberon::report::caps_lock_led(0x01));
    assert!(!keyberon::report::caps_lock_led(0x00));
}

#[test]
fn pipeline_debounces_then_reports() {
    let layers = vec![vec![vec![Action::KeyCode(KeyCode::A)]]];
    let mut kb = Keyboard::new(layers, 200, 2).unwrap();
    // The raw press must repeat before it is published.
    let reports = kb.poll(sample_1x1(true));
    assert_eq!(reports.len(), 1);
    assert_eq!(bytes_of(&reports[0]), [0; 8]);
    let reports = kb.poll(sample_1x1(true));
    assert_eq!(reports.len(), 1);
    // On the publishing tick: one report after the tick, one after the
    // press event.
    let reports = kb.poll(sample_1x1(true));
    assert_eq!(reports.len(), 2);
    assert_eq!(bytes_of(&reports[0]), [0; 8]);
    assert_eq!(bytes_of(&reports[1]), [0, 0, 0x04, 0, 0, 0, 0, 0]);
    // While held, every tick keeps reporting the key.
    let reports = kb.poll(sample_1x1(true));
    assert_eq!(reports.len(), 1);
    assert_eq!(bytes_of(&reports[0]), [0, 0, 0x04, 0, 0, 0, 0, 0]);
}

#[test]
fn pipeline_shows_tap_for_one_tick() {
    let layers = vec![vec![vec![Action::HoldTap(KeyCode::LCtrl, KeyCode::Space)]]];
    let mut kb = Keyboard::new(layers, 200, 1).unwrap();
    kb.poll(sample_1x1(true));
    // The debounced press installs the hold-tap wait: nothing active.
    let reports = kb.poll(sample_1x1(true));
    assert_eq!(reports.len(), 2);
    assert_eq!(bytes_of(&reports[1]), [0; 8]);
    kb.poll(sample_1x1(false));
    // The debounced release resolves the tap: Space for this tick only,
    // so the host still sees the press-and-release.
    let reports = kb.poll(sample_1x1(false));
    assert_eq!(reports.len(), 2);
    assert_eq!(bytes_of(&reports[1]), [0, 0, 0x2C, 0, 0, 0, 0, 0]);
    let reports = kb.poll(sample_1x1(false));
    assert_eq!(reports.len(), 1);
    assert_eq!(bytes_of(&reports[0]), [0; 8]);
}
