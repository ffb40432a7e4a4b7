use voice_to_text::hotkey::{DoubleAltDetector, HotkeyEvent, DOUBLE_PRESS_WINDOW_US};

#[test]
fn two_quick_releases_fire() {
    let mut d = DoubleAltDetector::new();
    assert_eq!(d.on_alt_release(1_000_000), None);
    assert_eq!(d.on_alt_release(1_200_000), Some(HotkeyEvent::DoubleAlt));
    assert!(!d.armed);
}

#[test]
fn slow_releases_do_not_fire() {
    let mut d = DoubleAltDetector::new();
    assert_eq!(d.on_alt_release(1_000_000), None);
    assert_eq!(d.on_alt_release(1_000_000 + DOUBLE_PRESS_WINDOW_US), None);
    assert!(d.armed);
    assert_eq!(d.on_alt_release(1_000_000 + DOUBLE_PRESS_WINDOW_US + 399_999), Some(HotkeyEvent::DoubleAlt));
}

#[test]
fn other_key_disarms() {
    let mut d = DoubleAltDetector::new();
    assert_eq!(d.on_alt_release(5_000), None);
    d.on_other_key_press();
    assert_eq!(d.on_alt_release(6_000), None);
    assert_eq!(d.on_alt_release(7_000), Some(HotkeyEvent::DoubleAlt));
}

#[test]
fn third_release_starts_over() {
    let mut d = DoubleAltDetector::new();
    d.on_alt_release(0);
    assert_eq!(d.on_alt_release(100), Some(HotkeyEvent::DoubleAlt));
    assert_eq!(d.on_alt_release(200), None);
    assert_eq!(d.on_alt_release(300), Some(HotkeyEvent::DoubleAlt));
}
