use clockface::buttons::{sample_buttons, ActiveLevel};

#[test]
fn active_high_reports_high_lines_pressed() {
    let snapshot = sample_buttons(ActiveLevel::High, true, false, true, false, false);
    assert!(snapshot.up);
    assert!(!snapshot.down);
    assert!(snapshot.left);
    assert!(!snapshot.right);
    assert!(!snapshot.center);
}

#[test]
fn active_low_reports_low_lines_pressed() {
    let snapshot = sample_buttons(ActiveLevel::Low, true, false, true, false, false);
    assert!(!snapshot.up);
    assert!(snapshot.down);
    assert!(!snapshot.left);
    assert!(snapshot.right);
    assert!(snapshot.center);
}
