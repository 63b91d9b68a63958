use ears::ducker::DuckCore;

#[test]
fn disabled_ducking_requests_nothing() {
    let d: DuckCore<f32> = DuckCore::new(false, 50);
    assert_eq!(d.request_duck(), None);
    let d: DuckCore<f32> = DuckCore::new(true, 0);
    assert_eq!(d.request_duck(), None);
}

#[test]
fn duck_then_restore_round_trip() {
    let mut d: DuckCore<f32> = DuckCore::new(true, 50);
    let (epoch, percent) = d.request_duck().unwrap();
    assert_eq!(percent, 50);
    assert!(d.still_current(epoch));
    assert!(d.save_for_duck(epoch, 0.8));
    assert!(d.is_ducked());
    // A second probable-speech event does not duck again.
    assert_eq!(d.request_duck(), None);
    d.begin_restore();
    assert_eq!(d.take_saved(), Some(0.8));
    assert!(!d.is_ducked());
    assert_eq!(d.take_saved(), None);
}

#[test]
fn late_duck_after_restore_is_refused() {
    let mut d: DuckCore<f32> = DuckCore::new(true, 50);
    let (epoch, _) = d.request_duck().unwrap();
    d.begin_restore();
    assert_eq!(d.take_saved(), None);
    assert!(!d.still_current(epoch));
    assert!(!d.save_for_duck(epoch, 0.8));
    assert!(!d.is_ducked());
}

#[test]
fn restore_epoch_wraps() {
    let mut d: DuckCore<u32> = DuckCore::new(true, 10);
    d.epoch = u64::MAX;
    d.begin_restore();
    assert_eq!(d.epoch, 0);
}

#[test]
fn settings_clamped() {
    let d: DuckCore<f32> = DuckCore::new(true, 200);
    assert_eq!(d.percent, 100);
}

#[test]
fn set_settings_clamps() {
    let mut d: DuckCore<f32> = DuckCore::new(false, 0);
    d.set_settings(true, 250);
    assert!(d.enabled);
    assert_eq!(d.percent, 100);
}

#[test]
fn disabled_no_op() {
    let d: DuckCore<f32> = DuckCore::new(false, 50);
    assert_eq!(d.request_duck(), None);
    assert!(!d.is_ducked());
}
