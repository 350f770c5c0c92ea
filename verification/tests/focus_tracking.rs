use focus_follows_mouse::CursorPosition;
use focus_follows_mouse::FocusController;
use focus_follows_mouse::FocusControllerTrait;
use focus_follows_mouse::ParameterStore;
use focus_follows_mouse::TrackingConfig;

fn test_store() -> ParameterStore {
    ParameterStore::new(
        TrackingConfig { enabled: true, raise_on_focus: Some(true), delay_ms: 250 },
        CursorPosition { x: 10, y: 20 },
    )
}

#[test]
fn set_and_get_window_traking_config() {
    let mut store = test_store();
    let org_wtc = store.get_tracking_enabled();

    store.set_tracking_enabled(false);
    assert!(!store.get_tracking_enabled());

    store.set_tracking_enabled(true);
    assert!(store.get_tracking_enabled());

    store.set_tracking_enabled(org_wtc);
}

#[test]
fn set_and_get_window_traking_front_config() {
    let mut store = test_store();
    let org_wtfc = store.get_tracking_raise_on_focus().unwrap();

    store.set_tracking_raise_on_focus(false);
    assert_eq!(store.get_tracking_raise_on_focus(), Some(false));

    store.set_tracking_raise_on_focus(true);
    assert_eq!(store.get_tracking_raise_on_focus(), Some(true));

    store.set_tracking_raise_on_focus(org_wtfc);
}

#[test]
fn set_and_get_window_tracking_delay_config() {
    let mut store = test_store();
    let org_wtdc = store.get_tracking_delay();

    store.set_tracking_delay(0);
    assert_eq!(store.get_tracking_delay(), 0);

    store.set_tracking_delay(100);
    assert_eq!(store.get_tracking_delay(), 100);

    store.set_tracking_delay(org_wtdc);
}

#[test]
fn set_and_get_cursor_pos() {
    let mut store = test_store();
    let org_pos = store.get_cursor_position();

    store.set_cursor_position(CursorPosition { x: 100, y: 100 });
    let pos = store.get_cursor_position();
    assert_eq!(pos, CursorPosition { x: 100, y: 100 });

    store.set_cursor_position(org_pos);
}

#[test]
fn initalize() {
    let mut store = test_store();
    let mut fc = FocusController::new();
    fc.initialize(&mut store);

    assert!(store.get_tracking_enabled());
    assert_eq!(store.get_tracking_delay(), 100);

    fc.finalize(&mut store);
}

#[test]
fn finalize() {
    let mut store = test_store();
    let org_wtc = store.get_tracking_enabled();
    let org_wtfc = store.get_tracking_raise_on_focus().unwrap();
    let org_wtdc = store.get_tracking_delay();

    let mut fc = FocusController::new();

    fc.initialize(&mut store);
    store.set_tracking_enabled(!org_wtc);
    store.set_tracking_raise_on_focus(!org_wtfc);
    store.set_tracking_delay(org_wtdc + 100);

    fc.finalize(&mut store);
    assert_eq!(store.get_tracking_enabled(), org_wtc);
    assert_eq!(store.get_tracking_raise_on_focus(), Some(org_wtfc));
    assert_eq!(store.get_tracking_delay(), org_wtdc);
}

#[test]
fn focus_on() {
    let mut store = test_store();
    let mut fc = FocusController::new();
    fc.initialize(&mut store);

    fc.focus_on(&mut store);
    assert!(store.get_tracking_enabled());

    fc.finalize(&mut store);
}

#[test]
fn focus_off() {
    let mut store = test_store();
    let mut fc = FocusController::new();
    fc.initialize(&mut store);

    fc.focus_off(&mut store);
    assert!(!store.get_tracking_enabled());

    fc.initialize(&mut store);
}
