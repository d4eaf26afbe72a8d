use venbus::{
    method_reply, ActionKind, BoolFlag, FlagUpdate, JsVenbus, MethodError, VenbusError,
    INTERFACE_NAME, OBJECT_PATH,
};

type Bridge = JsVenbus<&'static str, u32>;

fn started_bridge() -> (Bridge, venbus::Venbus<&'static str>) {
    let mut bridge: Bridge = JsVenbus::new();
    let object = bridge.start().expect("a fresh bridge starts");
    assert_eq!(bridge.connected(Ok(1)), Ok(()));
    (bridge, object)
}

#[test]
fn flag_swap_reports_previous_value() {
    let flag = BoolFlag::new(false);
    assert_eq!(flag.swap(true), FlagUpdate { previous: false, current: true });
    assert_eq!(flag.swap(true), FlagUpdate { previous: true, current: true });
    assert!(flag.load());
}

#[test]
fn shared_flag_sees_writes_of_other_owner() {
    let flag = BoolFlag::new(false);
    let other = flag.share();
    other.swap(true);
    assert!(flag.load());
    flag.swap(false);
    assert!(!other.load());
}

#[test]
fn change_detection() {
    assert!(FlagUpdate { previous: false, current: true }.is_change());
    assert!(!FlagUpdate { previous: true, current: true }.is_change());
}

#[test]
fn new_bridge_is_uninitialized_with_flags_false() {
    let bridge: Bridge = JsVenbus::new();
    assert!(!bridge.is_started());
    assert!(bridge.connection().is_none());
    assert!(!bridge.muted());
    assert!(!bridge.deafened());
}

#[test]
fn set_muted_true_twice_notifies_once() {
    let (bridge, _object) = started_bridge();
    let first = bridge.set_muted(true);
    let second = bridge.set_muted(true);
    assert!(first.notify);
    assert!(!second.notify);
    assert!(bridge.muted());
}

#[test]
fn set_muted_false_twice_notifies_never() {
    let (bridge, _object) = started_bridge();
    assert!(!bridge.set_muted(false).notify);
    assert!(!bridge.set_muted(false).notify);
    assert!(!bridge.muted());
}

#[test]
fn alternating_setters_end_on_last_value() {
    let (bridge, object) = started_bridge();
    let mut notified = 0;
    for i in 0..10 {
        let state = i % 2 == 0;
        let outcome = bridge.set_muted(state);
        assert_eq!(outcome.update.current, state);
        if outcome.notify {
            notified += 1;
        }
        assert_eq!(object.muted(), state);
    }
    assert_eq!(notified, 10);
    assert!(!object.muted());
}

#[test]
fn setter_before_start_updates_without_notifying() {
    let bridge: Bridge = JsVenbus::new();
    let outcome = bridge.set_deafened(true);
    assert_eq!(outcome.update, FlagUpdate { previous: false, current: true });
    assert!(!outcome.notify);
    assert!(bridge.deafened());
}

#[test]
fn property_read_after_set_deafened() {
    let (bridge, object) = started_bridge();
    let outcome = bridge.set_deafened(true);
    assert!(outcome.notify);
    assert!(object.deafened());
    assert!(!object.muted());
}

#[test]
fn second_start_fails_already_initialized() {
    let (mut bridge, _object) = started_bridge();
    assert!(matches!(bridge.start(), Err(VenbusError::AlreadyInitialized)));
    assert_eq!(bridge.connection(), Some(&1));
    assert_eq!(bridge.connected(Ok(2)), Err(VenbusError::AlreadyInitialized));
    assert_eq!(bridge.connection(), Some(&1));
}

#[test]
fn already_initialized_reason_text() {
    assert_eq!(VenbusError::AlreadyInitialized.reason(), "venbus already initialized");
}

#[test]
fn connection_failure_is_reported_and_start_may_be_retried() {
    let mut bridge: Bridge = JsVenbus::new();
    bridge.callback_toggle_mute("mute");
    let object = bridge.start().expect("a fresh bridge starts");
    assert_eq!(object.toggle_mute(), Some(&"mute"));
    let err = bridge
        .connected(Err(String::from("no session bus")))
        .unwrap_err();
    assert_eq!(err, VenbusError::ConnectionFailure(String::from("no session bus")));
    assert_eq!(err.reason(), "no session bus");
    assert!(!bridge.is_started());
    let again = bridge.start().expect("still uninitialized");
    assert_eq!(again.toggle_mute(), None);
}

#[test]
fn registration_after_start_is_ignored() {
    let (mut bridge, object) = started_bridge();
    bridge.callback_toggle_mute("late mute");
    bridge.callback_toggle_deafen("late deafen");
    bridge.register(ActionKind::Mute, "later still");
    assert_eq!(object.toggle_mute(), None);
    assert_eq!(object.toggle_deafen(), None);
    assert_eq!(method_reply(Ok(())), Ok(()));
}

#[test]
fn start_hands_callbacks_to_object() {
    let mut bridge: Bridge = JsVenbus::new();
    bridge.callback_toggle_mute("first");
    bridge.register(ActionKind::Mute, "mute");
    bridge.callback_toggle_deafen("deafen");
    let object = bridge.start().expect("a fresh bridge starts");
    assert_eq!(object.toggle_mute(), Some(&"mute"));
    assert_eq!(object.toggle_deafen(), Some(&"deafen"));
}

#[test]
fn toggle_mute_leaves_flag_unchanged() {
    let mut bridge: Bridge = JsVenbus::new();
    bridge.callback_toggle_mute("mute");
    let object = bridge.start().expect("a fresh bridge starts");
    assert_eq!(bridge.connected(Ok(3)), Ok(()));
    bridge.set_muted(true);
    assert_eq!(object.toggle_mute(), Some(&"mute"));
    assert_eq!(method_reply(Ok(())), Ok(()));
    assert!(object.muted());
    assert!(bridge.muted());
}

#[test]
fn failing_deafen_callback_surfaces_description() {
    let mut bridge: Bridge = JsVenbus::new();
    bridge.callback_toggle_deafen("deafen");
    let object = bridge.start().expect("a fresh bridge starts");
    assert_eq!(bridge.connected(Ok(4)), Ok(()));
    assert_eq!(object.toggle_deafen(), Some(&"deafen"));
    let reply = method_reply(Err(String::from("callback threw")));
    assert_eq!(reply, Err(MethodError::Failed(String::from("js error: callback threw"))));
    assert!(!object.deafened());
}

#[test]
fn published_names() {
    assert_eq!(OBJECT_PATH, "/dev/vencord");
    assert_eq!(INTERFACE_NAME, "dev.vencord");
}

#[test]
fn started_bridge_refuses_every_later_start() {
    let (mut bridge, object) = started_bridge();
    for _ in 0..3 {
        assert!(matches!(bridge.start(), Err(VenbusError::AlreadyInitialized)));
        bridge.callback_toggle_mute("late");
        bridge.set_muted(true);
        assert_eq!(bridge.connection(), Some(&1));
    }
    assert!(object.muted());
    assert_eq!(object.toggle_mute(), None);
}
