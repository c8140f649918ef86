use blue_jni::engine::{Emit, Engine, Event, Transport};
use blue_jni::error::Error;

/// No adapter, no discovery: the request is rejected with
/// `AdapterNotAvailable` and nothing is armed.
#[test]
fn start_without_adapter_is_rejected() {
    let (engine, sr) = Engine::initialize(false);
    assert_eq!(sr.emits.len(), 1);
    assert!(matches!(sr.emits[0], Emit::AdapterEnabledChanged { enabled: false }));
    assert!(!sr.apply_filter);
    assert!(matches!(engine.start_discovery(), Err(Error::AdapterNotAvailable)));
    assert!(!engine.is_discovering());
}

#[test]
fn initialize_with_adapter_notifies_and_filters() {
    let (engine, sr) = Engine::initialize(true);
    assert!(engine.adapter_available());
    assert_eq!(sr.emits.len(), 1);
    assert!(matches!(sr.emits[0], Emit::AdapterEnabledChanged { enabled: true }));
    assert!(sr.apply_filter);
    assert_eq!(engine.discovery_filter(), Some(Transport::Classic));
}

#[test]
fn discovery_filter_absent_without_adapter() {
    let (engine, _) = Engine::initialize(false);
    assert_eq!(engine.discovery_filter(), None);
}

/// A discovered device is announced before it is followed, under its
/// advertised name.
#[test]
fn device_added_announces_then_follows() {
    let (mut engine, _) = Engine::initialize(true);
    assert!(engine.start_discovery().is_ok());
    let _op = engine.arm_discovery();
    let sr = engine.handle_event(Event::DeviceAdded {
        addr: 0x112233445566,
        name: Some(String::from("headset")),
    });
    assert_eq!(sr.emits.len(), 1);
    match &sr.emits[0] {
        Emit::DeviceDiscovered { name, addr } => {
            assert_eq!(name, "headset");
            assert_eq!(*addr, 0x112233445566);
        }
        other => panic!("expected a discovered-device notification, got {:?}", other),
    }
    assert_eq!(sr.follow, Some(0x112233445566));
    assert!(!sr.stopped);
    assert_eq!(engine.followed_count(), 1);
}

/// A device that advertises no name is announced under its address text.
#[test]
fn device_without_name_falls_back_to_address() {
    let (mut engine, _) = Engine::initialize(true);
    let _op = engine.arm_discovery();
    let sr = engine.handle_event(Event::DeviceAdded { addr: 0xAABBCCDDEEFF, name: None });
    match &sr.emits[0] {
        Emit::DeviceDiscovered { name, .. } => assert_eq!(name, "AA:BB:CC:DD:EE:FF"),
        _ => panic!("expected a discovered-device notification"),
    }
}

/// Discovered before changed: a change record only appears for a followed
/// device; an unknown device's change is ignored.
#[test]
fn change_only_after_discovery() {
    let (mut engine, _) = Engine::initialize(true);
    let _op = engine.arm_discovery();
    let early = engine.handle_event(Event::DeviceChanged { addr: 7 });
    assert_eq!(early.emits.len(), 0);
    let _ = engine.handle_event(Event::DeviceAdded { addr: 7, name: None });
    let after = engine.handle_event(Event::DeviceChanged { addr: 7 });
    assert_eq!(after.emits.len(), 1);
    assert!(matches!(after.emits[0], Emit::DeviceChangedLog { addr: 7 }));
}

#[test]
fn device_removal_is_log_only() {
    let (mut engine, _) = Engine::initialize(true);
    let _op = engine.arm_discovery();
    let sr = engine.handle_event(Event::DeviceRemoved { addr: 9 });
    assert_eq!(sr.emits.len(), 1);
    assert!(matches!(sr.emits[0], Emit::DeviceRemovedLog { addr: 9 }));
    assert!(!sr.stopped);
}

/// Exactly one stop on timeout, and a late duplicate signal is ignored.
#[test]
fn timeout_stops_exactly_once() {
    let (mut engine, _) = Engine::initialize(true);
    let op = engine.arm_discovery();
    assert!(engine.timer_fired(op));
    let sr = engine.handle_event(Event::TimeoutFired { op });
    assert_eq!(sr.emits.len(), 1);
    assert!(matches!(sr.emits[0], Emit::DiscoveryStopped));
    assert!(sr.stopped);
    assert!(!sr.abort_timer);
    assert!(!engine.is_discovering());
    assert_eq!(engine.followed_count(), 0);
    let again = engine.handle_event(Event::TimeoutFired { op });
    assert_eq!(again.emits.len(), 0);
    assert!(!again.stopped);
    assert!(!engine.timer_fired(op));
}

/// Cancel suppresses timeout: the cancel-triggered stop asks for the timer
/// to be aborted, the timer signal is ignored afterwards, and a second
/// cancel is a silent no-op.
#[test]
fn cancel_suppresses_timeout() {
    let (mut engine, _) = Engine::initialize(true);
    let op = engine.arm_discovery();
    assert_eq!(engine.cancel_discovery(), Some(op));
    let sr = engine.handle_event(Event::CancelFired { op });
    assert_eq!(sr.emits.len(), 1);
    assert!(matches!(sr.emits[0], Emit::DiscoveryStopped));
    assert!(sr.abort_timer);
    assert!(sr.stopped);
    let late_timer = engine.handle_event(Event::TimeoutFired { op });
    assert_eq!(late_timer.emits.len(), 0);
    assert!(!late_timer.stopped);
    assert_eq!(engine.cancel_discovery(), None);
    let late_cancel = engine.handle_event(Event::CancelFired { op });
    assert_eq!(late_cancel.emits.len(), 0);
}

/// Cancelling while nothing runs is a valid, silent no-op.
#[test]
fn cancel_without_discovery_is_noop() {
    let (engine, _) = Engine::initialize(true);
    assert_eq!(engine.cancel_discovery(), None);
}

/// Adapter removal mid-discovery: availability notification, cancel signal
/// for the running operation, and no discovered device afterwards.
#[test]
fn adapter_removal_aborts_discovery() {
    let (mut engine, _) = Engine::initialize(true);
    let op = engine.arm_discovery();
    let removed = engine.handle_event(Event::AdapterRemoved);
    assert_eq!(removed.emits.len(), 1);
    assert!(matches!(removed.emits[0], Emit::AdapterEnabledChanged { enabled: false }));
    assert_eq!(removed.signal_cancel, Some(op));
    assert!(!engine.adapter_available());
    let unseen = engine.handle_event(Event::DeviceAdded { addr: 3, name: None });
    assert_eq!(unseen.emits.len(), 0);
    let stopped = engine.handle_event(Event::CancelFired { op });
    assert_eq!(stopped.emits.len(), 1);
    assert!(matches!(stopped.emits[0], Emit::DiscoveryStopped));
    assert!(!engine.is_discovering());
}

/// Error isolation: a redundant start is rejected with
/// `DiscoveryNotPossible` and the running operation still stops exactly
/// once.
#[test]
fn redundant_start_is_isolated() {
    let (mut engine, _) = Engine::initialize(true);
    let op = engine.arm_discovery();
    assert!(matches!(engine.start_discovery(), Err(Error::DiscoveryNotPossible)));
    assert!(engine.is_discovering());
    let sr = engine.handle_event(Event::TimeoutFired { op });
    let stops = sr
        .emits
        .iter()
        .filter(|e| matches!(e, Emit::DiscoveryStopped))
        .count();
    assert_eq!(stops, 1);
    let after = engine.handle_event(Event::TimeoutFired { op });
    assert_eq!(after.emits.len(), 0);
}

/// Exhaustion of all sources ends the operation with its single stop.
#[test]
fn source_exhaustion_stops_once() {
    let (mut engine, _) = Engine::initialize(true);
    let op = engine.arm_discovery();
    let sr = engine.handle_event(Event::SourcesExhausted);
    assert_eq!(sr.emits.len(), 1);
    assert!(matches!(sr.emits[0], Emit::DiscoveryStopped));
    assert!(!sr.abort_timer);
    assert!(!engine.is_discovering());
    assert!(!engine.timer_fired(op));
}

/// A second operation gets a fresh number, so stale signals of the first
/// operation cannot touch it.
#[test]
fn operations_are_numbered_apart() {
    let (mut engine, _) = Engine::initialize(true);
    let first = engine.arm_discovery();
    let _ = engine.handle_event(Event::TimeoutFired { op: first });
    assert!(engine.start_discovery().is_ok());
    let second = engine.arm_discovery();
    assert_ne!(first, second);
    let stale = engine.handle_event(Event::TimeoutFired { op: first });
    assert_eq!(stale.emits.len(), 0);
    assert!(engine.is_discovering());
    assert!(!engine.timer_fired(first));
    assert!(engine.timer_fired(second));
}

/// The probe needs an adapter but not a running discovery.
#[test]
fn inspect_device_needs_adapter_only() {
    let (engine, _) = Engine::initialize(true);
    assert!(!engine.is_discovering());
    assert!(matches!(engine.inspect_device(0x42), Ok(0x42)));
    let (unbound, _) = Engine::initialize(false);
    assert!(matches!(unbound.inspect_device(0x42), Err(Error::AdapterNotAvailable)));
}

/// A full session: two operations back to back, with devices discovered,
/// followed and changed, one ended by timeout and one by cancel.
#[test]
fn two_operations_back_to_back() {
    let (mut engine, _) = Engine::initialize(true);

    assert!(engine.start_discovery().is_ok());
    let first = engine.arm_discovery();
    let a = engine.handle_event(Event::DeviceAdded {
        addr: 0x010203040506,
        name: Some(String::from("keyboard")),
    });
    assert!(matches!(a.emits[0], Emit::DeviceDiscovered { addr: 0x010203040506, .. }));
    let b = engine.handle_event(Event::DeviceAdded { addr: 0x0A0B0C0D0E0F, name: None });
    assert!(matches!(b.emits[0], Emit::DeviceDiscovered { addr: 0x0A0B0C0D0E0F, .. }));
    assert_eq!(engine.followed_count(), 2);
    let c = engine.handle_event(Event::DeviceChanged { addr: 0x010203040506 });
    assert!(matches!(c.emits[0], Emit::DeviceChangedLog { addr: 0x010203040506 }));
    let stop = engine.handle_event(Event::TimeoutFired { op: first });
    assert!(matches!(stop.emits[0], Emit::DiscoveryStopped));
    assert_eq!(engine.followed_count(), 0);

    assert!(engine.start_discovery().is_ok());
    let second = engine.arm_discovery();
    // the first operation's devices are gone: rediscovery is a new entry
    let stale_change = engine.handle_event(Event::DeviceChanged { addr: 0x010203040506 });
    assert_eq!(stale_change.emits.len(), 0);
    let again = engine.handle_event(Event::DeviceAdded { addr: 0x010203040506, name: None });
    assert!(matches!(again.emits[0], Emit::DeviceDiscovered { addr: 0x010203040506, .. }));
    let cancel_op = engine.cancel_discovery().expect("an operation is running");
    assert_eq!(cancel_op, second);
    let stop2 = engine.handle_event(Event::CancelFired { op: cancel_op });
    assert!(matches!(stop2.emits[0], Emit::DiscoveryStopped));
    assert!(stop2.abort_timer);
    assert!(!engine.is_discovering());
}

/// Rebinding an adapter mid-run reapplies the filter and notifies.
#[test]
fn adapter_added_rebinds() {
    let (mut engine, _) = Engine::initialize(false);
    let sr = engine.handle_event(Event::AdapterAdded { bind_ok: true });
    assert!(matches!(sr.emits[0], Emit::AdapterEnabledChanged { enabled: true }));
    assert!(sr.apply_filter);
    assert!(engine.adapter_available());
    let failed = engine.handle_event(Event::AdapterAdded { bind_ok: false });
    assert!(matches!(failed.emits[0], Emit::AdapterEnabledChanged { enabled: false }));
    assert!(!failed.apply_filter);
    assert!(!engine.adapter_available());
}
