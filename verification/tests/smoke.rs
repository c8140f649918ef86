use blue_jni::engine::Engine;
use blue_jni::DISCOVERY_TIMEOUT_SECS;

#[test]
fn it_works() {
    assert_eq!(true, true);
}

#[test]
fn lib_it_works() {
    assert_eq!(true, true);
}

#[test]
fn android_it_works() {
    assert_eq!(true, true);
}

#[test]
fn default_timeout_is_twelve_seconds() {
    assert_eq!(DISCOVERY_TIMEOUT_SECS, 12);
}

#[test]
fn fresh_engine_is_idle() {
    let engine = Engine::new();
    assert!(!engine.adapter_available());
    assert!(!engine.is_discovering());
    assert_eq!(engine.followed_count(), 0);
}
