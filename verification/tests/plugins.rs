use volumio_plugins::artwork_plugin::{ArtworkLocalPlugin, REQUEST_ARTWORK_RESOLVE, STUB_RESOLVE_JSON};
use volumio_plugins::contract::{CustodyHandle, HealthStatus, PluginError, Request, SemVer};
use volumio_plugins::playback_plugin::{MpdPlaybackPlugin, INITIAL_STATE_REPORT, PLUGIN_NAME};

fn request(request_type: &str, payload: &[u8], correlation_id: u64) -> Request {
    Request { request_type: request_type.to_string(), payload: payload.to_vec(), correlation_id }
}

#[test]
fn health_unhealthy_before_load() {
    let p = ArtworkLocalPlugin::new();
    assert!(matches!(p.health_check().status, HealthStatus::Unhealthy));
}

#[test]
fn handle_rejects_before_load() {
    let mut p = ArtworkLocalPlugin::new();
    let r = request(REQUEST_ARTWORK_RESOLVE, &[], 1);
    let e = p.handle_request(&r, false).unwrap_err();
    assert!(matches!(e, PluginError::Permanent(_)));
    assert_eq!(p.requests_handled(), 0);
}

#[test]
fn handle_unknown_request_type() {
    let mut p = ArtworkLocalPlugin::new();
    p.set_loaded_for_test();
    let r = request("metadata.query", &[], 2);
    let e = p.handle_request(&r, false).unwrap_err();
    match e {
        PluginError::Permanent(m) => assert_eq!(
            m,
            "unknown request type: \"metadata.query\" (not one of: [\"artwork.resolve\"])"
        ),
        other => panic!("unexpected {other:?}"),
    }
    assert_eq!(p.requests_handled(), 1);
}

#[test]
fn handle_resolve_stub() {
    let mut p = ArtworkLocalPlugin::new();
    p.set_loaded_for_test();
    let r = request(REQUEST_ARTWORK_RESOLVE, b"{}", 99);
    let out = p.handle_request(&r, false).unwrap();
    assert_eq!(out.correlation_id, 99);
    let text = String::from_utf8(out.payload).unwrap();
    assert!(text.contains("stub"), "{text}");
    assert_eq!(text, STUB_RESOLVE_JSON);
    assert_eq!(p.requests_handled(), 1);
}

#[test]
fn handle_past_deadline() {
    let mut p = ArtworkLocalPlugin::new();
    p.set_loaded_for_test();
    let r = request(REQUEST_ARTWORK_RESOLVE, &[], 3);
    let e = p.handle_request(&r, true).unwrap_err();
    assert!(matches!(e, PluginError::Transient(_)));
    assert_eq!(p.requests_handled(), 0);
}

#[test]
fn artwork_describe_lists_resolve() {
    let p = ArtworkLocalPlugin::default();
    let d = p.describe(SemVer { major: 0, minor: 2, patch: 1 });
    assert_eq!(d.identity.name, "com.volumio.artwork.local");
    assert_eq!(d.identity.version, SemVer { major: 0, minor: 2, patch: 1 });
    assert!(!d.runtime_capabilities.accepts_custody);
    assert_eq!(d.runtime_capabilities.request_types, vec![REQUEST_ARTWORK_RESOLVE]);
}

#[test]
fn describe_returns_expected_identity() {
    let p = MpdPlaybackPlugin::new();
    let d = p.describe();
    assert_eq!(d.identity.name, PLUGIN_NAME);
    assert_eq!(d.identity.contract, 1);
    assert_eq!(d.identity.version, SemVer { major: 0, minor: 1, patch: 0 });
    assert!(d.runtime_capabilities.accepts_custody);
    assert!(d.runtime_capabilities.request_types.is_empty());
}

#[test]
fn health_is_unhealthy_before_load() {
    let p = MpdPlaybackPlugin::new();
    assert!(matches!(p.health_check().status, HealthStatus::Unhealthy));
}

#[test]
fn load_unload_is_idempotent() {
    let mut p = MpdPlaybackPlugin::new();
    for _ in 0..2 {
        p.load();
        assert!(matches!(p.health_check().status, HealthStatus::Healthy));
        p.unload();
        assert!(matches!(p.health_check().status, HealthStatus::Unhealthy));
    }
    assert_eq!(p.active_custody_count(), 0);
    assert_eq!(p.custodies_taken(), 0);
    assert_eq!(p.corrections_received(), 0);
}

#[test]
fn take_custody_rejects_before_load() {
    let mut p = MpdPlaybackPlugin::new();
    let e = p.take_custody(1, "playback-session").unwrap_err();
    assert!(matches!(e, PluginError::Permanent(_)));
    assert_eq!(p.custodies_taken(), 0);
}

#[test]
fn take_custody_returns_handle_and_emits_initial_report() {
    let mut p = MpdPlaybackPlugin::new();
    p.load();
    let handle = p.take_custody(42, "playback-session").unwrap();
    assert_eq!(handle.id, "custody-42");
    assert_eq!(p.active_custody_count(), 1);
    assert_eq!(p.custodies_taken(), 1);
    assert_eq!(INITIAL_STATE_REPORT.as_bytes(), b"state=idle");
}

#[test]
fn course_correct_acknowledges_known_handle() {
    let mut p = MpdPlaybackPlugin::new();
    p.load();
    let handle = p.take_custody(7, "playback-session").unwrap();
    p.course_correct(&handle, "play").unwrap();
    assert_eq!(p.corrections_received(), 1);
}

#[test]
fn course_correct_rejects_unknown_handle() {
    let mut p = MpdPlaybackPlugin::new();
    p.load();
    let handle = CustodyHandle::new("custody-does-not-exist");
    let e = p.course_correct(&handle, "play").unwrap_err();
    match e {
        PluginError::Permanent(m) => assert_eq!(m, "unknown custody handle: custody-does-not-exist"),
        other => panic!("unexpected {other:?}"),
    }
    assert_eq!(p.corrections_received(), 0);
}

#[test]
fn release_custody_removes_from_tracking() {
    let mut p = MpdPlaybackPlugin::new();
    p.load();
    let handle = p.take_custody(5, "playback-session").unwrap();
    assert_eq!(p.active_custody_count(), 1);
    p.release_custody(handle).unwrap();
    assert_eq!(p.active_custody_count(), 0);
    // Cumulative counter is not decremented.
    assert_eq!(p.custodies_taken(), 1);
}

#[test]
fn release_custody_rejects_unknown_handle() {
    let mut p = MpdPlaybackPlugin::new();
    p.load();
    let handle = CustodyHandle::new("custody-phantom");
    let e = p.release_custody(handle).unwrap_err();
    assert!(matches!(e, PluginError::Permanent(_)));
}

#[test]
fn same_correlation_id_twice_holds_one_custody() {
    let mut p = MpdPlaybackPlugin::default();
    p.load();
    let a = p.take_custody(9, "playback-session").unwrap();
    let b = p.take_custody(9, "other").unwrap();
    assert_eq!(a.id, b.id);
    assert_eq!(p.active_custody_count(), 1);
    assert_eq!(p.custodies_taken(), 2);
    p.unload();
    assert_eq!(p.active_custody_count(), 0);
    assert_eq!(p.custodies_taken(), 2);
}

#[test]
fn custody_counters_over_a_session() {
    let mut p = MpdPlaybackPlugin::new();
    assert!(p.take_custody(1, "playback-session").is_err());
    p.load();
    let a = p.take_custody(1, "playback-session").unwrap();
    let _b = p.take_custody(2, "playback-session").unwrap();
    let _again = p.take_custody(2, "playback-session").unwrap();
    assert_eq!(p.active_custody_count(), 2);
    assert_eq!(p.custodies_taken(), 3);
    assert!(p.course_correct(&a, "pause").is_ok());
    assert!(p.course_correct(&CustodyHandle::new("custody-9"), "pause").is_err());
    p.release_custody(a).unwrap();
    assert_eq!(p.active_custody_count(), 1);
    assert!(p.active_custody_count() as u64 <= p.custodies_taken());
    p.unload();
    assert_eq!(p.active_custody_count(), 0);
    assert_eq!(p.custodies_taken(), 3);
    assert_eq!(p.corrections_received(), 1);
}

#[test]
fn requests_handled_over_a_session() {
    let mut p = ArtworkLocalPlugin::new();
    assert!(p.handle_request(&request(REQUEST_ARTWORK_RESOLVE, b"{}", 1), false).is_err());
    p.load();
    assert!(p.handle_request(&request(REQUEST_ARTWORK_RESOLVE, b"{}", 2), false).is_ok());
    assert!(p.handle_request(&request("metadata.query", b"{}", 3), false).is_err());
    assert!(p.handle_request(&request(REQUEST_ARTWORK_RESOLVE, b"{}", 4), true).is_err());
    p.unload();
    assert!(p.handle_request(&request(REQUEST_ARTWORK_RESOLVE, b"{}", 5), false).is_err());
    assert_eq!(p.requests_handled(), 2);
}
