use aegis_recorder::supervisor::{StartError, StopError, Supervisor};

fn started(sup: &mut Supervisor) {
    let r = sup.start_session(
        Some("/tmp/session_a".to_string()),
        Some("/usr/local/bin/aegis-native-recorder".to_string()),
    );
    assert!(r.is_ok());
}

#[test]
fn start_marks_the_session_running() {
    let mut sup = Supervisor::new();
    assert!(!sup.status().running);
    started(&mut sup);
    let st = sup.status();
    assert!(st.running);
    assert_eq!(st.session_dir.as_deref(), Some("/tmp/session_a"));
    assert_eq!(sup.segment_index, 1);
    assert!(sup.recording_active);
}

#[test]
fn second_start_fails_with_already_running() {
    // No two sessions are concurrently running: however the second
    // start's outside work went, it is refused and nothing changes.
    let mut sup = Supervisor::new();
    started(&mut sup);
    let r = sup.start_session(
        Some("/tmp/session_b".to_string()),
        Some("/usr/local/bin/aegis-native-recorder".to_string()),
    );
    assert_eq!(r.err(), Some(StartError::AlreadyRunning));
    let st = sup.status();
    assert!(st.running);
    assert_eq!(st.session_dir.as_deref(), Some("/tmp/session_a"));
}

#[test]
fn start_after_stop_succeeds_again() {
    let mut sup = Supervisor::new();
    started(&mut sup);
    assert!(sup.stop_session(false).is_ok());
    started(&mut sup);
    assert!(sup.status().running);
}

#[test]
fn failed_bundle_open_refuses_atomically() {
    let mut sup = Supervisor::new();
    let r = sup.start_session(None, Some("/bin/rec".to_string()));
    assert_eq!(r.err(), Some(StartError::BundleStart));
    assert!(!sup.status().running);
    assert!(!sup.recording_active);
}

#[test]
fn failed_recorder_resolution_refuses_atomically() {
    let mut sup = Supervisor::new();
    let r = sup.start_session(Some("/tmp/session_a".to_string()), None);
    assert_eq!(r.err(), Some(StartError::RecorderNotFound));
    assert!(!sup.status().running);
    assert!(sup.session_dir.is_none());
    assert!(!sup.recording_active);
}

#[test]
fn stop_on_idle_is_a_no_op_not_an_error() {
    // Whatever the shell would report about bundle closing, stopping an
    // idle session reports the idle status and never errs.
    let mut sup = Supervisor::new();
    let r = sup.stop_session(false);
    let st = r.expect("stop on idle must not err");
    assert!(!st.running);
    assert!(st.session_dir.is_none());
    let r2 = sup.stop_session(true);
    let st2 = r2.expect("stop on idle must not err even on a close failure report");
    assert!(!st2.running);
}

#[test]
fn stop_request_only_clears_the_recording_flag() {
    let mut sup = Supervisor::new();
    started(&mut sup);
    sup.stop_request();
    assert!(!sup.recording_active);
    assert!(sup.status().running);
    assert_eq!(sup.status().session_dir.as_deref(), Some("/tmp/session_a"));
}

#[test]
fn stop_resets_the_flags_and_surfaces_close_failures() {
    let mut sup = Supervisor::new();
    started(&mut sup);
    let r = sup.stop_session(true);
    assert_eq!(r.err(), Some(StopError::BundleWriteFailure));
    assert!(!sup.status().running);
    assert!(sup.session_dir.is_none());
    assert_eq!(sup.segment_index, 1);
    assert!(sup.recorder_path.is_none());
}
