use aegis_recorder::recorder_loop::{LoopAction, LoopConfig, LoopEvent, RecorderLoop};

fn config() -> LoopConfig {
    LoopConfig { segment_duration_s: 60, poll_interval_ms: 100 }
}

fn spawn_name(m: &mut RecorderLoop, timestamp: u64) -> String {
    let act = m.step(LoopEvent::Begin { stop: false, timestamp });
    match act {
        LoopAction::Spawn { output_name, duration_s } => {
            assert_eq!(duration_s, 60);
            output_name
        }
        _ => panic!("expected a spawn"),
    }
}

fn dispatch_index(act: LoopAction) -> (u64, u64) {
    match act {
        LoopAction::Dispatch { index, timestamp } => (index, timestamp),
        _ => panic!("expected a dispatch"),
    }
}

#[test]
fn one_segment_runs_spawn_poll_dispatch() {
    // A session whose recorder writes its file and exits: the loop
    // spawns segment 1 under a name keyed by index and timestamp, polls,
    // and dispatches the same segment to the pipeline.
    let mut m = RecorderLoop::new(config());
    let name = spawn_name(&mut m, 1700000000);
    assert_eq!(name, "aegis_screen_1_1700000000.mov");
    assert!(matches!(m.step(LoopEvent::Spawned { ok: true }), LoopAction::Proceed));
    assert!(matches!(
        m.step(LoopEvent::Polled { stop: false, exited: false }),
        LoopAction::Sleep { ms: 100 }
    ));
    let act = m.step(LoopEvent::Polled { stop: false, exited: true });
    assert_eq!(dispatch_index(act), (1, 1700000000));
    assert!(!m.finished());
}

#[test]
fn segment_indices_increase_from_one() {
    // Three completed segments get indices 1, 2, 3 with no repeats.
    let mut m = RecorderLoop::new(config());
    for expected in 1u64..=3 {
        let name = spawn_name(&mut m, 50 + expected);
        assert_eq!(
            name,
            format!("aegis_screen_{}_{}.mov", expected, 50 + expected)
        );
        assert!(matches!(m.step(LoopEvent::Spawned { ok: true }), LoopAction::Proceed));
        let act = m.step(LoopEvent::Polled { stop: false, exited: true });
        assert_eq!(dispatch_index(act), (expected, 50 + expected));
    }
}

#[test]
fn stop_before_first_completion_terminates_and_still_dispatches() {
    // A stop within the first segment: the loop escalates to the
    // termination protocol, then dispatches the cut-off segment (whose
    // file the pipeline will validate) and finishes without spawning a
    // second segment.
    let mut m = RecorderLoop::new(config());
    let _ = spawn_name(&mut m, 7);
    assert!(matches!(m.step(LoopEvent::Spawned { ok: true }), LoopAction::Proceed));
    assert!(matches!(
        m.step(LoopEvent::Polled { stop: true, exited: false }),
        LoopAction::Terminate
    ));
    let act = m.step(LoopEvent::Terminated);
    assert_eq!(dispatch_index(act), (1, 7));
    assert!(m.finished());
}

#[test]
fn stop_between_segments_exits_without_spawning() {
    let mut m = RecorderLoop::new(config());
    assert!(matches!(
        m.step(LoopEvent::Begin { stop: true, timestamp: 1 }),
        LoopAction::Exit
    ));
    assert!(m.finished());
}

#[test]
fn failed_spawn_ends_the_loop_silently() {
    let mut m = RecorderLoop::new(config());
    let _ = spawn_name(&mut m, 9);
    assert!(matches!(m.step(LoopEvent::Spawned { ok: false }), LoopAction::Exit));
    assert!(m.finished());
}

#[test]
fn polling_doubles_after_ten_fast_polls() {
    let mut m = RecorderLoop::new(config());
    let _ = spawn_name(&mut m, 3);
    assert!(matches!(m.step(LoopEvent::Spawned { ok: true }), LoopAction::Proceed));
    for _ in 0..10 {
        assert!(matches!(
            m.step(LoopEvent::Polled { stop: false, exited: false }),
            LoopAction::Sleep { ms: 100 }
        ));
    }
    for _ in 0..5 {
        assert!(matches!(
            m.step(LoopEvent::Polled { stop: false, exited: false }),
            LoopAction::Sleep { ms: 200 }
        ));
    }
}
