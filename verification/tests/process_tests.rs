use aegis_recorder::process::{TermAction, Termination};

#[test]
fn cooperative_process_ends_the_protocol_at_once() {
    // The recorder honours the newline: the first poll sees it exited
    // and the controller owns nothing afterwards.
    let (mut t, act) = Termination::begin(50, 20, 100);
    assert!(matches!(act, TermAction::Poll { ms: 100 }));
    assert!(matches!(t.step(true), TermAction::Finished));
}

#[test]
fn stubborn_process_is_killed_then_reaped() {
    // The recorder ignores both signals: the graceful budget runs out,
    // the kill is sent, the forced budget runs out, and one blocking
    // reap ends the protocol — no live handle either way.
    let (mut t, _) = Termination::begin(3, 2, 100);
    for _ in 0..3 {
        assert!(matches!(t.step(false), TermAction::Poll { ms: 100 }));
    }
    assert!(matches!(t.step(false), TermAction::Kill));
    for _ in 0..2 {
        assert!(matches!(t.step(false), TermAction::Poll { ms: 100 }));
    }
    assert!(matches!(t.step(false), TermAction::Reap));
    assert!(matches!(t.step(false), TermAction::Finished));
}

#[test]
fn exit_after_kill_still_reaps_once() {
    let (mut t, _) = Termination::begin(0, 5, 200);
    assert!(matches!(t.step(false), TermAction::Kill));
    assert!(matches!(t.step(true), TermAction::Reap));
    assert!(matches!(t.step(true), TermAction::Finished));
}

#[test]
fn any_poll_outcomes_converge_within_the_budgets() {
    // Drive the protocol with arbitrary alternating poll outcomes: it
    // reports Finished within the budget-bounded number of steps.
    let (mut t, _) = Termination::begin(4, 3, 10);
    let mut steps = 0u64;
    loop {
        let exited = steps % 3 == 1;
        if matches!(t.step(exited), TermAction::Finished) {
            break;
        }
        steps += 1;
        assert!(steps <= 4 + 3 + 3, "protocol failed to converge");
    }
}
