//! Process controller: the graceful-then-forced termination protocol.
//!
//! Terminating a recorder is best-effort and bounded: send the
//! cooperative stop signal (one newline on the recorder's standard
//! input), poll for exit up to a graceful ceiling, then send the kill
//! signal, poll up to a second, shorter ceiling, and finally reap the
//! handle with one blocking wait so no zombie remains.  The same
//! protocol serves a mid-session stop, a quick restart between sessions,
//! and the proactive cleanup before a new session, differing only in the
//! poll budgets.
//!
//! The machine here makes every decision; the shell performs each
//! returned action on the live process and reports whether the process
//! has exited.  Whatever the process does with either signal, the
//! protocol converges: after boundedly many steps the controller owns no
//! process.

use vstd::prelude::*;

verus! {

/// Where the protocol stands.
#[derive(Clone, Copy, Debug, PartialEq, Eq, Structural)]
pub enum TermPhase {
    /// Cooperative signal sent; polling for exit, this many polls left.
    Graceful { polls_left: u64 },
    /// Kill signal sent; polling for exit, this many polls left.
    Forced { polls_left: u64 },
    /// Out of patience or exited after the kill: one blocking reap.
    Reaping,
    /// No live handle remains.
    Done,
}

/// What the shell must do next.
#[derive(Clone, Copy, Debug, PartialEq, Eq, Structural)]
pub enum TermAction {
    /// Sleep the poll interval, then poll the process once and report.
    Poll { ms: u64 },
    /// Send the kill signal, then report the next poll.
    Kill,
    /// Reap the handle with one blocking wait, then report.
    Reap,
    /// The protocol is over; no live handle remains.
    Finished,
}

/// The termination protocol's state.
#[derive(Clone, Copy, Debug, PartialEq, Eq, Structural)]
pub struct Termination {
    pub phase: TermPhase,
    /// Poll budget of the forced phase, entered when the graceful budget
    /// runs out.
    pub forced_polls: u64,
    /// Sleep between polls.
    pub poll_ms: u64,
}

impl Termination {
    /// The controller still owns a live process handle.
    pub open spec fn owns_process(self) -> bool {
        !(self.phase is Done)
    }

    /// Steps left before the protocol must be over.
    pub open spec fn measure(self) -> int {
        match self.phase {
            TermPhase::Graceful { polls_left } => polls_left + self.forced_polls + 3,
            TermPhase::Forced { polls_left } => polls_left + 2,
            TermPhase::Reaping => 1,
            TermPhase::Done => 0,
        }
    }

    /// The protocol's opening state: the cooperative signal has just been
    /// sent, and `graceful_polls` polls remain before escalation.
    pub open spec fn init_spec(graceful_polls: u64, forced_polls: u64, poll_ms: u64) -> Termination {
        Termination {
            phase: TermPhase::Graceful { polls_left: graceful_polls },
            forced_polls,
            poll_ms,
        }
    }

    /// Opens the protocol.  The shell must first write a single newline
    /// to the process's standard input and close the pipe — the
    /// recorder's cooperative stop signal — then poll and step.
    pub fn begin(graceful_polls: u64, forced_polls: u64, poll_ms: u64) -> (r: (
        Termination,
        TermAction,
    ))
        ensures
            r.0 == Termination::init_spec(graceful_polls, forced_polls, poll_ms),
            r.1 == (TermAction::Poll { ms: poll_ms }),
    {
        (
            Termination {
                phase: TermPhase::Graceful { polls_left: graceful_polls },
                forced_polls,
                poll_ms,
            },
            TermAction::Poll { ms: poll_ms },
        )
    }

    /// One step of the protocol, given whether the last poll saw the
    /// process exited.  An exit during the graceful window ends the
    /// protocol at once (the successful poll already reaped the handle);
    /// an exhausted graceful window escalates to the kill signal; the
    /// forced window always ends in the one blocking reap, exit or not.
    pub open spec fn step_spec(self, exited: bool) -> (Termination, TermAction) {
        match self.phase {
            TermPhase::Graceful { polls_left } => {
                if exited {
                    (Termination { phase: TermPhase::Done, ..self }, TermAction::Finished)
                } else if polls_left > 0 {
                    (
                        Termination {
                            phase: TermPhase::Graceful { polls_left: (polls_left - 1) as u64 },
                            ..self
                        },
                        TermAction::Poll { ms: self.poll_ms },
                    )
                } else {
                    (
                        Termination {
                            phase: TermPhase::Forced { polls_left: self.forced_polls },
                            ..self
                        },
                        TermAction::Kill,
                    )
                }
            },
            TermPhase::Forced { polls_left } => {
                if exited {
                    (Termination { phase: TermPhase::Reaping, ..self }, TermAction::Reap)
                } else if polls_left > 0 {
                    (
                        Termination {
                            phase: TermPhase::Forced { polls_left: (polls_left - 1) as u64 },
                            ..self
                        },
                        TermAction::Poll { ms: self.poll_ms },
                    )
                } else {
                    (Termination { phase: TermPhase::Reaping, ..self }, TermAction::Reap)
                }
            },
            TermPhase::Reaping => (
                Termination { phase: TermPhase::Done, ..self },
                TermAction::Finished,
            ),
            TermPhase::Done => (self, TermAction::Finished),
        }
    }

    /// Performs one protocol step.
    pub fn step(&mut self, exited: bool) -> (r: TermAction)
        ensures
            (*final(self), r) == old(self).step_spec(exited),
            r is Finished ==> !final(self).owns_process(),
    {
        match self.phase {
            TermPhase::Graceful { polls_left } => {
                if exited {
                    self.phase = TermPhase::Done;
                    TermAction::Finished
                } else if polls_left > 0 {
                    self.phase = TermPhase::Graceful { polls_left: polls_left - 1 };
                    TermAction::Poll { ms: self.poll_ms }
                } else {
                    self.phase = TermPhase::Forced { polls_left: self.forced_polls };
                    TermAction::Kill
                }
            },
            TermPhase::Forced { polls_left } => {
                if exited {
                    self.phase = TermPhase::Reaping;
                    TermAction::Reap
                } else if polls_left > 0 {
                    self.phase = TermPhase::Forced { polls_left: polls_left - 1 };
                    TermAction::Poll { ms: self.poll_ms }
                } else {
                    self.phase = TermPhase::Reaping;
                    TermAction::Reap
                }
            },
            TermPhase::Reaping => {
                self.phase = TermPhase::Done;
                TermAction::Finished
            },
            TermPhase::Done => TermAction::Finished,
        }
    }
}

/// The state after running the protocol on a sequence of poll outcomes.
pub open spec fn term_run_spec(s: Termination, polls: Seq<bool>) -> Termination
    decreases polls.len(),
{
    if polls.len() == 0 {
        s
    } else {
        term_run_spec(s.step_spec(polls[0]).0, polls.skip(1))
    }
}

/// Every step on an owned process strictly shrinks the measure: the
/// protocol cannot stall.
pub proof fn lemma_term_step_progress(s: Termination, exited: bool)
    requires
        s.owns_process(),
    ensures
        s.step_spec(exited).0.measure() < s.measure(),
{
}

/// The protocol only ever reports `Finished` once the controller owns no
/// process, and once the handle is gone it stays gone.
pub proof fn lemma_term_finished_means_released(s: Termination, exited: bool)
    ensures
        s.step_spec(exited).1 is Finished ==> !s.step_spec(exited).0.owns_process(),
        !s.owns_process() ==> !s.step_spec(exited).0.owns_process(),
{
}

/// Terminating a recorder always converges: whatever the process did
/// with the cooperative or the kill signal — any sequence of poll
/// outcomes at least as long as the poll budgets allow — the controller
/// ends up owning no process.
pub proof fn lemma_termination_converges(s: Termination, polls: Seq<bool>)
    requires
        polls.len() >= s.measure(),
    ensures
        !term_run_spec(s, polls).owns_process(),
    decreases polls.len(),
{
    if s.owns_process() {
        lemma_term_step_progress(s, polls[0]);
        lemma_termination_converges(s.step_spec(polls[0]).0, polls.skip(1));
    } else {
        if polls.len() > 0 {
            lemma_term_finished_means_released(s, polls[0]);
            lemma_termination_converges(s.step_spec(polls[0]).0, polls.skip(1));
        }
    }
}

} // verus!
