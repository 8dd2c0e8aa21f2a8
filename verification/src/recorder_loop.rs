//! The recorder loop: one session's unbounded sequence of segments.
//!
//! Per segment the loop computes a fresh output name keyed by the
//! segment index and the current timestamp, spawns the recorder for the
//! fixed segment duration, polls for completion at an adaptive interval
//! (the configured base interval for the first ten polls, double after
//! that), and on completion dispatches the finished segment to the
//! pipeline on its own background task so the next segment can start at
//! once.  A stop requested mid-segment runs the termination protocol and
//! leaves the loop; a failed spawn ends the session's recording
//! silently.
//!
//! The machine here makes every decision; the shell observes the stop
//! flag, the clock and the process, performs each returned action, and
//! feeds the outcome back as the next event.

use crate::names::{seg_name_spec, segment_file_name};
use vstd::prelude::*;

verus! {

/// Number of polls at the base interval before it doubles.
pub const FAST_POLLS: u64 = 10;

/// The per-session recording parameters.
#[derive(Clone, Copy, Debug, PartialEq, Eq, Structural)]
pub struct LoopConfig {
    /// Fixed duration of one segment, in seconds.
    pub segment_duration_s: u64,
    /// Base polling interval, in milliseconds.
    pub poll_interval_ms: u64,
}

impl LoopConfig {
    /// The doubled interval must still fit.
    pub open spec fn wf(self) -> bool {
        self.poll_interval_ms <= u64::MAX / 2
    }
}

/// Where the loop stands.
#[derive(Clone, Copy, Debug, PartialEq, Eq, Structural)]
pub enum LoopPhase {
    /// Between segments: the stop flag decides whether another begins.
    Ready,
    /// A spawn was requested; its outcome is pending.
    Spawning,
    /// The recorder runs; polling for completion.
    Running { polls: u64 },
    /// Stop requested mid-segment; the termination protocol runs.
    Stopping,
    /// The loop is over.
    Finished,
}

/// What the shell must do next.
pub enum LoopAction {
    /// Remove any stale file at `output_name` under the temp directory,
    /// then spawn the recorder as `<path> <output> <duration>` with its
    /// standard input piped, and report the outcome.
    Spawn { output_name: String, duration_s: u64 },
    /// Sleep `ms`, then poll the stop flag and the process and report.
    Sleep { ms: u64 },
    /// Run the graceful-then-forced termination protocol on the live
    /// process, then report.
    Terminate,
    /// Reap the finished process, then dispatch segment `index` (stamped
    /// `timestamp`) to the pipeline on its own background task.
    Dispatch { index: u64, timestamp: u64 },
    /// Nothing to perform; observe and report the next event.
    Proceed,
    /// Leave the loop.
    Exit,
}

/// What the shell observed.
#[derive(Clone, Copy, Debug, PartialEq, Eq, Structural)]
pub enum LoopEvent {
    /// At the top of the loop: the stop flag and the current timestamp.
    Begin { stop: bool, timestamp: u64 },
    /// The outcome of the requested spawn.
    Spawned { ok: bool },
    /// One poll: the stop flag and whether the process has exited.
    Polled { stop: bool, exited: bool },
    /// The termination protocol has finished.
    Terminated,
}

/// One session's loop state.
#[derive(Clone, Copy, Debug, PartialEq, Eq, Structural)]
pub struct RecorderLoop {
    pub phase: LoopPhase,
    /// Index the next segment will get; the first segment gets 1.
    pub next_index: u64,
    /// Index of the segment currently in flight.
    pub cur_index: u64,
    /// Timestamp the in-flight segment's name was keyed by.
    pub cur_timestamp: u64,
    pub config: LoopConfig,
}

impl RecorderLoop {
    /// Well-formedness: the counter starts at 1 and the in-flight index,
    /// while one exists, is the one the counter just handed out.
    pub open spec fn wf(self) -> bool {
        &&& self.config.wf()
        &&& self.next_index >= 1
        &&& match self.phase {
            LoopPhase::Spawning | LoopPhase::Running { .. } | LoopPhase::Stopping => self.cur_index
                + 1 == self.next_index,
            _ => true,
        }
    }

    /// The loop state a fresh session starts from.
    pub open spec fn init_spec(config: LoopConfig) -> RecorderLoop {
        RecorderLoop {
            phase: LoopPhase::Ready,
            next_index: 1,
            cur_index: 0,
            cur_timestamp: 0,
            config,
        }
    }

    pub fn new(config: LoopConfig) -> (r: RecorderLoop)
        requires
            config.wf(),
        ensures
            r == RecorderLoop::init_spec(config),
            r.wf(),
    {
        RecorderLoop {
            phase: LoopPhase::Ready,
            next_index: 1,
            cur_index: 0,
            cur_timestamp: 0,
            config,
        }
    }

    /// The loop is over; the shell's driving loop ends here.
    pub open spec fn finished_spec(self) -> bool {
        self.phase is Finished
    }

    pub fn finished(&self) -> (r: bool)
        ensures
            r == self.finished_spec(),
    {
        match self.phase {
            LoopPhase::Finished => true,
            _ => false,
        }
    }

    /// The adaptive polling interval: the base interval for the first
    /// `FAST_POLLS` polls, double after that.
    pub open spec fn poll_wait_spec(self, polls: u64) -> u64 {
        if polls < FAST_POLLS {
            self.config.poll_interval_ms
        } else {
            (self.config.poll_interval_ms * 2) as u64
        }
    }

    /// The state after one event.  A begin with the stop flag set, or a
    /// failed spawn, ends the loop; a begin otherwise hands out the next
    /// index and spawns; a poll escalates to termination on a stop
    /// request, moves on to dispatch on an exit, and otherwise keeps
    /// polling; termination ends the loop after dispatching the cut-off
    /// segment.  An event that does not belong to the phase changes
    /// nothing.
    pub open spec fn next_spec(self, ev: LoopEvent) -> RecorderLoop {
        match (self.phase, ev) {
            (LoopPhase::Ready, LoopEvent::Begin { stop, timestamp }) => {
                if stop {
                    RecorderLoop { phase: LoopPhase::Finished, ..self }
                } else {
                    RecorderLoop {
                        phase: LoopPhase::Spawning,
                        next_index: (self.next_index + 1) as u64,
                        cur_index: self.next_index,
                        cur_timestamp: timestamp,
                        ..self
                    }
                }
            },
            (LoopPhase::Spawning, LoopEvent::Spawned { ok }) => {
                if ok {
                    RecorderLoop { phase: LoopPhase::Running { polls: 0 }, ..self }
                } else {
                    RecorderLoop { phase: LoopPhase::Finished, ..self }
                }
            },
            (LoopPhase::Running { polls }, LoopEvent::Polled { stop, exited }) => {
                if stop {
                    RecorderLoop { phase: LoopPhase::Stopping, ..self }
                } else if exited {
                    RecorderLoop { phase: LoopPhase::Ready, ..self }
                } else {
                    RecorderLoop {
                        phase: LoopPhase::Running {
                            polls: if polls < FAST_POLLS {
                                (polls + 1) as u64
                            } else {
                                polls
                            },
                        },
                        ..self
                    }
                }
            },
            (LoopPhase::Stopping, LoopEvent::Terminated) => RecorderLoop {
                phase: LoopPhase::Finished,
                ..self
            },
            _ => self,
        }
    }

    /// A step on this event hands out a segment index (and spawns).
    pub open spec fn spawns_spec(self, ev: LoopEvent) -> bool {
        self.phase is Ready && ev matches LoopEvent::Begin { stop: false, .. }
    }

    /// Performs one step: moves as `next_spec` says and returns the
    /// action the shell must perform, with the spawned segment's output
    /// name keyed by the index and timestamp it carries.
    pub fn step(&mut self, ev: LoopEvent) -> (r: LoopAction)
        requires
            old(self).wf(),
            old(self).next_index < u64::MAX,
        ensures
            final(self).wf(),
            *final(self) == old(self).next_spec(ev),
            old(self).spawns_spec(ev) ==> (r matches LoopAction::Spawn { output_name, duration_s }
                && output_name@ == seg_name_spec(
                old(self).next_index as nat,
                ev->Begin_timestamp as nat,
            ) && duration_s == old(self).config.segment_duration_s),
            match (old(self).phase, ev) {
                (LoopPhase::Ready, LoopEvent::Begin { stop, .. }) => stop ==> r is Exit,
                (LoopPhase::Spawning, LoopEvent::Spawned { ok }) => if ok {
                    r is Proceed
                } else {
                    r is Exit
                },
                (LoopPhase::Running { polls }, LoopEvent::Polled { stop, exited }) => if stop {
                    r is Terminate
                } else if exited {
                    (r matches LoopAction::Dispatch { index, timestamp } && index == old(
                        self,
                    ).cur_index && timestamp == old(self).cur_timestamp)
                } else {
                    r == (LoopAction::Sleep { ms: old(self).poll_wait_spec(polls) })
                },
                (LoopPhase::Stopping, LoopEvent::Terminated) => (r matches LoopAction::Dispatch {
                    index,
                    timestamp,
                } && index == old(self).cur_index && timestamp == old(self).cur_timestamp),
                _ => r is Proceed,
            },
    {
        match (self.phase, ev) {
            (LoopPhase::Ready, LoopEvent::Begin { stop, timestamp }) => {
                if stop {
                    self.phase = LoopPhase::Finished;
                    LoopAction::Exit
                } else {
                    let index = self.next_index;
                    let output_name = segment_file_name(index, timestamp);
                    self.phase = LoopPhase::Spawning;
                    self.next_index = index + 1;
                    self.cur_index = index;
                    self.cur_timestamp = timestamp;
                    LoopAction::Spawn { output_name, duration_s: self.config.segment_duration_s }
                }
            },
            (LoopPhase::Spawning, LoopEvent::Spawned { ok }) => {
                if ok {
                    self.phase = LoopPhase::Running { polls: 0 };
                    LoopAction::Proceed
                } else {
                    self.phase = LoopPhase::Finished;
                    LoopAction::Exit
                }
            },
            (LoopPhase::Running { polls }, LoopEvent::Polled { stop, exited }) => {
                if stop {
                    self.phase = LoopPhase::Stopping;
                    LoopAction::Terminate
                } else if exited {
                    self.phase = LoopPhase::Ready;
                    LoopAction::Dispatch { index: self.cur_index, timestamp: self.cur_timestamp }
                } else {
                    let ms = if polls < FAST_POLLS {
                        self.config.poll_interval_ms
                    } else {
                        self.config.poll_interval_ms * 2
                    };
                    self.phase = LoopPhase::Running {
                        polls: if polls < FAST_POLLS {
                            polls + 1
                        } else {
                            polls
                        },
                    };
                    LoopAction::Sleep { ms }
                }
            },
            (LoopPhase::Stopping, LoopEvent::Terminated) => {
                self.phase = LoopPhase::Finished;
                LoopAction::Dispatch { index: self.cur_index, timestamp: self.cur_timestamp }
            },
            _ => LoopAction::Proceed,
        }
    }
}

/// The segment indices the loop hands out over a sequence of events, in
/// the order it hands them out.
pub open spec fn spawned_indices_spec(s: RecorderLoop, evs: Seq<LoopEvent>) -> Seq<u64>
    decreases evs.len(),
{
    if evs.len() == 0 {
        Seq::empty()
    } else {
        (if s.spawns_spec(evs[0]) {
            seq![s.next_index]
        } else {
            Seq::<u64>::empty()
        }) + spawned_indices_spec(s.next_spec(evs[0]), evs.skip(1))
    }
}

/// Only a spawning step advances the counter, and by exactly one.
proof fn lemma_next_index_advances(s: RecorderLoop, ev: LoopEvent)
    requires
        s.next_index + 1 <= u64::MAX,
    ensures
        s.spawns_spec(ev) ==> s.next_spec(ev).next_index == s.next_index + 1,
        !s.spawns_spec(ev) ==> s.next_spec(ev).next_index == s.next_index,
{
}

/// From any state, the indices handed out continue the counter: the
/// k-th one handed out is `next_index + k`.
proof fn lemma_spawned_indices_from(s: RecorderLoop, evs: Seq<LoopEvent>)
    requires
        s.next_index + evs.len() <= u64::MAX,
    ensures
        spawned_indices_spec(s, evs).len() <= evs.len(),
        forall|k: int|
            0 <= k < spawned_indices_spec(s, evs).len() ==> #[trigger] spawned_indices_spec(
                s,
                evs,
            )[k] == s.next_index + k,
    decreases evs.len(),
{
    if evs.len() > 0 {
        let s2 = s.next_spec(evs[0]);
        lemma_next_index_advances(s, evs[0]);
        lemma_spawned_indices_from(s2, evs.skip(1));
        let rest = spawned_indices_spec(s2, evs.skip(1));
        if s.spawns_spec(evs[0]) {
            assert(spawned_indices_spec(s, evs) == seq![s.next_index] + rest);
        } else {
            assert(spawned_indices_spec(s, evs) == Seq::<u64>::empty() + rest);
            assert(Seq::<u64>::empty() + rest =~= rest);
        }
    }
}

/// Once the loop is over it stays over and hands out no further segment
/// index: a requested stop never lets another segment begin.
pub proof fn lemma_finished_loop_spawns_nothing(s: RecorderLoop, evs: Seq<LoopEvent>)
    requires
        s.finished_spec(),
    ensures
        spawned_indices_spec(s, evs) == Seq::<u64>::empty(),
    decreases evs.len(),
{
    if evs.len() > 0 {
        assert(!s.spawns_spec(evs[0]));
        assert(s.next_spec(evs[0]) == s);
        lemma_finished_loop_spawns_nothing(s, evs.skip(1));
        assert(Seq::<u64>::empty() + Seq::<u64>::empty() =~= Seq::<u64>::empty());
    }
}

/// Segment indices assigned by one session form the strictly increasing
/// sequence 1, 2, 3, … with no repeats: running the loop from its
/// initial state, the k-th index handed out is exactly k + 1.
pub proof fn lemma_segment_indices_strictly_increasing(config: LoopConfig, evs: Seq<LoopEvent>)
    requires
        1 + evs.len() <= u64::MAX,
    ensures
        forall|k: int|
            0 <= k < spawned_indices_spec(RecorderLoop::init_spec(config), evs).len()
                ==> #[trigger] spawned_indices_spec(RecorderLoop::init_spec(config), evs)[k] == k
                + 1,
        forall|k1: int, k2: int|
            0 <= k1 < k2 < spawned_indices_spec(RecorderLoop::init_spec(config), evs).len()
                ==> spawned_indices_spec(RecorderLoop::init_spec(config), evs)[k1]
                < spawned_indices_spec(RecorderLoop::init_spec(config), evs)[k2],
{
    lemma_spawned_indices_from(RecorderLoop::init_spec(config), evs);
}

} // verus!
