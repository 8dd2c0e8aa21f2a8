//! Session supervisor: the top-level state machine behind `start`,
//! `stop` and `status`.
//!
//! The supervisor owns the session's shared flags — whether a session is
//! running, the cached session directory, the stop signal, the segment
//! counter and the cached recorder path.  The unverified shell performs
//! the outside work (opening and closing the session bundle, resolving
//! the recorder binary on disk, spawning and joining the loop thread) and
//! feeds each outcome into a transition here; every state change is a
//! transition of this module.

use vstd::prelude::*;

verus! {

/// A read-only snapshot: whether a session is running and, if so, its
/// directory.  Taking it never blocks on recorder I/O.
pub struct Status {
    pub running: bool,
    pub session_dir: Option<String>,
}

/// Why `start` refused.
#[derive(Clone, Copy, Debug, PartialEq, Eq, Structural)]
pub enum StartError {
    /// A session is already running.
    AlreadyRunning,
    /// The bundle writer could not open a session.
    BundleStart,
    /// Recorder-binary resolution exhausted every candidate.
    RecorderNotFound,
}

/// Why `stop` failed.
#[derive(Clone, Copy, Debug, PartialEq, Eq, Structural)]
pub enum StopError {
    /// The bundle writer failed to close the session.
    BundleWriteFailure,
}

/// The supervisor's shared state.
pub struct Supervisor {
    /// A session bundle is open: the session is Running.
    pub running: bool,
    /// Directory of the open session's bundle.
    pub session_dir: Option<String>,
    /// The recorder loop should keep recording; cleared first on `stop`.
    pub recording_active: bool,
    /// Index the next segment will get; reset to 1 on `start` and `stop`.
    pub segment_index: u64,
    /// Cached resolved path of the recorder binary.
    pub recorder_path: Option<String>,
}

impl Supervisor {
    /// Well-formedness: a session directory is cached exactly while a
    /// session runs, recording is only active inside a session, and the
    /// segment counter never falls below its starting value.
    pub open spec fn wf(self) -> bool {
        &&& self.running <==> self.session_dir is Some
        &&& !self.running ==> !self.recording_active
        &&& self.segment_index >= 1
    }

    /// The state at process startup, and again after every `stop`.
    pub open spec fn init_spec() -> Supervisor {
        Supervisor {
            running: false,
            session_dir: None,
            recording_active: false,
            segment_index: 1,
            recorder_path: None,
        }
    }

    pub fn new() -> (r: Supervisor)
        ensures
            r == Supervisor::init_spec(),
            r.wf(),
    {
        Supervisor {
            running: false,
            session_dir: None,
            recording_active: false,
            segment_index: 1,
            recorder_path: None,
        }
    }

    /// What `start` does, given the outcomes of the outside work: the
    /// session directory the bundle writer opened (if it did) and the
    /// resolved recorder path (if resolution found one).  A running
    /// session always refuses with `AlreadyRunning`; either missing
    /// outcome refuses without touching the state; with both in hand the
    /// session becomes Running with a fresh segment counter.
    pub open spec fn start_transition(
        self,
        writer_dir: Option<String>,
        recorder_path: Option<String>,
    ) -> (Supervisor, Result<Status, StartError>) {
        if self.running {
            (self, Err(StartError::AlreadyRunning))
        } else {
            match writer_dir {
                None => (self, Err(StartError::BundleStart)),
                Some(dir) => match recorder_path {
                    None => (self, Err(StartError::RecorderNotFound)),
                    Some(path) => (
                        Supervisor {
                            running: true,
                            session_dir: Some(dir),
                            recording_active: true,
                            segment_index: 1,
                            recorder_path: Some(path),
                        },
                        Ok(Status { running: true, session_dir: Some(dir) }),
                    ),
                },
            }
        }
    }

    /// What `stop` does, given whether the bundle writer failed to close
    /// the session.  The flags always return to their startup values; a
    /// close failure is surfaced only when a session was actually
    /// running, so stopping an idle session is never an error.
    pub open spec fn stop_transition(self, bundle_close_failed: bool) -> (
        Supervisor,
        Result<Status, StopError>,
    ) {
        if self.running && bundle_close_failed {
            (Supervisor::init_spec(), Err(StopError::BundleWriteFailure))
        } else {
            (Supervisor::init_spec(), Ok(Status { running: false, session_dir: None }))
        }
    }

    /// Starts a session: the shell hands in the bundle writer's session
    /// directory and the resolved recorder path, and the state moves as
    /// `start_transition` says — atomically, so a refused start mutates
    /// nothing.
    pub fn start_session(
        &mut self,
        writer_dir: Option<String>,
        recorder_path: Option<String>,
    ) -> (r: Result<Status, StartError>)
        requires
            old(self).wf(),
        ensures
            final(self).wf(),
            (*final(self), r) == old(self).start_transition(writer_dir, recorder_path),
    {
        if self.running {
            return Err(StartError::AlreadyRunning);
        }
        match writer_dir {
            None => Err(StartError::BundleStart),
            Some(dir) => match recorder_path {
                None => Err(StartError::RecorderNotFound),
                Some(path) => {
                    let status_dir = dir.clone();
                    self.running = true;
                    self.session_dir = Some(dir);
                    self.recording_active = true;
                    self.segment_index = 1;
                    self.recorder_path = Some(path);
                    Ok(Status { running: true, session_dir: Some(status_dir) })
                },
            },
        }
    }

    /// Requests a stop: clears the recording flag — a signal the recorder
    /// loop reads, not a blocking wait — and changes nothing else.
    pub fn stop_request(&mut self)
        ensures
            *final(self) == (Supervisor { recording_active: false, ..*old(self) }),
    {
        self.recording_active = false;
    }

    /// Finishes a stop after the shell has terminated the recorder,
    /// joined the loop thread (with its bounded wait) and asked the
    /// bundle writer to close: resets the state as `stop_transition`
    /// says.  Idempotent against an idle session: never an error there.
    pub fn stop_session(&mut self, bundle_close_failed: bool) -> (r: Result<Status, StopError>)
        ensures
            final(self).wf(),
            (*final(self), r) == old(self).stop_transition(bundle_close_failed),
    {
        let was_running = self.running;
        self.running = false;
        self.session_dir = None;
        self.recording_active = false;
        self.segment_index = 1;
        self.recorder_path = None;
        if was_running && bundle_close_failed {
            Err(StopError::BundleWriteFailure)
        } else {
            Ok(Status { running: false, session_dir: None })
        }
    }

    /// The status snapshot: a read of the cached flags.
    pub fn status(&self) -> (r: Status)
        ensures
            r.running == self.running,
            r.session_dir == self.session_dir,
    {
        let session_dir = match &self.session_dir {
            Some(d) => Some(d.clone()),
            None => None,
        };
        Status { running: self.running, session_dir }
    }
}

/// No two sessions are concurrently Running: once a start has succeeded,
/// any second start — whatever outcomes the shell hands it — fails with
/// `AlreadyRunning` and leaves the running session untouched.
pub proof fn lemma_no_concurrent_sessions(
    s: Supervisor,
    d1: Option<String>,
    p1: Option<String>,
    d2: Option<String>,
    p2: Option<String>,
)
    requires
        s.start_transition(d1, p1).1 is Ok,
    ensures
        s.start_transition(d1, p1).0.running,
        s.start_transition(d1, p1).0.start_transition(d2, p2).1 == Err::<
            Status,
            StartError,
        >(StartError::AlreadyRunning),
        s.start_transition(d1, p1).0.start_transition(d2, p2).0 == s.start_transition(d1, p1).0,
{
}

/// Stopping an idle session is a no-op: it reports the idle status —
/// never an error, whatever the shell reports about bundle closing — and
/// the flags stay at their startup values.
pub proof fn lemma_stop_idle_never_errs(s: Supervisor, bundle_close_failed: bool)
    requires
        s.wf(),
        !s.running,
    ensures
        s.stop_transition(bundle_close_failed).1 is Ok,
        s.stop_transition(bundle_close_failed).1->Ok_0.running == false,
        s.stop_transition(bundle_close_failed).1->Ok_0.session_dir is None,
        s.stop_transition(bundle_close_failed).0 == Supervisor::init_spec(),
{
}

} // verus!
