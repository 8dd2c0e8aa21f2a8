//! Segment pipeline: what happens to a finished segment's output file.
//!
//! The shell waits a short fixed delay for the filesystem to sync, then
//! reports whether the output file exists and how large it is; the plan
//! computed here decides the rest.  A missing or empty file is dropped
//! with a warning — it never reaches the bundle.  A usable file is
//! copied (not moved) to its bundle-relative path and announced to the
//! bundle owner with a `file_added` event.  One segment's failure never
//! blocks another segment's pipeline.

use crate::names::{rel_path_spec, segment_rel_path};
use vstd::prelude::*;

verus! {

/// What to do with a finished segment's output file.
pub enum SegmentPlan {
    /// The output file is absent: warn and drop the segment.
    SkipMissing,
    /// The output file is empty: warn and drop the segment.
    SkipEmpty,
    /// Create the parent directories of `rel_path` under the session
    /// directory, copy the output file there, and append a `file_added`
    /// event for it.
    Copy { rel_path: String },
}

/// A segment's output is usable exactly when the file exists and is not
/// empty; the recorder's exit code plays no part.
pub open spec fn segment_accepted(file_exists: bool, size_bytes: u64) -> bool {
    file_exists && size_bytes > 0
}

/// Decides a finished segment's fate from what the shell observed of
/// its output file.  A segment whose file is absent or empty is never
/// copied into the session directory and never produces a bundle-append
/// event: only an accepted segment yields a `Copy` plan.
pub fn plan_segment(file_exists: bool, size_bytes: u64, index: u64, timestamp: u64) -> (r:
    SegmentPlan)
    ensures
        !file_exists ==> r is SkipMissing,
        file_exists && size_bytes == 0 ==> r is SkipEmpty,
        !segment_accepted(file_exists, size_bytes) ==> !(r is Copy),
        segment_accepted(file_exists, size_bytes) ==> (r matches SegmentPlan::Copy { rel_path }
            && rel_path@ == rel_path_spec(index as nat, timestamp as nat)),
{
    if !file_exists {
        SegmentPlan::SkipMissing
    } else if size_bytes == 0 {
        SegmentPlan::SkipEmpty
    } else {
        SegmentPlan::Copy { rel_path: segment_rel_path(index, timestamp) }
    }
}

/// The copy's destination: the bundle-relative path under the session
/// directory.
pub fn bundle_dest_path(session_dir: &str, rel_path: &str) -> (r: String)
    ensures
        r@ == session_dir@ + seq!['/'] + rel_path@,
{
    let mut r = session_dir.to_owned();
    r.append("/");
    r.append(rel_path);
    proof {
        reveal_strlit("/");
        assert(r@ =~= session_dir@ + seq!['/'] + rel_path@);
    }
    r
}

/// The structured notification appended to the bundle for one copied
/// segment.
pub struct FileAddedEvent {
    /// The event kind the bundle owner dispatches on.
    pub kind: String,
    /// The copied file's path relative to the session directory.
    pub rel_path: String,
    /// The content kind tag carried in the payload.
    pub content_kind: String,
}

/// Builds the `file_added` event for one copied segment.
pub fn file_added_event(rel_path: String) -> (e: FileAddedEvent)
    ensures
        e.kind@ == "file_added"@,
        e.rel_path == rel_path,
        e.content_kind@ == "screen_recording"@,
{
    FileAddedEvent {
        kind: "file_added".to_owned(),
        rel_path,
        content_kind: "screen_recording".to_owned(),
    }
}

} // verus!
