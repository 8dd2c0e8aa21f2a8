use aegis_recorder::pipeline::{
    bundle_dest_path, file_added_event, plan_segment, SegmentPlan,
};

fn copy_path(p: SegmentPlan) -> String {
    match p {
        SegmentPlan::Copy { rel_path } => rel_path,
        _ => panic!("expected a copy plan"),
    }
}

#[test]
fn missing_file_is_dropped_without_an_event() {
    // An absent output file never produces a bundle-append event and
    // never appears in the session directory: the plan is a skip.
    assert!(matches!(plan_segment(false, 0, 1, 2), SegmentPlan::SkipMissing));
    assert!(matches!(plan_segment(false, 500, 1, 2), SegmentPlan::SkipMissing));
}

#[test]
fn empty_file_is_dropped_without_an_event() {
    assert!(matches!(plan_segment(true, 0, 1, 2), SegmentPlan::SkipEmpty));
}

#[test]
fn usable_file_is_copied_under_files() {
    let p = plan_segment(true, 100, 1, 1700000000);
    assert_eq!(copy_path(p), "files/screen_1_1700000000.mov");
}

#[test]
fn destination_joins_the_session_directory() {
    assert_eq!(
        bundle_dest_path("/tmp/session_a", "files/screen_1_2.mov"),
        "/tmp/session_a/files/screen_1_2.mov"
    );
}

#[test]
fn event_carries_the_relative_path_and_kind() {
    let e = file_added_event("files/screen_3_9.mov".to_string());
    assert_eq!(e.kind, "file_added");
    assert_eq!(e.rel_path, "files/screen_3_9.mov");
    assert_eq!(e.content_kind, "screen_recording");
}

#[test]
fn out_of_order_completion_cannot_collide_in_the_bundle() {
    // Segment 1's copy is slow and segment 2's pipeline finishes first:
    // whichever order the events arrive in, the two segments address
    // distinct relative paths, so the bundle holds both files.
    let second = copy_path(plan_segment(true, 80, 2, 1700000060));
    let first = copy_path(plan_segment(true, 100, 1, 1700000000));
    assert_ne!(first, second);
    assert_eq!(first, "files/screen_1_1700000000.mov");
    assert_eq!(second, "files/screen_2_1700000060.mov");
    // Even with equal timestamps the indices keep them apart.
    let a = copy_path(plan_segment(true, 10, 1, 5));
    let b = copy_path(plan_segment(true, 10, 2, 5));
    assert_ne!(a, b);
}
