use aegis_recorder::digits::u64_to_dec;
use aegis_recorder::names::{segment_file_name, segment_rel_path};

#[test]
fn renders_small_numbers() {
    assert_eq!(u64_to_dec(0), "0");
    assert_eq!(u64_to_dec(7), "7");
    assert_eq!(u64_to_dec(10), "10");
}

#[test]
fn renders_large_numbers() {
    assert_eq!(u64_to_dec(105), "105");
    assert_eq!(u64_to_dec(1700000000), "1700000000");
    assert_eq!(u64_to_dec(u64::MAX), "18446744073709551615");
}

#[test]
fn segment_output_name_embeds_index_and_timestamp() {
    assert_eq!(segment_file_name(1, 1700000000), "aegis_screen_1_1700000000.mov");
    assert_eq!(segment_file_name(42, 7), "aegis_screen_42_7.mov");
}

#[test]
fn segment_rel_path_lives_under_files() {
    assert_eq!(segment_rel_path(1, 1700000000), "files/screen_1_1700000000.mov");
    assert_eq!(segment_rel_path(12, 34), "files/screen_12_34.mov");
}

#[test]
fn distinct_segments_get_distinct_paths() {
    // Adjacent indices, nested renderings, and equal timestamps must all
    // stay apart.
    let cases = [(1u64, 5u64), (2, 5), (12, 5), (1, 15), (11, 5), (1, 1)];
    for (i, a) in cases.iter().enumerate() {
        for (j, b) in cases.iter().enumerate() {
            let pa = segment_rel_path(a.0, a.1);
            let pb = segment_rel_path(b.0, b.1);
            assert_eq!(i == j, pa == pb, "{pa} vs {pb}");
        }
    }
}
