use displayrecorder::output_path::{has_mp4_extension, validate_path};

#[test]
fn path_parsing_test() {
    assert!(validate_path("something.mp4"));
    assert!(validate_path("somedir/something.mp4"));
    assert!(validate_path("somedir\\something.mp4"));
    assert!(validate_path("../something.mp4"));

    assert!(!validate_path("."));
    assert!(!validate_path("*"));
    assert!(!validate_path("something"));
    assert!(!validate_path(".mp4"));
    assert!(!validate_path("mp4"));
    assert!(!validate_path("something.avi"));
}

#[test]
fn mp4_extension_is_matched_exactly() {
    assert!(has_mp4_extension(&Some("mp4".to_string())));
    assert!(!has_mp4_extension(&Some("MP4".to_string())));
    assert!(!has_mp4_extension(&Some("mp4v".to_string())));
    assert!(!has_mp4_extension(&Some(String::new())));
    assert!(!has_mp4_extension(&None));
}

#[test]
fn extension_is_taken_from_the_last_file_name() {
    assert!(validate_path("a.b.mp4"));
    assert!(!validate_path("video.mp4.avi"));
    assert!(!validate_path(""));
}
