use hajime::artifact::{has_wheel_suffix, latest_artifact, ArtifactEntry};
use hajime::commands::select_artifact;
use hajime::PublishError;

fn entry(name: &str, modified: u64) -> ArtifactEntry {
    ArtifactEntry { name: name.to_string(), modified }
}

#[test]
fn wheel_suffix_needs_a_stem_and_the_exact_extension() {
    assert!(has_wheel_suffix("pkg-0.1.0-py3-none-any.whl"));
    assert!(has_wheel_suffix("a.whl"));
    assert!(!has_wheel_suffix(".whl"));
    assert!(!has_wheel_suffix("whl"));
    assert!(!has_wheel_suffix("pkg.tar.gz"));
    assert!(!has_wheel_suffix("pkg.WHL"));
    assert!(!has_wheel_suffix(""));
}

#[test]
fn empty_listing_has_no_artifact() {
    let entries: Vec<ArtifactEntry> = Vec::new();
    assert_eq!(latest_artifact(&entries), None);
}

#[test]
fn listing_without_wheels_has_no_artifact() {
    let entries = vec![entry("readme.txt", 50), entry("pkg.tar.gz", 90)];
    assert_eq!(latest_artifact(&entries), None);
}

#[test]
fn greatest_modification_time_wins() {
    let entries = vec![
        entry("old.whl", 10),
        entry("newest.whl", 300),
        entry("middle.whl", 200),
    ];
    assert_eq!(latest_artifact(&entries), Some(1));
}

#[test]
fn non_wheels_are_ignored_whatever_their_time() {
    let entries = vec![
        entry("notes.txt", 900),
        entry("only.whl", 5),
    ];
    assert_eq!(latest_artifact(&entries), Some(1));
}

#[test]
fn equal_times_break_toward_the_later_entry() {
    let entries = vec![entry("first.whl", 100), entry("second.whl", 100)];
    assert_eq!(latest_artifact(&entries), Some(1));
}

#[test]
fn missing_directory_means_no_artifacts() {
    let entries: Vec<ArtifactEntry> = Vec::new();
    assert_eq!(select_artifact(false, &entries), Err(PublishError::NoArtifacts));
}

#[test]
fn empty_directory_means_no_artifacts() {
    let entries: Vec<ArtifactEntry> = Vec::new();
    assert_eq!(select_artifact(true, &entries), Err(PublishError::NoArtifacts));
}

#[test]
fn selection_hands_back_the_latest_wheel_name() {
    let entries = vec![entry("a.whl", 10), entry("b.whl", 20), entry("c.txt", 30)];
    assert_eq!(select_artifact(true, &entries), Ok("b.whl".to_string()));
}
