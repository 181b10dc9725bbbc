use apex_windows::metadata::length_from_ticks;
use apex_windows::Metadata;

#[test]
fn default_metadata_is_empty_and_its_projections_succeed() {
    let metadata = Metadata::default();
    assert_eq!(metadata.title(), Ok(String::new()));
    assert_eq!(metadata.artists(), Ok(String::new()));
    assert_eq!(metadata.length(), Ok(0));
}

#[test]
fn projections_give_what_the_metadata_was_made_of() {
    let metadata = Metadata::new(String::from("Teardrop"), String::from("Massive Attack"), 3_300_000_000);
    assert_eq!(metadata.title(), Ok(String::from("Teardrop")));
    assert_eq!(metadata.artists(), Ok(String::from("Massive Attack")));
    assert_eq!(metadata.length(), Ok(3_300_000_000));
}

#[test]
fn projections_can_be_taken_again_and_again() {
    let metadata = Metadata::new(String::from("a"), String::from("b"), 1);
    assert_eq!(metadata.title(), metadata.title());
    assert_eq!(metadata.artists(), metadata.artists());
    assert_eq!(metadata.length(), metadata.length());
}

#[test]
fn a_clone_is_equal() {
    let metadata = Metadata::new(String::from("Teardrop"), String::from("Massive Attack"), 7);
    assert_eq!(metadata.clone(), metadata);
    assert_ne!(metadata, Metadata::default());
}

#[test]
fn length_is_the_end_time_in_ticks() {
    assert_eq!(length_from_ticks(0), 0);
    assert_eq!(length_from_ticks(1), 1);
    assert_eq!(length_from_ticks(2_450_000_000), 2_450_000_000);
    assert_eq!(length_from_ticks(i64::MAX), 9_223_372_036_854_775_807);
}

#[test]
fn a_negative_end_time_wraps_around() {
    assert_eq!(length_from_ticks(-1), u64::MAX);
    assert_eq!(length_from_ticks(-2), u64::MAX - 1);
    assert_eq!(length_from_ticks(i64::MIN), 9_223_372_036_854_775_808);
    assert_eq!(length_from_ticks(i64::MIN + 1), 9_223_372_036_854_775_809);
    for ticks in [-1i64, -2, -1000, i64::MIN, i64::MIN + 1, -9_999_999_999] {
        assert_eq!(length_from_ticks(ticks), ticks as u64);
    }
}
