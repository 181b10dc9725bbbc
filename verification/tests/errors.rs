use apex_windows::{FetchStage, PlayerError};

#[test]
fn an_unreachable_platform_is_described_by_its_name() {
    assert_eq!(PlayerError::PlatformUnavailable.message(), "Windows");
}

#[test]
fn a_failed_read_of_a_session_is_described_by_the_platform_name() {
    assert_eq!(PlayerError::Platform.message(), "Windows");
}

#[test]
fn a_missing_session_is_described_with_the_platform_detail() {
    let error = PlayerError::NoCurrentSession(String::from("Element not found."));
    assert_eq!(error.message(), "Couldn't get current session: Element not found.");
}

#[test]
fn a_refused_fetch_is_described_with_the_platform_detail() {
    let error = PlayerError::PropertyFetchFailed(FetchStage::Requested, String::from("Access denied."));
    assert_eq!(error.message(), "Couldn't get media properties: Access denied.");
}

#[test]
fn a_fetch_that_fails_later_is_described_by_the_platform_alone() {
    let error = PlayerError::PropertyFetchFailed(FetchStage::Awaited, String::from("The operation was canceled."));
    assert_eq!(error.message(), "The operation was canceled.");
}

#[test]
fn an_unreadable_property_is_described_by_the_platform_alone() {
    let error = PlayerError::PropertyUnreadable(String::from("Unspecified error"));
    assert_eq!(error.message(), "Unspecified error");
}

#[test]
fn an_empty_detail_leaves_the_fixed_part() {
    assert_eq!(PlayerError::NoCurrentSession(String::new()).message(), "Couldn't get current session: ");
    assert_eq!(PlayerError::PropertyUnreadable(String::new()).message(), "");
}

#[test]
fn a_cloned_error_is_equal() {
    let errors = [
        PlayerError::PlatformUnavailable,
        PlayerError::NoCurrentSession(String::from("a")),
        PlayerError::PropertyFetchFailed(FetchStage::Requested, String::from("b")),
        PlayerError::PropertyFetchFailed(FetchStage::Awaited, String::from("c")),
        PlayerError::Platform,
        PlayerError::PropertyUnreadable(String::from("d")),
    ];
    for error in &errors {
        assert_eq!(&error.clone(), error);
    }
    assert_ne!(errors[2], errors[3]);
}
