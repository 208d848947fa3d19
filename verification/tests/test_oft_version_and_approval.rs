use oapps::oft_core::{approval_required, oft_version};

#[test]
fn test_oft_version_and_approval_test_oft_version_returns_correct_values() {
    let (major, minor) = oft_version();
    assert_eq!(major, 1);
    assert_eq!(minor, 1);
}

#[test]
fn test_approval_required_returns_false_by_default() {
    assert!(!approval_required());
}
