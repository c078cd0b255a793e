use houdini::defaults::{default_false, default_setup_failure, default_skip, default_true};
use houdini::status::Status;

#[test]
fn test_defaults() {
    assert_eq!(default_true(), true);
    assert_eq!(default_false(), false);

    assert_eq!(default_setup_failure(), Status::SetupFailure);

    assert_eq!(default_skip(), Status::Skip);
}

#[test]
fn status_finality() {
    assert!(!Status::Undecided.is_final());
    assert!(Status::SetupFailure.is_final());
    assert!(Status::ExploitSuccess.is_final());
    assert!(Status::ExploitFailure.is_final());
    assert!(Status::Skip.is_final());
    assert_eq!(Status::default(), Status::Undecided);
}
