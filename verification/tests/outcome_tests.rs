use imgsorter::outcome::{dir_outcome, should_copy, transfer_outcome, DirOutcome, TransferOutcome};

#[test]
fn existing_directory_is_never_a_failure() {
    assert!(matches!(dir_outcome(true, None), DirOutcome::AlreadyExists));
    assert!(matches!(
        dir_outcome(true, Some(String::from("permission denied"))),
        DirOutcome::AlreadyExists
    ));
}

#[test]
fn missing_directory_is_created_or_fails_with_the_cause() {
    assert!(matches!(dir_outcome(false, None), DirOutcome::Created));
    match dir_outcome(false, Some(String::from("disk full"))) {
        DirOutcome::Failed(m) => assert_eq!(m, "disk full"),
        _ => panic!("expected a failure outcome"),
    }
}

#[test]
fn existing_destination_is_skipped() {
    assert!(matches!(transfer_outcome(true, None), TransferOutcome::SkippedAlreadyExists));
    assert!(matches!(
        transfer_outcome(true, Some(String::from("would overwrite"))),
        TransferOutcome::SkippedAlreadyExists
    ));
}

#[test]
fn missing_destination_is_copied_or_fails_with_the_cause() {
    assert!(matches!(transfer_outcome(false, None), TransferOutcome::Copied));
    match transfer_outcome(false, Some(String::from("permission denied"))) {
        TransferOutcome::Failed(m) => assert_eq!(m, "permission denied"),
        _ => panic!("expected a failure outcome"),
    }
}

#[test]
fn copy_is_attempted_only_when_the_destination_is_absent() {
    assert!(should_copy(false));
    assert!(!should_copy(true));
}
