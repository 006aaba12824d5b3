use masq::automap::removal::{report_hole_removal, OutputStream};
use masq::automap::status::{AutomapError, TestStatus};

#[test]
fn new_status_starts_at_step_one() {
    let status = TestStatus::new();
    assert_eq!(status.step, 1);
    assert!(status.step_success && status.cumulative_success && !status.fatal);
    assert_eq!(status.step_error, None);
    assert_eq!(status.permanent_only, None);
}

#[test]
fn fail_then_succeed_keeps_cumulative_failure() {
    let status = TestStatus::new().fail(AutomapError::PermanentLeasesOnly).succeed();
    assert_eq!(status.step, 3);
    assert!(status.step_success);
    assert!(!status.cumulative_success);
    assert_eq!(status.step_error, None);
}

#[test]
fn abort_is_fatal_and_succeed_clears_it() {
    let status = TestStatus::new().abort(AutomapError::ProtocolError("x".to_string()));
    assert!(status.fatal && !status.step_success);
    assert_eq!(status.step_error, Some(AutomapError::ProtocolError("x".to_string())));
    let status = status.permanent_only(true);
    assert_eq!(status.permanent_only, Some(true));
    assert!(status.fatal);
    let status = status.succeed();
    assert!(!status.fatal);
    assert_eq!(status.permanent_only, Some(true));
}

#[test]
fn refusal_is_recognised() {
    assert!(AutomapError::AddMappingError("OnlyPermanentLeasesSupported".to_string()).is_temporary_lease_refusal());
    assert!(!AutomapError::AddMappingError("OnlyPermanent".to_string()).is_temporary_lease_refusal());
    assert!(!AutomapError::PermanentLeasesOnly.is_temporary_lease_refusal());
}

#[test]
fn removal_success_goes_to_stdout() {
    let report = report_hole_removal(1234, true, &Ok(()));
    assert_eq!(report.stream, OutputStream::Stdout);
    assert_eq!(report.line, "Port was closed successfully");
    assert!(report.closed);
}

#[test]
fn permanent_removal_failure_asks_user() {
    let report = report_hole_removal(1234, true, &Err(AutomapError::DeleteMappingError("no".to_string())));
    assert_eq!(report.stream, OutputStream::Stderr);
    assert_eq!(
        report.line,
        "You'll need to close  port 1234 yourself in your router's administration pages. .\nYou may also look into the log. \nSorry...I didn't do it on purpose..."
    );
    assert!(!report.closed);
}

#[test]
fn expiring_removal_failure_reassures() {
    let report = report_hole_removal(80, false, &Err(AutomapError::DeleteMappingError("no".to_string())));
    assert_eq!(report.stream, OutputStream::Stderr);
    assert_eq!(
        report.line,
        "Operation failed, but don't worry, the hole will disappear on its own in a few seconds."
    );
}

#[test]
fn no_update_turns_failure_back_into_success() {
    let status = TestStatus::new()
        .succeed()
        .fail(AutomapError::GetPublicIpError("x".to_string()))
        .permanent_only(false)
        .succeed()
        .abort(AutomapError::ProtocolError("y".to_string()))
        .succeed();
    assert!(!status.cumulative_success);
    assert_eq!(status.step, 1 + 5);
    assert!(status.step_success == status.step_error.is_none());
}
