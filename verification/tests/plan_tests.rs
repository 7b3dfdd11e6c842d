//! Tests of the sink-selection rule over requested output lists.

use ts_init::plan_outputs;
use ts_init::ConfigError;
use ts_init::SinkPlan;

#[test]
fn empty_request_is_stderr_only() {
    let r = plan_outputs(&vec![]);
    assert_eq!(r, Ok(SinkPlan::StderrOnly));
}

#[test]
fn single_absent_entry_equals_empty_request() {
    let empty = plan_outputs(&vec![]);
    let absent = plan_outputs(&vec![None]);
    assert_eq!(empty, absent);
    assert_eq!(absent, Ok(SinkPlan::StderrOnly));
}

#[test]
fn single_journal_entry_replaces_stderr() {
    let r = plan_outputs(&vec![Some("journal".to_string())]);
    assert_eq!(r, Ok(SinkPlan::JournalOnly));
}

#[test]
fn single_file_entry_redirects_to_file() {
    let r = plan_outputs(&vec![Some("app.log".to_string())]);
    assert_eq!(r, Ok(SinkPlan::FileOnly("app.log".to_string())));
}

#[test]
fn absent_then_file_keeps_both() {
    let r = plan_outputs(&vec![None, Some("app.log".to_string())]);
    assert_eq!(r, Ok(SinkPlan::StderrAndFile("app.log".to_string())));
}

#[test]
fn absent_then_journal_keeps_both() {
    let r = plan_outputs(&vec![None, Some("journal".to_string())]);
    assert_eq!(r, Ok(SinkPlan::StderrAndJournal));
}

#[test]
fn present_first_entry_is_invalid() {
    let r = plan_outputs(&vec![Some("app.log".to_string()), None]);
    assert_eq!(r, Err(ConfigError::InvalidOutputShape));
}

#[test]
fn two_present_entries_are_invalid() {
    let r = plan_outputs(&vec![
        Some("app.log".to_string()),
        Some("journal".to_string()),
    ]);
    assert_eq!(r, Err(ConfigError::InvalidOutputShape));
}

#[test]
fn two_absent_entries_are_invalid() {
    let r = plan_outputs(&vec![None, None]);
    assert_eq!(r, Err(ConfigError::InvalidOutputShape));
}

#[test]
fn three_entries_are_too_many() {
    let r = plan_outputs(&vec![None, None, None]);
    assert_eq!(r, Err(ConfigError::TooManyOutputs));
}

#[test]
fn four_entries_are_too_many() {
    let r = plan_outputs(&vec![
        None,
        Some("a.log".to_string()),
        Some("b.log".to_string()),
        None,
    ]);
    assert_eq!(r, Err(ConfigError::TooManyOutputs));
}
