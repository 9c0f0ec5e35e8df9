use settings_store::attach::{AttachStep, StepOutcome};
use settings_store::error::{Cause, DbError, ErrorKind, Operation, RecordKey};

fn run(outcomes: Vec<StepOutcome>) -> (Vec<AttachStep>, Result<AttachStep, DbError>) {
    let mut asked = vec![AttachStep::first()];
    let mut step = AttachStep::first();
    for outcome in outcomes {
        match step.advance(outcome) {
            Ok(next) => {
                if next != step {
                    asked.push(next);
                }
                step = next;
            }
            Err(e) => return (asked, Err(e)),
        }
    }
    (asked, Ok(step))
}

fn lifecycle(operation: Operation, text: &str) -> DbError {
    DbError {
        kind: ErrorKind::Lifecycle,
        operation,
        key: RecordKey::Unkeyed,
        cause: Cause::Reported(text.to_string()),
    }
}

#[test]
fn the_preparation_begins_with_the_host_s_directory() {
    assert_eq!(AttachStep::first(), AttachStep::ResolveDirectory);
}

#[test]
fn an_existing_location_is_opened_without_creating_anything() {
    let (asked, end) =
        run(vec![StepOutcome::Done, StepOutcome::Exists(true), StepOutcome::Exists(true)]);
    assert_eq!(
        asked,
        vec![
            AttachStep::ResolveDirectory,
            AttachStep::ProbeDirectory,
            AttachStep::ProbeFile,
            AttachStep::Open,
        ]
    );
    assert_eq!(end, Ok(AttachStep::Open));
}

#[test]
fn a_missing_location_is_created_directory_first() {
    let (asked, end) = run(vec![
        StepOutcome::Done,
        StepOutcome::Exists(false),
        StepOutcome::Done,
        StepOutcome::Exists(false),
        StepOutcome::Done,
    ]);
    assert_eq!(
        asked,
        vec![
            AttachStep::ResolveDirectory,
            AttachStep::ProbeDirectory,
            AttachStep::CreateDirectory,
            AttachStep::ProbeFile,
            AttachStep::CreateFile,
            AttachStep::Open,
        ]
    );
    assert_eq!(end, Ok(AttachStep::Open));
}

#[test]
fn a_missing_file_in_an_existing_directory_is_created() {
    let (asked, end) = run(vec![
        StepOutcome::Done,
        StepOutcome::Exists(true),
        StepOutcome::Exists(false),
        StepOutcome::Done,
    ]);
    assert_eq!(
        asked,
        vec![
            AttachStep::ResolveDirectory,
            AttachStep::ProbeDirectory,
            AttachStep::ProbeFile,
            AttachStep::CreateFile,
            AttachStep::Open,
        ]
    );
    assert_eq!(end, Ok(AttachStep::Open));
}

#[test]
fn each_failure_ends_the_preparation_with_its_own_description() {
    let failed = |text: &str| StepOutcome::Failed(text.to_string());
    let (_, end) = run(vec![failed("no desktop")]);
    let e = end.unwrap_err();
    assert_eq!(e, lifecycle(Operation::ResolveDirectory, "no desktop"));
    assert_eq!(e.message(), "get desktop_dir failed");
    assert_eq!(e.detail(), "get desktop_dir failed: no desktop");
    let (_, end) = run(vec![StepOutcome::Done, StepOutcome::Exists(false), failed("denied")]);
    let e = end.unwrap_err();
    assert_eq!(e, lifecycle(Operation::CreateDirectory, "denied"));
    assert_eq!(e.message(), "create db dir failed");
    let (_, end) = run(vec![
        StepOutcome::Done,
        StepOutcome::Exists(true),
        StepOutcome::Exists(false),
        failed("read-only"),
    ]);
    let e = end.unwrap_err();
    assert_eq!(e, lifecycle(Operation::CreateFile, "read-only"));
    assert_eq!(e.message(), "create index.db failed");
}

#[test]
fn an_outcome_that_does_not_answer_the_step_changes_nothing() {
    let failed = StepOutcome::Failed("x".to_string());
    assert_eq!(
        AttachStep::ResolveDirectory.advance(StepOutcome::Exists(true)),
        Ok(AttachStep::ResolveDirectory)
    );
    assert_eq!(AttachStep::ProbeDirectory.advance(StepOutcome::Done), Ok(AttachStep::ProbeDirectory));
    assert_eq!(AttachStep::ProbeDirectory.advance(failed.clone()), Ok(AttachStep::ProbeDirectory));
    assert_eq!(
        AttachStep::CreateDirectory.advance(StepOutcome::Exists(false)),
        Ok(AttachStep::CreateDirectory)
    );
    assert_eq!(AttachStep::ProbeFile.advance(StepOutcome::Done), Ok(AttachStep::ProbeFile));
    assert_eq!(AttachStep::ProbeFile.advance(failed.clone()), Ok(AttachStep::ProbeFile));
    assert_eq!(AttachStep::CreateFile.advance(StepOutcome::Exists(true)), Ok(AttachStep::CreateFile));
    for outcome in [StepOutcome::Done, StepOutcome::Exists(false), failed] {
        assert_eq!(AttachStep::Open.advance(outcome), Ok(AttachStep::Open));
    }
}

#[test]
fn a_lock_that_cannot_be_had_is_its_own_class_of_failure() {
    let e = DbError::lock_unavailable("poisoned lock".to_string());
    assert_eq!(
        e,
        DbError {
            kind: ErrorKind::Lock,
            operation: Operation::AcquireLock,
            key: RecordKey::Unkeyed,
            cause: Cause::Reported("poisoned lock".to_string()),
        }
    );
    assert_eq!(e.detail(), "failed to acquire DB lock: poisoned lock");
}
