use diesel_cli::error::CliError;
use diesel_cli::redo::{
    redo_latest_migration, should_redo_migration_in_transaction, Backend, RedoAction, RedoEngine,
    RedoEvent, RedoState,
};

/// A migration service that keeps the applied versions in memory and can be
/// told to fail one kind of call.
struct FakeService {
    applied: Vec<String>,
    saved: Option<Vec<String>>,
    fail: &'static str,
    calls: Vec<String>,
}

impl FakeService {
    fn new(applied: &[&str], fail: &'static str) -> FakeService {
        FakeService {
            applied: applied.iter().map(|v| String::from(*v)).collect(),
            saved: None,
            fail,
            calls: Vec::new(),
        }
    }

    fn failing(&self, call: &str) -> Option<RedoEvent> {
        if self.fail == call {
            Some(RedoEvent::Failed(format!("{} failed", call)))
        } else {
            None
        }
    }

    fn perform(&mut self, action: &RedoAction) -> RedoEvent {
        match action {
            RedoAction::BeginTransaction => {
                self.calls.push(String::from("begin"));
                if let Some(failed) = self.failing("begin") {
                    return failed;
                }
                self.saved = Some(self.applied.clone());
                RedoEvent::TransactionBegun
            }
            RedoAction::RevertLatest => {
                self.calls.push(String::from("revert"));
                if let Some(failed) = self.failing("revert") {
                    return failed;
                }
                match self.applied.pop() {
                    Some(version) => RedoEvent::Reverted(version),
                    None => RedoEvent::Failed(String::from("nothing to revert")),
                }
            }
            RedoAction::RunMigrationWithVersion(version) => {
                self.calls.push(format!("run {}", version));
                if let Some(failed) = self.failing("run") {
                    return failed;
                }
                self.applied.push(version.clone());
                RedoEvent::Applied
            }
            RedoAction::Commit => {
                self.calls.push(String::from("commit"));
                if let Some(failed) = self.failing("commit") {
                    return failed;
                }
                self.saved = None;
                RedoEvent::Committed
            }
            RedoAction::Rollback => {
                self.calls.push(String::from("rollback"));
                if let Some(failed) = self.failing("rollback") {
                    return failed;
                }
                if let Some(before) = self.saved.take() {
                    self.applied = before;
                }
                RedoEvent::RolledBack
            }
            RedoAction::Finish(_) => unreachable!(),
        }
    }
}

fn redo(backend: Backend, service: &mut FakeService) -> Result<(), CliError> {
    let (mut engine, mut action) = redo_latest_migration(backend);
    for _ in 0..10 {
        if let RedoAction::Finish(outcome) = action {
            assert!(engine.is_finished());
            return outcome;
        }
        assert!(!engine.is_finished());
        let event = service.perform(&action);
        let next = engine.step(event);
        engine = next.0;
        action = next.1;
    }
    panic!("the engine did not finish");
}

#[test]
fn every_backend_but_mysql_redoes_in_a_transaction() {
    assert!(should_redo_migration_in_transaction(Backend::Postgres));
    assert!(should_redo_migration_in_transaction(Backend::Sqlite));
    assert!(!should_redo_migration_in_transaction(Backend::Mysql));
}

#[test]
fn a_redo_in_a_transaction_reverts_and_runs_again() {
    let mut service = FakeService::new(&["1", "2", "3"], "");
    assert_eq!(Ok(()), redo(Backend::Postgres, &mut service));
    assert_eq!(vec!["1", "2", "3"], service.applied);
    assert_eq!(vec!["begin", "revert", "run 3", "commit"], service.calls);
    assert_eq!(None, service.saved);
}

#[test]
fn a_redo_without_a_transaction_reverts_and_runs_again() {
    let mut service = FakeService::new(&["1", "2", "3"], "");
    assert_eq!(Ok(()), redo(Backend::Mysql, &mut service));
    assert_eq!(vec!["1", "2", "3"], service.applied);
    assert_eq!(vec!["revert", "run 3"], service.calls);
}

#[test]
fn a_failed_reapply_in_a_transaction_leaves_the_database_as_it_was() {
    for backend in [Backend::Postgres, Backend::Sqlite] {
        let mut service = FakeService::new(&["1", "2", "3"], "run");
        assert_eq!(
            Err(CliError::External(String::from("run failed"))),
            redo(backend, &mut service)
        );
        assert_eq!(vec!["1", "2", "3"], service.applied);
        assert_eq!(vec!["begin", "revert", "run 3", "rollback"], service.calls);
    }
}

#[test]
fn a_failed_reapply_without_a_transaction_leaves_the_migration_reverted() {
    let mut service = FakeService::new(&["1", "2", "3"], "run");
    assert_eq!(
        Err(CliError::External(String::from("run failed"))),
        redo(Backend::Mysql, &mut service)
    );
    assert_eq!(vec!["1", "2"], service.applied);
    assert_eq!(vec!["revert", "run 3"], service.calls);
}

#[test]
fn a_failed_revert_in_a_transaction_is_rolled_back() {
    let mut service = FakeService::new(&["1"], "revert");
    assert_eq!(
        Err(CliError::External(String::from("revert failed"))),
        redo(Backend::Postgres, &mut service)
    );
    assert_eq!(vec!["1"], service.applied);
    assert_eq!(vec!["begin", "revert", "rollback"], service.calls);
}

#[test]
fn a_failed_revert_without_a_transaction_ends_the_redo() {
    let mut service = FakeService::new(&["1"], "revert");
    assert_eq!(
        Err(CliError::External(String::from("revert failed"))),
        redo(Backend::Mysql, &mut service)
    );
    assert_eq!(vec!["revert"], service.calls);
}

#[test]
fn a_redo_with_nothing_applied_fails() {
    let mut service = FakeService::new(&[], "");
    assert_eq!(
        Err(CliError::External(String::from("nothing to revert"))),
        redo(Backend::Sqlite, &mut service)
    );
    assert_eq!(vec!["begin", "revert", "rollback"], service.calls);
}

#[test]
fn a_transaction_that_cannot_be_opened_ends_the_redo() {
    let mut service = FakeService::new(&["1"], "begin");
    assert_eq!(
        Err(CliError::External(String::from("begin failed"))),
        redo(Backend::Postgres, &mut service)
    );
    assert_eq!(vec!["begin"], service.calls);
    assert_eq!(vec!["1"], service.applied);
}

#[test]
fn a_commit_that_fails_is_the_outcome() {
    let mut service = FakeService::new(&["1"], "commit");
    assert_eq!(
        Err(CliError::External(String::from("commit failed"))),
        redo(Backend::Postgres, &mut service)
    );
    assert_eq!(vec!["begin", "revert", "run 1", "commit"], service.calls);
}

#[test]
fn a_rollback_that_fails_is_the_outcome() {
    let mut service = FakeService::new(&["1"], "rollback");
    service.fail = "rollback";
    let (engine, _) = redo_latest_migration(Backend::Postgres);
    let (engine, _) = engine.step(RedoEvent::TransactionBegun);
    let (engine, action) = engine.step(RedoEvent::Failed(String::from("revert failed")));
    assert_eq!(RedoAction::Rollback, action);
    let (engine, action) = engine.step(service.perform(&RedoAction::Rollback));
    assert_eq!(
        RedoAction::Finish(Err(CliError::External(String::from("rollback failed")))),
        action
    );
    assert!(engine.is_finished());
}

#[test]
fn the_version_reverted_is_the_version_run_again() {
    let (engine, action) = redo_latest_migration(Backend::Mysql);
    assert_eq!(RedoAction::RevertLatest, action);
    assert_eq!(RedoEngine { transactional: false, state: RedoState::Reverting }, engine);
    let (engine, action) = engine.step(RedoEvent::Reverted(String::from("20180504123456")));
    assert_eq!(RedoAction::RunMigrationWithVersion(String::from("20180504123456")), action);
    assert_eq!(
        RedoEngine {
            transactional: false,
            state: RedoState::Reapplying { version: String::from("20180504123456") }
        },
        engine
    );
}

#[test]
fn a_report_that_answers_nothing_is_ignored() {
    let (engine, action) = redo_latest_migration(Backend::Postgres);
    assert_eq!(RedoAction::BeginTransaction, action);
    let (engine, action) = engine.step(RedoEvent::Applied);
    assert_eq!(RedoAction::BeginTransaction, action);
    let (engine, action) = engine.step(RedoEvent::TransactionBegun);
    assert_eq!(RedoAction::RevertLatest, action);
    let (engine, action) = engine.step(RedoEvent::Committed);
    assert_eq!(RedoAction::RevertLatest, action);
    let (engine, action) = engine.step(RedoEvent::Reverted(String::from("7")));
    assert_eq!(RedoAction::RunMigrationWithVersion(String::from("7")), action);
    let (engine, action) = engine.step(RedoEvent::Reverted(String::from("8")));
    assert_eq!(RedoAction::RunMigrationWithVersion(String::from("7")), action);
    let (_, action) = engine.step(RedoEvent::RolledBack);
    assert_eq!(RedoAction::RunMigrationWithVersion(String::from("7")), action);
}

#[test]
fn a_finished_engine_repeats_its_outcome() {
    let (engine, _) = redo_latest_migration(Backend::Mysql);
    let (engine, _) = engine.step(RedoEvent::Reverted(String::from("1")));
    let (engine, action) = engine.step(RedoEvent::Applied);
    assert_eq!(RedoAction::Finish(Ok(())), action);
    let (engine, action) = engine.step(RedoEvent::Failed(String::from("late")));
    assert_eq!(RedoAction::Finish(Ok(())), action);
    let (_, action) = engine.step(RedoEvent::Applied);
    assert_eq!(RedoAction::Finish(Ok(())), action);
}

#[test]
fn the_scheme_of_the_url_names_the_backend() {
    assert_eq!(Backend::Postgres, Backend::for_url("postgres://localhost/diesel"));
    assert_eq!(Backend::Postgres, Backend::for_url("postgresql://localhost/diesel"));
    assert_eq!(Backend::Mysql, Backend::for_url("mysql://localhost/diesel"));
    assert_eq!(Backend::Sqlite, Backend::for_url("/tmp/diesel.sqlite"));
    assert_eq!(Backend::Sqlite, Backend::for_url("diesel.db"));
    assert_eq!(Backend::Sqlite, Backend::for_url(""));
    assert_eq!(Backend::Sqlite, Backend::for_url("postgres:/localhost"));
    assert_eq!(Backend::Sqlite, Backend::for_url("Postgres://localhost"));
    assert_eq!(Backend::Sqlite, Backend::for_url("mysql:"));
}
