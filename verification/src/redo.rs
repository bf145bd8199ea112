//! Redoing the latest migration: it is reverted and run again, inside one
//! transaction where the database can take schema changes back. The engine
//! here decides what is called next; its caller makes the calls and reports
//! back what happened.

use crate::error::{clone_outcome, outcome_view, CliError, CliErrorView};
use crate::text::begins_with;
use vstd::prelude::*;
use vstd::string::*;

verus! {

/// The database that a command talks to.
#[derive(Debug, Clone, Copy, PartialEq, Eq, Structural)]
pub enum Backend {
    Postgres,
    Sqlite,
    Mysql,
}

/// The database that a URL names: PostgreSQL and MySQL by their scheme, and
/// SQLite for anything else, which is taken as the path of a file.
pub open spec fn backend_of(database_url: Seq<char>) -> Backend {
    if "postgres://"@.is_prefix_of(database_url) || "postgresql://"@.is_prefix_of(database_url) {
        Backend::Postgres
    } else if "mysql://"@.is_prefix_of(database_url) {
        Backend::Mysql
    } else {
        Backend::Sqlite
    }
}

impl Backend {
    /// The database that a URL names.
    pub fn for_url(database_url: &str) -> (r: Backend)
        ensures
            r == backend_of(database_url@),
    {
        if begins_with(database_url, "postgres://") || begins_with(database_url, "postgresql://") {
            Backend::Postgres
        } else if begins_with(database_url, "mysql://") {
            Backend::Mysql
        } else {
            Backend::Sqlite
        }
    }
}

/// Whether schema changes can be taken back by rolling back a transaction:
/// on every database but MySQL.
pub open spec fn transactional_ddl(backend: Backend) -> bool {
    !(backend is Mysql)
}

/// Whether the latest migration is redone inside a transaction.
pub fn should_redo_migration_in_transaction(backend: Backend) -> (r: bool)
    ensures
        r == transactional_ddl(backend),
{
    match backend {
        Backend::Mysql => false,
        _ => true,
    }
}

/// The mathematical value of what the engine waits for.
pub enum RedoStateView {
    Beginning,
    Reverting,
    Reapplying { version: Seq<char> },
    Committing,
    RollingBack { cause: CliErrorView },
    Finished { outcome: Result<(), CliErrorView> },
}

/// What the engine waits for.
#[derive(Debug, PartialEq, Eq)]
pub enum RedoState {
    /// The transaction is being opened.
    Beginning,
    /// The latest migration is being reverted.
    Reverting,
    /// The migration that was reverted is being run again.
    Reapplying { version: String },
    /// The transaction is being committed.
    Committing,
    /// The transaction is being rolled back after `cause`.
    RollingBack { cause: CliError },
    /// Nothing is left to do.
    Finished { outcome: Result<(), CliError> },
}

impl View for RedoState {
    type V = RedoStateView;

    open spec fn view(&self) -> RedoStateView {
        match self {
            RedoState::Beginning => RedoStateView::Beginning,
            RedoState::Reverting => RedoStateView::Reverting,
            RedoState::Reapplying { version } => RedoStateView::Reapplying { version: version@ },
            RedoState::Committing => RedoStateView::Committing,
            RedoState::RollingBack { cause } => RedoStateView::RollingBack { cause: cause@ },
            RedoState::Finished { outcome } => RedoStateView::Finished {
                outcome: outcome_view(*outcome),
            },
        }
    }
}

/// The mathematical value of the engine.
pub struct RedoEngineView {
    pub transactional: bool,
    pub state: RedoStateView,
}

/// The engine of one redo.
#[derive(Debug, PartialEq, Eq)]
pub struct RedoEngine {
    /// Whether the two steps run inside one transaction.
    pub transactional: bool,
    pub state: RedoState,
}

impl View for RedoEngine {
    type V = RedoEngineView;

    open spec fn view(&self) -> RedoEngineView {
        RedoEngineView { transactional: self.transactional, state: self.state@ }
    }
}

/// The mathematical value of what the caller reports.
pub enum RedoEventView {
    TransactionBegun,
    Reverted(Seq<char>),
    Applied,
    Committed,
    RolledBack,
    Failed(Seq<char>),
}

/// What the caller reports back.
#[derive(Debug, PartialEq, Eq)]
pub enum RedoEvent {
    /// The transaction is open.
    TransactionBegun,
    /// The latest migration was reverted; this is its version.
    Reverted(String),
    /// The migration was run.
    Applied,
    /// The transaction is committed.
    Committed,
    /// The transaction is rolled back.
    RolledBack,
    /// What was asked for failed, with this message.
    Failed(String),
}

impl View for RedoEvent {
    type V = RedoEventView;

    open spec fn view(&self) -> RedoEventView {
        match self {
            RedoEvent::TransactionBegun => RedoEventView::TransactionBegun,
            RedoEvent::Reverted(v) => RedoEventView::Reverted(v@),
            RedoEvent::Applied => RedoEventView::Applied,
            RedoEvent::Committed => RedoEventView::Committed,
            RedoEvent::RolledBack => RedoEventView::RolledBack,
            RedoEvent::Failed(m) => RedoEventView::Failed(m@),
        }
    }
}

/// The mathematical value of what the caller is asked to do.
pub enum RedoActionView {
    BeginTransaction,
    RevertLatest,
    RunMigrationWithVersion(Seq<char>),
    Commit,
    Rollback,
    Finish(Result<(), CliErrorView>),
}

/// What the caller is asked to do next.
#[derive(Debug, PartialEq, Eq)]
pub enum RedoAction {
    /// Open a transaction.
    BeginTransaction,
    /// Revert the migration that was applied last, and report its version.
    RevertLatest,
    /// Run the migration of this version.
    RunMigrationWithVersion(String),
    /// Commit the transaction.
    Commit,
    /// Roll the transaction back.
    Rollback,
    /// Stop, with this outcome.
    Finish(Result<(), CliError>),
}

impl View for RedoAction {
    type V = RedoActionView;

    open spec fn view(&self) -> RedoActionView {
        match self {
            RedoAction::BeginTransaction => RedoActionView::BeginTransaction,
            RedoAction::RevertLatest => RedoActionView::RevertLatest,
            RedoAction::RunMigrationWithVersion(v) => RedoActionView::RunMigrationWithVersion(v@),
            RedoAction::Commit => RedoActionView::Commit,
            RedoAction::Rollback => RedoActionView::Rollback,
            RedoAction::Finish(o) => RedoActionView::Finish(outcome_view(*o)),
        }
    }
}

impl RedoEngineView {
    /// The mode and the state fit: only an engine that works inside a
    /// transaction opens, commits or rolls back one.
    pub open spec fn consistent(self) -> bool {
        match self.state {
            RedoStateView::Beginning | RedoStateView::Committing | RedoStateView::RollingBack {
                ..
            } => self.transactional,
            _ => true,
        }
    }

    /// The engine in another state.
    pub open spec fn with_state(self, state: RedoStateView) -> RedoEngineView {
        RedoEngineView { state, ..self }
    }

    /// What the engine has asked for and waits to hear of.
    pub open spec fn pending(self) -> RedoActionView {
        match self.state {
            RedoStateView::Beginning => RedoActionView::BeginTransaction,
            RedoStateView::Reverting => RedoActionView::RevertLatest,
            RedoStateView::Reapplying { version } => RedoActionView::RunMigrationWithVersion(
                version,
            ),
            RedoStateView::Committing => RedoActionView::Commit,
            RedoStateView::RollingBack { .. } => RedoActionView::Rollback,
            RedoStateView::Finished { outcome } => RedoActionView::Finish(outcome),
        }
    }

    /// The engine stopped with `outcome`.
    pub open spec fn finish(self, outcome: Result<(), CliErrorView>) -> (
        RedoEngineView,
        RedoActionView,
    ) {
        (self.with_state(RedoStateView::Finished { outcome }), RedoActionView::Finish(outcome))
    }

    /// The engine after one of the two steps failed: inside a transaction
    /// that is rolled back first; without one nothing is taken back.
    pub open spec fn fail_step(self, cause: CliErrorView) -> (RedoEngineView, RedoActionView) {
        if self.transactional {
            (self.with_state(RedoStateView::RollingBack { cause }), RedoActionView::Rollback)
        } else {
            self.finish(Err(cause))
        }
    }

    /// The next state and the next action, given what the caller reports.
    /// A report that does not answer what was asked for changes nothing, and
    /// the same is asked for again.
    pub open spec fn step(self, event: RedoEventView) -> (RedoEngineView, RedoActionView) {
        match (self.state, event) {
            (RedoStateView::Finished { .. }, _) => (self, self.pending()),
            (RedoStateView::Reverting, RedoEventView::Failed(message)) => self.fail_step(
                CliErrorView::External(message),
            ),
            (RedoStateView::Reapplying { .. }, RedoEventView::Failed(message)) => self.fail_step(
                CliErrorView::External(message),
            ),
            (_, RedoEventView::Failed(message)) => self.finish(
                Err(CliErrorView::External(message)),
            ),
            (RedoStateView::Beginning, RedoEventView::TransactionBegun) => (
                self.with_state(RedoStateView::Reverting),
                RedoActionView::RevertLatest,
            ),
            (RedoStateView::Reverting, RedoEventView::Reverted(version)) => (
                self.with_state(RedoStateView::Reapplying { version }),
                RedoActionView::RunMigrationWithVersion(version),
            ),
            (RedoStateView::Reapplying { .. }, RedoEventView::Applied) => if self.transactional {
                (self.with_state(RedoStateView::Committing), RedoActionView::Commit)
            } else {
                self.finish(Ok(()))
            },
            (RedoStateView::Committing, RedoEventView::Committed) => self.finish(Ok(())),
            (RedoStateView::RollingBack { cause }, RedoEventView::RolledBack) => self.finish(
                Err(cause),
            ),
            _ => (self, self.pending()),
        }
    }
}

/// The engine at its start: inside a transaction where the database can
/// take schema changes back, the transaction is opened first; elsewhere the
/// latest migration is reverted at once.
pub open spec fn start_spec(backend: Backend) -> (RedoEngineView, RedoActionView) {
    if transactional_ddl(backend) {
        (
            RedoEngineView { transactional: true, state: RedoStateView::Beginning },
            RedoActionView::BeginTransaction,
        )
    } else {
        (
            RedoEngineView { transactional: false, state: RedoStateView::Reverting },
            RedoActionView::RevertLatest,
        )
    }
}

impl RedoEngine {
    fn pending(&self) -> (r: RedoAction)
        ensures
            r@ == self@.pending(),
    {
        match &self.state {
            RedoState::Beginning => RedoAction::BeginTransaction,
            RedoState::Reverting => RedoAction::RevertLatest,
            RedoState::Reapplying { version } => RedoAction::RunMigrationWithVersion(
                version.clone(),
            ),
            RedoState::Committing => RedoAction::Commit,
            RedoState::RollingBack { .. } => RedoAction::Rollback,
            RedoState::Finished { outcome } => RedoAction::Finish(clone_outcome(outcome)),
        }
    }

    fn finish(self, outcome: Result<(), CliError>) -> (r: (RedoEngine, RedoAction))
        ensures
            (r.0@, r.1@) == self@.finish(outcome_view(outcome)),
    {
        let shown: Result<(), CliError> = clone_outcome(&outcome);
        (
            RedoEngine {
                transactional: self.transactional,
                state: RedoState::Finished { outcome },
            },
            RedoAction::Finish(shown),
        )
    }

    fn fail_step(self, cause: CliError) -> (r: (RedoEngine, RedoAction))
        ensures
            (r.0@, r.1@) == self@.fail_step(cause@),
    {
        if self.transactional {
            (
                RedoEngine { transactional: true, state: RedoState::RollingBack { cause } },
                RedoAction::Rollback,
            )
        } else {
            self.finish(Err(cause))
        }
    }

    /// Whether nothing is left to do.
    pub fn is_finished(&self) -> (r: bool)
        ensures
            r == (self@.state is Finished),
    {
        match &self.state {
            RedoState::Finished { .. } => true,
            _ => false,
        }
    }

    /// Takes in what the caller reports and says what to do next.
    pub fn step(self, event: RedoEvent) -> (r: (RedoEngine, RedoAction))
        ensures
            (r.0@, r.1@) == self@.step(event@),
            self@.consistent() ==> r.0@.consistent(),
    {
        let RedoEngine { transactional, state } = self;
        match (state, event) {
            (RedoState::Finished { outcome }, _) => {
                let same = RedoEngine { transactional, state: RedoState::Finished { outcome } };
                let again: RedoAction = same.pending();
                (same, again)
            },
            (RedoState::Reverting, RedoEvent::Failed(message)) => {
                RedoEngine { transactional, state: RedoState::Reverting }.fail_step(
                    CliError::External(message),
                )
            },
            (RedoState::Reapplying { version }, RedoEvent::Failed(message)) => {
                RedoEngine { transactional, state: RedoState::Reapplying { version } }.fail_step(
                    CliError::External(message),
                )
            },
            (state, RedoEvent::Failed(message)) => {
                RedoEngine { transactional, state }.finish(Err(CliError::External(message)))
            },
            (RedoState::Beginning, RedoEvent::TransactionBegun) => {
                (
                    RedoEngine { transactional, state: RedoState::Reverting },
                    RedoAction::RevertLatest,
                )
            },
            (RedoState::Reverting, RedoEvent::Reverted(version)) => {
                let again: String = version.clone();
                (
                    RedoEngine { transactional, state: RedoState::Reapplying { version } },
                    RedoAction::RunMigrationWithVersion(again),
                )
            },
            (RedoState::Reapplying { version }, RedoEvent::Applied) => {
                if transactional {
                    (RedoEngine { transactional, state: RedoState::Committing }, RedoAction::Commit)
                } else {
                    RedoEngine { transactional, state: RedoState::Reapplying { version } }.finish(
                        Ok(()),
                    )
                }
            },
            (RedoState::Committing, RedoEvent::Committed) => {
                RedoEngine { transactional, state: RedoState::Committing }.finish(Ok(()))
            },
            (RedoState::RollingBack { cause }, RedoEvent::RolledBack) => {
                RedoEngine { transactional, state: RedoState::Committing }.finish(Err(cause))
            },
            (state, _) => {
                let same = RedoEngine { transactional, state };
                let again: RedoAction = same.pending();
                (same, again)
            },
        }
    }
}

/// Starts the redo of the latest migration on `backend`.
pub fn redo_latest_migration(backend: Backend) -> (r: (RedoEngine, RedoAction))
    ensures
        (r.0@, r.1@) == start_spec(backend),
        r.0@.consistent(),
{
    if should_redo_migration_in_transaction(backend) {
        (
            RedoEngine { transactional: true, state: RedoState::Beginning },
            RedoAction::BeginTransaction,
        )
    } else {
        (RedoEngine { transactional: false, state: RedoState::Reverting }, RedoAction::RevertLatest)
    }
}

/// A database as far as a redo can tell: the versions applied, oldest first,
/// and what a rollback of the open transaction would bring back.
pub struct MigrationDb {
    pub applied: Seq<Seq<char>>,
    pub saved: Option<Seq<Seq<char>>>,
}

impl MigrationDb {
    /// What an action of the engine does to the database when it succeeds.
    pub open spec fn after(self, action: RedoActionView) -> MigrationDb {
        match action {
            RedoActionView::BeginTransaction => MigrationDb { saved: Some(self.applied), ..self },
            RedoActionView::RevertLatest => MigrationDb {
                applied: self.applied.drop_last(),
                ..self
            },
            RedoActionView::RunMigrationWithVersion(version) => MigrationDb {
                applied: self.applied.push(version),
                ..self
            },
            RedoActionView::Commit => MigrationDb { saved: None, ..self },
            RedoActionView::Rollback => match self.saved {
                Some(before) => MigrationDb { applied: before, saved: None },
                None => self,
            },
            RedoActionView::Finish(_) => self,
        }
    }
}

/// Inside a transaction a redo that fails when the migration is run again
/// leaves the database as it was: the revert is rolled back, and the error of
/// the failed step is the outcome.
pub proof fn lemma_transactional_redo_is_atomic(
    backend: Backend,
    db: MigrationDb,
    message: Seq<char>,
)
    requires
        transactional_ddl(backend),
        db.applied.len() > 0,
    ensures
        ({
            let s0 = start_spec(backend);
            let db1 = db.after(s0.1);
            let s1 = s0.0.step(RedoEventView::TransactionBegun);
            let db2 = db1.after(s1.1);
            let s2 = s1.0.step(RedoEventView::Reverted(db.applied.last()));
            let s3 = s2.0.step(RedoEventView::Failed(message));
            let db3 = db2.after(s3.1);
            let s4 = s3.0.step(RedoEventView::RolledBack);
            &&& s0.1 == RedoActionView::BeginTransaction
            &&& s1.1 == RedoActionView::RevertLatest
            &&& db2.applied == db.applied.drop_last()
            &&& s2.1 == RedoActionView::RunMigrationWithVersion(db.applied.last())
            &&& s3.1 == RedoActionView::Rollback
            &&& db3.applied == db.applied
            &&& s4.1 == RedoActionView::Finish(Err(CliErrorView::External(message)))
        }),
{
}

/// Without a transaction the same failure leaves the migration reverted and
/// not run again: the two steps are two calls of their own, and nothing is
/// opened, committed or rolled back.
pub proof fn lemma_plain_redo_is_not_atomic(backend: Backend, db: MigrationDb, message: Seq<char>)
    requires
        !transactional_ddl(backend),
        db.applied.len() > 0,
    ensures
        ({
            let s0 = start_spec(backend);
            let db1 = db.after(s0.1);
            let s1 = s0.0.step(RedoEventView::Reverted(db.applied.last()));
            let s2 = s1.0.step(RedoEventView::Failed(message));
            let db2 = db1.after(s2.1);
            &&& s0.1 == RedoActionView::RevertLatest
            &&& s1.1 == RedoActionView::RunMigrationWithVersion(db.applied.last())
            &&& s2.1 == RedoActionView::Finish(Err(CliErrorView::External(message)))
            &&& db2.applied == db.applied.drop_last()
        }),
{
}

/// A redo in which every call succeeds runs the very migration again that it
/// reverted, and leaves the versions applied as they were.
pub proof fn lemma_redo_restores(backend: Backend, db: MigrationDb)
    requires
        db.applied.len() > 0,
    ensures
        ({
            let latest = db.applied.last();
            let s0 = start_spec(backend);
            let s1 = if transactional_ddl(backend) {
                s0.0.step(RedoEventView::TransactionBegun)
            } else {
                s0
            };
            let db1 = db.after(s1.1);
            let s2 = s1.0.step(RedoEventView::Reverted(latest));
            let db2 = db1.after(s2.1);
            let s3 = s2.0.step(RedoEventView::Applied);
            let s4 = if transactional_ddl(backend) {
                s3.0.step(RedoEventView::Committed)
            } else {
                s3
            };
            &&& s1.1 == RedoActionView::RevertLatest
            &&& s2.1 == RedoActionView::RunMigrationWithVersion(latest)
            &&& db2.applied == db.applied
            &&& transactional_ddl(backend) ==> s3.1 == RedoActionView::Commit
            &&& s4.1 == RedoActionView::Finish(Ok(()))
        }),
{
    assert(db.applied.drop_last().push(db.applied.last()) =~= db.applied);
}

/// Only an engine that works inside a transaction ever asks for one to be
/// opened, committed or rolled back.
pub proof fn lemma_plain_redo_opens_no_transaction(engine: RedoEngineView, event: RedoEventView)
    requires
        !engine.transactional,
        engine.consistent(),
    ensures
        !engine.step(event).0.transactional,
        engine.step(event).0.consistent(),
        !(engine.step(event).1 is BeginTransaction),
        !(engine.step(event).1 is Commit),
        !(engine.step(event).1 is Rollback),
{
}


/// What the engine asks for, one action for each report of `events`.
pub open spec fn actions_after(engine: RedoEngineView, events: Seq<RedoEventView>) -> Seq<
    RedoActionView,
>
    decreases events.len(),
{
    if events.len() == 0 {
        Seq::empty()
    } else {
        let next = engine.step(events[0]);
        seq![next.1] + actions_after(next.0, events.drop_first())
    }
}

proof fn lemma_actions_len(engine: RedoEngineView, events: Seq<RedoEventView>)
    ensures
        actions_after(engine, events).len() == events.len(),
    decreases events.len(),
{
    if events.len() > 0 {
        lemma_actions_len(engine.step(events[0]).0, events.drop_first());
    }
}

proof fn lemma_plain_actions(engine: RedoEngineView, events: Seq<RedoEventView>, i: int)
    requires
        !engine.transactional,
        engine.consistent(),
        0 <= i < events.len(),
    ensures
        actions_after(engine, events).len() == events.len(),
        !(actions_after(engine, events)[i] is BeginTransaction),
        !(actions_after(engine, events)[i] is Commit),
        !(actions_after(engine, events)[i] is Rollback),
    decreases events.len(),
{
    let next = engine.step(events[0]);
    lemma_plain_redo_opens_no_transaction(engine, events[0]);
    lemma_actions_len(next.0, events.drop_first());
    if i > 0 {
        lemma_plain_actions(next.0, events.drop_first(), i - 1);
    }
}

/// On a database that cannot take schema changes back, a redo never works
/// with a transaction: whatever is reported and however often, the engine
/// asks for none to be opened, committed or rolled back.
pub proof fn lemma_plain_run_has_no_transaction(
    backend: Backend,
    events: Seq<RedoEventView>,
    i: int,
)
    requires
        !transactional_ddl(backend),
        0 <= i < events.len(),
    ensures
        !(start_spec(backend).1 is BeginTransaction),
        !(actions_after(start_spec(backend).0, events)[i] is BeginTransaction),
        !(actions_after(start_spec(backend).0, events)[i] is Commit),
        !(actions_after(start_spec(backend).0, events)[i] is Rollback),
{
    lemma_plain_actions(start_spec(backend).0, events, i);
}

} // verus!
