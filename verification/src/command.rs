//! The commands, and what running one takes: whether it needs the
//! migrations directory and the database, which service it calls, and whether
//! the schema file is brought up to date after it. The run of a command
//! names each step in turn; its caller takes the step and reports back.

use crate::error::{clone_outcome, outcome_view, CliError, CliErrorView};
use vstd::prelude::*;
use vstd::string::*;

verus! {

/// A command on the migrations of a project.
#[derive(Debug, Clone, Copy, PartialEq, Eq, Structural)]
pub enum MigrationCommand {
    Run,
    Revert,
    Redo,
    List,
    Pending,
    Generate,
}

/// A command on the database of a project.
#[derive(Debug, Clone, Copy, PartialEq, Eq, Structural)]
pub enum DatabaseCommand {
    Setup,
    Reset,
    Drop,
}

/// What a command asks of the services around it.
#[derive(Debug, Clone, Copy, PartialEq, Eq, Structural)]
pub enum ServiceCall {
    /// Run all migrations that are not applied.
    ApplyPending,
    /// Revert the migration that was applied last.
    RevertLatest,
    /// Revert the migration that was applied last, and run it again.
    RedoLatest,
    /// List the migrations, each with its mark.
    ListMarked,
    /// Say whether any migration is not applied.
    AnyPending,
    /// Make a new migration.
    CreateMigration,
    /// Create the database and run the migrations.
    SetupDatabase,
    /// Drop the database and set it up again.
    ResetDatabase,
    /// Drop the database.
    DropDatabase,
}

/// What running a command takes.
#[derive(Debug, Clone, Copy, PartialEq, Eq, Structural)]
pub struct CommandPlan {
    /// The migrations directory is located first.
    pub locates_directory: bool,
    /// The command talks to the database.
    pub connects: bool,
    /// The call that does the work.
    pub call: ServiceCall,
    /// The schema file is brought up to date after the call.
    pub syncs_schema: bool,
}

/// What running a migration command takes. The schema file is brought up to
/// date after `run`, `revert` and `redo`, which change what is applied.
pub open spec fn migration_plan(command: MigrationCommand) -> CommandPlan {
    match command {
        MigrationCommand::Run => CommandPlan {
            locates_directory: true,
            connects: true,
            call: ServiceCall::ApplyPending,
            syncs_schema: true,
        },
        MigrationCommand::Revert => CommandPlan {
            locates_directory: true,
            connects: true,
            call: ServiceCall::RevertLatest,
            syncs_schema: true,
        },
        MigrationCommand::Redo => CommandPlan {
            locates_directory: true,
            connects: true,
            call: ServiceCall::RedoLatest,
            syncs_schema: true,
        },
        MigrationCommand::List => CommandPlan {
            locates_directory: true,
            connects: true,
            call: ServiceCall::ListMarked,
            syncs_schema: false,
        },
        MigrationCommand::Pending => CommandPlan {
            locates_directory: true,
            connects: true,
            call: ServiceCall::AnyPending,
            syncs_schema: false,
        },
        MigrationCommand::Generate => CommandPlan {
            locates_directory: true,
            connects: false,
            call: ServiceCall::CreateMigration,
            syncs_schema: false,
        },
    }
}

/// What running a database command takes. The schema file is brought up to
/// date after `reset`.
pub open spec fn database_plan(command: DatabaseCommand) -> CommandPlan {
    match command {
        DatabaseCommand::Setup => CommandPlan {
            locates_directory: true,
            connects: true,
            call: ServiceCall::SetupDatabase,
            syncs_schema: false,
        },
        DatabaseCommand::Reset => CommandPlan {
            locates_directory: true,
            connects: true,
            call: ServiceCall::ResetDatabase,
            syncs_schema: true,
        },
        DatabaseCommand::Drop => CommandPlan {
            locates_directory: false,
            connects: true,
            call: ServiceCall::DropDatabase,
            syncs_schema: false,
        },
    }
}

/// The migration command that a subcommand's name stands for.
pub open spec fn migration_command_named(name: Seq<char>) -> Option<MigrationCommand> {
    if name == "run"@ {
        Some(MigrationCommand::Run)
    } else if name == "revert"@ {
        Some(MigrationCommand::Revert)
    } else if name == "redo"@ {
        Some(MigrationCommand::Redo)
    } else if name == "list"@ {
        Some(MigrationCommand::List)
    } else if name == "pending"@ {
        Some(MigrationCommand::Pending)
    } else if name == "generate"@ {
        Some(MigrationCommand::Generate)
    } else {
        None
    }
}

/// The database command that a subcommand's name stands for.
pub open spec fn database_command_named(name: Seq<char>) -> Option<DatabaseCommand> {
    if name == "setup"@ {
        Some(DatabaseCommand::Setup)
    } else if name == "reset"@ {
        Some(DatabaseCommand::Reset)
    } else if name == "drop"@ {
        Some(DatabaseCommand::Drop)
    } else {
        None
    }
}

fn is_word(name: &str, word: &str) -> (r: bool)
    ensures
        r == (name@ == word@),
{
    String::from_str(name) == String::from_str(word)
}

/// Reads the name of a subcommand of `migration`.
pub fn parse_migration_command(name: &str) -> (r: Option<MigrationCommand>)
    ensures
        r == migration_command_named(name@),
{
    if is_word(name, "run") {
        Some(MigrationCommand::Run)
    } else if is_word(name, "revert") {
        Some(MigrationCommand::Revert)
    } else if is_word(name, "redo") {
        Some(MigrationCommand::Redo)
    } else if is_word(name, "list") {
        Some(MigrationCommand::List)
    } else if is_word(name, "pending") {
        Some(MigrationCommand::Pending)
    } else if is_word(name, "generate") {
        Some(MigrationCommand::Generate)
    } else {
        None
    }
}

/// Reads the name of a subcommand of `database`.
pub fn parse_database_command(name: &str) -> (r: Option<DatabaseCommand>)
    ensures
        r == database_command_named(name@),
{
    if is_word(name, "setup") {
        Some(DatabaseCommand::Setup)
    } else if is_word(name, "reset") {
        Some(DatabaseCommand::Reset)
    } else if is_word(name, "drop") {
        Some(DatabaseCommand::Drop)
    } else {
        None
    }
}

/// What running a migration command takes.
pub fn run_migration_command(command: MigrationCommand) -> (plan: CommandPlan)
    ensures
        plan == migration_plan(command),
{
    let call: ServiceCall = match command {
        MigrationCommand::Run => ServiceCall::ApplyPending,
        MigrationCommand::Revert => ServiceCall::RevertLatest,
        MigrationCommand::Redo => ServiceCall::RedoLatest,
        MigrationCommand::List => ServiceCall::ListMarked,
        MigrationCommand::Pending => ServiceCall::AnyPending,
        MigrationCommand::Generate => ServiceCall::CreateMigration,
    };
    let changes: bool = match command {
        MigrationCommand::Run | MigrationCommand::Revert | MigrationCommand::Redo => true,
        _ => false,
    };
    let connects: bool = match command {
        MigrationCommand::Generate => false,
        _ => true,
    };
    CommandPlan { locates_directory: true, connects, call, syncs_schema: changes }
}

/// What running a database command takes.
pub fn run_database_command(command: DatabaseCommand) -> (plan: CommandPlan)
    ensures
        plan == database_plan(command),
{
    match command {
        DatabaseCommand::Setup => CommandPlan {
            locates_directory: true,
            connects: true,
            call: ServiceCall::SetupDatabase,
            syncs_schema: false,
        },
        DatabaseCommand::Reset => CommandPlan {
            locates_directory: true,
            connects: true,
            call: ServiceCall::ResetDatabase,
            syncs_schema: true,
        },
        DatabaseCommand::Drop => CommandPlan {
            locates_directory: false,
            connects: true,
            call: ServiceCall::DropDatabase,
            syncs_schema: false,
        },
    }
}

/// The schema file is only brought up to date after a command that has
/// located the migrations directory and talked to the database.
pub proof fn lemma_sync_follows_database_work(plan: CommandPlan)
    requires
        (exists|c: MigrationCommand| plan == migration_plan(c)) || (exists|c: DatabaseCommand|
            plan == database_plan(c)),
    ensures
        plan.syncs_schema ==> plan.locates_directory && plan.connects,
{
}


/// The mathematical value of what the run of a command waits for.
pub enum RunStateView {
    Locating,
    Calling,
    Syncing,
    Finished { outcome: Result<(), CliErrorView> },
}

/// What the run of a command waits for.
#[derive(Debug, PartialEq, Eq)]
pub enum RunState {
    /// The migrations directory is being located.
    Locating,
    /// The call that does the work is being made.
    Calling,
    /// The schema file is being brought up to date.
    Syncing,
    /// Nothing is left to do.
    Finished { outcome: Result<(), CliError> },
}

impl View for RunState {
    type V = RunStateView;

    open spec fn view(&self) -> RunStateView {
        match self {
            RunState::Locating => RunStateView::Locating,
            RunState::Calling => RunStateView::Calling,
            RunState::Syncing => RunStateView::Syncing,
            RunState::Finished { outcome } => RunStateView::Finished {
                outcome: outcome_view(*outcome),
            },
        }
    }
}

/// The mathematical value of the run of a command.
pub struct CommandRunView {
    pub plan: CommandPlan,
    pub state: RunStateView,
}

/// The run of one command.
#[derive(Debug, PartialEq, Eq)]
pub struct CommandRun {
    pub plan: CommandPlan,
    pub state: RunState,
}

impl View for CommandRun {
    type V = CommandRunView;

    open spec fn view(&self) -> CommandRunView {
        CommandRunView { plan: self.plan, state: self.state@ }
    }
}

/// The mathematical value of what the caller reports.
pub enum RunEventView {
    Located,
    Called,
    Synced,
    Failed(CliErrorView),
}

/// What the caller reports back.
#[derive(Debug, PartialEq, Eq)]
pub enum RunEvent {
    /// The migrations directory is found.
    Located,
    /// The call succeeded.
    Called,
    /// The schema file is up to date.
    Synced,
    /// The step failed, with this error.
    Failed(CliError),
}

impl View for RunEvent {
    type V = RunEventView;

    open spec fn view(&self) -> RunEventView {
        match self {
            RunEvent::Located => RunEventView::Located,
            RunEvent::Called => RunEventView::Called,
            RunEvent::Synced => RunEventView::Synced,
            RunEvent::Failed(e) => RunEventView::Failed(e@),
        }
    }
}

/// The mathematical value of what the caller is asked to do.
pub enum RunActionView {
    LocateDirectory,
    Call(ServiceCall),
    SyncSchema,
    Finish(Result<(), CliErrorView>),
}

/// What the caller is asked to do next.
#[derive(Debug, PartialEq, Eq)]
pub enum RunAction {
    /// Locate the migrations directory.
    LocateDirectory,
    /// Make this call.
    Call(ServiceCall),
    /// Bring the schema file up to date.
    SyncSchema,
    /// Stop, with this outcome.
    Finish(Result<(), CliError>),
}

impl View for RunAction {
    type V = RunActionView;

    open spec fn view(&self) -> RunActionView {
        match self {
            RunAction::LocateDirectory => RunActionView::LocateDirectory,
            RunAction::Call(call) => RunActionView::Call(*call),
            RunAction::SyncSchema => RunActionView::SyncSchema,
            RunAction::Finish(o) => RunActionView::Finish(outcome_view(*o)),
        }
    }
}

impl CommandRunView {
    /// The run in another state.
    pub open spec fn with_state(self, state: RunStateView) -> CommandRunView {
        CommandRunView { state, ..self }
    }

    /// What the run has asked for and waits to hear of.
    pub open spec fn pending(self) -> RunActionView {
        match self.state {
            RunStateView::Locating => RunActionView::LocateDirectory,
            RunStateView::Calling => RunActionView::Call(self.plan.call),
            RunStateView::Syncing => RunActionView::SyncSchema,
            RunStateView::Finished { outcome } => RunActionView::Finish(outcome),
        }
    }

    /// The run stopped with `outcome`.
    pub open spec fn finish(self, outcome: Result<(), CliErrorView>) -> (
        CommandRunView,
        RunActionView,
    ) {
        (self.with_state(RunStateView::Finished { outcome }), RunActionView::Finish(outcome))
    }

    /// The next state and the next action, given what the caller reports.
    /// A step that fails ends the command with its error: nothing is tried
    /// again, and nothing that would have followed is done. After the call
    /// has succeeded the schema file is brought up to date where the plan
    /// says so. A report that does not answer what was asked for changes
    /// nothing, and the same is asked for again.
    pub open spec fn step(self, event: RunEventView) -> (CommandRunView, RunActionView) {
        match (self.state, event) {
            (RunStateView::Finished { .. }, _) => (self, self.pending()),
            (_, RunEventView::Failed(error)) => self.finish(Err(error)),
            (RunStateView::Locating, RunEventView::Located) => (
                self.with_state(RunStateView::Calling),
                RunActionView::Call(self.plan.call),
            ),
            (RunStateView::Calling, RunEventView::Called) => if self.plan.syncs_schema {
                (self.with_state(RunStateView::Syncing), RunActionView::SyncSchema)
            } else {
                self.finish(Ok(()))
            },
            (RunStateView::Syncing, RunEventView::Synced) => self.finish(Ok(())),
            _ => (self, self.pending()),
        }
    }
}

/// The run of a command at its start: the migrations directory is located
/// first where the plan says so; else the call is made at once.
pub open spec fn run_start(plan: CommandPlan) -> (CommandRunView, RunActionView) {
    if plan.locates_directory {
        (CommandRunView { plan, state: RunStateView::Locating }, RunActionView::LocateDirectory)
    } else {
        (CommandRunView { plan, state: RunStateView::Calling }, RunActionView::Call(plan.call))
    }
}

/// What the run asks for, one action for each report of `events`.
pub open spec fn actions_after(run: CommandRunView, events: Seq<RunEventView>) -> Seq<
    RunActionView,
>
    decreases events.len(),
{
    if events.len() == 0 {
        Seq::empty()
    } else {
        let next = run.step(events[0]);
        seq![next.1] + actions_after(next.0, events.drop_first())
    }
}

impl CommandRun {
    fn pending(&self) -> (r: RunAction)
        ensures
            r@ == self@.pending(),
    {
        match &self.state {
            RunState::Locating => RunAction::LocateDirectory,
            RunState::Calling => RunAction::Call(self.plan.call),
            RunState::Syncing => RunAction::SyncSchema,
            RunState::Finished { outcome } => RunAction::Finish(clone_outcome(outcome)),
        }
    }

    fn finish(self, outcome: Result<(), CliError>) -> (r: (CommandRun, RunAction))
        ensures
            (r.0@, r.1@) == self@.finish(outcome_view(outcome)),
    {
        let shown: Result<(), CliError> = clone_outcome(&outcome);
        (
            CommandRun { plan: self.plan, state: RunState::Finished { outcome } },
            RunAction::Finish(shown),
        )
    }

    /// Starts the run of a command with the plan `plan`.
    pub fn start(plan: CommandPlan) -> (r: (CommandRun, RunAction))
        ensures
            (r.0@, r.1@) == run_start(plan),
    {
        if plan.locates_directory {
            (CommandRun { plan, state: RunState::Locating }, RunAction::LocateDirectory)
        } else {
            (CommandRun { plan, state: RunState::Calling }, RunAction::Call(plan.call))
        }
    }

    /// Whether nothing is left to do.
    pub fn is_finished(&self) -> (r: bool)
        ensures
            r == (self@.state is Finished),
    {
        match &self.state {
            RunState::Finished { .. } => true,
            _ => false,
        }
    }

    /// Takes in what the caller reports and says what to do next.
    pub fn step(self, event: RunEvent) -> (r: (CommandRun, RunAction))
        ensures
            (r.0@, r.1@) == self@.step(event@),
    {
        let CommandRun { plan, state } = self;
        match (state, event) {
            (RunState::Finished { outcome }, _) => {
                let same = CommandRun { plan, state: RunState::Finished { outcome } };
                let again: RunAction = same.pending();
                (same, again)
            },
            (state, RunEvent::Failed(error)) => CommandRun { plan, state }.finish(Err(error)),
            (RunState::Locating, RunEvent::Located) => {
                (CommandRun { plan, state: RunState::Calling }, RunAction::Call(plan.call))
            },
            (RunState::Calling, RunEvent::Called) => {
                if plan.syncs_schema {
                    (CommandRun { plan, state: RunState::Syncing }, RunAction::SyncSchema)
                } else {
                    CommandRun { plan, state: RunState::Calling }.finish(Ok(()))
                }
            },
            (RunState::Syncing, RunEvent::Synced) => {
                CommandRun { plan, state: RunState::Syncing }.finish(Ok(()))
            },
            (state, _) => {
                let same = CommandRun { plan, state };
                let again: RunAction = same.pending();
                (same, again)
            },
        }
    }
}

proof fn lemma_actions_len(run: CommandRunView, events: Seq<RunEventView>)
    ensures
        actions_after(run, events).len() == events.len(),
    decreases events.len(),
{
    if events.len() > 0 {
        lemma_actions_len(run.step(events[0]).0, events.drop_first());
    }
}

proof fn lemma_finished_stays(run: CommandRunView, events: Seq<RunEventView>, i: int)
    requires
        run.state is Finished,
        0 <= i < events.len(),
    ensures
        actions_after(run, events)[i] == RunActionView::Finish(run.state->outcome),
    decreases events.len(),
{
    assert(run.step(events[0]).0 == run);
    lemma_actions_len(run, events.drop_first());
    if i > 0 {
        lemma_finished_stays(run, events.drop_first(), i - 1);
    }
}

/// A call that fails ends the command with its error: the outcome is that
/// error, and whatever is reported afterwards, the call is not made again
/// and the schema file is not brought up to date.
pub proof fn lemma_failed_call_ends_the_command(
    plan: CommandPlan,
    error: CliErrorView,
    later: Seq<RunEventView>,
    i: int,
)
    requires
        0 <= i < later.len(),
    ensures
        ({
            let calling = CommandRunView { plan, state: RunStateView::Calling };
            let failed = calling.step(RunEventView::Failed(error));
            &&& failed.1 == RunActionView::Finish(Err(error))
            &&& actions_after(failed.0, later)[i] == RunActionView::Finish(Err(error))
        }),
{
    let calling = CommandRunView { plan, state: RunStateView::Calling };
    lemma_finished_stays(calling.step(RunEventView::Failed(error)).0, later, i);
}

/// The steps come in their order: the call is only asked for once the
/// migrations directory is located, where the plan has it located, and the
/// schema file is only brought up to date once the call has succeeded, and
/// only where the plan says so.
pub proof fn lemma_steps_in_order(run: CommandRunView, event: RunEventView)
    ensures
        run.step(event).0.plan == run.plan,
        run.step(event).1 is Call ==> run.step(event).1 == RunActionView::Call(run.plan.call),
        run.step(event).1 is Call ==> (run.state is Locating && event is Located) || (run.state
            is Calling && !(event is Called) && !(event is Failed)),
        run.step(event).1 is SyncSchema ==> run.plan.syncs_schema || run.state is Syncing,
        run.step(event).1 is SyncSchema ==> (run.state is Calling && event is Called) || (
        run.state is Syncing && !(event is Synced) && !(event is Failed)),
        run.step(event).1 is LocateDirectory ==> run.state is Locating,
{
}

/// A command in which every step succeeds ends well, after the steps of
/// its plan and no others.
pub proof fn lemma_successful_run(plan: CommandPlan)
    ensures
        ({
            let s0 = run_start(plan);
            let s1 = if plan.locates_directory {
                s0.0.step(RunEventView::Located)
            } else {
                s0
            };
            let s2 = s1.0.step(RunEventView::Called);
            let s3 = if plan.syncs_schema {
                s2.0.step(RunEventView::Synced)
            } else {
                s2
            };
            &&& plan.locates_directory ==> s0.1 == RunActionView::LocateDirectory
            &&& s1.1 == RunActionView::Call(plan.call)
            &&& plan.syncs_schema ==> s2.1 == RunActionView::SyncSchema
            &&& s3.1 == RunActionView::Finish(Ok(()))
        }),
{
}

} // verus!
