//! Keeping the schema file in step with the database. After a command
//! that changes which migrations are applied, the schema is rendered anew:
//! it is written over the schema file, or, in locked mode, compared with it
//! without ever writing. The guard here decides; its caller renders, reads
//! and writes, and reports back what happened. What is rendered is the
//! database of the command, with the settings of the configuration.

use crate::config::{Config, PrintSchema, PrintSchemaView};
use crate::error::{clone_outcome, outcome_view, CliError, CliErrorView};
use crate::path::{FsPath, Segment};
use vstd::prelude::*;
use vstd::string::*;

verus! {

/// The mathematical value of what a rendering is given.
pub struct RenderRequestView {
    pub database_url: Seq<char>,
    pub settings: PrintSchemaView,
}

/// What a rendering is given: the database to read, and the settings to
/// render with.
#[derive(Debug, PartialEq, Eq)]
pub struct RenderRequest {
    pub database_url: String,
    pub settings: PrintSchema,
}

impl View for RenderRequest {
    type V = RenderRequestView;

    open spec fn view(&self) -> RenderRequestView {
        RenderRequestView { database_url: self.database_url@, settings: self.settings@ }
    }
}

impl Clone for RenderRequest {
    fn clone(&self) -> (r: Self)
        ensures
            r@ == self@,
    {
        RenderRequest { database_url: self.database_url.clone(), settings: self.settings.clone() }
    }
}

/// The mathematical value of what the guard waits for.
pub enum SyncStateView {
    EnsuringParent { dir: Seq<Segment> },
    Rendering,
    Reading { fresh: Seq<u8> },
    Creating,
    RenderingInto,
    Writing { fresh: Seq<u8> },
    Finished { outcome: Result<(), CliErrorView> },
}

/// What the guard waits for.
#[derive(Debug, PartialEq, Eq)]
pub enum SyncState {
    /// The directory of the schema file, and those above it, are being made.
    EnsuringParent { dir: FsPath },
    /// Locked: the schema is being rendered for the comparison.
    Rendering,
    /// Locked: the schema file is being read; `fresh` is what was rendered.
    Reading { fresh: Vec<u8> },
    /// Unlocked: the schema file is being created, or emptied.
    Creating,
    /// Unlocked: the schema is being rendered for the file.
    RenderingInto,
    /// Unlocked: `fresh` is being written to the schema file.
    Writing { fresh: Vec<u8> },
    /// Nothing is left to do.
    Finished { outcome: Result<(), CliError> },
}

impl View for SyncState {
    type V = SyncStateView;

    open spec fn view(&self) -> SyncStateView {
        match self {
            SyncState::EnsuringParent { dir } => SyncStateView::EnsuringParent { dir: dir@ },
            SyncState::Rendering => SyncStateView::Rendering,
            SyncState::Reading { fresh } => SyncStateView::Reading { fresh: fresh@ },
            SyncState::Creating => SyncStateView::Creating,
            SyncState::RenderingInto => SyncStateView::RenderingInto,
            SyncState::Writing { fresh } => SyncStateView::Writing { fresh: fresh@ },
            SyncState::Finished { outcome } => SyncStateView::Finished {
                outcome: outcome_view(*outcome),
            },
        }
    }
}

/// The mathematical value of the guard.
pub struct SchemaSyncView {
    pub file: Seq<Segment>,
    pub locked: bool,
    pub request: RenderRequestView,
    pub state: SyncStateView,
}

/// The guard of one schema file through one command.
#[derive(Debug, PartialEq, Eq)]
pub struct SchemaSync {
    /// The schema file; the empty path where none is configured.
    pub file: FsPath,
    /// Whether the file is compared rather than written.
    pub locked: bool,
    /// What every rendering is given.
    pub request: RenderRequest,
    pub state: SyncState,
}

impl View for SchemaSync {
    type V = SchemaSyncView;

    open spec fn view(&self) -> SchemaSyncView {
        SchemaSyncView {
            file: self.file@,
            locked: self.locked,
            request: self.request@,
            state: self.state@,
        }
    }
}

/// The mathematical value of what the caller reports.
pub enum SyncEventView {
    DirectoriesCreated,
    Rendered(Seq<u8>),
    FileRead(Seq<u8>),
    FileCreated,
    FileWritten,
    Failed(Seq<char>),
}

/// What the caller reports back.
#[derive(Debug, PartialEq, Eq)]
pub enum SyncEvent {
    /// The directories exist.
    DirectoriesCreated,
    /// The schema of the database, rendered.
    Rendered(Vec<u8>),
    /// All that the schema file holds.
    FileRead(Vec<u8>),
    /// The schema file exists and is empty.
    FileCreated,
    /// The schema file holds what was to be written.
    FileWritten,
    /// What was asked for failed, with this message.
    Failed(String),
}

impl View for SyncEvent {
    type V = SyncEventView;

    open spec fn view(&self) -> SyncEventView {
        match self {
            SyncEvent::DirectoriesCreated => SyncEventView::DirectoriesCreated,
            SyncEvent::Rendered(b) => SyncEventView::Rendered(b@),
            SyncEvent::FileRead(b) => SyncEventView::FileRead(b@),
            SyncEvent::FileCreated => SyncEventView::FileCreated,
            SyncEvent::FileWritten => SyncEventView::FileWritten,
            SyncEvent::Failed(m) => SyncEventView::Failed(m@),
        }
    }
}

/// The mathematical value of what the caller is asked to do.
pub enum SyncActionView {
    CreateDirectories(Seq<Segment>),
    Render(RenderRequestView),
    ReadFile(Seq<Segment>),
    CreateFile(Seq<Segment>),
    WriteFile(Seq<Segment>, Seq<u8>),
    Finish(Result<(), CliErrorView>),
}

/// What the caller is asked to do next.
#[derive(Debug, PartialEq, Eq)]
pub enum SyncAction {
    /// Make this directory and those above it, as far as they are missing.
    CreateDirectories(FsPath),
    /// Render the schema of this database with these settings.
    Render(RenderRequest),
    /// Read the whole file.
    ReadFile(FsPath),
    /// Create the file, or empty it where it exists.
    CreateFile(FsPath),
    /// Write the bytes to the file just created.
    WriteFile(FsPath, Vec<u8>),
    /// Stop, with this outcome.
    Finish(Result<(), CliError>),
}

impl View for SyncAction {
    type V = SyncActionView;

    open spec fn view(&self) -> SyncActionView {
        match self {
            SyncAction::CreateDirectories(p) => SyncActionView::CreateDirectories(p@),
            SyncAction::Render(r) => SyncActionView::Render(r@),
            SyncAction::ReadFile(p) => SyncActionView::ReadFile(p@),
            SyncAction::CreateFile(p) => SyncActionView::CreateFile(p@),
            SyncAction::WriteFile(p, b) => SyncActionView::WriteFile(p@, b@),
            SyncAction::Finish(o) => SyncActionView::Finish(outcome_view(*o)),
        }
    }
}

impl SchemaSyncView {
    /// The mode and the state fit: a locked guard is never in a state of
    /// writing, an unlocked one never in a state of comparing.
    pub open spec fn consistent(self) -> bool {
        match self.state {
            SyncStateView::Rendering | SyncStateView::Reading { .. } => self.locked,
            SyncStateView::Creating | SyncStateView::RenderingInto | SyncStateView::Writing {
                ..
            } => !self.locked,
            _ => true,
        }
    }

    /// The guard in another state.
    pub open spec fn with_state(self, state: SyncStateView) -> SchemaSyncView {
        SchemaSyncView { state, ..self }
    }

    /// What the guard has asked for and waits to hear of.
    pub open spec fn pending(self) -> SyncActionView {
        match self.state {
            SyncStateView::EnsuringParent { dir } => SyncActionView::CreateDirectories(dir),
            SyncStateView::Rendering => SyncActionView::Render(self.request),
            SyncStateView::Reading { .. } => SyncActionView::ReadFile(self.file),
            SyncStateView::Creating => SyncActionView::CreateFile(self.file),
            SyncStateView::RenderingInto => SyncActionView::Render(self.request),
            SyncStateView::Writing { fresh } => SyncActionView::WriteFile(self.file, fresh),
            SyncStateView::Finished { outcome } => SyncActionView::Finish(outcome),
        }
    }

    /// The guard once the directories above the file exist: a locked guard
    /// renders for the comparison, an unlocked one first creates the file.
    pub open spec fn begin(self) -> (SchemaSyncView, SyncActionView) {
        if self.locked {
            (self.with_state(SyncStateView::Rendering), SyncActionView::Render(self.request))
        } else {
            (self.with_state(SyncStateView::Creating), SyncActionView::CreateFile(self.file))
        }
    }

    /// The guard stopped with `outcome`.
    pub open spec fn finish(self, outcome: Result<(), CliErrorView>) -> (
        SchemaSyncView,
        SyncActionView,
    ) {
        (self.with_state(SyncStateView::Finished { outcome }), SyncActionView::Finish(outcome))
    }

    /// The verdict of the locked comparison.
    pub open spec fn verdict(self, fresh: Seq<u8>, on_disk: Seq<u8>) -> Result<(), CliErrorView> {
        if fresh == on_disk {
            Ok(())
        } else {
            Err(CliErrorView::SchemaOutOfSync(self.file))
        }
    }

    /// The next state and the next action, given what the caller reports.
    /// A failure of what was asked for ends the guard with that failure. A
    /// report that does not answer what was asked for changes nothing, and
    /// the same is asked for again.
    pub open spec fn step(self, event: SyncEventView) -> (SchemaSyncView, SyncActionView) {
        match (self.state, event) {
            (SyncStateView::Finished { .. }, _) => (self, self.pending()),
            (_, SyncEventView::Failed(message)) => self.finish(
                Err(CliErrorView::External(message)),
            ),
            (SyncStateView::EnsuringParent { .. }, SyncEventView::DirectoriesCreated) =>
                self.begin(),
            (SyncStateView::Rendering, SyncEventView::Rendered(fresh)) => (
                self.with_state(SyncStateView::Reading { fresh }),
                SyncActionView::ReadFile(self.file),
            ),
            (SyncStateView::Reading { fresh }, SyncEventView::FileRead(on_disk)) => self.finish(
                self.verdict(fresh, on_disk),
            ),
            (SyncStateView::Creating, SyncEventView::FileCreated) => (
                self.with_state(SyncStateView::RenderingInto),
                SyncActionView::Render(self.request),
            ),
            (SyncStateView::RenderingInto, SyncEventView::Rendered(fresh)) => (
                self.with_state(SyncStateView::Writing { fresh }),
                SyncActionView::WriteFile(self.file, fresh),
            ),
            (SyncStateView::Writing { .. }, SyncEventView::FileWritten) => self.finish(Ok(())),
            _ => (self, self.pending()),
        }
    }
}

/// The guard at its start, for a database and the settings of the
/// configuration: nothing to do where the settings name no schema file; else
/// the directories above the file come first, where it has any. Every
/// rendering is given the database and the settings as they came.
pub open spec fn start_spec(settings: PrintSchemaView, database_url: Seq<char>, locked: bool) -> (
    SchemaSyncView,
    SyncActionView,
) {
    let request = RenderRequestView { database_url, settings };
    let done = SyncStateView::Finished { outcome: Ok(()) };
    match settings.file {
        None => SchemaSyncView { file: Seq::empty(), locked, request, state: done }.finish(Ok(())),
        Some(f) => {
            if f.len() > 1 && !(f.last() is Root) {
                let dir = f.drop_last();
                (
                    SchemaSyncView {
                        file: f,
                        locked,
                        request,
                        state: SyncStateView::EnsuringParent { dir },
                    },
                    SyncActionView::CreateDirectories(dir),
                )
            } else {
                SchemaSyncView { file: f, locked, request, state: done }.begin()
            }
        },
    }
}

/// Whether two byte strings are the same.
pub fn same_bytes(a: &Vec<u8>, b: &Vec<u8>) -> (r: bool)
    ensures
        r == (a@ == b@),
{
    if a.len() != b.len() {
        return false;
    }
    let mut i: usize = 0;
    while i < a.len()
        invariant
            a.len() == b.len(),
            i <= a.len(),
            forall|k: int| 0 <= k < i ==> a@[k] == b@[k],
        decreases a.len() - i,
    {
        if a[i] != b[i] {
            return false;
        }
        i = i + 1;
    }
    assert(a@ =~= b@);
    true
}

fn copy_bytes(a: &Vec<u8>) -> (r: Vec<u8>)
    ensures
        r@ == a@,
{
    let mut out: Vec<u8> = Vec::new();
    let mut i: usize = 0;
    while i < a.len()
        invariant
            i <= a.len(),
            out@ =~= a@.take(i as int),
        decreases a.len() - i,
    {
        out.push(a[i]);
        i = i + 1;
    }
    assert(a@.take(a.len() as int) =~= a@);
    out
}

impl SchemaSync {
    fn pending(&self) -> (r: SyncAction)
        ensures
            r@ == self@.pending(),
    {
        match &self.state {
            SyncState::EnsuringParent { dir } => SyncAction::CreateDirectories(dir.clone()),
            SyncState::Rendering => SyncAction::Render(self.request.clone()),
            SyncState::Reading { .. } => SyncAction::ReadFile(self.file.clone()),
            SyncState::Creating => SyncAction::CreateFile(self.file.clone()),
            SyncState::RenderingInto => SyncAction::Render(self.request.clone()),
            SyncState::Writing { fresh } => SyncAction::WriteFile(
                self.file.clone(),
                copy_bytes(fresh),
            ),
            SyncState::Finished { outcome } => SyncAction::Finish(clone_outcome(outcome)),
        }
    }

    fn with_state(self, state: SyncState) -> (r: SchemaSync)
        ensures
            r@ == self@.with_state(state@),
    {
        SchemaSync { file: self.file, locked: self.locked, request: self.request, state }
    }

    fn begin(self) -> (r: (SchemaSync, SyncAction))
        ensures
            (r.0@, r.1@) == self@.begin(),
    {
        if self.locked {
            let request: RenderRequest = self.request.clone();
            (self.with_state(SyncState::Rendering), SyncAction::Render(request))
        } else {
            let target: FsPath = self.file.clone();
            (self.with_state(SyncState::Creating), SyncAction::CreateFile(target))
        }
    }

    fn finish(self, outcome: Result<(), CliError>) -> (r: (SchemaSync, SyncAction))
        ensures
            (r.0@, r.1@) == self@.finish(outcome_view(outcome)),
    {
        let shown: Result<(), CliError> = clone_outcome(&outcome);
        (self.with_state(SyncState::Finished { outcome }), SyncAction::Finish(shown))
    }

    /// Whether nothing is left to do.
    pub fn is_finished(&self) -> (r: bool)
        ensures
            r == (self@.state is Finished),
    {
        match &self.state {
            SyncState::Finished { .. } => true,
            _ => false,
        }
    }

    /// Takes in what the caller reports and says what to do next.
    pub fn step(self, event: SyncEvent) -> (r: (SchemaSync, SyncAction))
        ensures
            (r.0@, r.1@) == self@.step(event@),
            self@.consistent() ==> r.0@.consistent(),
    {
        let SchemaSync { file, locked, request, state } = self;
        let guard = SchemaSync { file, locked, request, state: SyncState::Creating };
        match (state, event) {
            (SyncState::Finished { outcome }, _) => {
                let same = guard.with_state(SyncState::Finished { outcome });
                let again: SyncAction = same.pending();
                (same, again)
            },
            (state, SyncEvent::Failed(message)) => {
                guard.with_state(state).finish(Err(CliError::External(message)))
            },
            (SyncState::EnsuringParent { dir }, SyncEvent::DirectoriesCreated) => {
                guard.with_state(SyncState::EnsuringParent { dir }).begin()
            },
            (SyncState::Rendering, SyncEvent::Rendered(fresh)) => {
                let target: FsPath = guard.file.clone();
                (guard.with_state(SyncState::Reading { fresh }), SyncAction::ReadFile(target))
            },
            (SyncState::Reading { fresh }, SyncEvent::FileRead(on_disk)) => {
                let outcome: Result<(), CliError> = if same_bytes(&fresh, &on_disk) {
                    Ok(())
                } else {
                    Err(CliError::SchemaOutOfSync(guard.file.clone()))
                };
                guard.with_state(SyncState::Reading { fresh }).finish(outcome)
            },
            (SyncState::Creating, SyncEvent::FileCreated) => {
                let request: RenderRequest = guard.request.clone();
                (guard.with_state(SyncState::RenderingInto), SyncAction::Render(request))
            },
            (SyncState::RenderingInto, SyncEvent::Rendered(fresh)) => {
                let target: FsPath = guard.file.clone();
                let bytes: Vec<u8> = copy_bytes(&fresh);
                (
                    guard.with_state(SyncState::Writing { fresh }),
                    SyncAction::WriteFile(target, bytes),
                )
            },
            (SyncState::Writing { fresh }, SyncEvent::FileWritten) => {
                guard.with_state(SyncState::Writing { fresh }).finish(Ok(()))
            },
            (state, _) => {
                let same = guard.with_state(state);
                let again: SyncAction = same.pending();
                (same, again)
            },
        }
    }
}

/// Starts the guard for a command that has run on the database at
/// `database_url`: with the schema file that the configuration names, if it
/// names one, and in locked mode if the command asked for it.
pub fn regenerate_schema_if_file_specified(config: &Config, database_url: &str, locked: bool) -> (r:
    (SchemaSync, SyncAction))
    ensures
        (r.0@, r.1@) == start_spec(config.print_schema@, database_url@, locked),
        r.0@.consistent(),
{
    let request = RenderRequest {
        database_url: String::from_str(database_url),
        settings: config.print_schema.clone(),
    };
    let done: SyncState = SyncState::Finished { outcome: Ok(()) };
    match &config.print_schema.file {
        None => SchemaSync { file: FsPath::empty(), locked, request, state: done }.finish(Ok(())),
        Some(f) => {
            let guard = SchemaSync { file: f.clone(), locked, request, state: done };
            match f.parent() {
                Some(p) => {
                    if p.len() > 0 {
                        let dir: FsPath = p.clone();
                        (
                            guard.with_state(SyncState::EnsuringParent { dir }),
                            SyncAction::CreateDirectories(p),
                        )
                    } else {
                        guard.begin()
                    }
                },
                None => guard.begin(),
            }
        },
    }
}

/// Every rendering is given the database and the settings that the guard
/// was started with, unchanged: a step changes neither, and a rendering that
/// is asked for is asked for with them.
pub proof fn lemma_render_request_is_handed_on(
    settings: PrintSchemaView,
    database_url: Seq<char>,
    locked: bool,
    guard: SchemaSyncView,
    event: SyncEventView,
)
    ensures
        start_spec(settings, database_url, locked).0.request == (RenderRequestView {
            database_url,
            settings,
        }),
        start_spec(settings, database_url, locked).1 matches SyncActionView::Render(r) ==> r
            == (RenderRequestView { database_url, settings }),
        guard.step(event).0.request == guard.request,
        guard.step(event).0.file == guard.file,
        guard.step(event).0.locked == guard.locked,
        guard.step(event).1 matches SyncActionView::Render(r) ==> r == guard.request,
{
}

/// A locked guard never asks for the schema file to be created or written,
/// whatever is reported to it.
pub proof fn lemma_locked_never_writes(guard: SchemaSyncView, event: SyncEventView)
    requires
        guard.locked,
        guard.consistent(),
    ensures
        guard.step(event).0.locked,
        guard.step(event).0.consistent(),
        !(guard.step(event).1 is CreateFile),
        !(guard.step(event).1 is WriteFile),
{
}

/// The locked comparison passes exactly when the file holds what was
/// rendered; in particular a schema rendered twice from one database state
/// shows no drift. Where it fails, it names the file.
pub proof fn lemma_locked_verdict(
    file: Seq<Segment>,
    request: RenderRequestView,
    fresh: Seq<u8>,
    on_disk: Seq<u8>,
)
    ensures
        ({
            let rendering = SchemaSyncView {
                file,
                locked: true,
                request,
                state: SyncStateView::Rendering,
            };
            let reading = rendering.step(SyncEventView::Rendered(fresh));
            let done = reading.0.step(SyncEventView::FileRead(on_disk));
            &&& reading.1 == SyncActionView::ReadFile(file)
            &&& fresh == on_disk ==> done.1 == SyncActionView::Finish(Ok(()))
            &&& fresh != on_disk ==> done.1 == SyncActionView::Finish(
                Err(CliErrorView::SchemaOutOfSync(file)),
            )
            &&& done.0.state is Finished
        }),
{
}

/// An unlocked guard writes what was rendered over the schema file without
/// ever reading it: the file is created or emptied, the schema rendered, and
/// the bytes written, whatever the file held and whether or not it was there.
pub proof fn lemma_unlocked_overwrites(
    file: Seq<Segment>,
    request: RenderRequestView,
    fresh: Seq<u8>,
)
    ensures
        ({
            let parent = SchemaSyncView {
                file,
                locked: false,
                request,
                state: SyncStateView::EnsuringParent { dir: file.drop_last() },
            };
            let creating = parent.step(SyncEventView::DirectoriesCreated);
            let rendering = creating.0.step(SyncEventView::FileCreated);
            let writing = rendering.0.step(SyncEventView::Rendered(fresh));
            let done = writing.0.step(SyncEventView::FileWritten);
            &&& creating.1 == SyncActionView::CreateFile(file)
            &&& rendering.1 == SyncActionView::Render(request)
            &&& writing.1 == SyncActionView::WriteFile(file, fresh)
            &&& done.1 == SyncActionView::Finish(Ok(()))
        }),
{
}

/// An unlocked guard never asks for the schema file to be read.
pub proof fn lemma_unlocked_never_reads(guard: SchemaSyncView, event: SyncEventView)
    requires
        !guard.locked,
        guard.consistent(),
    ensures
        !guard.step(event).0.locked,
        guard.step(event).0.consistent(),
        !(guard.step(event).1 is ReadFile),
{
}

/// What the guard asks for, one action for each report of `events`.
pub open spec fn actions_after(guard: SchemaSyncView, events: Seq<SyncEventView>) -> Seq<
    SyncActionView,
>
    decreases events.len(),
{
    if events.len() == 0 {
        Seq::empty()
    } else {
        let next = guard.step(events[0]);
        seq![next.1] + actions_after(next.0, events.drop_first())
    }
}

/// In locked mode the schema file is left as it is: whatever is reported
/// and however often, the guard asks neither for the file to be created nor
/// for anything to be written to it.
pub proof fn lemma_locked_run_never_writes(
    settings: PrintSchemaView,
    database_url: Seq<char>,
    events: Seq<SyncEventView>,
    i: int,
)
    requires
        0 <= i < events.len(),
    ensures
        !(start_spec(settings, database_url, true).1 is CreateFile),
        !(start_spec(settings, database_url, true).1 is WriteFile),
        !(actions_after(start_spec(settings, database_url, true).0, events)[i] is CreateFile),
        !(actions_after(start_spec(settings, database_url, true).0, events)[i] is WriteFile),
{
    lemma_locked_actions(start_spec(settings, database_url, true).0, events, i);
}

/// An unlocked run starts without reading the schema file.
pub proof fn lemma_unlocked_start_never_reads(settings: PrintSchemaView, database_url: Seq<char>)
    ensures
        !(start_spec(settings, database_url, false).1 is ReadFile),
        start_spec(settings, database_url, false).0.consistent(),
        !start_spec(settings, database_url, false).0.locked,
{
}

proof fn lemma_locked_actions(guard: SchemaSyncView, events: Seq<SyncEventView>, i: int)
    requires
        guard.locked,
        guard.consistent(),
        0 <= i < events.len(),
    ensures
        actions_after(guard, events).len() == events.len(),
        !(actions_after(guard, events)[i] is CreateFile),
        !(actions_after(guard, events)[i] is WriteFile),
    decreases events.len(),
{
    let next = guard.step(events[0]);
    lemma_locked_never_writes(guard, events[0]);
    lemma_actions_len(next.0, events.drop_first());
    if i > 0 {
        lemma_locked_actions(next.0, events.drop_first(), i - 1);
    }
}

proof fn lemma_actions_len(guard: SchemaSyncView, events: Seq<SyncEventView>)
    ensures
        actions_after(guard, events).len() == events.len(),
    decreases events.len(),
{
    if events.len() > 0 {
        lemma_actions_len(guard.step(events[0]).0, events.drop_first());
    }
}

} // verus!
