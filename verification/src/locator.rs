//! Finding the migrations directory of a command. The directory named on
//! the command line wins over the one in the environment, that one over the
//! one in the configuration, and where none is named the directory is
//! searched for. The locator here decides; its caller looks at the file
//! system and reports back what it saw.

use crate::config::{Config, ConfigView};
use crate::error::{CliError, CliErrorView};
use crate::path::{clone_opt_path, join_spec, opt_path, parse_spec, FsPath, Segment};
use crate::project_root::{
    find_project_root, root_start, ProjectRootSearch, ProjectRootSearchView, SearchAction,
    SearchActionView,
};
use crate::text::{clone_opt_text, opt_text};
use vstd::prelude::*;
use vstd::string::*;

verus! {

/// The values of the directories given on the command line.
pub open spec fn scopes_view(v: Seq<Option<FsPath>>) -> Seq<Option<Seq<Segment>>> {
    Seq::new(v.len(), |i: int| opt_path(v[i]))
}

/// The value of an optional configuration.
pub open spec fn opt_config(o: Option<Config>) -> Option<ConfigView> {
    match o {
        Some(c) => Some(c@),
        None => None,
    }
}

/// The mathematical value of what a command was invoked with.
pub struct InvocationContextView {
    pub cli_directories: Seq<Option<Seq<Segment>>>,
    pub env_directory: Option<Seq<Segment>>,
    pub config: Option<ConfigView>,
    pub working_directory: Seq<Segment>,
}

/// What a command was invoked with, as far as the choice of the migrations
/// directory goes.
#[derive(Debug, PartialEq, Eq)]
pub struct InvocationContext {
    /// The migrations directory as the command line gives it: for the
    /// subcommand itself first, then for each subcommand around it, the
    /// nearest first.
    pub cli_directories: Vec<Option<FsPath>>,
    /// The migrations directory that the environment names.
    pub env_directory: Option<FsPath>,
    /// The project configuration, where there is one.
    pub config: Option<Config>,
    /// The directory that the command runs in.
    pub working_directory: FsPath,
}

impl View for InvocationContext {
    type V = InvocationContextView;

    open spec fn view(&self) -> InvocationContextView {
        InvocationContextView {
            cli_directories: scopes_view(self.cli_directories@),
            env_directory: opt_path(self.env_directory),
            config: opt_config(self.config),
            working_directory: self.working_directory@,
        }
    }
}

/// The first of the values that is there.
pub open spec fn first_populated(scopes: Seq<Option<Seq<Segment>>>) -> Option<Seq<Segment>>
    decreases scopes.len(),
{
    if scopes.len() == 0 {
        None
    } else if scopes[0] is Some {
        scopes[0]
    } else {
        first_populated(scopes.drop_first())
    }
}

/// The directory that the configuration names.
pub open spec fn config_directory(config: Option<ConfigView>) -> Option<Seq<Segment>> {
    match config {
        Some(c) => c.migrations_directory,
        None => None,
    }
}

/// The directory that the invocation names: on the command line, else in
/// the environment, else in the configuration.
pub open spec fn configured(ctx: InvocationContextView) -> Option<Seq<Segment>> {
    if first_populated(ctx.cli_directories) is Some {
        first_populated(ctx.cli_directories)
    } else if ctx.env_directory is Some {
        ctx.env_directory
    } else {
        config_directory(ctx.config)
    }
}

/// The migrations directory that the command line gives: that of the
/// nearest scope that gives one.
pub fn migrations_dir_from_cli(scopes: &Vec<Option<FsPath>>) -> (r: Option<FsPath>)
    ensures
        opt_path(r) == first_populated(scopes_view(scopes@)),
{
    let ghost all = scopes_view(scopes@);
    let mut i: usize = 0;
    proof {
        assert(all.skip(0) =~= all);
    }
    while i < scopes.len()
        invariant
            i <= scopes.len(),
            all == scopes_view(scopes@),
            first_populated(all) == first_populated(all.skip(i as int)),
        decreases scopes.len() - i,
    {
        proof {
            assert(all.skip(i as int)[0] == opt_path(scopes@[i as int]));
            assert(all.skip(i as int).drop_first() =~= all.skip(i + 1));
        }
        match &scopes[i] {
            Some(p) => {
                return Some(p.clone());
            },
            None => {},
        }
        i = i + 1;
    }
    None
}

/// Whether the configuration is consulted for the migrations directory:
/// only where neither the command line nor the environment names one.
pub open spec fn consults_configuration(
    cli_directories: Seq<Option<Seq<Segment>>>,
    env_directory: Option<Seq<Segment>>,
) -> bool {
    first_populated(cli_directories) is None && env_directory is None
}

/// Whether the configuration has to be read to find the migrations
/// directory. Where it has not, the invocation can go without one.
pub fn needs_configuration(
    cli_directories: &Vec<Option<FsPath>>,
    env_directory: &Option<FsPath>,
) -> (r: bool)
    ensures
        r == consults_configuration(scopes_view(cli_directories@), opt_path(*env_directory)),
{
    migrations_dir_from_cli(cli_directories).is_none() && env_directory.is_none()
}

/// A configuration that is not consulted changes nothing: where the command
/// line or the environment names the directory, the locator starts the same
/// way with any configuration and with none.
pub proof fn lemma_unread_configuration(
    ctx: InvocationContextView,
    other: Option<ConfigView>,
    purpose: Purpose,
)
    requires
        !consults_configuration(ctx.cli_directories, ctx.env_directory),
    ensures
        locate_start(InvocationContextView { config: other, ..ctx }, purpose) == locate_start(
            ctx,
            purpose,
        ),
{
}

/// The directory that the invocation names, by the order of the three
/// sources.
pub fn configured_directory(ctx: &InvocationContext) -> (r: Option<FsPath>)
    ensures
        opt_path(r) == configured(ctx@),
{
    match migrations_dir_from_cli(&ctx.cli_directories) {
        Some(dir) => Some(dir),
        None => match &ctx.env_directory {
            Some(dir) => Some(dir.clone()),
            None => match &ctx.config {
                Some(config) => clone_opt_path(&config.migrations_directory),
                None => None,
            },
        },
    }
}

/// The mathematical value of an entry of a directory.
pub struct DirEntryView {
    pub name: Seq<char>,
    pub is_file: bool,
}

/// An entry of a directory.
#[derive(Debug, PartialEq, Eq)]
pub struct DirEntry {
    pub name: String,
    pub is_file: bool,
}

impl View for DirEntry {
    type V = DirEntryView;

    open spec fn view(&self) -> DirEntryView {
        DirEntryView { name: self.name@, is_file: self.is_file }
    }
}

/// The values of the entries of a directory.
pub open spec fn entries_view(v: Seq<DirEntry>) -> Seq<DirEntryView> {
    Seq::new(v.len(), |i: int| v[i]@)
}

/// The name of the file that older versions left in the migrations
/// directory.
pub open spec fn legacy_keep_name() -> Seq<char> {
    ".gitkeep"@
}

/// The directory holds the file that older versions left there.
pub open spec fn has_legacy_keep(entries: Seq<DirEntryView>) -> bool {
    exists|i: int|
        0 <= i < entries.len() && (#[trigger] entries[i]).is_file && entries[i].name
            == legacy_keep_name()
}

/// Whether the directory holds the file that older versions left there.
pub fn holds_legacy_keep(entries: &Vec<DirEntry>) -> (r: bool)
    ensures
        r == has_legacy_keep(entries_view(entries@)),
{
    let ghost all = entries_view(entries@);
    let legacy: String = String::from_str(".gitkeep");
    let mut i: usize = 0;
    while i < entries.len()
        invariant
            i <= entries.len(),
            all == entries_view(entries@),
            legacy@ == legacy_keep_name(),
            forall|k: int|
                0 <= k < i ==> !((#[trigger] all[k]).is_file && all[k].name
                    == legacy_keep_name()),
        decreases entries.len() - i,
    {
        if entries[i].is_file && entries[i].name == legacy {
            assert(all[i as int].is_file && all[i as int].name == legacy_keep_name());
            return true;
        }
        i = i + 1;
    }
    false
}

/// The mathematical value of what the caller saw of a path.
pub struct InspectionView {
    pub exists: bool,
    pub is_directory: bool,
    pub entries: Option<Seq<DirEntryView>>,
}

/// What the caller saw of a path.
#[derive(Debug, PartialEq, Eq)]
pub struct Inspection {
    /// Something is there.
    pub exists: bool,
    /// A directory is there.
    pub is_directory: bool,
    /// What the directory holds, where it could be read.
    pub entries: Option<Vec<DirEntry>>,
}

impl View for Inspection {
    type V = InspectionView;

    open spec fn view(&self) -> InspectionView {
        InspectionView {
            exists: self.exists,
            is_directory: self.is_directory,
            entries: match self.entries {
                Some(v) => Some(entries_view(v@)),
                None => None,
            },
        }
    }
}

/// What the directory is wanted for.
#[derive(Debug, Clone, Copy, PartialEq, Eq, Structural)]
pub enum Purpose {
    /// The migrations in it are run, reverted or listed: it has to be there.
    Execute,
    /// The project is set up: a directory that is missing is made.
    Setup,
}

/// The mathematical value of a resolution.
pub enum ResolutionView {
    Found { dir: Seq<Segment>, warning: Option<Seq<char>> },
    Create { dir: Seq<Segment>, warning: Option<Seq<char>> },
    Failed(CliErrorView),
}

/// What the search for the migrations directory came to.
#[derive(Debug, PartialEq, Eq)]
pub enum Resolution {
    /// The migrations directory, which exists. The warning, if any, is to be
    /// shown; it is no failure.
    Found { dir: FsPath, warning: Option<String> },
    /// The migrations directory, which is to be made.
    Create { dir: FsPath, warning: Option<String> },
    /// There is no migrations directory.
    Failed(CliError),
}

impl View for Resolution {
    type V = ResolutionView;

    open spec fn view(&self) -> ResolutionView {
        match self {
            Resolution::Found { dir, warning } => ResolutionView::Found {
                dir: dir@,
                warning: opt_text(*warning),
            },
            Resolution::Create { dir, warning } => ResolutionView::Create {
                dir: dir@,
                warning: opt_text(*warning),
            },
            Resolution::Failed(e) => ResolutionView::Failed(e@),
        }
    }
}

impl Clone for Resolution {
    fn clone(&self) -> (r: Self)
        ensures
            r@ == self@,
    {
        match self {
            Resolution::Found { dir, warning } => Resolution::Found {
                dir: dir.clone(),
                warning: clone_opt_text(warning),
            },
            Resolution::Create { dir, warning } => Resolution::Create {
                dir: dir.clone(),
                warning: clone_opt_text(warning),
            },
            Resolution::Failed(e) => Resolution::Failed(e.clone()),
        }
    }
}

/// The mathematical value of what the locator waits for.
pub enum LocatorStateView {
    Inspecting { dir: Seq<Segment> },
    Cleaning { dir: Seq<Segment>, exists: bool, is_directory: bool },
    Searching,
    SeekingRoot { search: ProjectRootSearchView },
    CheckingNew { dir: Seq<Segment> },
    Finished { resolution: ResolutionView },
}

/// What the locator waits for.
#[derive(Debug, PartialEq, Eq)]
pub enum LocatorState {
    /// The directory that the invocation names is being looked at.
    Inspecting { dir: FsPath },
    /// The file that older versions left in the directory is being deleted.
    Cleaning { dir: FsPath, exists: bool, is_directory: bool },
    /// The migrations directory is being searched for, from the working
    /// directory upward.
    Searching,
    /// The project root is being searched for.
    SeekingRoot { search: ProjectRootSearch },
    /// The directory `migrations` in the project root is being looked at.
    CheckingNew { dir: FsPath },
    /// Nothing is left to do.
    Finished { resolution: Resolution },
}

impl View for LocatorState {
    type V = LocatorStateView;

    open spec fn view(&self) -> LocatorStateView {
        match self {
            LocatorState::Inspecting { dir } => LocatorStateView::Inspecting { dir: dir@ },
            LocatorState::Cleaning { dir, exists, is_directory } => LocatorStateView::Cleaning {
                dir: dir@,
                exists: *exists,
                is_directory: *is_directory,
            },
            LocatorState::Searching => LocatorStateView::Searching,
            LocatorState::SeekingRoot { search } => LocatorStateView::SeekingRoot {
                search: search@,
            },
            LocatorState::CheckingNew { dir } => LocatorStateView::CheckingNew { dir: dir@ },
            LocatorState::Finished { resolution } => LocatorStateView::Finished {
                resolution: resolution@,
            },
        }
    }
}

/// The mathematical value of the locator.
pub struct DirectoryLocatorView {
    pub purpose: Purpose,
    pub working_directory: Seq<Segment>,
    pub state: LocatorStateView,
}

/// The locator of one command.
#[derive(Debug, PartialEq, Eq)]
pub struct DirectoryLocator {
    pub purpose: Purpose,
    pub working_directory: FsPath,
    pub state: LocatorState,
}

impl View for DirectoryLocator {
    type V = DirectoryLocatorView;

    open spec fn view(&self) -> DirectoryLocatorView {
        DirectoryLocatorView {
            purpose: self.purpose,
            working_directory: self.working_directory@,
            state: self.state@,
        }
    }
}

/// The mathematical value of what the caller reports.
pub enum LocatorEventView {
    Inspected(InspectionView),
    Removed(Option<Seq<char>>),
    Searched(Option<Seq<Segment>>),
    Probed(bool),
}

/// What the caller reports back.
#[derive(Debug, PartialEq, Eq)]
pub enum LocatorEvent {
    /// What was seen of the path.
    Inspected(Inspection),
    /// The file is deleted, or it could not be, with this message.
    Removed(Option<String>),
    /// The migrations directory that the search found, if it found one.
    Searched(Option<FsPath>),
    /// Whether the path is a file.
    Probed(bool),
}

impl View for LocatorEvent {
    type V = LocatorEventView;

    open spec fn view(&self) -> LocatorEventView {
        match self {
            LocatorEvent::Inspected(i) => LocatorEventView::Inspected(i@),
            LocatorEvent::Removed(m) => LocatorEventView::Removed(opt_text(*m)),
            LocatorEvent::Searched(p) => LocatorEventView::Searched(opt_path(*p)),
            LocatorEvent::Probed(b) => LocatorEventView::Probed(*b),
        }
    }
}

/// The mathematical value of what the caller is asked to do.
pub enum LocatorActionView {
    Inspect(Seq<Segment>),
    RemoveFile(Seq<Segment>),
    Search,
    Probe(Seq<Segment>),
    Finish(ResolutionView),
}

/// What the caller is asked to do next.
#[derive(Debug, PartialEq, Eq)]
pub enum LocatorAction {
    /// Say whether the path exists and is a directory, and what it holds.
    Inspect(FsPath),
    /// Delete the file.
    RemoveFile(FsPath),
    /// Search for the migrations directory, from the working directory
    /// upward.
    Search,
    /// Say whether the path is a file.
    Probe(FsPath),
    /// Stop, with this resolution.
    Finish(Resolution),
}

impl View for LocatorAction {
    type V = LocatorActionView;

    open spec fn view(&self) -> LocatorActionView {
        match self {
            LocatorAction::Inspect(p) => LocatorActionView::Inspect(p@),
            LocatorAction::RemoveFile(p) => LocatorActionView::RemoveFile(p@),
            LocatorAction::Search => LocatorActionView::Search,
            LocatorAction::Probe(p) => LocatorActionView::Probe(p@),
            LocatorAction::Finish(r) => LocatorActionView::Finish(r@),
        }
    }
}

/// The path of the file that older versions left in `dir`.
pub open spec fn legacy_keep_path(dir: Seq<Segment>) -> Seq<Segment> {
    join_spec(dir, parse_spec(legacy_keep_name()))
}

/// The migrations directory of a project with the root `root`.
pub open spec fn default_directory(root: Seq<Segment>) -> Seq<Segment> {
    join_spec(root, parse_spec("migrations"@))
}

/// The warning for a file that could not be deleted.
pub open spec fn removal_warning(error: Option<Seq<char>>) -> Option<Seq<char>> {
    match error {
        Some(e) => Some("WARNING: Unable to delete existing `migrations/.gitkeep`:\n"@ + e),
        None => None,
    }
}

/// What a directory that was looked at resolves to: for running
/// migrations it has to be a directory; for the setup a path where nothing
/// is yet is to be made.
pub open spec fn settle(
    purpose: Purpose,
    dir: Seq<Segment>,
    exists: bool,
    is_directory: bool,
    warning: Option<Seq<char>>,
) -> ResolutionView {
    if purpose is Setup && !exists {
        ResolutionView::Create { dir, warning }
    } else if is_directory {
        ResolutionView::Found { dir, warning }
    } else {
        ResolutionView::Failed(CliErrorView::DirectoryNotFound)
    }
}

impl DirectoryLocatorView {
    /// The locator in another state.
    pub open spec fn with_state(self, state: LocatorStateView) -> DirectoryLocatorView {
        DirectoryLocatorView { state, ..self }
    }

    /// The locator stopped with `resolution`.
    pub open spec fn finish(self, resolution: ResolutionView) -> (
        DirectoryLocatorView,
        LocatorActionView,
    ) {
        (
            self.with_state(LocatorStateView::Finished { resolution }),
            LocatorActionView::Finish(resolution),
        )
    }

    /// What the locator has asked for and waits to hear of.
    pub open spec fn pending(self) -> LocatorActionView {
        match self.state {
            LocatorStateView::Inspecting { dir } => LocatorActionView::Inspect(dir),
            LocatorStateView::Cleaning { dir, .. } => LocatorActionView::RemoveFile(
                legacy_keep_path(dir),
            ),
            LocatorStateView::Searching => LocatorActionView::Search,
            LocatorStateView::SeekingRoot { search } => LocatorActionView::Probe(
                search.search.candidate(),
            ),
            LocatorStateView::CheckingNew { dir } => LocatorActionView::Inspect(dir),
            LocatorStateView::Finished { resolution } => LocatorActionView::Finish(resolution),
        }
    }

    /// The locator after the search for the project root has said `action`.
    pub open spec fn after_root_step(
        self,
        search: ProjectRootSearchView,
        action: SearchActionView,
    ) -> (DirectoryLocatorView, LocatorActionView) {
        match action {
            SearchActionView::Probe(p) => (
                self.with_state(LocatorStateView::SeekingRoot { search }),
                LocatorActionView::Probe(p),
            ),
            SearchActionView::Finish(Ok(root)) => (
                self.with_state(LocatorStateView::CheckingNew { dir: default_directory(root) }),
                LocatorActionView::Inspect(default_directory(root)),
            ),
            SearchActionView::Finish(Err(e)) => self.finish(ResolutionView::Failed(e)),
        }
    }

    /// The next state and the next action, given what the caller reports.
    /// A report that does not answer what was asked for changes nothing, and
    /// the same is asked for again.
    pub open spec fn step(self, event: LocatorEventView) -> (
        DirectoryLocatorView,
        LocatorActionView,
    ) {
        match (self.state, event) {
            (LocatorStateView::Inspecting { dir }, LocatorEventView::Inspected(seen)) => {
                if seen.entries is Some && has_legacy_keep(seen.entries->0) {
                    (
                        self.with_state(
                            LocatorStateView::Cleaning {
                                dir,
                                exists: seen.exists,
                                is_directory: seen.is_directory,
                            },
                        ),
                        LocatorActionView::RemoveFile(legacy_keep_path(dir)),
                    )
                } else {
                    self.finish(settle(self.purpose, dir, seen.exists, seen.is_directory, None))
                }
            },
            (
                LocatorStateView::Cleaning { dir, exists, is_directory },
                LocatorEventView::Removed(error),
            ) => self.finish(
                settle(self.purpose, dir, exists, is_directory, removal_warning(error)),
            ),
            (LocatorStateView::Searching, LocatorEventView::Searched(Some(dir))) => self.finish(
                ResolutionView::Found { dir, warning: None },
            ),
            (LocatorStateView::Searching, LocatorEventView::Searched(None)) => {
                if self.purpose is Setup {
                    let begun = root_start(self.working_directory);
                    self.after_root_step(begun.0, begun.1)
                } else {
                    self.finish(ResolutionView::Failed(CliErrorView::DirectoryNotFound))
                }
            },
            (LocatorStateView::SeekingRoot { search }, LocatorEventView::Probed(is_file)) => {
                let next = search.step(is_file);
                self.after_root_step(next.0, next.1)
            },
            (LocatorStateView::CheckingNew { dir }, LocatorEventView::Inspected(seen)) => {
                self.finish(settle(self.purpose, dir, seen.exists, seen.is_directory, None))
            },
            _ => (self, self.pending()),
        }
    }
}

/// The locator at its start: a directory that the invocation names is
/// looked at; without one the directory is searched for.
pub open spec fn locate_start(ctx: InvocationContextView, purpose: Purpose) -> (
    DirectoryLocatorView,
    LocatorActionView,
) {
    match configured(ctx) {
        Some(dir) => (
            DirectoryLocatorView {
                purpose,
                working_directory: ctx.working_directory,
                state: LocatorStateView::Inspecting { dir },
            },
            LocatorActionView::Inspect(dir),
        ),
        None => (
            DirectoryLocatorView {
                purpose,
                working_directory: ctx.working_directory,
                state: LocatorStateView::Searching,
            },
            LocatorActionView::Search,
        ),
    }
}

fn legacy_keep(dir: &FsPath) -> (r: FsPath)
    ensures
        r@ == legacy_keep_path(dir@),
{
    dir.join(&FsPath::parse(".gitkeep"))
}

fn warning_of(error: Option<String>) -> (r: Option<String>)
    ensures
        opt_text(r) == removal_warning(opt_text(error)),
{
    match error {
        Some(e) => {
            let mut text: String = String::from_str(
                "WARNING: Unable to delete existing `migrations/.gitkeep`:\n",
            );
            text.append(e.as_str());
            Some(text)
        },
        None => None,
    }
}

fn settle_exec(
    purpose: Purpose,
    dir: FsPath,
    exists: bool,
    is_directory: bool,
    warning: Option<String>,
) -> (r: Resolution)
    ensures
        r@ == settle(purpose, dir@, exists, is_directory, opt_text(warning)),
{
    let setup: bool = match purpose {
        Purpose::Setup => true,
        Purpose::Execute => false,
    };
    if setup && !exists {
        Resolution::Create { dir, warning }
    } else if is_directory {
        Resolution::Found { dir, warning }
    } else {
        Resolution::Failed(CliError::DirectoryNotFound)
    }
}

impl DirectoryLocator {
    fn finish(self, resolution: Resolution) -> (r: (DirectoryLocator, LocatorAction))
        ensures
            (r.0@, r.1@) == self@.finish(resolution@),
    {
        let shown: Resolution = resolution.clone();
        (
            DirectoryLocator {
                purpose: self.purpose,
                working_directory: self.working_directory,
                state: LocatorState::Finished { resolution },
            },
            LocatorAction::Finish(shown),
        )
    }

    fn pending(&self) -> (r: LocatorAction)
        ensures
            r@ == self@.pending(),
    {
        match &self.state {
            LocatorState::Inspecting { dir } => LocatorAction::Inspect(dir.clone()),
            LocatorState::Cleaning { dir, .. } => LocatorAction::RemoveFile(legacy_keep(dir)),
            LocatorState::Searching => LocatorAction::Search,
            LocatorState::SeekingRoot { search } => LocatorAction::Probe(
                search.search.at.join(&FsPath::parse(search.search.file.as_str())),
            ),
            LocatorState::CheckingNew { dir } => LocatorAction::Inspect(dir.clone()),
            LocatorState::Finished { resolution } => LocatorAction::Finish(resolution.clone()),
        }
    }

    fn after_root_step(self, search: ProjectRootSearch, action: SearchAction) -> (r: (
        DirectoryLocator,
        LocatorAction,
    ))
        ensures
            (r.0@, r.1@) == self@.after_root_step(search@, action@),
    {
        let DirectoryLocator { purpose, working_directory, state } = self;
        match action {
            SearchAction::Probe(p) => (
                DirectoryLocator {
                    purpose,
                    working_directory,
                    state: LocatorState::SeekingRoot { search },
                },
                LocatorAction::Probe(p),
            ),
            SearchAction::Finish(Ok(root)) => {
                let dir: FsPath = root.join(&FsPath::parse("migrations"));
                let shown: FsPath = dir.clone();
                (
                    DirectoryLocator {
                        purpose,
                        working_directory,
                        state: LocatorState::CheckingNew { dir },
                    },
                    LocatorAction::Inspect(shown),
                )
            },
            SearchAction::Finish(Err(e)) => {
                DirectoryLocator { purpose, working_directory, state }.finish(Resolution::Failed(e))
            },
        }
    }

    /// Whether nothing is left to do.
    pub fn is_finished(&self) -> (r: bool)
        ensures
            r == (self@.state is Finished),
    {
        match &self.state {
            LocatorState::Finished { .. } => true,
            _ => false,
        }
    }

    /// Takes in what the caller reports and says what to do next.
    pub fn step(self, event: LocatorEvent) -> (r: (DirectoryLocator, LocatorAction))
        ensures
            (r.0@, r.1@) == self@.step(event@),
            self@.consistent() ==> r.0@.consistent(),
    {
        proof {
            if self@.consistent() {
                lemma_execute_never_creates(self@, event@);
            }
        }
        let DirectoryLocator { purpose, working_directory, state } = self;
        match (state, event) {
            (LocatorState::Inspecting { dir }, LocatorEvent::Inspected(seen)) => {
                let legacy: bool = match &seen.entries {
                    Some(entries) => holds_legacy_keep(entries),
                    None => false,
                };
                if legacy {
                    let target: FsPath = legacy_keep(&dir);
                    (
                        DirectoryLocator {
                            purpose,
                            working_directory,
                            state: LocatorState::Cleaning {
                                dir,
                                exists: seen.exists,
                                is_directory: seen.is_directory,
                            },
                        },
                        LocatorAction::RemoveFile(target),
                    )
                } else {
                    let resolution: Resolution = settle_exec(
                        purpose,
                        dir.clone(),
                        seen.exists,
                        seen.is_directory,
                        None,
                    );
                    DirectoryLocator {
                        purpose,
                        working_directory,
                        state: LocatorState::Inspecting { dir },
                    }.finish(resolution)
                }
            },
            (
                LocatorState::Cleaning { dir, exists, is_directory },
                LocatorEvent::Removed(error),
            ) => {
                let resolution: Resolution = settle_exec(
                    purpose,
                    dir,
                    exists,
                    is_directory,
                    warning_of(error),
                );
                DirectoryLocator {
                    purpose,
                    working_directory,
                    state: LocatorState::Searching,
                }.finish(resolution)
            },
            (LocatorState::Searching, LocatorEvent::Searched(Some(dir))) => {
                DirectoryLocator {
                    purpose,
                    working_directory,
                    state: LocatorState::Searching,
                }.finish(Resolution::Found { dir, warning: None })
            },
            (LocatorState::Searching, LocatorEvent::Searched(None)) => {
                match purpose {
                    Purpose::Setup => {
                        let (search, action) = find_project_root(&working_directory);
                        DirectoryLocator {
                            purpose,
                            working_directory,
                            state: LocatorState::Searching,
                        }.after_root_step(search, action)
                    },
                    Purpose::Execute => {
                        DirectoryLocator {
                            purpose,
                            working_directory,
                            state: LocatorState::Searching,
                        }.finish(Resolution::Failed(CliError::DirectoryNotFound))
                    },
                }
            },
            (LocatorState::SeekingRoot { search }, LocatorEvent::Probed(is_file)) => {
                let (next, action) = search.step(is_file);
                DirectoryLocator {
                    purpose,
                    working_directory,
                    state: LocatorState::Searching,
                }.after_root_step(next, action)
            },
            (LocatorState::CheckingNew { dir }, LocatorEvent::Inspected(seen)) => {
                let resolution: Resolution = settle_exec(
                    purpose,
                    dir,
                    seen.exists,
                    seen.is_directory,
                    None,
                );
                DirectoryLocator {
                    purpose,
                    working_directory,
                    state: LocatorState::Searching,
                }.finish(resolution)
            },
            (state, _) => {
                let same = DirectoryLocator { purpose, working_directory, state };
                let again: LocatorAction = same.pending();
                (same, again)
            },
        }
    }
}

fn locate(ctx: &InvocationContext, purpose: Purpose) -> (r: (DirectoryLocator, LocatorAction))
    ensures
        (r.0@, r.1@) == locate_start(ctx@, purpose),
        r.0@.consistent(),
{
    let working_directory: FsPath = ctx.working_directory.clone();
    match configured_directory(ctx) {
        Some(dir) => {
            let shown: FsPath = dir.clone();
            (
                DirectoryLocator {
                    purpose,
                    working_directory,
                    state: LocatorState::Inspecting { dir },
                },
                LocatorAction::Inspect(shown),
            )
        },
        None => (
            DirectoryLocator { purpose, working_directory, state: LocatorState::Searching },
            LocatorAction::Search,
        ),
    }
}

/// Starts the locator for a command that works on the migrations in the
/// directory.
pub fn migrations_dir(ctx: &InvocationContext) -> (r: (DirectoryLocator, LocatorAction))
    ensures
        (r.0@, r.1@) == locate_start(ctx@, Purpose::Execute),
        r.0@.consistent(),
{
    locate(ctx, Purpose::Execute)
}

/// Starts the locator for the setup of a project, which makes the
/// directory where it is missing.
pub fn create_migrations_dir(ctx: &InvocationContext) -> (r: (DirectoryLocator, LocatorAction))
    ensures
        (r.0@, r.1@) == locate_start(ctx@, Purpose::Setup),
        r.0@.consistent(),
{
    locate(ctx, Purpose::Setup)
}


/// The first value that is there is the one found: where the scope `i` gives
/// a directory and no scope before it does, that directory is the one of the
/// command line; and there is none exactly where no scope gives one.
pub proof fn lemma_first_populated(scopes: Seq<Option<Seq<Segment>>>, i: int)
    requires
        0 <= i < scopes.len(),
        forall|k: int| 0 <= k < i ==> scopes[k] is None,
    ensures
        scopes[i] is Some ==> first_populated(scopes) == scopes[i],
        first_populated(scopes) is None ==> scopes[i] is None,
    decreases i,
{
    if i > 0 {
        let rest = scopes.drop_first();
        assert forall|k: int| 0 <= k < i - 1 implies rest[k] is None by {
            assert(rest[k] == scopes[k + 1]);
        }
        assert(rest[i - 1] == scopes[i]);
        lemma_first_populated(rest, i - 1);
    }
}

/// The order of the sources: a directory on the command line wins over the
/// environment, the environment over the configuration, and only where none
/// of the three names a directory is one searched for.
pub proof fn lemma_tier_order(ctx: InvocationContextView, purpose: Purpose)
    ensures
        first_populated(ctx.cli_directories) matches Some(dir) ==> locate_start(ctx, purpose).1
            == LocatorActionView::Inspect(dir),
        first_populated(ctx.cli_directories) is None ==> (ctx.env_directory matches Some(dir)
            ==> locate_start(ctx, purpose).1 == LocatorActionView::Inspect(dir)),
        first_populated(ctx.cli_directories) is None && ctx.env_directory is None ==> (
        config_directory(ctx.config) matches Some(dir) ==> locate_start(ctx, purpose).1
            == LocatorActionView::Inspect(dir)),
        first_populated(ctx.cli_directories) is None && ctx.env_directory is None
            && config_directory(ctx.config) is None ==> locate_start(ctx, purpose).1
            == LocatorActionView::Search,
{
}

/// A legacy file that cannot be deleted fails nothing: the resolution is
/// the one that a deletion gives, but for the warning it carries.
pub proof fn lemma_cleanup_never_fails(locator: DirectoryLocatorView, message: Seq<char>)
    requires
        locator.state is Cleaning,
    ensures
        ({
            let deleted = locator.step(LocatorEventView::Removed(None)).1;
            let kept = locator.step(LocatorEventView::Removed(Some(message))).1;
            &&& deleted is Finish
            &&& kept is Finish
            &&& match deleted->Finish_0 {
                ResolutionView::Found { dir, warning } => warning is None && kept->Finish_0
                    == ResolutionView::Found { dir, warning: removal_warning(Some(message)) },
                ResolutionView::Create { dir, warning } => warning is None && kept->Finish_0
                    == ResolutionView::Create { dir, warning: removal_warning(Some(message)) },
                ResolutionView::Failed(e) => kept->Finish_0 == ResolutionView::Failed(e),
            }
        }),
{
}

/// A directory that the search found is taken as it is: nothing in it is
/// looked at or deleted.
pub proof fn lemma_found_by_search_is_final(locator: DirectoryLocatorView, dir: Seq<Segment>)
    requires
        locator.state is Searching,
    ensures
        locator.step(LocatorEventView::Searched(Some(dir))).1 == LocatorActionView::Finish(
            ResolutionView::Found { dir, warning: None },
        ),
{
}

/// A command that works on migrations gets a directory only where one was
/// seen to be there: whatever is reported, the directory found was reported
/// as a directory, or comes from the search.
pub proof fn lemma_found_directory_exists(locator: DirectoryLocatorView, event: LocatorEventView)
    requires
        !(locator.state is Finished),
        locator.step(event).1 is Finish,
        locator.step(event).1->Finish_0 is Found,
    ensures
        match (locator.state, event) {
            (LocatorStateView::Inspecting { .. }, LocatorEventView::Inspected(seen)) =>
                seen.is_directory,
            (LocatorStateView::CheckingNew { .. }, LocatorEventView::Inspected(seen)) =>
                seen.is_directory,
            (LocatorStateView::Cleaning { is_directory, .. }, LocatorEventView::Removed(_)) =>
                is_directory,
            (LocatorStateView::Searching, LocatorEventView::Searched(found)) => found is Some,
            _ => false,
        },
{
}


impl DirectoryLocatorView {
    /// The purpose and the state fit: only the setup searches for the
    /// project root, and only the setup asks for a directory to be made.
    pub open spec fn consistent(self) -> bool {
        self.purpose is Execute ==> match self.state {
            LocatorStateView::SeekingRoot { .. } | LocatorStateView::CheckingNew { .. } => false,
            LocatorStateView::Finished { resolution } => !(resolution is Create),
            _ => true,
        }
    }
}

/// A command that works on migrations never has the directory made, and
/// never looks for the project root: whatever is reported, the locator asks
/// for no probe, and resolves to no directory to be made.
pub proof fn lemma_execute_never_creates(locator: DirectoryLocatorView, event: LocatorEventView)
    requires
        locator.consistent(),
    ensures
        locator.step(event).0.purpose == locator.purpose,
        locator.step(event).0.consistent(),
        locator.purpose is Execute ==> !(locator.step(event).1 is Probe),
        locator.purpose is Execute ==> !(locator.step(event).1 is Finish && locator.step(
            event,
        ).1->Finish_0 is Create),
{
}

} // verus!
