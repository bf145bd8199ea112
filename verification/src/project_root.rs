//! The search for the project root: the nearest directory, from a starting
//! directory upward, that holds the project's manifest. The search here
//! names the file to look at next; its caller looks, and says whether the
//! file is there.

use crate::error::{CliError, CliErrorView};
use crate::path::{join_spec, parse_spec, FsPath, Segment};
use vstd::prelude::*;
use vstd::string::*;

verus! {

/// The mathematical value of a search.
pub struct RootSearchView {
    pub start: Seq<Segment>,
    pub at: Seq<Segment>,
    pub file: Seq<char>,
}

/// A search upward for the directory that holds `file`.
#[derive(Debug, PartialEq, Eq)]
pub struct RootSearch {
    /// Where the search began.
    pub start: FsPath,
    /// The directory that is looked at now.
    pub at: FsPath,
    /// The name of the file that marks the directory sought.
    pub file: String,
}

impl View for RootSearch {
    type V = RootSearchView;

    open spec fn view(&self) -> RootSearchView {
        RootSearchView { start: self.start@, at: self.at@, file: self.file@ }
    }
}

/// The value of the result of a search.
pub open spec fn found_view(r: Result<FsPath, CliError>) -> Result<Seq<Segment>, CliErrorView> {
    match r {
        Ok(p) => Ok(p@),
        Err(e) => Err(e@),
    }
}

/// The mathematical value of what the caller is asked to do.
pub enum SearchActionView {
    Probe(Seq<Segment>),
    Finish(Result<Seq<Segment>, CliErrorView>),
}

/// What the caller is asked to do next.
#[derive(Debug, PartialEq, Eq)]
pub enum SearchAction {
    /// Say whether this path is a file.
    Probe(FsPath),
    /// Stop: the directory found, or the failure.
    Finish(Result<FsPath, CliError>),
}

impl View for SearchAction {
    type V = SearchActionView;

    open spec fn view(&self) -> SearchActionView {
        match self {
            SearchAction::Probe(p) => SearchActionView::Probe(p@),
            SearchAction::Finish(r) => SearchActionView::Finish(found_view(*r)),
        }
    }
}

/// A directory has one above it.
pub open spec fn has_parent(dir: Seq<Segment>) -> bool {
    dir.len() > 0 && !(dir.last() is Root)
}

impl RootSearchView {
    /// The file whose presence decides for the directory looked at.
    pub open spec fn candidate(self) -> Seq<Segment> {
        join_spec(self.at, parse_spec(self.file))
    }

    /// The next state and the next action, given whether the candidate is a
    /// file: where it is, its directory is found; where it is not, the search
    /// moves one directory up, and fails, naming where it began, once no
    /// directory is left above.
    pub open spec fn step(self, is_file: bool) -> (RootSearchView, SearchActionView) {
        if is_file {
            (self, SearchActionView::Finish(Ok(self.at)))
        } else if has_parent(self.at) {
            let up = RootSearchView { at: self.at.drop_last(), ..self };
            (up, SearchActionView::Probe(up.candidate()))
        } else {
            (self, SearchActionView::Finish(Err(CliErrorView::ProjectRootNotFound(self.start))))
        }
    }

    /// Where the search ends when `holds` says which directories hold the
    /// file: with what the step says where it finishes, and else where the
    /// search one directory up ends.
    pub open spec fn run(self, holds: spec_fn(Seq<Segment>) -> bool) -> Result<
        Seq<Segment>,
        CliErrorView,
    >
        decreases self.at.len(),
    {
        if holds(self.at) || !has_parent(self.at) {
            self.step(holds(self.at)).1->Finish_0
        } else {
            self.step(false).0.run(holds)
        }
    }
}

/// The search at its start.
pub open spec fn search_start(path: Seq<Segment>, file: Seq<char>) -> (
    RootSearchView,
    SearchActionView,
) {
    let search = RootSearchView { start: path, at: path, file };
    (search, SearchActionView::Probe(search.candidate()))
}

/// The nearest directory, from `dir` upward, of which `holds` is true.
pub open spec fn nearest(dir: Seq<Segment>, holds: spec_fn(Seq<Segment>) -> bool) -> Option<
    Seq<Segment>,
>
    decreases dir.len(),
{
    if holds(dir) {
        Some(dir)
    } else if has_parent(dir) {
        nearest(dir.drop_last(), holds)
    } else {
        None
    }
}

/// A search finds the nearest directory that holds the file, and where no
/// directory from its start upward holds it, fails naming its start.
pub proof fn lemma_search_finds_nearest(
    search: RootSearchView,
    holds: spec_fn(Seq<Segment>) -> bool,
)
    ensures
        search.run(holds) == match nearest(search.at, holds) {
            Some(dir) => Ok::<Seq<Segment>, CliErrorView>(dir),
            None => Err(CliErrorView::ProjectRootNotFound(search.start)),
        },
    decreases search.at.len(),
{
    if !holds(search.at) && has_parent(search.at) {
        lemma_search_finds_nearest(search.step(false).0, holds);
    }
}

impl RootSearch {
    fn candidate(&self) -> (r: FsPath)
        ensures
            r@ == self@.candidate(),
    {
        self.at.join(&FsPath::parse(self.file.as_str()))
    }

    /// Takes in whether the candidate is a file and says what to do next.
    pub fn step(self, is_file: bool) -> (r: (RootSearch, SearchAction))
        ensures
            (r.0@, r.1@) == self@.step(is_file),
    {
        if is_file {
            let dir: FsPath = self.at.clone();
            return (self, SearchAction::Finish(Ok(dir)));
        }
        match self.at.parent() {
            Some(up) => {
                let next = RootSearch { start: self.start, at: up, file: self.file };
                let probe: FsPath = next.candidate();
                (next, SearchAction::Probe(probe))
            },
            None => {
                let began: FsPath = self.start.clone();
                (self, SearchAction::Finish(Err(CliError::ProjectRootNotFound(began))))
            },
        }
    }
}

/// Starts the search, from `path` upward, for the directory that holds
/// `file`.
pub fn search_for_directory_containing_file(path: &FsPath, file: &str) -> (r: (
    RootSearch,
    SearchAction,
))
    ensures
        (r.0@, r.1@) == search_start(path@, file@),
{
    let search = RootSearch { start: path.clone(), at: path.clone(), file: String::from_str(file) };
    let probe: FsPath = search.candidate();
    (search, SearchAction::Probe(probe))
}

/// The manifest that marks a project root.
#[derive(Debug, Clone, Copy, PartialEq, Eq, Structural)]
pub enum Manifest {
    /// The tool's own configuration file.
    DieselToml,
    /// The manifest of the package.
    CargoToml,
}

/// The file name of a manifest.
pub open spec fn manifest_name(m: Manifest) -> Seq<char> {
    match m {
        Manifest::DieselToml => "diesel.toml"@,
        Manifest::CargoToml => "Cargo.toml"@,
    }
}

impl Manifest {
    /// The file name of the manifest.
    pub fn file_name(&self) -> (r: &'static str)
        ensures
            r@ == manifest_name(*self),
    {
        match self {
            Manifest::DieselToml => "diesel.toml",
            Manifest::CargoToml => "Cargo.toml",
        }
    }
}

/// The mathematical value of the search for the project root.
pub struct ProjectRootSearchView {
    pub manifest: Manifest,
    pub search: RootSearchView,
}

/// The search for the project root: for the tool's configuration file
/// first, and, where no directory holds one, for the package manifest.
#[derive(Debug, PartialEq, Eq)]
pub struct ProjectRootSearch {
    pub manifest: Manifest,
    pub search: RootSearch,
}

impl View for ProjectRootSearch {
    type V = ProjectRootSearchView;

    open spec fn view(&self) -> ProjectRootSearchView {
        ProjectRootSearchView { manifest: self.manifest, search: self.search@ }
    }
}

impl ProjectRootSearchView {
    /// The search is for the file of its manifest.
    pub open spec fn consistent(self) -> bool {
        self.search.file == manifest_name(self.manifest)
    }

    /// The next state and the next action: those of the search for the
    /// manifest at hand, but that a failed search for the configuration file
    /// starts the search for the package manifest, from the same directory.
    pub open spec fn step(self, is_file: bool) -> (ProjectRootSearchView, SearchActionView) {
        let inner = self.search.step(is_file);
        if inner.1 is Finish && inner.1->Finish_0 is Err && self.manifest is DieselToml {
            let again = search_start(self.search.start, manifest_name(Manifest::CargoToml));
            (ProjectRootSearchView { manifest: Manifest::CargoToml, search: again.0 }, again.1)
        } else {
            (ProjectRootSearchView { manifest: self.manifest, search: inner.0 }, inner.1)
        }
    }
}

/// The search for the project root at its start.
pub open spec fn root_start(working_directory: Seq<Segment>) -> (
    ProjectRootSearchView,
    SearchActionView,
) {
    let first = search_start(working_directory, manifest_name(Manifest::DieselToml));
    (ProjectRootSearchView { manifest: Manifest::DieselToml, search: first.0 }, first.1)
}

/// The directories that hold the manifest `m`, where `holds` says which
/// directories hold which manifest.
pub open spec fn holding(
    holds: spec_fn(Manifest, Seq<Segment>) -> bool,
    m: Manifest,
) -> spec_fn(Seq<Segment>) -> bool {
    |dir: Seq<Segment>| holds(m, dir)
}

impl ProjectRootSearchView {
    /// Where the search ends when `holds` says which directories hold which
    /// manifest.
    pub open spec fn run(self, holds: spec_fn(Manifest, Seq<Segment>) -> bool) -> Result<
        Seq<Segment>,
        CliErrorView,
    > {
        match self.search.run(holding(holds, self.manifest)) {
            Ok(dir) => Ok(dir),
            Err(e) => if self.manifest is DieselToml {
                search_start(self.search.start, manifest_name(Manifest::CargoToml)).0.run(
                    holding(holds, Manifest::CargoToml),
                )
            } else {
                Err(e)
            },
        }
    }
}

/// A step of the search for the project root changes nothing of where it
/// ends.
pub proof fn lemma_root_step_keeps_run(
    search: ProjectRootSearchView,
    holds: spec_fn(Manifest, Seq<Segment>) -> bool,
)
    ensures
        ({
            let next = search.step(holds(search.manifest, search.search.at));
            match next.1 {
                SearchActionView::Finish(r) => r == search.run(holds),
                SearchActionView::Probe(_) => next.0.run(holds) == search.run(holds),
            }
        }),
{
    let f = holding(holds, search.manifest);
    assert(f(search.search.at) == holds(search.manifest, search.search.at));
    let inner = search.search.step(f(search.search.at));
    if inner.1 is Finish && inner.1->Finish_0 is Err && search.manifest is DieselToml {
        let again = search_start(search.search.start, manifest_name(Manifest::CargoToml));
        assert(again.0.start == search.search.start);
    }
}

/// The project root is the nearest directory, from the working directory
/// upward, that holds the tool's configuration file; where none does, the
/// nearest one that holds the package manifest; and where none does either,
/// the search fails, naming the working directory.
pub proof fn lemma_project_root(
    working_directory: Seq<Segment>,
    holds: spec_fn(Manifest, Seq<Segment>) -> bool,
)
    ensures
        root_start(working_directory).0.run(holds) == match nearest(
            working_directory,
            holding(holds, Manifest::DieselToml),
        ) {
            Some(dir) => Ok::<Seq<Segment>, CliErrorView>(dir),
            None => match nearest(working_directory, holding(holds, Manifest::CargoToml)) {
                Some(dir) => Ok::<Seq<Segment>, CliErrorView>(dir),
                None => Err(CliErrorView::ProjectRootNotFound(working_directory)),
            },
        },
{
    let first = search_start(working_directory, manifest_name(Manifest::DieselToml)).0;
    let second = search_start(working_directory, manifest_name(Manifest::CargoToml)).0;
    lemma_search_finds_nearest(first, holding(holds, Manifest::DieselToml));
    lemma_search_finds_nearest(second, holding(holds, Manifest::CargoToml));
}

impl ProjectRootSearch {
    /// Takes in whether the candidate is a file and says what to do next.
    pub fn step(self, is_file: bool) -> (r: (ProjectRootSearch, SearchAction))
        ensures
            (r.0@, r.1@) == self@.step(is_file),
            self@.consistent() ==> r.0@.consistent(),
    {
        let ProjectRootSearch { manifest, search } = self;
        let (next, action) = search.step(is_file);
        match (&action, manifest) {
            (SearchAction::Finish(Err(_)), Manifest::DieselToml) => {
                let (again, probe) = search_for_directory_containing_file(
                    &next.start,
                    Manifest::CargoToml.file_name(),
                );
                (ProjectRootSearch { manifest: Manifest::CargoToml, search: again }, probe)
            },
            _ => (ProjectRootSearch { manifest, search: next }, action),
        }
    }
}

/// Starts the search for the project root from the working directory.
pub fn find_project_root(working_directory: &FsPath) -> (r: (ProjectRootSearch, SearchAction))
    ensures
        (r.0@, r.1@) == root_start(working_directory@),
        r.0@.consistent(),
{
    let (search, probe) = search_for_directory_containing_file(
        working_directory,
        Manifest::DieselToml.file_name(),
    );
    (ProjectRootSearch { manifest: Manifest::DieselToml, search }, probe)
}

} // verus!
