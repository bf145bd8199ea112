//! New migrations and new directories: where they are made, and what is
//! written into them.

use crate::error::{unrecognized_format_text, CliError, CliErrorView};
use crate::path::{
    convert_absolute_path_to_relative, join_spec, parse_spec, relativize_spec, render_spec,
    FsPath, Segment,
};
use crate::version::{versioned_name, versioned_name_spec};
use vstd::prelude::*;
use vstd::string::*;

verus! {

/// The format that a new migration is written in.
#[derive(Debug, Clone, Copy, PartialEq, Eq, Structural)]
pub enum MigrationFormat {
    /// Two files of SQL, one for each direction.
    Sql,
    /// A migration written with the schema builder, where the program is
    /// built with it.
    Barrel,
}

/// The format that a text names: `sql`, and `barrel` where the program
/// is built with the schema builder.
pub open spec fn format_spec(text: Seq<char>, barrel_enabled: bool) -> Option<MigrationFormat> {
    if barrel_enabled && text == "barrel"@ {
        Some(MigrationFormat::Barrel)
    } else if text == "sql"@ {
        Some(MigrationFormat::Sql)
    } else {
        None
    }
}

/// Reads the format of a new migration. A text that names no format is
/// refused, and the error names it.
pub fn migration_format(text: &str, barrel_enabled: bool) -> (r: Result<MigrationFormat, CliError>)
    ensures
        match r {
            Ok(format) => format_spec(text@, barrel_enabled) == Some(format),
            Err(e) => format_spec(text@, barrel_enabled) is None && e@
                == CliErrorView::UnrecognizedMigrationFormat(text@),
        },
{
    let given: String = String::from_str(text);
    if barrel_enabled && given == String::from_str("barrel") {
        Ok(MigrationFormat::Barrel)
    } else if given == String::from_str("sql") {
        Ok(MigrationFormat::Sql)
    } else {
        Err(CliError::UnrecognizedMigrationFormat(given))
    }
}

/// The mathematical value of a file to be made.
pub struct NewFileView {
    pub path: Seq<Segment>,
    pub announce: Seq<char>,
    pub contents: Seq<char>,
}

/// A file to be made.
#[derive(Debug, PartialEq, Eq)]
pub struct NewFile {
    /// Where the file is made.
    pub path: FsPath,
    /// What the operator is told.
    pub announce: String,
    /// What is written into the file.
    pub contents: String,
}

impl View for NewFile {
    type V = NewFileView;

    open spec fn view(&self) -> NewFileView {
        NewFileView { path: self.path@, announce: self.announce@, contents: self.contents@ }
    }
}

/// The values of a list of files.
pub open spec fn files_view(v: Seq<NewFile>) -> Seq<NewFileView> {
    Seq::new(v.len(), |i: int| v[i]@)
}

/// The file `name` of the migration in `dir`: it is announced by its path
/// as seen from `working_directory`.
pub open spec fn sql_file(
    dir: Seq<Segment>,
    working_directory: Seq<Segment>,
    name: Seq<char>,
    contents: Seq<char>,
) -> NewFileView {
    NewFileView {
        path: join_spec(dir, parse_spec(name)),
        announce: "Creating "@ + render_spec(
            join_spec(relativize_spec(dir, working_directory), parse_spec(name)),
        ),
        contents,
    }
}

/// The two files of a migration in SQL: `up.sql`, then `down.sql`, each
/// with the comment it starts out with.
pub open spec fn sql_files(dir: Seq<Segment>, working_directory: Seq<Segment>) -> Seq<NewFileView> {
    seq![
        sql_file(dir, working_directory, "up.sql"@, "-- Your SQL goes here"@),
        sql_file(
            dir,
            working_directory,
            "down.sql"@,
            "-- This file should undo anything in `up.sql`"@,
        ),
    ]
}

fn new_sql_file(dir: &FsPath, shown_dir: &FsPath, name: &str, contents: &str) -> (r: NewFile)
    ensures
        r@ == (NewFileView {
            path: join_spec(dir@, parse_spec(name@)),
            announce: "Creating "@ + render_spec(join_spec(shown_dir@, parse_spec(name@))),
            contents: contents@,
        }),
{
    let file: FsPath = FsPath::parse(name);
    let shown: String = shown_dir.join(&file).render();
    let mut announce: String = String::from_str("Creating ");
    announce.append(shown.as_str());
    NewFile { path: dir.join(&file), announce, contents: String::from_str(contents) }
}

/// The files of a new migration in SQL in the directory `path`.
pub fn generate_sql_migration(path: &FsPath, working_directory: &FsPath) -> (r: Vec<NewFile>)
    ensures
        files_view(r@) == sql_files(path@, working_directory@),
{
    let shown_dir: FsPath = convert_absolute_path_to_relative(path, working_directory);
    let mut out: Vec<NewFile> = Vec::new();
    out.push(new_sql_file(path, &shown_dir, "up.sql", "-- Your SQL goes here"));
    out.push(
        new_sql_file(
            path,
            &shown_dir,
            "down.sql",
            "-- This file should undo anything in `up.sql`",
        ),
    );
    assert(files_view(out@) =~= sql_files(path@, working_directory@));
    out
}

/// The mathematical value of what fills a new migration.
pub enum ScaffoldView {
    Sql(Seq<NewFileView>),
    Barrel,
}

/// What fills the directory of a new migration.
#[derive(Debug, PartialEq, Eq)]
pub enum Scaffold {
    /// These files.
    Sql(Vec<NewFile>),
    /// What the schema builder writes for a first migration.
    Barrel,
}

impl View for Scaffold {
    type V = ScaffoldView;

    open spec fn view(&self) -> ScaffoldView {
        match self {
            Scaffold::Sql(files) => ScaffoldView::Sql(files_view(files@)),
            Scaffold::Barrel => ScaffoldView::Barrel,
        }
    }
}

/// The value of what fills a new migration, or of the refusal.
pub open spec fn scaffold_view(r: Result<Scaffold, CliError>) -> Result<
    ScaffoldView,
    CliErrorView,
> {
    match r {
        Ok(s) => Ok(s@),
        Err(e) => Err(e@),
    }
}

/// The mathematical value of the plan for a new migration.
pub struct GenerationView {
    pub directory: Seq<Segment>,
    pub scaffold: Result<ScaffoldView, CliErrorView>,
}

/// The plan for a new migration: its directory is made first; then it is
/// filled, or the command fails because the format is not known.
#[derive(Debug, PartialEq, Eq)]
pub struct Generation {
    pub directory: FsPath,
    pub scaffold: Result<Scaffold, CliError>,
}

impl View for Generation {
    type V = GenerationView;

    open spec fn view(&self) -> GenerationView {
        GenerationView { directory: self.directory@, scaffold: scaffold_view(self.scaffold) }
    }
}

/// The directory of a new migration: named by version and name, in the
/// migrations directory.
pub open spec fn migration_directory(
    migrations_dir: Seq<Segment>,
    version: Seq<char>,
    name: Seq<char>,
) -> Seq<Segment> {
    join_spec(migrations_dir, parse_spec(versioned_name_spec(version, name)))
}

/// The plan for a new migration.
pub open spec fn generation_spec(
    migrations_dir: Seq<Segment>,
    working_directory: Seq<Segment>,
    version: Seq<char>,
    name: Seq<char>,
    format: Seq<char>,
    barrel_enabled: bool,
) -> GenerationView {
    let directory = migration_directory(migrations_dir, version, name);
    GenerationView {
        directory,
        scaffold: match format_spec(format, barrel_enabled) {
            Some(MigrationFormat::Sql) => Ok(
                ScaffoldView::Sql(sql_files(directory, working_directory)),
            ),
            Some(MigrationFormat::Barrel) => Ok(ScaffoldView::Barrel),
            None => Err(CliErrorView::UnrecognizedMigrationFormat(format)),
        },
    }
}

/// Plans a new migration of the given version, name and format in the
/// migrations directory. The name is taken as it stands.
pub fn generate_migration(
    migrations_dir: &FsPath,
    working_directory: &FsPath,
    version: &str,
    migration_name: &str,
    format: &str,
    barrel_enabled: bool,
) -> (r: Generation)
    ensures
        r@ == generation_spec(
            migrations_dir@,
            working_directory@,
            version@,
            migration_name@,
            format@,
            barrel_enabled,
        ),
{
    let named: String = versioned_name(version, migration_name);
    let directory: FsPath = migrations_dir.join(&FsPath::parse(named.as_str()));
    let scaffold: Result<Scaffold, CliError> = match migration_format(format, barrel_enabled) {
        Ok(MigrationFormat::Sql) => Ok(
            Scaffold::Sql(generate_sql_migration(&directory, working_directory)),
        ),
        Ok(MigrationFormat::Barrel) => Ok(Scaffold::Barrel),
        Err(e) => Err(e),
    };
    Generation { directory, scaffold }
}

/// The mathematical value of the plan for a new migrations directory.
pub struct DirectoryCreationView {
    pub announce: Seq<char>,
    pub directory: Seq<Segment>,
    pub keep_file: Seq<Segment>,
}

/// The plan for a new migrations directory.
#[derive(Debug, PartialEq, Eq)]
pub struct DirectoryCreation {
    /// What the operator is told.
    pub announce: String,
    /// The directory to make.
    pub directory: FsPath,
    /// The empty file to make in it, so that version control keeps the
    /// directory.
    pub keep_file: FsPath,
}

impl View for DirectoryCreation {
    type V = DirectoryCreationView;

    open spec fn view(&self) -> DirectoryCreationView {
        DirectoryCreationView {
            announce: self.announce@,
            directory: self.directory@,
            keep_file: self.keep_file@,
        }
    }
}

/// The plan for a new migrations directory at `path`.
pub open spec fn creation_spec(path: Seq<Segment>) -> DirectoryCreationView {
    DirectoryCreationView {
        announce: "Creating migrations directory at: "@ + render_spec(path),
        directory: path,
        keep_file: join_spec(path, parse_spec(".keep"@)),
    }
}

/// Plans the new migrations directory at `path`.
pub fn create_migrations_directory(path: &FsPath) -> (r: DirectoryCreation)
    ensures
        r@ == creation_spec(path@),
{
    let shown: String = path.render();
    let mut announce: String = String::from_str("Creating migrations directory at: ");
    announce.append(shown.as_str());
    DirectoryCreation {
        announce,
        directory: path.clone(),
        keep_file: path.join(&FsPath::parse(".keep")),
    }
}

/// Whether the default configuration file is written: only where none is
/// there.
pub fn create_config_file(exists: bool) -> (write: bool)
    ensures
        write == !exists,
{
    !exists
}

} // verus!
