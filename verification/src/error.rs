//! The ways in which a command fails.

use crate::path::{render_spec, FsPath, Segment};
use vstd::prelude::*;
use vstd::string::*;

verus! {

/// The mathematical value of an error.
pub enum CliErrorView {
    DirectoryNotFound,
    ProjectRootNotFound(Seq<Segment>),
    SchemaOutOfSync(Seq<Segment>),
    UnrecognizedMigrationFormat(Seq<char>),
    External(Seq<char>),
}

/// Why a command failed.
#[derive(Debug, PartialEq, Eq)]
pub enum CliError {
    /// No migrations directory was named, and none was found by searching.
    DirectoryNotFound,
    /// No project manifest lies in the directory given or above it.
    ProjectRootNotFound(FsPath),
    /// The schema file given differs from the schema of the database.
    SchemaOutOfSync(FsPath),
    /// The format asked for a new migration is not known.
    UnrecognizedMigrationFormat(String),
    /// A service that the command called failed, with its message.
    External(String),
}

impl View for CliError {
    type V = CliErrorView;

    open spec fn view(&self) -> CliErrorView {
        match self {
            CliError::DirectoryNotFound => CliErrorView::DirectoryNotFound,
            CliError::ProjectRootNotFound(p) => CliErrorView::ProjectRootNotFound(p@),
            CliError::SchemaOutOfSync(p) => CliErrorView::SchemaOutOfSync(p@),
            CliError::UnrecognizedMigrationFormat(s) => CliErrorView::UnrecognizedMigrationFormat(
                s@,
            ),
            CliError::External(s) => CliErrorView::External(s@),
        }
    }
}

impl Clone for CliError {
    fn clone(&self) -> (r: Self)
        ensures
            r@ == self@,
    {
        match self {
            CliError::DirectoryNotFound => CliError::DirectoryNotFound,
            CliError::ProjectRootNotFound(p) => CliError::ProjectRootNotFound(p.clone()),
            CliError::SchemaOutOfSync(p) => CliError::SchemaOutOfSync(p.clone()),
            CliError::UnrecognizedMigrationFormat(s) => CliError::UnrecognizedMigrationFormat(
                s.clone(),
            ),
            CliError::External(s) => CliError::External(s.clone()),
        }
    }
}

/// The value of the outcome of a command.
pub open spec fn outcome_view(o: Result<(), CliError>) -> Result<(), CliErrorView> {
    match o {
        Ok(_) => Ok(()),
        Err(e) => Err(e@),
    }
}

/// A copy of an outcome.
pub fn clone_outcome(o: &Result<(), CliError>) -> (r: Result<(), CliError>)
    ensures
        outcome_view(r) == outcome_view(*o),
{
    match o {
        Ok(_) => Ok(()),
        Err(e) => Err(e.clone()),
    }
}

/// What the operator reads when the schema file is out of step.
pub open spec fn schema_out_of_sync_text(file: Seq<Segment>) -> Seq<char> {
    "Command would result in changes to "@ + render_spec(file)
        + ". Rerun the command locally, and commit the changes."@
}

/// What the operator reads when the migration format is not known.
pub open spec fn unrecognized_format_text(format: Seq<char>) -> Seq<char> {
    "Unrecognized migration format `"@ + format + "`"@
}

/// The message for a schema file that is out of step: it names the file and
/// asks for the command to be run locally and the result committed.
pub fn schema_out_of_sync_message(file: &FsPath) -> (r: String)
    ensures
        r@ == schema_out_of_sync_text(file@),
{
    let mut out: String = String::from_str("Command would result in changes to ");
    let shown: String = file.render();
    out.append(shown.as_str());
    out.append(". Rerun the command locally, and commit the changes.");
    out
}

/// The message for a migration format that is not known.
pub fn unrecognized_format_message(format: &str) -> (r: String)
    ensures
        r@ == unrecognized_format_text(format@),
{
    let mut out: String = String::from_str("Unrecognized migration format `");
    out.append(format);
    out.append("`");
    out
}

/// The status that the process ends with: 0 after success, 1 after any
/// error.
pub fn exit_status(outcome: &Result<(), CliError>) -> (code: i32)
    ensures
        code == if outcome is Ok {
            0i32
        } else {
            1i32
        },
{
    match outcome {
        Ok(_) => 0,
        Err(_) => 1,
    }
}

} // verus!
