//! The decisions of a command line tool for database schema migrations.
//!
//! The tool finds the migrations directory of a project, runs, reverts and
//! redoes migrations through a migration service, and keeps a schema file in
//! step with the database. What it decides is here, and is verified: which
//! directory a command works on ([`locator`], [`project_root`]), how the
//! latest migration is redone ([`redo`]), how the schema file is compared or
//! written ([`schema_sync`]), how a new migration is named and laid out
//! ([`version`], [`generate`]), how migrations are listed ([`listing`]), and
//! what each command takes and in which order it takes its steps
//! ([`command`], [`config`]).
//!
//! Nothing here touches the file system or the database; the clock is read
//! for the version of a new migration. A decision that
//! depends on them is a machine: it names the next action, its caller
//! performs the action and reports what happened, and the machine names the
//! next action again, until it finishes.

pub mod command;
pub mod config;
pub mod error;
pub mod generate;
pub mod listing;
pub mod locator;
pub mod path;
pub mod project_root;
pub mod redo;
pub mod schema_sync;
pub mod text;
pub mod version;
