use diesel_cli::config::{Config, Filtering, PrintSchema};
use diesel_cli::error::CliError;
use diesel_cli::locator::{
    configured_directory, create_migrations_dir, holds_legacy_keep, migrations_dir,
    migrations_dir_from_cli, needs_configuration, DirEntry, DirectoryLocator, Inspection,
    InvocationContext, LocatorAction, LocatorEvent, Resolution,
};
use diesel_cli::path::{clone_opt_path, FsPath};

fn config(migrations_directory: Option<&str>) -> Config {
    Config {
        migrations_directory: migrations_directory.map(FsPath::parse),
        print_schema: PrintSchema {
            file: None,
            with_docs: false,
            filter: Filtering::Unfiltered,
            schema: None,
            patch_file: None,
            import_types: None,
        },
    }
}

fn context(cli: &[Option<&str>], env: Option<&str>, configured: Option<&str>) -> InvocationContext {
    InvocationContext {
        cli_directories: cli.iter().map(|d| d.map(FsPath::parse)).collect(),
        env_directory: env.map(FsPath::parse),
        config: Some(config(configured)),
        working_directory: FsPath::parse("/work/project/src"),
    }
}

fn entry(name: &str, is_file: bool) -> DirEntry {
    DirEntry { name: String::from(name), is_file }
}

fn directory(entries: Vec<DirEntry>) -> LocatorEvent {
    LocatorEvent::Inspected(Inspection { exists: true, is_directory: true, entries: Some(entries) })
}

fn nothing_there() -> LocatorEvent {
    LocatorEvent::Inspected(Inspection { exists: false, is_directory: false, entries: None })
}

fn found(dir: &str) -> LocatorAction {
    LocatorAction::Finish(Resolution::Found { dir: FsPath::parse(dir), warning: None })
}

/// Answers the probes of the search for the project root from a list of the
/// files that exist.
fn probe_until_done(
    mut locator: DirectoryLocator,
    mut action: LocatorAction,
    files: &[&str],
) -> (DirectoryLocator, LocatorAction, Vec<String>) {
    let mut probed = Vec::new();
    while let LocatorAction::Probe(path) = &action {
        let shown = path.render();
        let is_file = files.contains(&shown.as_str());
        probed.push(shown);
        let next = locator.step(LocatorEvent::Probed(is_file));
        locator = next.0;
        action = next.1;
    }
    (locator, action, probed)
}

#[test]
fn the_command_line_wins_over_environment_and_configuration() {
    let ctx = context(&[Some("/from/cli")], Some("/from/env"), Some("/from/config"));
    assert_eq!(Some(FsPath::parse("/from/cli")), configured_directory(&ctx));
    let (_, action) = migrations_dir(&ctx);
    assert_eq!(LocatorAction::Inspect(FsPath::parse("/from/cli")), action);
}

#[test]
fn the_environment_wins_over_the_configuration() {
    let ctx = context(&[None, None], Some("/from/env"), Some("/from/config"));
    assert_eq!(Some(FsPath::parse("/from/env")), configured_directory(&ctx));
    let (_, action) = migrations_dir(&ctx);
    assert_eq!(LocatorAction::Inspect(FsPath::parse("/from/env")), action);
}

#[test]
fn the_configuration_wins_over_the_search() {
    let ctx = context(&[], None, Some("/from/config"));
    assert_eq!(Some(FsPath::parse("/from/config")), configured_directory(&ctx));
    let (_, action) = migrations_dir(&ctx);
    assert_eq!(LocatorAction::Inspect(FsPath::parse("/from/config")), action);
}

#[test]
fn without_any_named_directory_it_is_searched_for() {
    let ctx = context(&[None], None, None);
    assert_eq!(None, configured_directory(&ctx));
    let (_, action) = migrations_dir(&ctx);
    assert_eq!(LocatorAction::Search, action);
    let without_config = InvocationContext { config: None, ..context(&[], None, None) };
    assert_eq!(None, configured_directory(&without_config));
    let (_, action) = create_migrations_dir(&without_config);
    assert_eq!(LocatorAction::Search, action);
}

#[test]
fn the_nearest_scope_of_the_command_line_wins() {
    let scopes = vec![None, Some(FsPath::parse("inner")), Some(FsPath::parse("outer"))];
    assert_eq!(Some(FsPath::parse("inner")), migrations_dir_from_cli(&scopes));
    let scopes = vec![Some(FsPath::parse("own")), Some(FsPath::parse("parent"))];
    assert_eq!(Some(FsPath::parse("own")), migrations_dir_from_cli(&scopes));
    assert_eq!(None, migrations_dir_from_cli(&vec![None, None, None]));
    assert_eq!(None, migrations_dir_from_cli(&Vec::new()));
}

#[test]
fn a_named_directory_that_is_there_is_found() {
    let (locator, _) = migrations_dir(&context(&[Some("db/migrations")], None, None));
    let (locator, action) = locator.step(directory(vec![entry("1_users", false)]));
    assert_eq!(found("db/migrations"), action);
    assert!(locator.is_finished());
}

#[test]
fn a_named_directory_that_is_missing_is_not_found() {
    let (locator, _) = migrations_dir(&context(&[Some("db/migrations")], None, None));
    let (_, action) = locator.step(nothing_there());
    assert_eq!(LocatorAction::Finish(Resolution::Failed(CliError::DirectoryNotFound)), action);
}

#[test]
fn a_named_path_that_is_a_file_is_not_found() {
    let (locator, _) = migrations_dir(&context(&[], Some("Cargo.toml"), None));
    let (_, action) = locator.step(LocatorEvent::Inspected(Inspection {
        exists: true,
        is_directory: false,
        entries: None,
    }));
    assert_eq!(LocatorAction::Finish(Resolution::Failed(CliError::DirectoryNotFound)), action);
}

#[test]
fn the_legacy_file_is_deleted() {
    let (locator, _) = migrations_dir(&context(&[Some("/p/migrations")], None, None));
    let (locator, action) =
        locator.step(directory(vec![entry("1_users", false), entry(".gitkeep", true)]));
    assert_eq!(LocatorAction::RemoveFile(FsPath::parse("/p/migrations/.gitkeep")), action);
    assert!(!locator.is_finished());
    let (_, action) = locator.step(LocatorEvent::Removed(None));
    assert_eq!(found("/p/migrations"), action);
}

#[test]
fn a_legacy_file_that_cannot_be_deleted_is_only_warned_of() {
    let (locator, _) = migrations_dir(&context(&[Some("/p/migrations")], None, None));
    let (locator, _) = locator.step(directory(vec![entry(".gitkeep", true)]));
    let (_, action) = locator.step(LocatorEvent::Removed(Some(String::from("Permission denied"))));
    assert_eq!(
        LocatorAction::Finish(Resolution::Found {
            dir: FsPath::parse("/p/migrations"),
            warning: Some(String::from(
                "WARNING: Unable to delete existing `migrations/.gitkeep`:\nPermission denied"
            )),
        }),
        action
    );
}

#[test]
fn only_a_file_of_the_exact_name_is_a_legacy_file() {
    assert!(holds_legacy_keep(&vec![entry("a", true), entry(".gitkeep", true)]));
    assert!(!holds_legacy_keep(&vec![entry(".gitkeep", false)]));
    assert!(!holds_legacy_keep(&vec![entry(".keep", true), entry(".gitkeep2", true)]));
    assert!(!holds_legacy_keep(&vec![entry(".GITKEEP", true)]));
    assert!(!holds_legacy_keep(&Vec::new()));
}

#[test]
fn a_directory_that_cannot_be_read_is_not_cleaned() {
    let (locator, _) = migrations_dir(&context(&[Some("/p/migrations")], None, None));
    let (_, action) = locator.step(LocatorEvent::Inspected(Inspection {
        exists: true,
        is_directory: true,
        entries: None,
    }));
    assert_eq!(found("/p/migrations"), action);
}

#[test]
fn a_directory_found_by_the_search_is_taken_as_it_is() {
    let (locator, action) = migrations_dir(&context(&[], None, None));
    assert_eq!(LocatorAction::Search, action);
    let (locator, action) =
        locator.step(LocatorEvent::Searched(Some(FsPath::parse("/work/project/migrations"))));
    assert_eq!(found("/work/project/migrations"), action);
    assert!(locator.is_finished());
}

#[test]
fn a_search_that_finds_nothing_fails() {
    let (locator, _) = migrations_dir(&context(&[], None, None));
    let (_, action) = locator.step(LocatorEvent::Searched(None));
    assert_eq!(LocatorAction::Finish(Resolution::Failed(CliError::DirectoryNotFound)), action);
}

#[test]
fn the_setup_makes_a_named_directory_that_is_missing() {
    let (locator, action) = create_migrations_dir(&context(&[], None, Some("db/migrations")));
    assert_eq!(LocatorAction::Inspect(FsPath::parse("db/migrations")), action);
    let (_, action) = locator.step(nothing_there());
    assert_eq!(
        LocatorAction::Finish(Resolution::Create {
            dir: FsPath::parse("db/migrations"),
            warning: None
        }),
        action
    );
}

#[test]
fn the_setup_keeps_a_named_directory_that_is_there() {
    let (locator, _) = create_migrations_dir(&context(&[], None, Some("db/migrations")));
    let (_, action) = locator.step(directory(Vec::new()));
    assert_eq!(found("db/migrations"), action);
}

#[test]
fn the_setup_cleans_a_named_directory_too() {
    let (locator, _) = create_migrations_dir(&context(&[], None, Some("db/migrations")));
    let (locator, action) = locator.step(directory(vec![entry(".gitkeep", true)]));
    assert_eq!(LocatorAction::RemoveFile(FsPath::parse("db/migrations/.gitkeep")), action);
    let (_, action) = locator.step(LocatorEvent::Removed(None));
    assert_eq!(found("db/migrations"), action);
}

#[test]
fn the_setup_keeps_a_directory_found_by_the_search() {
    let (locator, _) = create_migrations_dir(&context(&[], None, None));
    let (_, action) = locator.step(LocatorEvent::Searched(Some(FsPath::parse("/work/migrations"))));
    assert_eq!(found("/work/migrations"), action);
}

#[test]
fn the_setup_falls_back_to_the_project_root() {
    let (locator, _) = create_migrations_dir(&context(&[], None, None));
    let (locator, action) = locator.step(LocatorEvent::Searched(None));
    let (locator, action, probed) =
        probe_until_done(locator, action, &["/work/project/diesel.toml"]);
    assert_eq!(vec!["/work/project/src/diesel.toml", "/work/project/diesel.toml"], probed);
    assert_eq!(LocatorAction::Inspect(FsPath::parse("/work/project/migrations")), action);
    let (_, action) = locator.step(nothing_there());
    assert_eq!(
        LocatorAction::Finish(Resolution::Create {
            dir: FsPath::parse("/work/project/migrations"),
            warning: None
        }),
        action
    );
}

#[test]
fn the_setup_takes_the_package_manifest_where_no_configuration_file_is() {
    let (locator, _) = create_migrations_dir(&context(&[], None, None));
    let (locator, action) = locator.step(LocatorEvent::Searched(None));
    let (locator, action, probed) = probe_until_done(locator, action, &["/work/Cargo.toml"]);
    assert_eq!(
        vec![
            "/work/project/src/diesel.toml",
            "/work/project/diesel.toml",
            "/work/diesel.toml",
            "/diesel.toml",
            "/work/project/src/Cargo.toml",
            "/work/project/Cargo.toml",
            "/work/Cargo.toml",
        ],
        probed
    );
    assert_eq!(LocatorAction::Inspect(FsPath::parse("/work/migrations")), action);
    let (_, action) = locator.step(directory(Vec::new()));
    assert_eq!(found("/work/migrations"), action);
}

#[test]
fn the_setup_fails_without_a_project_root() {
    let (locator, _) = create_migrations_dir(&context(&[], None, None));
    let (locator, action) = locator.step(LocatorEvent::Searched(None));
    let (locator, action, probed) = probe_until_done(locator, action, &[]);
    assert_eq!(8, probed.len());
    assert_eq!(
        LocatorAction::Finish(Resolution::Failed(CliError::ProjectRootNotFound(FsPath::parse(
            "/work/project/src"
        )))),
        action
    );
    assert!(locator.is_finished());
}

#[test]
fn the_setup_does_not_clean_the_directory_in_the_project_root() {
    let (locator, _) = create_migrations_dir(&context(&[], None, None));
    let (locator, action) = locator.step(LocatorEvent::Searched(None));
    let (locator, _, _) = probe_until_done(locator, action, &["/work/project/src/diesel.toml"]);
    let (_, action) = locator.step(directory(vec![entry(".gitkeep", true)]));
    assert_eq!(found("/work/project/src/migrations"), action);
}

#[test]
fn a_stray_report_to_the_locator_is_ignored() {
    let (locator, action) = migrations_dir(&context(&[Some("m")], None, None));
    assert_eq!(LocatorAction::Inspect(FsPath::parse("m")), action);
    let (locator, action) = locator.step(LocatorEvent::Searched(None));
    assert_eq!(LocatorAction::Inspect(FsPath::parse("m")), action);
    let (locator, action) = locator.step(LocatorEvent::Probed(true));
    assert_eq!(LocatorAction::Inspect(FsPath::parse("m")), action);
    let (locator, action) = locator.step(directory(vec![entry(".gitkeep", true)]));
    assert_eq!(LocatorAction::RemoveFile(FsPath::parse("m/.gitkeep")), action);
    let (locator, action) = locator.step(nothing_there());
    assert_eq!(LocatorAction::RemoveFile(FsPath::parse("m/.gitkeep")), action);
    let (locator, action) = locator.step(LocatorEvent::Removed(None));
    assert_eq!(found("m"), action);
    let (_, action) = locator.step(LocatorEvent::Removed(Some(String::from("late"))));
    assert_eq!(found("m"), action);
}

#[test]
fn a_stray_report_while_searching_asks_again() {
    let (locator, _) = create_migrations_dir(&context(&[], None, None));
    let (locator, action) = locator.step(LocatorEvent::Probed(true));
    assert_eq!(LocatorAction::Search, action);
    let (locator, action) = locator.step(LocatorEvent::Searched(None));
    assert_eq!(LocatorAction::Probe(FsPath::parse("/work/project/src/diesel.toml")), action);
    let (_, action) = locator.step(LocatorEvent::Searched(None));
    assert_eq!(LocatorAction::Probe(FsPath::parse("/work/project/src/diesel.toml")), action);
}

#[test]
fn an_optional_path_is_copied_whole() {
    assert_eq!(None, clone_opt_path(&None));
    assert_eq!(Some(FsPath::parse("a/b")), clone_opt_path(&Some(FsPath::parse("a/b"))));
    let resolution = Resolution::Create { dir: FsPath::parse("x"), warning: Some(String::from("w")) };
    assert_eq!(resolution, resolution.clone());
}

#[test]
fn the_configuration_is_consulted_only_where_nothing_else_names_the_directory() {
    assert!(needs_configuration(&Vec::new(), &None));
    assert!(needs_configuration(&vec![None, None], &None));
    assert!(!needs_configuration(&vec![None, Some(FsPath::parse("m"))], &None));
    assert!(!needs_configuration(&Vec::new(), &Some(FsPath::parse("m"))));
    let named = InvocationContext { config: None, ..context(&[Some("/from/cli")], None, None) };
    let (_, action) = migrations_dir(&named);
    assert_eq!(LocatorAction::Inspect(FsPath::parse("/from/cli")), action);
}
