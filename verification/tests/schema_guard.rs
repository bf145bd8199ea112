use diesel_cli::config::{Config, Filtering, PrintSchema, TableName};
use diesel_cli::error::CliError;
use diesel_cli::path::FsPath;
use diesel_cli::schema_sync::{
    regenerate_schema_if_file_specified, same_bytes, RenderRequest, SchemaSync, SyncAction,
    SyncEvent, SyncState,
};

const URL: &str = "postgres://localhost/app";

fn settings(file: Option<&str>) -> PrintSchema {
    PrintSchema {
        file: file.map(FsPath::parse),
        with_docs: true,
        filter: Filtering::OnlyTables(vec![TableName {
            name: String::from("users"),
            schema: Some(String::from("public")),
        }]),
        schema: Some(String::from("public")),
        patch_file: Some(FsPath::parse("schema.patch")),
        import_types: Some(vec![String::from("diesel::sql_types::*")]),
    }
}

fn config_with_file(file: Option<&str>) -> Config {
    Config { migrations_directory: None, print_schema: settings(file) }
}

fn render(file: &str) -> SyncAction {
    SyncAction::Render(RenderRequest {
        database_url: String::from(URL),
        settings: settings(Some(file)),
    })
}

fn start(config: &Config, locked: bool) -> (SchemaSync, SyncAction) {
    regenerate_schema_if_file_specified(config, URL, locked)
}

/// A file system and a database in memory: the files by their path, the
/// directories made, and the schema that rendering gives.
struct FakeWorld {
    files: Vec<(String, Vec<u8>)>,
    directories: Vec<String>,
    schema: Result<Vec<u8>, String>,
    log: Vec<String>,
}

impl FakeWorld {
    fn new(schema: &str) -> FakeWorld {
        FakeWorld {
            files: Vec::new(),
            directories: Vec::new(),
            schema: Ok(schema.as_bytes().to_vec()),
            log: Vec::new(),
        }
    }

    fn with_file(mut self, path: &str, contents: &str) -> FakeWorld {
        self.files.push((String::from(path), contents.as_bytes().to_vec()));
        self
    }

    fn file(&self, path: &str) -> Option<Vec<u8>> {
        self.files.iter().find(|(p, _)| p == path).map(|(_, c)| c.clone())
    }

    fn put(&mut self, path: String, contents: Vec<u8>) {
        self.files.retain(|(p, _)| *p != path);
        self.files.push((path, contents));
    }

    fn perform(&mut self, action: &SyncAction) -> SyncEvent {
        match action {
            SyncAction::CreateDirectories(dir) => {
                self.log.push(format!("mkdir {}", dir.render()));
                self.directories.push(dir.render());
                SyncEvent::DirectoriesCreated
            }
            SyncAction::Render(request) => {
                assert_eq!(URL, request.database_url);
                self.log.push(String::from("render"));
                match &self.schema {
                    Ok(bytes) => SyncEvent::Rendered(bytes.clone()),
                    Err(message) => SyncEvent::Failed(message.clone()),
                }
            }
            SyncAction::ReadFile(path) => {
                self.log.push(format!("read {}", path.render()));
                match self.file(&path.render()) {
                    Some(bytes) => SyncEvent::FileRead(bytes),
                    None => SyncEvent::Failed(String::from("No such file or directory")),
                }
            }
            SyncAction::CreateFile(path) => {
                self.log.push(format!("create {}", path.render()));
                self.put(path.render(), Vec::new());
                SyncEvent::FileCreated
            }
            SyncAction::WriteFile(path, bytes) => {
                self.log.push(format!("write {}", path.render()));
                self.put(path.render(), bytes.clone());
                SyncEvent::FileWritten
            }
            SyncAction::Finish(_) => unreachable!(),
        }
    }
}

fn sync(config: &Config, locked: bool, world: &mut FakeWorld) -> Result<(), CliError> {
    let (mut guard, mut action) = start(config, locked);
    for _ in 0..10 {
        if let SyncAction::Finish(outcome) = action {
            assert!(guard.is_finished());
            return outcome;
        }
        assert!(!guard.is_finished());
        let event = world.perform(&action);
        let next = guard.step(event);
        guard = next.0;
        action = next.1;
    }
    panic!("the guard did not finish");
}

#[test]
fn without_a_schema_file_nothing_is_done() {
    for locked in [false, true] {
        let mut world = FakeWorld::new("table! {}");
        assert_eq!(Ok(()), sync(&config_with_file(None), locked, &mut world));
        assert!(world.log.is_empty());
        assert!(world.files.is_empty());
    }
}

#[test]
fn a_locked_check_of_an_unchanged_schema_passes() {
    let mut world = FakeWorld::new("table! { users }").with_file("src/schema.rs", "table! { users }");
    assert_eq!(Ok(()), sync(&config_with_file(Some("src/schema.rs")), true, &mut world));
    assert_eq!(vec!["mkdir src", "render", "read src/schema.rs"], world.log);
}

#[test]
fn a_locked_check_twice_over_one_database_state_shows_no_drift() {
    let config = config_with_file(Some("src/schema.rs"));
    let mut world = FakeWorld::new("table! { users }");
    assert_eq!(Ok(()), sync(&config, false, &mut world));
    assert_eq!(Ok(()), sync(&config, true, &mut world));
    assert_eq!(Ok(()), sync(&config, true, &mut world));
    assert_eq!(Some(b"table! { users }".to_vec()), world.file("src/schema.rs"));
}

#[test]
fn a_locked_check_of_a_changed_file_fails_and_leaves_the_file() {
    let mut world = FakeWorld::new("table! { users }").with_file("src/schema.rs", "edited by hand");
    assert_eq!(
        Err(CliError::SchemaOutOfSync(FsPath::parse("src/schema.rs"))),
        sync(&config_with_file(Some("src/schema.rs")), true, &mut world)
    );
    assert_eq!(Some(b"edited by hand".to_vec()), world.file("src/schema.rs"));
    assert!(world.log.iter().all(|entry| !entry.starts_with("write")));
    assert!(world.log.iter().all(|entry| !entry.starts_with("create")));
}

#[test]
fn a_locked_check_sees_a_difference_in_length_only() {
    let mut world = FakeWorld::new("abc").with_file("schema.rs", "abcd");
    assert_eq!(
        Err(CliError::SchemaOutOfSync(FsPath::parse("schema.rs"))),
        sync(&config_with_file(Some("schema.rs")), true, &mut world)
    );
    let mut world = FakeWorld::new("abcd").with_file("schema.rs", "abc");
    assert_eq!(
        Err(CliError::SchemaOutOfSync(FsPath::parse("schema.rs"))),
        sync(&config_with_file(Some("schema.rs")), true, &mut world)
    );
}

#[test]
fn a_locked_check_without_the_file_fails_without_making_it() {
    let mut world = FakeWorld::new("table! { users }");
    assert_eq!(
        Err(CliError::External(String::from("No such file or directory"))),
        sync(&config_with_file(Some("src/schema.rs")), true, &mut world)
    );
    assert_eq!(None, world.file("src/schema.rs"));
}

#[test]
fn an_unlocked_sync_writes_over_the_file() {
    let mut world = FakeWorld::new("table! { users }").with_file("src/schema.rs", "edited by hand");
    assert_eq!(Ok(()), sync(&config_with_file(Some("src/schema.rs")), false, &mut world));
    assert_eq!(Some(b"table! { users }".to_vec()), world.file("src/schema.rs"));
    assert_eq!(
        vec!["mkdir src", "create src/schema.rs", "render", "write src/schema.rs"],
        world.log
    );
}

#[test]
fn an_unlocked_sync_makes_the_file_and_the_directories_above_it() {
    let mut world = FakeWorld::new("table! { users }");
    assert_eq!(Ok(()), sync(&config_with_file(Some("/srv/app/src/db/schema.rs")), false, &mut world));
    assert_eq!(Some(b"table! { users }".to_vec()), world.file("/srv/app/src/db/schema.rs"));
    assert_eq!(vec!["/srv/app/src/db"], world.directories);
}

#[test]
fn an_unlocked_sync_writes_over_a_file_that_already_holds_the_schema() {
    let mut world = FakeWorld::new("same").with_file("schema.rs", "same");
    assert_eq!(Ok(()), sync(&config_with_file(Some("schema.rs")), false, &mut world));
    assert_eq!(vec!["create schema.rs", "render", "write schema.rs"], world.log);
}

#[test]
fn a_file_without_directories_above_it_needs_none_made() {
    let (guard, action) = start(&config_with_file(Some("schema.rs")), true);
    assert_eq!(render("schema.rs"), action);
    assert_eq!(SyncState::Rendering, guard.state);
    let (_, action) =
        start(&config_with_file(Some("schema.rs")), false);
    assert_eq!(SyncAction::CreateFile(FsPath::parse("schema.rs")), action);
    let (_, action) =
        start(&config_with_file(Some("/schema.rs")), false);
    assert_eq!(SyncAction::CreateDirectories(FsPath::parse("/")), action);
}

#[test]
fn a_rendering_that_fails_is_the_outcome() {
    for locked in [false, true] {
        let mut world = FakeWorld::new("").with_file("schema.rs", "kept");
        world.schema = Err(String::from("connection refused"));
        assert_eq!(
            Err(CliError::External(String::from("connection refused"))),
            sync(&config_with_file(Some("schema.rs")), locked, &mut world)
        );
    }
}

#[test]
fn an_unlocked_sync_empties_the_file_before_it_renders() {
    let mut world = FakeWorld::new("").with_file("schema.rs", "kept");
    world.schema = Err(String::from("connection refused"));
    let _ = sync(&config_with_file(Some("schema.rs")), false, &mut world);
    assert_eq!(Some(Vec::new()), world.file("schema.rs"));
    assert_eq!(vec!["create schema.rs", "render"], world.log);
}

#[test]
fn directories_that_cannot_be_made_end_the_sync() {
    let (guard, action) =
        start(&config_with_file(Some("a/b/schema.rs")), false);
    assert_eq!(SyncAction::CreateDirectories(FsPath::parse("a/b")), action);
    let (guard, action) = guard.step(SyncEvent::Failed(String::from("Permission denied")));
    assert_eq!(
        SyncAction::Finish(Err(CliError::External(String::from("Permission denied")))),
        action
    );
    assert!(guard.is_finished());
}

#[test]
fn a_stray_report_is_ignored() {
    let (guard, action) =
        start(&config_with_file(Some("a/schema.rs")), true);
    assert_eq!(SyncAction::CreateDirectories(FsPath::parse("a")), action);
    let (guard, action) = guard.step(SyncEvent::FileWritten);
    assert_eq!(SyncAction::CreateDirectories(FsPath::parse("a")), action);
    let (guard, action) = guard.step(SyncEvent::DirectoriesCreated);
    assert_eq!(render("a/schema.rs"), action);
    let (guard, action) = guard.step(SyncEvent::FileRead(vec![1]));
    assert_eq!(render("a/schema.rs"), action);
    let (guard, action) = guard.step(SyncEvent::Rendered(vec![1, 2]));
    assert_eq!(SyncAction::ReadFile(FsPath::parse("a/schema.rs")), action);
    assert_eq!(
        SchemaSync {
            file: FsPath::parse("a/schema.rs"),
            locked: true,
            request: RenderRequest {
                database_url: String::from(URL),
                settings: settings(Some("a/schema.rs")),
            },
            state: SyncState::Reading { fresh: vec![1, 2] },
        },
        guard
    );
    let (guard, action) = guard.step(SyncEvent::Rendered(vec![9]));
    assert_eq!(SyncAction::ReadFile(FsPath::parse("a/schema.rs")), action);
    let (guard, action) = guard.step(SyncEvent::FileRead(vec![1, 2]));
    assert_eq!(SyncAction::Finish(Ok(())), action);
    let (_, action) = guard.step(SyncEvent::FileRead(vec![3]));
    assert_eq!(SyncAction::Finish(Ok(())), action);
}

#[test]
fn a_stray_report_while_writing_asks_for_the_same_bytes() {
    let (guard, _) = start(&config_with_file(Some("s.rs")), false);
    let (guard, _) = guard.step(SyncEvent::FileCreated);
    let (guard, action) = guard.step(SyncEvent::Rendered(vec![7, 8]));
    assert_eq!(SyncAction::WriteFile(FsPath::parse("s.rs"), vec![7, 8]), action);
    let (guard, action) = guard.step(SyncEvent::FileCreated);
    assert_eq!(SyncAction::WriteFile(FsPath::parse("s.rs"), vec![7, 8]), action);
    let (_, action) = guard.step(SyncEvent::FileWritten);
    assert_eq!(SyncAction::Finish(Ok(())), action);
}

#[test]
fn bytes_are_compared_one_by_one() {
    assert!(same_bytes(&vec![], &vec![]));
    assert!(same_bytes(&vec![1, 2, 3], &vec![1, 2, 3]));
    assert!(!same_bytes(&vec![1, 2, 3], &vec![1, 2, 4]));
    assert!(!same_bytes(&vec![1, 2, 3], &vec![1, 2]));
    assert!(!same_bytes(&vec![], &vec![0]));
}

#[test]
fn every_rendering_is_given_the_database_and_the_settings_as_they_came() {
    let config = config_with_file(Some("src/schema.rs"));
    let (guard, _) = start(&config, false);
    let (guard, _) = guard.step(SyncEvent::DirectoriesCreated);
    let (_, action) = guard.step(SyncEvent::FileCreated);
    assert_eq!(
        SyncAction::Render(RenderRequest {
            database_url: String::from("postgres://localhost/app"),
            settings: config.print_schema.clone(),
        }),
        action
    );
    let (guard, _) = start(&config, true);
    let (_, action) = guard.step(SyncEvent::DirectoriesCreated);
    match action {
        SyncAction::Render(request) => {
            assert_eq!(config.print_schema, request.settings);
            assert_eq!(request, request.clone());
        }
        other => panic!("unexpected action: {:?}", other),
    }
}
