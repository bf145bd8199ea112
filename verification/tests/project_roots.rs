use diesel_cli::error::CliError;
use diesel_cli::path::FsPath;
use diesel_cli::project_root::{
    find_project_root, search_for_directory_containing_file, Manifest, RootSearch, SearchAction,
};
use std::path::Path;
use tempfile::{Builder, NamedTempFile};

/// Runs a search against the real file system.
fn on_disk(start: (RootSearch, SearchAction)) -> Result<FsPath, CliError> {
    let (mut search, mut action) = start;
    loop {
        match action {
            SearchAction::Finish(result) => return result,
            SearchAction::Probe(candidate) => {
                let next = search.step(Path::new(&candidate.render()).is_file());
                search = next.0;
                action = next.1;
            }
        }
    }
}

/// Runs a search against a list of the files that exist.
fn among(files: &[&str], start: (RootSearch, SearchAction)) -> (Result<FsPath, CliError>, Vec<String>) {
    let (mut search, mut action) = start;
    let mut probed = Vec::new();
    loop {
        match action {
            SearchAction::Finish(result) => return (result, probed),
            SearchAction::Probe(candidate) => {
                let shown = candidate.render();
                let next = search.step(files.contains(&shown.as_str()));
                probed.push(shown);
                search = next.0;
                action = next.1;
            }
        }
    }
}

fn root_among(files: &[&str], working_directory: &str) -> Result<FsPath, CliError> {
    let (mut search, mut action) = find_project_root(&FsPath::parse(working_directory));
    loop {
        match action {
            SearchAction::Finish(result) => return result,
            SearchAction::Probe(candidate) => {
                let next = search.step(files.contains(&candidate.render().as_str()));
                search = next.0;
                action = next.1;
            }
        }
    }
}

#[test]
fn toml_directory_find_cargo_toml() {
    let dir = Builder::new().prefix("diesel").tempdir().unwrap();
    let temp_path = dir.path().canonicalize().unwrap();
    let toml_path = temp_path.join("Cargo.toml");

    NamedTempFile::new_in(&temp_path).unwrap().persist(&toml_path).unwrap();

    let start = FsPath::parse(temp_path.to_str().unwrap());
    assert_eq!(
        Ok(start.clone()),
        on_disk(search_for_directory_containing_file(&start, "Cargo.toml"))
    );
}

#[test]
fn cargo_toml_not_found_if_no_cargo_toml() {
    let dir = Builder::new().prefix("diesel").tempdir().unwrap();
    let temp_path = dir.path().canonicalize().unwrap();

    let start = FsPath::parse(temp_path.to_str().unwrap());
    assert_eq!(
        Err(CliError::ProjectRootNotFound(start.clone())),
        on_disk(search_for_directory_containing_file(&start, "Cargo.toml"))
    );
}

#[test]
fn cargo_toml_is_found_in_a_directory_above() {
    let dir = Builder::new().prefix("diesel").tempdir().unwrap();
    let temp_path = dir.path().canonicalize().unwrap();
    NamedTempFile::new_in(&temp_path).unwrap().persist(temp_path.join("Cargo.toml")).unwrap();
    let below = Builder::new().prefix("src").tempdir_in(&temp_path).unwrap();

    let start = FsPath::parse(below.path().to_str().unwrap());
    assert_eq!(
        Ok(FsPath::parse(temp_path.to_str().unwrap())),
        on_disk(search_for_directory_containing_file(&start, "Cargo.toml"))
    );
}

#[test]
fn the_search_begins_with_the_starting_directory() {
    let (search, action) = search_for_directory_containing_file(&FsPath::parse("/a/b"), "Cargo.toml");
    assert_eq!(SearchAction::Probe(FsPath::parse("/a/b/Cargo.toml")), action);
    assert_eq!(
        RootSearch {
            start: FsPath::parse("/a/b"),
            at: FsPath::parse("/a/b"),
            file: String::from("Cargo.toml"),
        },
        search
    );
}

#[test]
fn the_search_finds_the_nearest_directory() {
    let files = ["/a/Cargo.toml", "/a/b/c/Cargo.toml", "/Cargo.toml"];
    let (result, probed) =
        among(&files, search_for_directory_containing_file(&FsPath::parse("/a/b/c/d"), "Cargo.toml"));
    assert_eq!(Ok(FsPath::parse("/a/b/c")), result);
    assert_eq!(vec!["/a/b/c/d/Cargo.toml", "/a/b/c/Cargo.toml"], probed);
}

#[test]
fn the_search_walks_up_to_the_root() {
    let (result, probed) =
        among(&["/Cargo.toml"], search_for_directory_containing_file(&FsPath::parse("/a/b"), "Cargo.toml"));
    assert_eq!(Ok(FsPath::parse("/")), result);
    assert_eq!(vec!["/a/b/Cargo.toml", "/a/Cargo.toml", "/Cargo.toml"], probed);
}

#[test]
fn a_search_that_fails_names_where_it_began() {
    let (result, probed) =
        among(&[], search_for_directory_containing_file(&FsPath::parse("/a/b"), "Cargo.toml"));
    assert_eq!(Err(CliError::ProjectRootNotFound(FsPath::parse("/a/b"))), result);
    assert_eq!(3, probed.len());
}

#[test]
fn a_search_from_a_relative_directory_ends_at_the_empty_path() {
    let (result, probed) =
        among(&["Cargo.toml"], search_for_directory_containing_file(&FsPath::parse("a/b"), "Cargo.toml"));
    assert_eq!(Ok(FsPath::parse("")), result);
    assert_eq!(vec!["a/b/Cargo.toml", "a/Cargo.toml", "Cargo.toml"], probed);
}

#[test]
fn the_manifests_have_their_file_names() {
    assert_eq!("diesel.toml", Manifest::DieselToml.file_name());
    assert_eq!("Cargo.toml", Manifest::CargoToml.file_name());
}

#[test]
fn the_project_root_holds_the_configuration_file() {
    assert_eq!(
        Ok(FsPath::parse("/work/project")),
        root_among(&["/work/project/diesel.toml"], "/work/project/src")
    );
}

#[test]
fn a_configuration_file_far_above_wins_over_a_package_manifest_nearby() {
    let files = ["/diesel.toml", "/work/project/src/Cargo.toml"];
    assert_eq!(Ok(FsPath::parse("/")), root_among(&files, "/work/project/src"));
}

#[test]
fn the_package_manifest_marks_the_root_where_no_configuration_file_is() {
    let files = ["/work/project/Cargo.toml", "/work/Cargo.toml"];
    assert_eq!(Ok(FsPath::parse("/work/project")), root_among(&files, "/work/project/src"));
}

#[test]
fn without_any_manifest_there_is_no_project_root() {
    assert_eq!(
        Err(CliError::ProjectRootNotFound(FsPath::parse("/work/project/src"))),
        root_among(&["/work/project/src/main.rs"], "/work/project/src")
    );
}
