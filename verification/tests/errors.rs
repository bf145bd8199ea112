use diesel_cli::error::{
    clone_outcome, exit_status, schema_out_of_sync_message, unrecognized_format_message, CliError,
};
use diesel_cli::path::FsPath;

#[test]
fn the_process_ends_with_zero_after_success() {
    assert_eq!(0, exit_status(&Ok(())));
}

#[test]
fn the_process_ends_with_one_after_any_error() {
    let errors = [
        CliError::DirectoryNotFound,
        CliError::ProjectRootNotFound(FsPath::parse("/tmp")),
        CliError::SchemaOutOfSync(FsPath::parse("src/schema.rs")),
        CliError::UnrecognizedMigrationFormat(String::from("yaml")),
        CliError::External(String::from("connection refused")),
    ];
    for error in errors {
        assert_eq!(1, exit_status(&Err(error)));
    }
}

#[test]
fn the_out_of_sync_message_names_the_file() {
    assert_eq!(
        "Command would result in changes to src/schema.rs. \
         Rerun the command locally, and commit the changes.",
        schema_out_of_sync_message(&FsPath::parse("src/schema.rs"))
    );
}

#[test]
fn the_format_message_names_the_format() {
    assert_eq!("Unrecognized migration format `yaml`", unrecognized_format_message("yaml"));
    assert_eq!("Unrecognized migration format ``", unrecognized_format_message(""));
}

#[test]
fn errors_and_outcomes_are_copied_whole() {
    let error = CliError::ProjectRootNotFound(FsPath::parse("/a/b"));
    assert_eq!(error, error.clone());
    let failed: Result<(), CliError> = Err(CliError::External(String::from("boom")));
    assert_eq!(failed, clone_outcome(&failed));
    assert_eq!(Ok(()), clone_outcome(&Ok(())));
}
