use mini_tracker::error::{map_db_error, AppError, DbFailure, ErrorKind};

fn database(message: &str) -> DbFailure {
    DbFailure { message: Some(message.to_string()) }
}

#[test]
fn each_kind_has_its_status_code() {
    assert_eq!(AppError::not_found("x").status_code(), 404);
    assert_eq!(AppError::conflict("x").status_code(), 409);
    assert_eq!(AppError::validation("x").status_code(), 422);
    assert_eq!(AppError::internal_message("x").status_code(), 500);
    assert_eq!(AppError::internal("x", DbFailure { message: None }).status_code(), 500);
}

#[test]
fn constructors_keep_the_message() {
    assert_eq!(
        AppError::not_found("game not found"),
        AppError { kind: ErrorKind::NotFound, message: "game not found" }
    );
    assert_eq!(
        AppError::conflict("game name already exists"),
        AppError { kind: ErrorKind::Conflict, message: "game name already exists" }
    );
    assert_eq!(
        AppError::internal("failed to load game", database("disk I/O error")),
        AppError { kind: ErrorKind::Internal, message: "failed to load game" }
    );
    assert_eq!(
        AppError::internal_message("invalid id stored in database"),
        AppError { kind: ErrorKind::Internal, message: "invalid id stored in database" }
    );
    assert_eq!(
        AppError::validation("quantity must be greater than 0"),
        AppError { kind: ErrorKind::Validation, message: "quantity must be greater than 0" }
    );
}

#[test]
fn unique_name_failure_is_a_conflict() {
    let error = map_db_error(database("UNIQUE constraint failed: games.name"));
    assert_eq!(error, AppError { kind: ErrorKind::Conflict, message: "game name already exists" });
}

#[test]
fn unique_name_failure_is_found_inside_a_longer_message() {
    let error = map_db_error(database(
        "error returned from database: (code: 2067) UNIQUE constraint failed: games.name",
    ));
    assert_eq!(error.kind, ErrorKind::Conflict);
}

#[test]
fn other_database_failures_are_internal() {
    for message in [
        "UNIQUE constraint failed: games.id",
        "UNIQUE constraint failed: games.nam",
        "unique constraint failed: games.name",
        "FOREIGN KEY constraint failed",
        "",
    ] {
        let error = map_db_error(database(message));
        assert_eq!(
            error,
            AppError { kind: ErrorKind::Internal, message: "failed to create game" }
        );
    }
}

#[test]
fn failures_without_wording_are_internal() {
    let error = map_db_error(DbFailure { message: None });
    assert_eq!(error, AppError { kind: ErrorKind::Internal, message: "failed to create game" });
}

#[test]
fn a_failure_can_be_copied() {
    let failure = database("disk I/O error");
    assert_eq!(failure.clone(), failure);
    assert_eq!(DbFailure { message: None }.clone(), DbFailure { message: None });
}
