//! What a request can fail with.

use vstd::prelude::*;
use vstd::string::*;
use vstd::utf8::{encode_utf8, is_ascii_chars, is_ascii_chars_encode_utf8};
use crate::text::{contains, occurs_at, text_contains};

verus! {

/// The four ways a request fails.
#[derive(Clone, Copy, Debug, PartialEq, Eq, Structural)]
pub enum ErrorKind {
    /// A record, or the parent that a new record names, is absent.
    NotFound,
    /// A game of that name exists already.
    Conflict,
    /// The request's body is out of range or names no status.
    Validation,
    /// The store failed, or holds data that cannot be read back.
    Internal,
}

impl ErrorKind {
    /// The HTTP status that stands for this kind of failure.
    pub open spec fn code(self) -> u16 {
        match self {
            ErrorKind::NotFound => 404,
            ErrorKind::Conflict => 409,
            ErrorKind::Validation => 422,
            ErrorKind::Internal => 500,
        }
    }
}

/// A failed request: its kind and a short message for the caller.
#[derive(Clone, Copy, Debug, PartialEq, Eq)]
pub struct AppError {
    pub kind: ErrorKind,
    pub message: &'static str,
}

/// A failure reported by the store. `message` is the store's own wording
/// where the failure came from the database engine, and `None` for any
/// other failure such as a lost connection.
#[derive(Debug, PartialEq, Eq)]
pub struct DbFailure {
    pub message: Option<String>,
}

impl Clone for DbFailure {
    fn clone(&self) -> (copy: DbFailure)
        ensures
            copy == *self,
    {
        match &self.message {
            Some(text) => DbFailure { message: Some(text.clone()) },
            None => DbFailure { message: None },
        }
    }
}

impl View for DbFailure {
    type V = Option<Seq<char>>;

    open spec fn view(&self) -> Option<Seq<char>> {
        match self.message {
            Some(text) => Some(text@),
            None => None,
        }
    }
}

/// The wording with which the store refuses a second game of one name.
pub open spec fn duplicate_game_name() -> Seq<char> {
    "UNIQUE constraint failed: games.name"@
}

/// Whether a store failure says that a game of that name exists already.
pub open spec fn is_duplicate_game_name(failure: Option<Seq<char>>) -> bool {
    match failure {
        Some(text) => text_contains(text, duplicate_game_name()),
        None => false,
    }
}

impl AppError {
    pub open spec fn of(kind: ErrorKind, message: &'static str) -> AppError {
        AppError { kind, message }
    }

    pub fn conflict(message: &'static str) -> (error: AppError)
        ensures
            error == AppError::of(ErrorKind::Conflict, message),
    {
        AppError { kind: ErrorKind::Conflict, message }
    }

    /// An internal failure that a store failure caused.
    pub fn internal(message: &'static str, error: DbFailure) -> (failure: AppError)
        ensures
            failure == AppError::of(ErrorKind::Internal, message),
    {
        AppError { kind: ErrorKind::Internal, message }
    }

    pub fn internal_message(message: &'static str) -> (error: AppError)
        ensures
            error == AppError::of(ErrorKind::Internal, message),
    {
        AppError { kind: ErrorKind::Internal, message }
    }

    pub fn not_found(message: &'static str) -> (error: AppError)
        ensures
            error == AppError::of(ErrorKind::NotFound, message),
    {
        AppError { kind: ErrorKind::NotFound, message }
    }

    pub fn validation(message: &'static str) -> (error: AppError)
        ensures
            error == AppError::of(ErrorKind::Validation, message),
    {
        AppError { kind: ErrorKind::Validation, message }
    }

    pub fn status_code(&self) -> (code: u16)
        ensures
            code == self.kind.code(),
    {
        match self.kind {
            ErrorKind::NotFound => 404,
            ErrorKind::Conflict => 409,
            ErrorKind::Validation => 422,
            ErrorKind::Internal => 500,
        }
    }
}

/// What a failed insert of a game means to the caller.
pub open spec fn game_insert_error(failure: Option<Seq<char>>) -> AppError {
    if is_duplicate_game_name(failure) {
        AppError::of(ErrorKind::Conflict, "game name already exists")
    } else {
        AppError::of(ErrorKind::Internal, "failed to create game")
    }
}

/// Turns a failed insert of a game into the error for the caller: a
/// conflict where the store refused the name as taken, else an internal
/// failure.
pub fn map_db_error(error: DbFailure) -> (failure: AppError)
    ensures
        failure == game_insert_error(error@),
{
    if let Some(message) = &error.message {
        if contains(message.as_str(), "UNIQUE constraint failed: games.name") {
            return AppError::conflict("game name already exists");
        }
    }
    AppError::internal("failed to create game", error)
}

/// The wording for a taken name says that the name is taken, and the
/// wording for a taken identifier does not.
pub proof fn lemma_duplicate_wording()
    ensures
        is_duplicate_game_name(Some(duplicate_game_name())),
        !is_duplicate_game_name(Some("UNIQUE constraint failed: games.id"@)),
{
    let name = duplicate_game_name();
    let id = "UNIQUE constraint failed: games.id"@;
    reveal_strlit("UNIQUE constraint failed: games.name");
    reveal_strlit("UNIQUE constraint failed: games.id");
    let name_bytes = encode_utf8(name);
    let id_bytes = encode_utf8(id);
    assert(name_bytes.subrange(0, name_bytes.len() as int) =~= name_bytes);
    assert(occurs_at(name_bytes, name_bytes, 0));
    assert(is_ascii_chars(name));
    assert(is_ascii_chars(id));
    is_ascii_chars_encode_utf8(name);
    is_ascii_chars_encode_utf8(id);
    assert(name_bytes.len() == 36);
    assert(id_bytes.len() == 34);
}

} // verus!
