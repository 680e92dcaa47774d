//! Failures: of the database, and of the gateway's operations.
use vstd::prelude::*;

verus! {

/// The reasons for which an operation of the gateway fails.
#[derive(Clone, Copy, Debug, PartialEq, Eq, Structural)]
pub enum ErrorKind {
    /// No account matches.
    UserNotFound,
    /// An account of that name exists.
    UserAlreadyExists,
    /// No project of that name exists.
    ProjectNotFound,
    /// A project of that name exists.
    ProjectAlreadyExists,
    /// The project has no address that requests could be passed on to.
    ProjectNotReady,
    /// The project did not answer a request that was passed on to it.
    ProjectUnavailable,
    /// No worker takes work at present.
    NotReady,
    /// The database failed.
    Internal,
}

/// A statement that the database did not carry out.
#[derive(Debug, PartialEq, Eq)]
pub enum StatementError {
    /// The database refused the statement, with its result code if it gave one.
    Database { code: Option<String>, message: String },
    /// The statement did not reach the database, or its answer was lost.
    Other { message: String },
}

/// The code by which SQLite reports that a row with the same primary key
/// exists (`SQLITE_CONSTRAINT_PRIMARYKEY`).
pub const PRIMARY_KEY_CLASH: &'static str = "1555";

impl StatementError {
    /// The statement would have stored a second row under one primary key.
    pub open spec fn is_clash(self) -> bool {
        self matches StatementError::Database { code: Some(code), .. } && code@
            == PRIMARY_KEY_CLASH@
    }

    /// Whether the statement would have stored a second row under one primary
    /// key.
    pub fn clashes(&self) -> (clash: bool)
        ensures
            clash == self.is_clash(),
    {
        match self {
            StatementError::Database { code: Some(code), .. } => *code
                == PRIMARY_KEY_CLASH.to_owned(),
            _ => false,
        }
    }
}

/// The failure of an operation, with the failure of the database behind it
/// where there is one.
#[derive(Debug, PartialEq, Eq)]
pub struct Error {
    pub kind: ErrorKind,
    pub source: Option<StatementError>,
}

impl Error {
    /// The failure of kind `kind` with nothing behind it.
    pub open spec fn plain(kind: ErrorKind) -> Error {
        Error { kind, source: None }
    }

    /// The failure of kind `kind` with the database's failure `err` behind it.
    pub open spec fn caused(kind: ErrorKind, err: StatementError) -> Error {
        Error { kind, source: Some(err) }
    }

    pub fn from_kind(kind: ErrorKind) -> (r: Error)
        ensures
            r == Error::plain(kind),
    {
        Error { kind, source: None }
    }

    pub fn source(kind: ErrorKind, err: StatementError) -> (r: Error)
        ensures
            r == Error::caused(kind, err),
    {
        Error { kind, source: Some(err) }
    }

    pub fn kind(&self) -> (kind: ErrorKind)
        ensures
            kind == self.kind,
    {
        self.kind
    }
}

/// The failure of an operation that asks the state of a project to do something:
/// of the gateway, or of the state, which is passed on as it is. What a state
/// fails with, `E`, is up to what runs the projects.
#[derive(Debug, PartialEq, Eq)]
pub enum Failure<E> {
    Gateway(Error),
    State(E),
}

impl From<ErrorKind> for Error {
    fn from(kind: ErrorKind) -> (r: Error) {
        Error::from_kind(kind)
    }
}

impl vstd::std_specs::convert::FromSpecImpl<ErrorKind> for Error {
    open spec fn obeys_from_spec() -> bool {
        true
    }

    open spec fn from_spec(kind: ErrorKind) -> Error {
        Error::plain(kind)
    }
}

impl From<StatementError> for Error {
    fn from(err: StatementError) -> (r: Error) {
        Error::source(ErrorKind::Internal, err)
    }
}

impl vstd::std_specs::convert::FromSpecImpl<StatementError> for Error {
    open spec fn obeys_from_spec() -> bool {
        true
    }

    open spec fn from_spec(err: StatementError) -> Error {
        Error::caused(ErrorKind::Internal, err)
    }
}

impl<E> From<Error> for Failure<E> {
    fn from(err: Error) -> (r: Failure<E>) {
        Failure::Gateway(err)
    }
}

impl<E> vstd::std_specs::convert::FromSpecImpl<Error> for Failure<E> {
    open spec fn obeys_from_spec() -> bool {
        true
    }

    open spec fn from_spec(err: Error) -> Failure<E> {
        Failure::Gateway(err)
    }
}

} // verus!
