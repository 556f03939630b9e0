//! Application errors: what failed, and the lower-level error behind it.

use vstd::prelude::*;

verus! {

/// The stage of the application that failed.
#[derive(Debug, Clone, Copy, PartialEq, Eq, Structural)]
pub enum AppErrorKind {
    Config,
    Bind,
    Serve,
    Database,
    DbPool,
    Migration,
}

/// The text that describes a failure of the given kind.
pub open spec fn kind_message(kind: AppErrorKind) -> Seq<char> {
    match kind {
        AppErrorKind::Config => "failed to load application configuration"@,
        AppErrorKind::Bind => "failed to bind TCP listener"@,
        AppErrorKind::Serve => "HTTP server terminated unexpectedly"@,
        AppErrorKind::Database => "database operation failed"@,
        AppErrorKind::DbPool => "failed to create database connection pool"@,
        AppErrorKind::Migration => "failed to run database migrations"@,
    }
}

impl AppErrorKind {
    /// The text that describes this kind of failure.
    pub fn message(&self) -> (m: &'static str)
        ensures
            m@ == kind_message(*self),
    {
        match self {
            AppErrorKind::Config => {
                proof { reveal_strlit("failed to load application configuration"); }
                "failed to load application configuration"
            },
            AppErrorKind::Bind => {
                proof { reveal_strlit("failed to bind TCP listener"); }
                "failed to bind TCP listener"
            },
            AppErrorKind::Serve => {
                proof { reveal_strlit("HTTP server terminated unexpectedly"); }
                "HTTP server terminated unexpectedly"
            },
            AppErrorKind::Database => {
                proof { reveal_strlit("database operation failed"); }
                "database operation failed"
            },
            AppErrorKind::DbPool => {
                proof { reveal_strlit("failed to create database connection pool"); }
                "failed to create database connection pool"
            },
            AppErrorKind::Migration => {
                proof { reveal_strlit("failed to run database migrations"); }
                "failed to run database migrations"
            },
        }
    }
}

/// The lower-level error behind an application error, as far as the
/// application tells errors apart: a query that found no row, or any
/// other failure with its description.
#[derive(Debug, Clone)]
pub enum ErrorSource {
    RowNotFound,
    Other(String),
}

/// The place in the source code where an error was raised.
#[derive(Debug, Clone)]
pub struct ErrorLocation {
    pub file: String,
    pub line: u32,
    pub column: u32,
}

/// An application error: its kind, the error that caused it, and where
/// in the source code it was raised.
#[derive(Debug)]
pub struct AppError {
    kind: AppErrorKind,
    source: Option<ErrorSource>,
    location: ErrorLocation,
}

pub type AppResult<T> = Result<T, AppError>;

impl AppError {
    /// The kind of this error.
    pub closed spec fn spec_kind(&self) -> AppErrorKind {
        self.kind
    }

    /// The error that caused this one.
    pub closed spec fn spec_source(&self) -> Option<ErrorSource> {
        self.source
    }

    /// Where this error was raised.
    pub closed spec fn spec_location(&self) -> ErrorLocation {
        self.location
    }

    /// This error was caused by a query that found no row.
    pub open spec fn caused_by_row_not_found(&self) -> bool {
        self.spec_source() matches Some(ErrorSource::RowNotFound)
    }

    /// An error of `kind` caused by `source`, raised at `location`.
    pub fn from_source(kind: AppErrorKind, source: ErrorSource, location: ErrorLocation) -> (e: Self)
        ensures
            e.spec_kind() == kind,
            e.spec_source() == Some(source),
            e.spec_location() == location,
    {
        AppError { kind, source: Some(source), location }
    }

    /// The source file where this error was raised.
    pub fn file(&self) -> (f: &str)
        ensures
            f@ == self.spec_location().file@,
    {
        self.location.file.as_str()
    }

    /// The line where this error was raised.
    pub fn line(&self) -> (l: u32)
        ensures
            l == self.spec_location().line,
    {
        self.location.line
    }

    /// The column where this error was raised.
    pub fn column(&self) -> (c: u32)
        ensures
            c == self.spec_location().column,
    {
        self.location.column
    }

    /// The kind of this error.
    pub fn kind(&self) -> (k: AppErrorKind)
        ensures
            k == self.spec_kind(),
    {
        self.kind
    }

    /// The error that caused this one.
    pub fn source(&self) -> (s: Option<&ErrorSource>)
        ensures
            s == match self.spec_source() {
                Some(e) => Some(&e),
                None => None::<&ErrorSource>,
            },
    {
        match &self.source {
            Some(e) => Some(e),
            None => None,
        }
    }

    /// Whether this error was caused by a query that found no row.
    pub fn is_row_not_found(&self) -> (b: bool)
        ensures
            b == self.caused_by_row_not_found(),
    {
        match &self.source {
            Some(ErrorSource::RowNotFound) => true,
            _ => false,
        }
    }

    /// The text of this error: that of its kind.
    pub fn message(&self) -> (m: &'static str)
        ensures
            m@ == kind_message(self.spec_kind()),
    {
        self.kind.message()
    }
}

/// Turns the error of a result into an application error of a given kind,
/// raised at a given place.
pub trait ResultExt<T>: Sized {
    fn app_err(self, kind: AppErrorKind, location: ErrorLocation) -> AppResult<T>;
}

impl<T> ResultExt<T> for Result<T, ErrorSource> {
    /// A success passes through; a failure becomes an error of `kind`
    /// caused by it, raised at `location`.
    fn app_err(self, kind: AppErrorKind, location: ErrorLocation) -> (r: AppResult<T>)
        ensures
            match self {
                Ok(v) => r == Ok::<T, AppError>(v),
                Err(s) => r matches Err(e) && {
                    &&& e.spec_kind() == kind
                    &&& e.spec_source() == Some(s)
                    &&& e.spec_location() == location
                },
            },
    {
        match self {
            Ok(v) => Ok(v),
            Err(s) => Err(AppError::from_source(kind, s, location)),
        }
    }
}

} // verus!
