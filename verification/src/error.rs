//! The closed set of ways in which a run can fail.

use vstd::prelude::*;

verus! {

/// What went wrong, without the cause.
#[derive(Clone, Copy, Debug, PartialEq, Eq, Structural)]
pub enum ErrorKind {
    /// The configuration is missing, unreadable or incomplete.
    Config,
    /// The remote feed could not be retrieved.
    Network,
    /// The retrieved body is not a well-formed feed.
    Parse,
    /// The stored snapshot is missing or is not a well-formed feed.
    Storage,
    /// The template could not be resolved or rendered.
    Render,
    /// The message could not be built or delivered.
    Mail,
}

impl ErrorKind {
    /// The name of the kind.
    pub open spec fn spec_label(&self) -> Seq<char> {
        match self {
            ErrorKind::Config => "ConfigError"@,
            ErrorKind::Network => "NetworkError"@,
            ErrorKind::Parse => "ParseError"@,
            ErrorKind::Storage => "StorageError"@,
            ErrorKind::Render => "RenderError"@,
            ErrorKind::Mail => "MailError"@,
        }
    }

    /// The name of the kind, for a diagnostic.
    pub fn label(&self) -> (name: &'static str)
        ensures
            name@ == self.spec_label(),
    {
        match self {
            ErrorKind::Config => "ConfigError",
            ErrorKind::Network => "NetworkError",
            ErrorKind::Parse => "ParseError",
            ErrorKind::Storage => "StorageError",
            ErrorKind::Render => "RenderError",
            ErrorKind::Mail => "MailError",
        }
    }
}

/// A failure of one stage of a run, with the text of its cause.
#[derive(Debug)]
pub enum MyError {
    ConfigError(String),
    NetworkError(String),
    ParseError(String),
    StorageError(String),
    RenderError(String),
    MailError(String),
}

impl MyError {
    /// The kind of this failure.
    pub open spec fn spec_kind(&self) -> ErrorKind {
        match self {
            MyError::ConfigError(_) => ErrorKind::Config,
            MyError::NetworkError(_) => ErrorKind::Network,
            MyError::ParseError(_) => ErrorKind::Parse,
            MyError::StorageError(_) => ErrorKind::Storage,
            MyError::RenderError(_) => ErrorKind::Render,
            MyError::MailError(_) => ErrorKind::Mail,
        }
    }

    /// The text of the cause.
    pub open spec fn spec_cause(&self) -> Seq<char> {
        match self {
            MyError::ConfigError(t) => t@,
            MyError::NetworkError(t) => t@,
            MyError::ParseError(t) => t@,
            MyError::StorageError(t) => t@,
            MyError::RenderError(t) => t@,
            MyError::MailError(t) => t@,
        }
    }

    /// A failure of the given kind with the given cause.
    pub fn new(kind: ErrorKind, cause: String) -> (e: MyError)
        ensures
            e.spec_kind() == kind,
            e.spec_cause() == cause@,
    {
        match kind {
            ErrorKind::Config => MyError::ConfigError(cause),
            ErrorKind::Network => MyError::NetworkError(cause),
            ErrorKind::Parse => MyError::ParseError(cause),
            ErrorKind::Storage => MyError::StorageError(cause),
            ErrorKind::Render => MyError::RenderError(cause),
            ErrorKind::Mail => MyError::MailError(cause),
        }
    }

    /// The kind of this failure.
    #[verifier::when_used_as_spec(spec_kind)]
    pub fn kind(&self) -> (k: ErrorKind)
        ensures
            k == self.spec_kind(),
    {
        match self {
            MyError::ConfigError(_) => ErrorKind::Config,
            MyError::NetworkError(_) => ErrorKind::Network,
            MyError::ParseError(_) => ErrorKind::Parse,
            MyError::StorageError(_) => ErrorKind::Storage,
            MyError::RenderError(_) => ErrorKind::Render,
            MyError::MailError(_) => ErrorKind::Mail,
        }
    }

    /// The text of the cause, as the failing stage reported it.
    pub fn description(&self) -> (text: String)
        ensures
            text@ == self.spec_cause(),
    {
        match self {
            MyError::ConfigError(t) => t.clone(),
            MyError::NetworkError(t) => t.clone(),
            MyError::ParseError(t) => t.clone(),
            MyError::StorageError(t) => t.clone(),
            MyError::RenderError(t) => t.clone(),
            MyError::MailError(t) => t.clone(),
        }
    }
}

} // verus!
