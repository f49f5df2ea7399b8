//! Error types for Things operations, with their messages.

use vstd::prelude::*;

verus! {

#[verifier::external_type_specification]
#[verifier::external_body]
pub struct ExJsonError(serde_json::Error);

#[verifier::external_type_specification]
#[verifier::external_body]
pub struct ExIoError(std::io::Error);

/// Database-specific errors.
#[non_exhaustive]
#[derive(Debug)]
pub enum ThingsDatabaseError {
    Database(String),
    DatabaseNotFound { path: String },
    TaskNotFound { uuid: String },
    ProjectNotFound { uuid: String },
    AreaNotFound { uuid: String },
    AppleScript { message: String },
    Configuration { message: String },
}

/// Query-specific errors.
#[non_exhaustive]
#[derive(Debug)]
pub enum ThingsQueryError {
    InvalidUuid { uuid: String },
    InvalidDate { date: String },
    InvalidCursor(String),
}

/// Export-specific errors.
#[non_exhaustive]
#[derive(Debug)]
pub enum ThingsExportError {
    Io(std::io::Error),
    Serialization(serde_json::Error),
    FormatUnavailable { message: String },
}

/// Main error type for Things operations.
#[non_exhaustive]
#[derive(Debug)]
pub enum ThingsError {
    Database(ThingsDatabaseError),
    Query(ThingsQueryError),
    Export(ThingsExportError),
    Serialization(serde_json::Error),
    Io(std::io::Error),
    Validation { message: String },
    Unknown { message: String },
}

/// Result type alias for Things operations.
pub type Result<T> = std::result::Result<T, ThingsError>;

/// The text that `prefix` and `rest` spell in a row.
fn join2(prefix: &str, rest: &str) -> (s: String)
    ensures
        s@ == prefix@ + rest@,
{
    let mut s = String::from_str(prefix);
    s.append(rest);
    s
}

/// The text that `prefix`, `middle` and `suffix` spell in a row.
fn join3(prefix: &str, middle: &str, suffix: &str) -> (s: String)
    ensures
        s@ == prefix@ + middle@ + suffix@,
{
    let mut s = String::from_str(prefix);
    s.append(middle);
    s.append(suffix);
    s
}

impl ThingsDatabaseError {
    /// The message of this error.
    pub open spec fn spec_message(&self) -> Seq<char> {
        match self {
            ThingsDatabaseError::Database(m) => "Database error: "@ + m@,
            ThingsDatabaseError::DatabaseNotFound { path } => "Database not found: "@ + path@
                + ". Ensure Things 3 is installed and has been opened at least once, or specify a custom database path."@,
            ThingsDatabaseError::TaskNotFound { uuid } => "Task not found: "@ + uuid@
                + ". The task may have been deleted or moved. Try searching by title instead."@,
            ThingsDatabaseError::ProjectNotFound { uuid } => "Project not found: "@ + uuid@
                + ". The project may have been deleted. Verify the UUID or list all projects to find the correct one."@,
            ThingsDatabaseError::AreaNotFound { uuid } => "Area not found: "@ + uuid@
                + ". The area may have been deleted. Verify the UUID or list all areas to find the correct one."@,
            ThingsDatabaseError::AppleScript { message } => "AppleScript automation failed: "@
                + message@,
            ThingsDatabaseError::Configuration { message } => "Configuration error: "@ + message@,
        }
    }

    /// The message of this error, as `Display` would render it.
    pub fn to_string(&self) -> (s: String)
        ensures
            s@ == self.spec_message(),
    {
        match self {
            ThingsDatabaseError::Database(m) => join2("Database error: ", m.as_str()),
            ThingsDatabaseError::DatabaseNotFound { path } => join3(
                "Database not found: ",
                path.as_str(),
                ". Ensure Things 3 is installed and has been opened at least once, or specify a custom database path.",
            ),
            ThingsDatabaseError::TaskNotFound { uuid } => join3(
                "Task not found: ",
                uuid.as_str(),
                ". The task may have been deleted or moved. Try searching by title instead.",
            ),
            ThingsDatabaseError::ProjectNotFound { uuid } => join3(
                "Project not found: ",
                uuid.as_str(),
                ". The project may have been deleted. Verify the UUID or list all projects to find the correct one.",
            ),
            ThingsDatabaseError::AreaNotFound { uuid } => join3(
                "Area not found: ",
                uuid.as_str(),
                ". The area may have been deleted. Verify the UUID or list all areas to find the correct one.",
            ),
            ThingsDatabaseError::AppleScript { message } => join2("AppleScript automation failed: ", message.as_str()),
            ThingsDatabaseError::Configuration { message } => join2("Configuration error: ", message.as_str()),
        }
    }
}

impl ThingsQueryError {
    /// The message of this error.
    pub open spec fn spec_message(&self) -> Seq<char> {
        match self {
            ThingsQueryError::InvalidUuid { uuid } => "Invalid UUID: "@ + uuid@
                + ". UUIDs must be in format: xxxxxxxx-xxxx-xxxx-xxxx-xxxxxxxxxxxx"@,
            ThingsQueryError::InvalidDate { date } => "Invalid date: "@ + date@,
            ThingsQueryError::InvalidCursor(c) => "Invalid cursor: "@ + c@,
        }
    }

    /// The message of this error, as `Display` would render it.
    pub fn to_string(&self) -> (s: String)
        ensures
            s@ == self.spec_message(),
    {
        match self {
            ThingsQueryError::InvalidUuid { uuid } => join3(
                "Invalid UUID: ",
                uuid.as_str(),
                ". UUIDs must be in format: xxxxxxxx-xxxx-xxxx-xxxx-xxxxxxxxxxxx",
            ),
            ThingsQueryError::InvalidDate { date } => join2("Invalid date: ", date.as_str()),
            ThingsQueryError::InvalidCursor(c) => join2("Invalid cursor: ", c.as_str()),
        }
    }
}

impl ThingsExportError {
    /// The fixed opening of this error's message; what follows it is the
    /// message of the inner error or the given text.
    pub open spec fn spec_prefix(&self) -> Seq<char> {
        match self {
            ThingsExportError::Io(_) => "Export IO error: "@,
            ThingsExportError::Serialization(_) => "Export serialization error: "@,
            ThingsExportError::FormatUnavailable { .. } => "Export format unavailable: "@,
        }
    }

    /// The message of this error, as `Display` would render it. For the
    /// variants that wrap an I/O or JSON error, the text after the prefix is
    /// that error's own message.
    pub fn to_string(&self) -> (s: String)
        ensures
            exists|rest: Seq<char>| s@ == self.spec_prefix() + rest,
            self matches ThingsExportError::FormatUnavailable { message } ==> s@
                == self.spec_prefix() + message@,
    {
        match self {
            ThingsExportError::Io(e) => {
                let inner = io_error_text(e);
                let s = join2("Export IO error: ", inner.as_str());
                assert(s@ == self.spec_prefix() + inner@);
                s
            },
            ThingsExportError::Serialization(e) => {
                let inner = json_error_text(e);
                let s = join2("Export serialization error: ", inner.as_str());
                assert(s@ == self.spec_prefix() + inner@);
                s
            },
            ThingsExportError::FormatUnavailable { message } => {
                let s = join2("Export format unavailable: ", message.as_str());
                assert(s@ == self.spec_prefix() + message@);
                s
            },
        }
    }
}

impl ThingsError {
    /// The message of this error where it is made of plain text only: every
    /// variant but the ones that wrap an I/O or JSON error.
    pub open spec fn spec_message(&self) -> Option<Seq<char>> {
        match self {
            ThingsError::Database(e) => Some(e.spec_message()),
            ThingsError::Query(e) => Some(e.spec_message()),
            ThingsError::Export(ThingsExportError::FormatUnavailable { message }) => Some(
                "Export format unavailable: "@ + message@,
            ),
            ThingsError::Validation { message } => Some("Validation error: "@ + message@),
            ThingsError::Unknown { message } => Some("Unknown error: "@ + message@),
            _ => None,
        }
    }

    /// The fixed opening of the message of the variants that wrap an I/O or
    /// JSON error.
    pub open spec fn spec_wrapped_prefix(&self) -> Seq<char> {
        match self {
            ThingsError::Export(e) => e.spec_prefix(),
            ThingsError::Serialization(_) => "Serialization error: "@,
            ThingsError::Io(_) => "IO error: "@,
            _ => Seq::empty(),
        }
    }

    /// The message of this error, as `Display` would render it.
    pub fn to_string(&self) -> (s: String)
        ensures
            self.spec_message() matches Some(m) ==> s@ == m,
            self.spec_message() is None ==> exists|rest: Seq<char>|
                s@ == self.spec_wrapped_prefix() + rest,
    {
        match self {
            ThingsError::Database(e) => e.to_string(),
            ThingsError::Query(e) => e.to_string(),
            ThingsError::Export(e) => {
                let s = e.to_string();
                proof {
                    let rest = choose|rest: Seq<char>| s@ == e.spec_prefix() + rest;
                    assert(s@ == self.spec_wrapped_prefix() + rest);
                }
                s
            },
            ThingsError::Serialization(e) => {
                let inner = json_error_text(e);
                let s = join2("Serialization error: ", inner.as_str());
                assert(s@ == self.spec_wrapped_prefix() + inner@);
                s
            },
            ThingsError::Io(e) => {
                let inner = io_error_text(e);
                let s = join2("IO error: ", inner.as_str());
                assert(s@ == self.spec_wrapped_prefix() + inner@);
                s
            },
            ThingsError::Validation { message } => join2("Validation error: ", message.as_str()),
            ThingsError::Unknown { message } => join2("Unknown error: ", message.as_str()),
        }
    }

    /// Create a validation error.
    pub fn validation(message: &str) -> (e: Self)
        ensures
            e matches ThingsError::Validation { message: m } && m@ == message@,
    {
        ThingsError::Validation { message: String::from_str(message) }
    }

    /// Create a configuration error.
    pub fn configuration(message: &str) -> (e: Self)
        ensures
            e matches ThingsError::Database(ThingsDatabaseError::Configuration { message: m })
                && m@ == message@,
    {
        ThingsError::Database(ThingsDatabaseError::Configuration { message: String::from_str(message) })
    }

    /// Create an AppleScript error.
    pub fn applescript(message: &str) -> (e: Self)
        ensures
            e matches ThingsError::Database(ThingsDatabaseError::AppleScript { message: m })
                && m@ == message@,
    {
        ThingsError::Database(ThingsDatabaseError::AppleScript { message: String::from_str(message) })
    }

    /// Create an unknown error.
    pub fn unknown(message: &str) -> (e: Self)
        ensures
            e matches ThingsError::Unknown { message: m } && m@ == message@,
    {
        ThingsError::Unknown { message: String::from_str(message) }
    }
}

impl From<ThingsDatabaseError> for ThingsError {
    fn from(e: ThingsDatabaseError) -> (r: Self) {
        ThingsError::Database(e)
    }
}

impl vstd::std_specs::convert::FromSpecImpl<ThingsDatabaseError> for ThingsError {
    open spec fn obeys_from_spec() -> bool {
        true
    }

    open spec fn from_spec(v: ThingsDatabaseError) -> Self {
        ThingsError::Database(v)
    }
}

impl From<ThingsQueryError> for ThingsError {
    fn from(e: ThingsQueryError) -> (r: Self) {
        ThingsError::Query(e)
    }
}

impl vstd::std_specs::convert::FromSpecImpl<ThingsQueryError> for ThingsError {
    open spec fn obeys_from_spec() -> bool {
        true
    }

    open spec fn from_spec(v: ThingsQueryError) -> Self {
        ThingsError::Query(v)
    }
}

impl From<ThingsExportError> for ThingsError {
    fn from(e: ThingsExportError) -> (r: Self) {
        ThingsError::Export(e)
    }
}

impl vstd::std_specs::convert::FromSpecImpl<ThingsExportError> for ThingsError {
    open spec fn obeys_from_spec() -> bool {
        true
    }

    open spec fn from_spec(v: ThingsExportError) -> Self {
        ThingsError::Export(v)
    }
}

impl From<serde_json::Error> for ThingsError {
    fn from(e: serde_json::Error) -> (r: Self) {
        ThingsError::Serialization(e)
    }
}

impl vstd::std_specs::convert::FromSpecImpl<serde_json::Error> for ThingsError {
    open spec fn obeys_from_spec() -> bool {
        true
    }

    open spec fn from_spec(v: serde_json::Error) -> Self {
        ThingsError::Serialization(v)
    }
}

impl From<std::io::Error> for ThingsError {
    fn from(e: std::io::Error) -> (r: Self) {
        ThingsError::Io(e)
    }
}

impl vstd::std_specs::convert::FromSpecImpl<std::io::Error> for ThingsError {
    open spec fn obeys_from_spec() -> bool {
        true
    }

    open spec fn from_spec(v: std::io::Error) -> Self {
        ThingsError::Io(v)
    }
}

/// Every error made of plain text renders a message of more than ten
/// characters, whatever text it carries.
pub proof fn plain_messages_are_never_short(e: ThingsError)
    requires
        e.spec_message() is Some,
    ensures
        e.spec_message().unwrap().len() > 10,
{
    reveal_strlit("Database error: ");
    reveal_strlit("Database not found: ");
    reveal_strlit("Task not found: ");
    reveal_strlit("Project not found: ");
    reveal_strlit("Area not found: ");
    reveal_strlit("AppleScript automation failed: ");
    reveal_strlit("Configuration error: ");
    reveal_strlit("Invalid UUID: ");
    reveal_strlit("Invalid date: ");
    reveal_strlit("Invalid cursor: ");
    reveal_strlit("Export format unavailable: ");
    reveal_strlit("Validation error: ");
    reveal_strlit("Unknown error: ");
}

/// Renders a `std::io::Error` with its `Display` impl. The text depends on the
/// error's kind and the operating system's description of it; nothing is
/// claimed of it.
#[verifier::external_body]
fn io_error_text(e: &std::io::Error) -> (s: String) {
    format!("{}", e)
}

/// Renders a `serde_json::Error` with its `Display` impl (the parser's
/// description and position). The error is opaque here, so nothing is claimed
/// of the text.
#[verifier::external_body]
fn json_error_text(e: &serde_json::Error) -> (s: String) {
    format!("{}", e)
}

} // verus!
