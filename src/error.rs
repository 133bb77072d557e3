use vstd::prelude::*;

verus! {

/// The error taxonomy of the service. Every variant carries a human-readable
/// message that is safe to show to a client.
#[derive(Debug, Clone, PartialEq, Eq)]
pub enum AppError {
    Auth(String),
    Database(String),
    Validation(String),
    Internal(String),
    NotFound(String),
    BadRequest(String),
    Forbidden(String),
}

pub type AppResult<T> = Result<T, AppError>;

/// How loudly a failure is reported in the server log.
#[derive(Debug, Clone, Copy, PartialEq, Eq, Structural)]
pub enum Severity {
    Error,
    Warn,
    Info,
}

impl AppError {
    /// The message carried by the error, without its prefix.
    pub open spec fn detail(&self) -> Seq<char> {
        match self {
            AppError::Auth(m) => m@,
            AppError::Database(m) => m@,
            AppError::Validation(m) => m@,
            AppError::Internal(m) => m@,
            AppError::NotFound(m) => m@,
            AppError::BadRequest(m) => m@,
            AppError::Forbidden(m) => m@,
        }
    }

    /// The prefix that names the kind of failure in the rendered message.
    pub open spec fn prefix(&self) -> Seq<char> {
        match self {
            AppError::Auth(_) => "Authentication failed: "@,
            AppError::Database(_) => "Database error: "@,
            AppError::Validation(_) => "Invalid input: "@,
            AppError::Internal(_) => "Internal error: "@,
            AppError::NotFound(_) => "Not found: "@,
            AppError::BadRequest(_) => "Bad request: "@,
            AppError::Forbidden(_) => "Forbidden: "@,
        }
    }

    /// The rendered message: the kind's prefix followed by the detail.
    pub open spec fn spec_message(&self) -> Seq<char> {
        self.prefix() + self.detail()
    }

    /// The HTTP status that the failure maps to.
    pub open spec fn spec_status(&self) -> u16 {
        match self {
            AppError::Auth(_) => 401,
            AppError::Database(_) => 500,
            AppError::Validation(_) => 400,
            AppError::Internal(_) => 500,
            AppError::NotFound(_) => 404,
            AppError::BadRequest(_) => 400,
            AppError::Forbidden(_) => 403,
        }
    }

    pub open spec fn spec_severity(&self) -> Severity {
        match self {
            AppError::Internal(_) | AppError::Database(_) => Severity::Error,
            AppError::Auth(_) | AppError::Forbidden(_) => Severity::Warn,
            _ => Severity::Info,
        }
    }

    /// The variant's name, as it appears in structured log records.
    pub open spec fn spec_kind(&self) -> Seq<char> {
        match self {
            AppError::Auth(_) => "Auth"@,
            AppError::Database(_) => "Database"@,
            AppError::Validation(_) => "Validation"@,
            AppError::Internal(_) => "Internal"@,
            AppError::NotFound(_) => "NotFound"@,
            AppError::BadRequest(_) => "BadRequest"@,
            AppError::Forbidden(_) => "Forbidden"@,
        }
    }

    /// Renders the error as `"<kind prefix><detail>"`, e.g.
    /// `"Not found: User not found"`.
    pub fn message(&self) -> (r: String)
        ensures
            r@ == self.spec_message(),
    {
        match self {
            AppError::Auth(m) => String::from_str("Authentication failed: ").concat(m.as_str()),
            AppError::Database(m) => String::from_str("Database error: ").concat(m.as_str()),
            AppError::Validation(m) => String::from_str("Invalid input: ").concat(m.as_str()),
            AppError::Internal(m) => String::from_str("Internal error: ").concat(m.as_str()),
            AppError::NotFound(m) => String::from_str("Not found: ").concat(m.as_str()),
            AppError::BadRequest(m) => String::from_str("Bad request: ").concat(m.as_str()),
            AppError::Forbidden(m) => String::from_str("Forbidden: ").concat(m.as_str()),
        }
    }

    /// The HTTP status code of the failure.
    pub fn status_code(&self) -> (r: u16)
        ensures
            r == self.spec_status(),
    {
        match self {
            AppError::Auth(_) => 401,
            AppError::Database(_) => 500,
            AppError::Validation(_) => 400,
            AppError::Internal(_) => 500,
            AppError::NotFound(_) => 404,
            AppError::BadRequest(_) => 400,
            AppError::Forbidden(_) => 403,
        }
    }

    /// The log level of the failure: store and internal failures are errors,
    /// refused credentials or access are warnings, the rest informational.
    pub fn severity(&self) -> (r: Severity)
        ensures
            r == self.spec_severity(),
    {
        match self {
            AppError::Internal(_) | AppError::Database(_) => Severity::Error,
            AppError::Auth(_) | AppError::Forbidden(_) => Severity::Warn,
            _ => Severity::Info,
        }
    }

    /// The variant's name, for structured log records.
    pub fn kind(&self) -> (r: &'static str)
        ensures
            r@ == self.spec_kind(),
    {
        match self {
            AppError::Auth(_) => "Auth",
            AppError::Database(_) => "Database",
            AppError::Validation(_) => "Validation",
            AppError::Internal(_) => "Internal",
            AppError::NotFound(_) => "NotFound",
            AppError::BadRequest(_) => "BadRequest",
            AppError::Forbidden(_) => "Forbidden",
        }
    }
}

impl Severity {
    /// The label written in front of a logged failure.
    pub fn label(&self) -> (r: &'static str)
        ensures
            *self == Severity::Error ==> r@ == "ERROR"@,
            *self == Severity::Warn ==> r@ == "WARN"@,
            *self == Severity::Info ==> r@ == "INFO"@,
    {
        match self {
            Severity::Error => "ERROR",
            Severity::Warn => "WARN",
            Severity::Info => "INFO",
        }
    }
}

} // verus!
