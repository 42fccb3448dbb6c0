//! The library's error type.

use vstd::prelude::*;

verus! {

/// Errors of the terminal client. Errors coming from I/O or from JSON
/// decoding carry the text of the underlying error.
#[derive(Debug, Clone, PartialEq, Eq)]
pub enum TuiError {
    /// I/O error (reading from stdin, writing to stdout, file operations).
    Io(String),
    /// JSON serialization/deserialization error.
    Json(String),
    /// Terminal error.
    Terminal(String),
    /// Protocol error (invalid message format, unexpected message type, ...).
    Protocol(String),
    /// State error (invalid state transition, missing data, ...).
    State(String),
    /// Rendering error.
    Render(String),
    /// Configuration error.
    Config(String),
    /// Connection error (gateway not available, connection lost, ...).
    Connection(String),
    /// Timeout error.
    Timeout(String),
    /// Invalid input error.
    InvalidInput(String),
    /// Not implemented error.
    NotImplemented(String),
}

/// Result type alias for convenience.
pub type TuiResult<T> = Result<T, TuiError>;

/// The text every error carries.
pub open spec fn spec_error_text(e: TuiError) -> Seq<char> {
    match e {
        TuiError::Io(s) => s@,
        TuiError::Json(s) => s@,
        TuiError::Terminal(s) => s@,
        TuiError::Protocol(s) => s@,
        TuiError::State(s) => s@,
        TuiError::Render(s) => s@,
        TuiError::Config(s) => s@,
        TuiError::Connection(s) => s@,
        TuiError::Timeout(s) => s@,
        TuiError::InvalidInput(s) => s@,
        TuiError::NotImplemented(s) => s@,
    }
}

/// The heading the display form of each kind of error starts with.
pub open spec fn spec_error_heading(e: TuiError) -> Seq<char> {
    match e {
        TuiError::Io(_) => "I/O error: "@,
        TuiError::Json(_) => "JSON error: "@,
        TuiError::Terminal(_) => "Terminal error: "@,
        TuiError::Protocol(_) => "Protocol error: "@,
        TuiError::State(_) => "State error: "@,
        TuiError::Render(_) => "Render error: "@,
        TuiError::Config(_) => "Configuration error: "@,
        TuiError::Connection(_) => "Connection error: "@,
        TuiError::Timeout(_) => "Timeout error: "@,
        TuiError::InvalidInput(_) => "Invalid input: "@,
        TuiError::NotImplemented(_) => "Not implemented: "@,
    }
}

impl TuiError {
    pub fn protocol(message: String) -> (r: Self)
        ensures
            r == TuiError::Protocol(message),
    {
        TuiError::Protocol(message)
    }

    pub fn state(message: String) -> (r: Self)
        ensures
            r == TuiError::State(message),
    {
        TuiError::State(message)
    }

    pub fn render(message: String) -> (r: Self)
        ensures
            r == TuiError::Render(message),
    {
        TuiError::Render(message)
    }

    pub fn config(message: String) -> (r: Self)
        ensures
            r == TuiError::Config(message),
    {
        TuiError::Config(message)
    }

    pub fn connection(message: String) -> (r: Self)
        ensures
            r == TuiError::Connection(message),
    {
        TuiError::Connection(message)
    }

    pub fn timeout(message: String) -> (r: Self)
        ensures
            r == TuiError::Timeout(message),
    {
        TuiError::Timeout(message)
    }

    pub fn invalid_input(message: String) -> (r: Self)
        ensures
            r == TuiError::InvalidInput(message),
    {
        TuiError::InvalidInput(message)
    }

    pub fn not_implemented(message: String) -> (r: Self)
        ensures
            r == TuiError::NotImplemented(message),
    {
        TuiError::NotImplemented(message)
    }

    /// Whether this is a connection error.
    pub fn is_connection(&self) -> (r: bool)
        ensures
            r == (*self is Connection),
    {
        matches!(self, TuiError::Connection(_))
    }

    /// Whether this is a protocol error.
    pub fn is_protocol(&self) -> (r: bool)
        ensures
            r == (*self is Protocol),
    {
        matches!(self, TuiError::Protocol(_))
    }

    /// Whether this is a state error.
    pub fn is_state(&self) -> (r: bool)
        ensures
            r == (*self is State),
    {
        matches!(self, TuiError::State(_))
    }

    /// The error's text.
    pub fn message(&self) -> (r: String)
        ensures
            r@ == spec_error_text(*self),
    {
        match self {
            TuiError::Io(s) => s.clone(),
            TuiError::Json(s) => s.clone(),
            TuiError::Terminal(s) => s.clone(),
            TuiError::Protocol(s) => s.clone(),
            TuiError::State(s) => s.clone(),
            TuiError::Render(s) => s.clone(),
            TuiError::Config(s) => s.clone(),
            TuiError::Connection(s) => s.clone(),
            TuiError::Timeout(s) => s.clone(),
            TuiError::InvalidInput(s) => s.clone(),
            TuiError::NotImplemented(s) => s.clone(),
        }
    }

    /// The display form: the kind's heading followed by the error's text.
    pub fn display_text(&self) -> (r: String)
        ensures
            r@ == spec_error_heading(*self) + spec_error_text(*self),
    {
        let heading = match self {
            TuiError::Io(_) => "I/O error: ",
            TuiError::Json(_) => "JSON error: ",
            TuiError::Terminal(_) => "Terminal error: ",
            TuiError::Protocol(_) => "Protocol error: ",
            TuiError::State(_) => "State error: ",
            TuiError::Render(_) => "Render error: ",
            TuiError::Config(_) => "Configuration error: ",
            TuiError::Connection(_) => "Connection error: ",
            TuiError::Timeout(_) => "Timeout error: ",
            TuiError::InvalidInput(_) => "Invalid input: ",
            TuiError::NotImplemented(_) => "Not implemented: ",
        };
        let text = self.message();
        crate::text::concat(heading, text.as_str())
    }
}

} // verus!
