//! Error types

use crate::text::{push_signed_padded5, signed_padded5};
use vstd::prelude::*;
use vstd::string::*;

pub mod codes;

verus! {

/// The error type of the standard library's I/O, carried by `Error::Io`.
#[verifier::external_type_specification]
#[verifier::external_body]
pub struct ExIoError(std::io::Error);

/// Oracle database errors
#[derive(Debug)]
pub enum Error {
    /// Connection error
    Connection(String),
    /// Connection is closed
    ConnectionClosed,
    /// Authentication failed
    AuthenticationFailed(String),
    /// SQL execution error
    SqlExecution(String),
    /// Invalid SQL statement
    InvalidSql(String),
    /// Type mismatch error
    TypeMismatch(String),
    /// Column not found
    ColumnNotFound(String),
    /// Invalid bind parameter
    InvalidBindParameter(String),
    /// Pool error
    Pool(String),
    /// Pool timeout
    PoolTimeout,
    /// Pool is closed
    PoolClosed,
    /// Invalid configuration
    InvalidConfiguration(String),
    /// Unsupported feature
    UnsupportedFeature(String),
    /// Protocol error
    Protocol(String),
    /// Network I/O error
    Io(std::io::Error),
    /// Encoding/decoding error
    Encoding(String),
    /// Timeout error
    Timeout,
    /// Oracle-specific error with code
    Oracle {
        /// Oracle error code
        code: i32,
        /// Error message
        message: String,
    },
    /// Transaction error
    Transaction(String),
    /// LOB operation error
    Lob(String),
    /// Invalid data
    InvalidData(String),
    /// Feature not implemented yet
    NotImplemented(String),
    /// Other errors
    Other(String),
}

/// The model of an `Error`: the same variants, with text as `Seq<char>`.
pub enum ErrorView {
    /// Connection error
    Connection(Seq<char>),
    /// Connection is closed
    ConnectionClosed,
    /// Authentication failed
    AuthenticationFailed(Seq<char>),
    /// SQL execution error
    SqlExecution(Seq<char>),
    /// Invalid SQL statement
    InvalidSql(Seq<char>),
    /// Type mismatch error
    TypeMismatch(Seq<char>),
    /// Column not found
    ColumnNotFound(Seq<char>),
    /// Invalid bind parameter
    InvalidBindParameter(Seq<char>),
    /// Pool error
    Pool(Seq<char>),
    /// Pool timeout
    PoolTimeout,
    /// Pool is closed
    PoolClosed,
    /// Invalid configuration
    InvalidConfiguration(Seq<char>),
    /// Unsupported feature
    UnsupportedFeature(Seq<char>),
    /// Protocol error
    Protocol(Seq<char>),
    /// Network I/O error
    Io(std::io::Error),
    /// Encoding/decoding error
    Encoding(Seq<char>),
    /// Timeout error
    Timeout,
    /// Oracle-specific error with code
    Oracle {
        /// Oracle error code
        code: i32,
        /// Error message
        message: Seq<char>,
    },
    /// Transaction error
    Transaction(Seq<char>),
    /// LOB operation error
    Lob(Seq<char>),
    /// Invalid data
    InvalidData(Seq<char>),
    /// Feature not implemented yet
    NotImplemented(Seq<char>),
    /// Other errors
    Other(Seq<char>),
}

impl View for Error {
    type V = ErrorView;

    open spec fn view(&self) -> ErrorView {
        match self {
            Error::Connection(m) => ErrorView::Connection(m@),
            Error::ConnectionClosed => ErrorView::ConnectionClosed,
            Error::AuthenticationFailed(m) => ErrorView::AuthenticationFailed(m@),
            Error::SqlExecution(m) => ErrorView::SqlExecution(m@),
            Error::InvalidSql(m) => ErrorView::InvalidSql(m@),
            Error::TypeMismatch(m) => ErrorView::TypeMismatch(m@),
            Error::ColumnNotFound(m) => ErrorView::ColumnNotFound(m@),
            Error::InvalidBindParameter(m) => ErrorView::InvalidBindParameter(m@),
            Error::Pool(m) => ErrorView::Pool(m@),
            Error::PoolTimeout => ErrorView::PoolTimeout,
            Error::PoolClosed => ErrorView::PoolClosed,
            Error::InvalidConfiguration(m) => ErrorView::InvalidConfiguration(m@),
            Error::UnsupportedFeature(m) => ErrorView::UnsupportedFeature(m@),
            Error::Protocol(m) => ErrorView::Protocol(m@),
            Error::Io(e) => ErrorView::Io(*e),
            Error::Encoding(m) => ErrorView::Encoding(m@),
            Error::Timeout => ErrorView::Timeout,
            Error::Oracle { code, message } => ErrorView::Oracle { code: *code, message: message@ },
            Error::Transaction(m) => ErrorView::Transaction(m@),
            Error::Lob(m) => ErrorView::Lob(m@),
            Error::InvalidData(m) => ErrorView::InvalidData(m@),
            Error::NotImplemented(m) => ErrorView::NotImplemented(m@),
            Error::Other(m) => ErrorView::Other(m@),
        }
    }
}

/// The codes of the vendor errors that are worth a retry: lost or timed-out
/// connections (17002, 17008, 17410), sessions that are not logged on or were
/// interrupted (1012, 1013, 1089) and a busy resource (54).
pub open spec fn is_transient_code(code: int) -> bool {
    ||| code == 17002
    ||| code == 17008
    ||| code == 17410
    ||| code == 1012
    ||| code == 1013
    ||| code == 1089
    ||| code == 54
}

/// `Display` of the standard library's `io::Error`, as a string. The text
/// depends on the error and, for errors of the operating system, on the
/// system: the contract says nothing of it.
#[verifier::external_body]
fn io_error_text(e: &std::io::Error) -> (text: String) {
    e.to_string()
}

/// The text `whole`, which has no detail after it.
fn plain(whole: &str) -> (s: String)
    ensures
        s@ == whole@ + Seq::<char>::empty(),
{
    let s = String::from_str(whole);
    assert(s@ =~= whole@ + Seq::<char>::empty());
    s
}

/// `prefix` followed by `detail`.
fn prefixed(prefix: &str, detail: &str) -> (s: String)
    ensures
        s@ == prefix@ + detail@,
{
    let mut s = String::from_str(prefix);
    s.append(detail);
    s
}

impl Error {
    /// The text that stands in front of the detail in the rendering of the
    /// error; for a variant without detail, the whole rendering.
    pub open spec fn heading(&self) -> Seq<char> {
        match self {
            Error::Connection(_) => "Connection error: "@,
            Error::ConnectionClosed => "Connection is closed"@,
            Error::AuthenticationFailed(_) => "Authentication failed: "@,
            Error::SqlExecution(_) => "SQL execution error: "@,
            Error::InvalidSql(_) => "Invalid SQL: "@,
            Error::TypeMismatch(_) => "Type mismatch: "@,
            Error::ColumnNotFound(_) => "Column not found: "@,
            Error::InvalidBindParameter(_) => "Invalid bind parameter: "@,
            Error::Pool(_) => "Connection pool error: "@,
            Error::PoolTimeout => "Connection pool timeout - no connections available"@,
            Error::PoolClosed => "Connection pool is closed"@,
            Error::InvalidConfiguration(_) => "Invalid configuration: "@,
            Error::UnsupportedFeature(_) => "Unsupported feature: "@,
            Error::Protocol(_) => "Protocol error: "@,
            Error::Io(_) => "Network I/O error: "@,
            Error::Encoding(_) => "Encoding error: "@,
            Error::Timeout => "Operation timeout"@,
            Error::Oracle { .. } => "Oracle error ORA-"@,
            Error::Transaction(_) => "Transaction error: "@,
            Error::Lob(_) => "LOB operation error: "@,
            Error::InvalidData(_) => "Invalid data: "@,
            Error::NotImplemented(_) => "Not implemented: "@,
            Error::Other(_) => "Error: "@,
        }
    }

    /// The detail that follows the heading, for every variant but `Io`, whose
    /// detail is the text of the I/O error.
    pub open spec fn detail(&self) -> Seq<char> {
        match self {
            Error::Connection(m) => m@,
            Error::AuthenticationFailed(m) => m@,
            Error::SqlExecution(m) => m@,
            Error::InvalidSql(m) => m@,
            Error::TypeMismatch(m) => m@,
            Error::ColumnNotFound(m) => m@,
            Error::InvalidBindParameter(m) => m@,
            Error::Pool(m) => m@,
            Error::InvalidConfiguration(m) => m@,
            Error::UnsupportedFeature(m) => m@,
            Error::Protocol(m) => m@,
            Error::Encoding(m) => m@,
            Error::Oracle { code, message } => signed_padded5(*code as int) + ": "@ + message@,
            Error::Transaction(m) => m@,
            Error::Lob(m) => m@,
            Error::InvalidData(m) => m@,
            Error::NotImplemented(m) => m@,
            Error::Other(m) => m@,
            _ => Seq::empty(),
        }
    }

    /// The rendering of the error: the heading, then the detail. A vendor
    /// error shows its code in five digits, filled with zeros: `ORA-01017`.
    pub open spec fn rendering(&self) -> Seq<char> {
        self.heading() + self.detail()
    }

    /// Whether a retry of the failed operation can succeed: after a timeout,
    /// a pool timeout or an I/O error always, after a vendor error where its
    /// code is transient, and never otherwise.
    pub open spec fn retryable(&self) -> bool {
        match self {
            Error::Timeout => true,
            Error::PoolTimeout => true,
            Error::Io(_) => true,
            Error::Oracle { code, .. } => is_transient_code(*code as int),
            _ => false,
        }
    }

    /// Create an Oracle error with code and message
    pub fn oracle(code: i32, message: &str) -> (e: Error)
        ensures
            e matches Error::Oracle { code: c, message: m } && c == code && m@ == message@,
    {
        Error::Oracle { code, message: String::from_str(message) }
    }

    /// Check if error is a connection error
    pub fn is_connection_error(&self) -> (b: bool)
        ensures
            b == (self is Connection || self is ConnectionClosed || self is Io),
    {
        match self {
            Error::Connection(_) => true,
            Error::ConnectionClosed => true,
            Error::Io(_) => true,
            _ => false,
        }
    }

    /// Check if error is a pool error
    pub fn is_pool_error(&self) -> (b: bool)
        ensures
            b == (self is Pool || self is PoolTimeout || self is PoolClosed),
    {
        match self {
            Error::Pool(_) => true,
            Error::PoolTimeout => true,
            Error::PoolClosed => true,
            _ => false,
        }
    }

    /// Check if error is retryable
    pub fn is_retryable(&self) -> (b: bool)
        ensures
            b == self.retryable(),
    {
        match self {
            Error::Timeout => true,
            Error::PoolTimeout => true,
            Error::Io(_) => true,
            Error::Oracle { code, .. } => {
                let c: i32 = *code;
                // Connection errors, session errors, resource busy
                c == 17002 || c == 17008 || c == 17410 || c == 1012 || c == 1013 || c == 1089 || c
                    == 54
            },
            _ => false,
        }
    }

    /// Get error code if this is an Oracle error
    pub fn oracle_code(&self) -> (code: Option<i32>)
        ensures
            code == (match self {
                Error::Oracle { code: c, .. } => Some(*c),
                _ => None,
            }),
    {
        match self {
            Error::Oracle { code, .. } => Some(*code),
            _ => None,
        }
    }

    /// The error as text.
    pub fn to_string(&self) -> (s: String)
        ensures
            !(self is Io) ==> s@ == self.rendering(),
            self is Io ==> s@.len() >= self.heading().len() && s@.subrange(
                0,
                self.heading().len() as int,
            ) == self.heading(),
    {
        match self {
            Error::Connection(m) => prefixed("Connection error: ", m.as_str()),
            Error::ConnectionClosed => plain("Connection is closed"),
            Error::AuthenticationFailed(m) => prefixed("Authentication failed: ", m.as_str()),
            Error::SqlExecution(m) => prefixed("SQL execution error: ", m.as_str()),
            Error::InvalidSql(m) => prefixed("Invalid SQL: ", m.as_str()),
            Error::TypeMismatch(m) => prefixed("Type mismatch: ", m.as_str()),
            Error::ColumnNotFound(m) => prefixed("Column not found: ", m.as_str()),
            Error::InvalidBindParameter(m) => prefixed("Invalid bind parameter: ", m.as_str()),
            Error::Pool(m) => prefixed("Connection pool error: ", m.as_str()),
            Error::PoolTimeout => plain("Connection pool timeout - no connections available"),
            Error::PoolClosed => plain("Connection pool is closed"),
            Error::InvalidConfiguration(m) => prefixed("Invalid configuration: ", m.as_str()),
            Error::UnsupportedFeature(m) => prefixed("Unsupported feature: ", m.as_str()),
            Error::Protocol(m) => prefixed("Protocol error: ", m.as_str()),
            Error::Io(e) => {
                let detail = io_error_text(e);
                let s = prefixed("Network I/O error: ", detail.as_str());
                assert(s@.subrange(0, "Network I/O error: "@.len() as int)
                    == "Network I/O error: "@);
                s
            },
            Error::Encoding(m) => prefixed("Encoding error: ", m.as_str()),
            Error::Timeout => plain("Operation timeout"),
            Error::Oracle { code, message } => {
                let mut s = String::from_str("Oracle error ORA-");
                push_signed_padded5(&mut s, *code);
                s.append(": ");
                s.append(message.as_str());
                assert(s@ == "Oracle error ORA-"@ + (signed_padded5(*code as int) + ": "@
                    + message@));
                s
            },
            Error::Transaction(m) => prefixed("Transaction error: ", m.as_str()),
            Error::Lob(m) => prefixed("LOB operation error: ", m.as_str()),
            Error::InvalidData(m) => prefixed("Invalid data: ", m.as_str()),
            Error::NotImplemented(m) => prefixed("Not implemented: ", m.as_str()),
            Error::Other(m) => prefixed("Error: ", m.as_str()),
        }
    }
}

impl From<std::io::Error> for Error {
    fn from(e: std::io::Error) -> (r: Error) {
        Error::Io(e)
    }
}

impl vstd::std_specs::convert::FromSpecImpl<std::io::Error> for Error {
    open spec fn obeys_from_spec() -> bool {
        true
    }

    open spec fn from_spec(e: std::io::Error) -> Error {
        Error::Io(e)
    }
}

} // verus!
