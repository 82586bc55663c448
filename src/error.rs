//! The library's error taxonomy and the rule that maps HTTP and RPC status
//! codes onto it.

use vstd::prelude::*;
use crate::connect::ConnectError;
use crate::text::{push_signed, push_text, signed_decimal};

verus! {

/// Errors of the sandbox client.
#[derive(Debug)]
#[allow(inconsistent_fields)]
pub enum SandboxError {
    Authentication { message: String },
    NotFound { message: String },
    InvalidArgument { message: String },
    Timeout { message: String },
    Template { message: String },
    NotEnoughSpace { message: String },
    RateLimit { message: String },
    /// The HTTP exchange itself failed.
    Network { source: reqwest::Error },
    /// A JSON body could not be encoded or decoded.
    Serialization { source: serde_json::Error },
    /// A response broke the framing or encoding rules.
    Protocol { message: String },
    Internal { message: String },
    Other { message: String },
}

/// Result type of the sandbox client.
pub type Result<T> = core::result::Result<T, SandboxError>;

/// The kinds of error, without their payloads.
#[derive(Debug, Clone, Copy, PartialEq, Eq, Structural)]
pub enum ErrorKind {
    Authentication,
    NotFound,
    InvalidArgument,
    Timeout,
    Template,
    NotEnoughSpace,
    RateLimit,
    Network,
    Serialization,
    Protocol,
    Internal,
    Other,
}

/// The kind of error that a status code maps to.
pub open spec fn status_kind(code: int) -> ErrorKind {
    if code == 400 {
        ErrorKind::InvalidArgument
    } else if code == 401 {
        ErrorKind::Authentication
    } else if code == 404 {
        ErrorKind::NotFound
    } else if code == 408 || code == 502 {
        ErrorKind::Timeout
    } else if code == 413 || code == 507 {
        ErrorKind::NotEnoughSpace
    } else if code == 429 {
        ErrorKind::RateLimit
    } else {
        ErrorKind::Internal
    }
}

impl SandboxError {
    pub open spec fn spec_kind(&self) -> ErrorKind {
        match self {
            SandboxError::Authentication { .. } => ErrorKind::Authentication,
            SandboxError::NotFound { .. } => ErrorKind::NotFound,
            SandboxError::InvalidArgument { .. } => ErrorKind::InvalidArgument,
            SandboxError::Timeout { .. } => ErrorKind::Timeout,
            SandboxError::Template { .. } => ErrorKind::Template,
            SandboxError::NotEnoughSpace { .. } => ErrorKind::NotEnoughSpace,
            SandboxError::RateLimit { .. } => ErrorKind::RateLimit,
            SandboxError::Network { .. } => ErrorKind::Network,
            SandboxError::Serialization { .. } => ErrorKind::Serialization,
            SandboxError::Protocol { .. } => ErrorKind::Protocol,
            SandboxError::Internal { .. } => ErrorKind::Internal,
            SandboxError::Other { .. } => ErrorKind::Other,
        }
    }

    /// The message of an error that carries one; empty for the others.
    pub open spec fn spec_message(&self) -> Seq<char> {
        match self {
            SandboxError::Authentication { message } => message@,
            SandboxError::NotFound { message } => message@,
            SandboxError::InvalidArgument { message } => message@,
            SandboxError::Timeout { message } => message@,
            SandboxError::Template { message } => message@,
            SandboxError::NotEnoughSpace { message } => message@,
            SandboxError::RateLimit { message } => message@,
            SandboxError::Protocol { message } => message@,
            SandboxError::Internal { message } => message@,
            SandboxError::Other { message } => message@,
            _ => Seq::empty(),
        }
    }

    /// The kind of this error.
    pub fn kind(&self) -> (r: ErrorKind)
        ensures
            r == self.spec_kind(),
    {
        match self {
            SandboxError::Authentication { .. } => ErrorKind::Authentication,
            SandboxError::NotFound { .. } => ErrorKind::NotFound,
            SandboxError::InvalidArgument { .. } => ErrorKind::InvalidArgument,
            SandboxError::Timeout { .. } => ErrorKind::Timeout,
            SandboxError::Template { .. } => ErrorKind::Template,
            SandboxError::NotEnoughSpace { .. } => ErrorKind::NotEnoughSpace,
            SandboxError::RateLimit { .. } => ErrorKind::RateLimit,
            SandboxError::Network { .. } => ErrorKind::Network,
            SandboxError::Serialization { .. } => ErrorKind::Serialization,
            SandboxError::Protocol { .. } => ErrorKind::Protocol,
            SandboxError::Internal { .. } => ErrorKind::Internal,
            SandboxError::Other { .. } => ErrorKind::Other,
        }
    }

    pub fn authentication(message: &str) -> (r: Self)
        ensures
            r.spec_kind() == ErrorKind::Authentication && r.spec_message() == message@,
    {
        SandboxError::Authentication { message: String::from_str(message) }
    }

    pub fn not_found(message: &str) -> (r: Self)
        ensures
            r.spec_kind() == ErrorKind::NotFound && r.spec_message() == message@,
    {
        SandboxError::NotFound { message: String::from_str(message) }
    }

    pub fn invalid_argument(message: &str) -> (r: Self)
        ensures
            r.spec_kind() == ErrorKind::InvalidArgument && r.spec_message() == message@,
    {
        SandboxError::InvalidArgument { message: String::from_str(message) }
    }

    pub fn timeout(message: &str) -> (r: Self)
        ensures
            r.spec_kind() == ErrorKind::Timeout && r.spec_message() == message@,
    {
        SandboxError::Timeout { message: String::from_str(message) }
    }

    pub fn template(message: &str) -> (r: Self)
        ensures
            r.spec_kind() == ErrorKind::Template && r.spec_message() == message@,
    {
        SandboxError::Template { message: String::from_str(message) }
    }

    pub fn not_enough_space(message: &str) -> (r: Self)
        ensures
            r.spec_kind() == ErrorKind::NotEnoughSpace && r.spec_message() == message@,
    {
        SandboxError::NotEnoughSpace { message: String::from_str(message) }
    }

    pub fn rate_limit(message: &str) -> (r: Self)
        ensures
            r.spec_kind() == ErrorKind::RateLimit && r.spec_message() == message@,
    {
        SandboxError::RateLimit { message: String::from_str(message) }
    }

    pub fn internal(message: &str) -> (r: Self)
        ensures
            r.spec_kind() == ErrorKind::Internal && r.spec_message() == message@,
    {
        SandboxError::Internal { message: String::from_str(message) }
    }

    pub fn other(message: &str) -> (r: Self)
        ensures
            r.spec_kind() == ErrorKind::Other && r.spec_message() == message@,
    {
        SandboxError::Other { message: String::from_str(message) }
    }

    /// The message of this error, where it carries one.
    pub fn message(&self) -> (r: Option<&str>)
        ensures
            match r {
                Some(m) => m@ == self.spec_message(),
                None => self.spec_kind() == ErrorKind::Network || self.spec_kind()
                    == ErrorKind::Serialization,
            },
    {
        match self {
            SandboxError::Authentication { message } => Some(message.as_str()),
            SandboxError::NotFound { message } => Some(message.as_str()),
            SandboxError::InvalidArgument { message } => Some(message.as_str()),
            SandboxError::Timeout { message } => Some(message.as_str()),
            SandboxError::Template { message } => Some(message.as_str()),
            SandboxError::NotEnoughSpace { message } => Some(message.as_str()),
            SandboxError::RateLimit { message } => Some(message.as_str()),
            SandboxError::Protocol { message } => Some(message.as_str()),
            SandboxError::Internal { message } => Some(message.as_str()),
            SandboxError::Other { message } => Some(message.as_str()),
            _ => None,
        }
    }
}

/// Whether `e` is what a status code maps to: the kind of the table, with
/// `message`, or `fallback` where the table gives an internal error.
pub open spec fn is_status_error(e: SandboxError, code: int, message: Seq<char>, fallback: Seq<char>) -> bool {
    &&& e.spec_kind() == status_kind(code)
    &&& e.spec_message() == if status_kind(code) == ErrorKind::Internal {
        fallback
    } else {
        message
    }
}

/// The error that a status code maps to, with `message`, or `fallback`
/// where the table gives an internal error.
pub fn status_error(code: i64, message: String, fallback: String) -> (r: SandboxError)
    ensures
        is_status_error(r, code as int, message@, fallback@),
{
    if code == 400 {
        SandboxError::InvalidArgument { message }
    } else if code == 401 {
        SandboxError::Authentication { message }
    } else if code == 404 {
        SandboxError::NotFound { message }
    } else if code == 408 || code == 502 {
        SandboxError::Timeout { message }
    } else if code == 413 || code == 507 {
        SandboxError::NotEnoughSpace { message }
    } else if code == 429 {
        SandboxError::RateLimit { message }
    } else {
        SandboxError::Internal { message: fallback }
    }
}

/// The text `<prefix><code>: <message>`.
pub open spec fn coded_text(prefix: Seq<char>, code: int, message: Seq<char>) -> Seq<char> {
    prefix + signed_decimal(code) + ": "@ + message
}

/// Builds `<prefix><code>: <message>`.
pub fn coded_message(prefix: &str, code: i64, message: &str) -> (r: String)
    ensures
        r@ == coded_text(prefix@, code as int, message@),
{
    let mut s = String::from_str(prefix);
    push_signed(&mut s, code);
    push_text(&mut s, ": ");
    push_text(&mut s, message);
    s
}

/// The error for a failed request to the agent's plain HTTP endpoints.
pub fn handle_error(status: u16, message: &str) -> (r: SandboxError)
    ensures
        is_status_error(r, status as int, message@, coded_text(""@, status as int, message@)),
{
    let fallback = coded_message("", status as i64, message);
    status_error(status as i64, String::from_str(message), fallback)
}

/// The error for a failed framed-RPC call: RPC errors by their code, the
/// transport and decoding failures by their cause.
pub fn map_connect_error(err: ConnectError) -> (r: SandboxError)
    ensures
        match err {
            ConnectError::Rpc { code, message } => is_status_error(
                r,
                code as int,
                message@,
                coded_text("RPC error "@, code as int, message@),
            ),
            ConnectError::Http(_) => r.spec_kind() == ErrorKind::Network,
            ConnectError::Json(_) => r.spec_kind() == ErrorKind::Serialization,
            ConnectError::InvalidResponse(m) => r.spec_kind() == ErrorKind::Protocol
                && r.spec_message() == m@,
        },
{
    match err {
        ConnectError::Rpc { code, message } => {
            let fallback = coded_message("RPC error ", code as i64, message.as_str());
            status_error(code as i64, message, fallback)
        },
        ConnectError::Http(e) => SandboxError::Network { source: e },
        ConnectError::Json(e) => SandboxError::Serialization { source: e },
        ConnectError::InvalidResponse(m) => SandboxError::Protocol { message: m },
    }
}

} // verus!
