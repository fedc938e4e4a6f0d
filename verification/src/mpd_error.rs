//! Classified failures of the MPD connection layer.
use vstd::prelude::*;

use crate::span::Span;

verus! {

/// The transport failed: the connection is suspect and should be replaced.
#[derive(Debug, Clone)]
pub enum TransportError {
    /// The peer closed the connection.
    Closed,
    /// The TCP connect call failed; `detail` is the OS error text.
    TcpConnect { endpoint: String, detail: String },
    /// The Unix-socket connect call failed; `detail` is the OS error text.
    UnixConnect { path: String, detail: String },
    /// A read or write on an open connection failed.
    Io { operation: &'static str, detail: String },
    /// A response line exceeded the framing limit.
    LineTooLong { limit: usize },
}

/// The peer spoke something that is not the MPD protocol we understand.
#[derive(Debug, Clone)]
pub enum ProtocolError {
    /// The first line was not `OK MPD <version>`.
    BadWelcome(String),
    /// The welcome banner's version was not `<major>.<minor>.<patch>`.
    BadVersion(String),
    /// `status` reported a `state:` other than play, pause or stop.
    UnknownPlayState(String),
    /// A required field was absent from a response.
    MissingField { field: &'static str },
    /// A field's value could not be read as the number it should be.
    UnparseableField { field: &'static str, value: String },
    /// A response line was neither `OK`, an `ACK`, nor `key: value`.
    MalformedLine(String),
    /// An `ACK` line did not follow `ACK [code@position] {command} message`.
    MalformedAck(String),
    /// A command or argument cannot be written on one protocol line.
    InvalidCommand(String),
    /// A response line was not UTF-8.
    NotUtf8Line,
}

/// The endpoint configuration is unusable.
#[derive(Debug, Clone, Copy, PartialEq, Eq, Structural)]
pub enum ConfigError {
    /// A TCP endpoint with an empty host name.
    EmptyHost,
    /// A Unix endpoint with an empty socket path.
    EmptyUnixPath,
}

/// Every failure of an MPD operation.
#[derive(Debug, Clone)]
pub enum MpdError {
    Transport(TransportError),
    Protocol(ProtocolError),
    /// An operation exceeded its time budget.
    Timeout { operation: &'static str, elapsed: Span },
    /// MPD rejected a command; the connection stays usable.
    Ack { code: u32, list_position: u32, command: String, message: String },
    Config(ConfigError),
}

pub enum TransportErrorV {
    Closed,
    TcpConnect { endpoint: Seq<char>, detail: Seq<char> },
    UnixConnect { path: Seq<char>, detail: Seq<char> },
    Io { operation: Seq<char>, detail: Seq<char> },
    LineTooLong { limit: usize },
}

pub enum ProtocolErrorV {
    BadWelcome(Seq<char>),
    BadVersion(Seq<char>),
    UnknownPlayState(Seq<char>),
    MissingField { field: Seq<char> },
    UnparseableField { field: Seq<char>, value: Seq<char> },
    MalformedLine(Seq<char>),
    MalformedAck(Seq<char>),
    InvalidCommand(Seq<char>),
    NotUtf8Line,
}

pub enum MpdErrorV {
    Transport(TransportErrorV),
    Protocol(ProtocolErrorV),
    Timeout { operation: Seq<char>, elapsed: Span },
    Ack { code: u32, list_position: u32, command: Seq<char>, message: Seq<char> },
    Config(ConfigError),
}

impl View for TransportError {
    type V = TransportErrorV;

    open spec fn view(&self) -> TransportErrorV {
        match self {
            TransportError::Closed => TransportErrorV::Closed,
            TransportError::TcpConnect { endpoint, detail } => TransportErrorV::TcpConnect {
                endpoint: endpoint@,
                detail: detail@,
            },
            TransportError::UnixConnect { path, detail } => TransportErrorV::UnixConnect {
                path: path@,
                detail: detail@,
            },
            TransportError::Io { operation, detail } => TransportErrorV::Io {
                operation: operation@,
                detail: detail@,
            },
            TransportError::LineTooLong { limit } => TransportErrorV::LineTooLong { limit: *limit },
        }
    }
}

impl View for ProtocolError {
    type V = ProtocolErrorV;

    open spec fn view(&self) -> ProtocolErrorV {
        match self {
            ProtocolError::BadWelcome(s) => ProtocolErrorV::BadWelcome(s@),
            ProtocolError::BadVersion(s) => ProtocolErrorV::BadVersion(s@),
            ProtocolError::UnknownPlayState(s) => ProtocolErrorV::UnknownPlayState(s@),
            ProtocolError::MissingField { field } => ProtocolErrorV::MissingField { field: field@ },
            ProtocolError::UnparseableField { field, value } => ProtocolErrorV::UnparseableField {
                field: field@,
                value: value@,
            },
            ProtocolError::MalformedLine(s) => ProtocolErrorV::MalformedLine(s@),
            ProtocolError::MalformedAck(s) => ProtocolErrorV::MalformedAck(s@),
            ProtocolError::InvalidCommand(s) => ProtocolErrorV::InvalidCommand(s@),
            ProtocolError::NotUtf8Line => ProtocolErrorV::NotUtf8Line,
        }
    }
}

impl View for MpdError {
    type V = MpdErrorV;

    open spec fn view(&self) -> MpdErrorV {
        match self {
            MpdError::Transport(t) => MpdErrorV::Transport(t@),
            MpdError::Protocol(p) => MpdErrorV::Protocol(p@),
            MpdError::Timeout { operation, elapsed } => MpdErrorV::Timeout {
                operation: operation@,
                elapsed: *elapsed,
            },
            MpdError::Ack { code, list_position, command, message } => MpdErrorV::Ack {
                code: *code,
                list_position: *list_position,
                command: command@,
                message: message@,
            },
            MpdError::Config(c) => MpdErrorV::Config(*c),
        }
    }
}

}
