//! Failures of the playback supervisor, and how MPD failures map onto them.
use vstd::prelude::*;

use crate::backoff::RECONNECT_MAX_ATTEMPTS;
use crate::mpd_error::{
    ConfigError, MpdError, MpdErrorV, ProtocolError, ProtocolErrorV, TransportError,
    TransportErrorV,
};
use crate::text::{decimal, u128_decimal, u64_decimal};

verus! {

/// Why a supervisor command failed.
#[derive(Debug, Clone)]
pub enum PlaybackError {
    /// MPD rejected the command.
    Ack { code: u32, message: String },
    /// The connection could not be (re-)established within the attempt budget.
    ConnectionExhausted { attempts: u32 },
    /// MPD spoke outside the protocol, or the endpoint is misconfigured.
    Protocol(String),
    /// The supervisor has shut down.
    Shutdown,
}

pub enum PlaybackErrorV {
    Ack { code: u32, message: Seq<char> },
    ConnectionExhausted { attempts: u32 },
    Protocol(Seq<char>),
    Shutdown,
}

impl View for PlaybackError {
    type V = PlaybackErrorV;

    open spec fn view(&self) -> PlaybackErrorV {
        match self {
            PlaybackError::Ack { code, message } => PlaybackErrorV::Ack { code: *code, message: message@ },
            PlaybackError::ConnectionExhausted { attempts } => PlaybackErrorV::ConnectionExhausted {
                attempts: *attempts,
            },
            PlaybackError::Protocol(s) => PlaybackErrorV::Protocol(s@),
            PlaybackError::Shutdown => PlaybackErrorV::Shutdown,
        }
    }
}

/// The human-readable text of an MPD failure.
pub open spec fn error_text(e: MpdErrorV) -> Seq<char> {
    match e {
        MpdErrorV::Transport(t) => "transport error: "@ + match t {
            TransportErrorV::Closed => "connection closed by peer"@,
            TransportErrorV::TcpConnect { endpoint, detail } => "tcp connect to "@ + endpoint
                + " failed: "@ + detail,
            TransportErrorV::UnixConnect { path, detail } => "unix connect to "@ + path
                + " failed: "@ + detail,
            TransportErrorV::Io { operation, detail } => operation + " failed: "@ + detail,
            TransportErrorV::LineTooLong { limit } => "response line longer than "@ + decimal(
                limit as nat,
            ) + " bytes"@,
        },
        MpdErrorV::Protocol(p) => "protocol error: "@ + match p {
            ProtocolErrorV::BadWelcome(l) => "bad welcome banner: "@ + l,
            ProtocolErrorV::BadVersion(v) => "bad version in welcome banner: "@ + v,
            ProtocolErrorV::UnknownPlayState(s) => "unknown play state: "@ + s,
            ProtocolErrorV::MissingField { field } => "missing field: "@ + field,
            ProtocolErrorV::UnparseableField { field, value } => "unparseable field "@ + field
                + ": "@ + value,
            ProtocolErrorV::MalformedLine(l) => "malformed response line: "@ + l,
            ProtocolErrorV::MalformedAck(l) => "malformed ACK line: "@ + l,
            ProtocolErrorV::InvalidCommand(c) => "invalid command or argument: "@ + c,
            ProtocolErrorV::NotUtf8Line => "response line is not UTF-8"@,
        },
        MpdErrorV::Timeout { operation, elapsed } => "timeout: "@ + operation + " after "@
            + decimal(elapsed@ / 1_000_000) + " ms"@,
        MpdErrorV::Ack { code, list_position, command, message } => "mpd rejected command "@
            + command + " (ACK "@ + decimal(code as nat) + "@"@ + decimal(list_position as nat)
            + "): "@ + message,
        MpdErrorV::Config(c) => "config error: "@ + match c {
            ConfigError::EmptyHost => "empty host name"@,
            ConfigError::EmptyUnixPath => "empty unix socket path"@,
        },
    }
}

fn join2(a: &str, b: &str) -> (r: String)
    ensures
        r@ == a@ + b@,
{
    let mut s = a.to_owned();
    s.append(b);
    s
}

fn join3(a: &str, b: &str, c: &str) -> (r: String)
    ensures
        r@ == a@ + b@ + c@,
{
    let mut s = a.to_owned();
    s.append(b);
    s.append(c);
    s
}

fn transport_text(t: &TransportError) -> (r: String)
    ensures
        r@ == match t@ {
            TransportErrorV::Closed => "connection closed by peer"@,
            TransportErrorV::TcpConnect { endpoint, detail } => "tcp connect to "@ + endpoint
                + " failed: "@ + detail,
            TransportErrorV::UnixConnect { path, detail } => "unix connect to "@ + path
                + " failed: "@ + detail,
            TransportErrorV::Io { operation, detail } => operation + " failed: "@ + detail,
            TransportErrorV::LineTooLong { limit } => "response line longer than "@ + decimal(
                limit as nat,
            ) + " bytes"@,
        },
{
    match t {
        TransportError::Closed => "connection closed by peer".to_owned(),
        TransportError::TcpConnect { endpoint, detail } => {
            let mut s = join3("tcp connect to ", endpoint.as_str(), " failed: ");
            s.append(detail.as_str());
            s
        },
        TransportError::UnixConnect { path, detail } => {
            let mut s = join3("unix connect to ", path.as_str(), " failed: ");
            s.append(detail.as_str());
            s
        },
        TransportError::Io { operation, detail } => join3(operation, " failed: ", detail.as_str()),
        TransportError::LineTooLong { limit } => {
            let n = u64_decimal(*limit as u64);
            join3("response line longer than ", n.as_str(), " bytes")
        },
    }
}

fn protocol_text(p: &ProtocolError) -> (r: String)
    ensures
        r@ == match p@ {
            ProtocolErrorV::BadWelcome(l) => "bad welcome banner: "@ + l,
            ProtocolErrorV::BadVersion(v) => "bad version in welcome banner: "@ + v,
            ProtocolErrorV::UnknownPlayState(s) => "unknown play state: "@ + s,
            ProtocolErrorV::MissingField { field } => "missing field: "@ + field,
            ProtocolErrorV::UnparseableField { field, value } => "unparseable field "@ + field
                + ": "@ + value,
            ProtocolErrorV::MalformedLine(l) => "malformed response line: "@ + l,
            ProtocolErrorV::MalformedAck(l) => "malformed ACK line: "@ + l,
            ProtocolErrorV::InvalidCommand(c) => "invalid command or argument: "@ + c,
            ProtocolErrorV::NotUtf8Line => "response line is not UTF-8"@,
        },
{
    match p {
        ProtocolError::BadWelcome(l) => join2("bad welcome banner: ", l.as_str()),
        ProtocolError::BadVersion(v) => join2("bad version in welcome banner: ", v.as_str()),
        ProtocolError::UnknownPlayState(s) => join2("unknown play state: ", s.as_str()),
        ProtocolError::MissingField { field } => join2("missing field: ", field),
        ProtocolError::UnparseableField { field, value } => {
            let mut s = join3("unparseable field ", field, ": ");
            s.append(value.as_str());
            s
        },
        ProtocolError::MalformedLine(l) => join2("malformed response line: ", l.as_str()),
        ProtocolError::MalformedAck(l) => join2("malformed ACK line: ", l.as_str()),
        ProtocolError::InvalidCommand(c) => join2("invalid command or argument: ", c.as_str()),
        ProtocolError::NotUtf8Line => "response line is not UTF-8".to_owned(),
    }
}

/// The text of an MPD failure, as logs and `PlaybackError::Protocol` carry it.
pub fn describe_mpd_error(e: &MpdError) -> (r: String)
    ensures
        r@ == error_text(e@),
{
    match e {
        MpdError::Transport(t) => {
            let inner = transport_text(t);
            join2("transport error: ", inner.as_str())
        },
        MpdError::Protocol(p) => {
            let inner = protocol_text(p);
            join2("protocol error: ", inner.as_str())
        },
        MpdError::Timeout { operation, elapsed } => {
            let n = u128_decimal(elapsed.as_millis());
            let mut s = join3("timeout: ", operation, " after ");
            s.append(n.as_str());
            s.append(" ms");
            s
        },
        MpdError::Ack { code, list_position, command, message } => {
            let c = u64_decimal(*code as u64);
            let p = u64_decimal(*list_position as u64);
            let mut s = join3("mpd rejected command ", command.as_str(), " (ACK ");
            s.append(c.as_str());
            s.append("@");
            s.append(p.as_str());
            s.append("): ");
            s.append(message.as_str());
            s
        },
        MpdError::Config(c) => match c {
            ConfigError::EmptyHost => join2("config error: ", "empty host name"),
            ConfigError::EmptyUnixPath => join2("config error: ", "empty unix socket path"),
        },
    }
}

/// Transport failures and timeouts leave the connection suspect: reconnect.
pub open spec fn calls_for_reconnect(e: MpdErrorV) -> bool {
    e is Transport || e is Timeout
}

pub fn error_calls_for_reconnect(e: &MpdError) -> (r: bool)
    ensures
        r == calls_for_reconnect(e@),
{
    match e {
        MpdError::Transport(_) | MpdError::Timeout { .. } => true,
        _ => false,
    }
}

/// How a failure to open a connection surfaces to the warden.
pub open spec fn connect_failure(e: MpdErrorV) -> PlaybackErrorV {
    match e {
        MpdErrorV::Transport(_) | MpdErrorV::Timeout { .. } => PlaybackErrorV::ConnectionExhausted {
            attempts: 1,
        },
        MpdErrorV::Protocol(_) | MpdErrorV::Config(_) => PlaybackErrorV::Protocol(error_text(e)),
        MpdErrorV::Ack { code, message, .. } => PlaybackErrorV::Ack { code, message },
    }
}

/// How a failed command surfaces to the warden.
pub open spec fn command_failure(e: MpdErrorV) -> PlaybackErrorV {
    match e {
        MpdErrorV::Ack { code, message, .. } => PlaybackErrorV::Ack { code, message },
        MpdErrorV::Transport(_) | MpdErrorV::Timeout { .. } => PlaybackErrorV::ConnectionExhausted {
            attempts: RECONNECT_MAX_ATTEMPTS,
        },
        MpdErrorV::Protocol(_) | MpdErrorV::Config(_) => PlaybackErrorV::Protocol(error_text(e)),
    }
}

pub fn classify_connect_error(e: MpdError) -> (r: PlaybackError)
    ensures
        r@ == connect_failure(e@),
{
    match e {
        MpdError::Transport(_) | MpdError::Timeout { .. } => PlaybackError::ConnectionExhausted {
            attempts: 1,
        },
        MpdError::Protocol(_) | MpdError::Config(_) => PlaybackError::Protocol(describe_mpd_error(&e)),
        MpdError::Ack { code, message, .. } => PlaybackError::Ack { code, message },
    }
}

pub fn classify_command_error(e: MpdError) -> (r: PlaybackError)
    ensures
        r@ == command_failure(e@),
{
    match e {
        MpdError::Ack { code, message, .. } => PlaybackError::Ack { code, message },
        MpdError::Transport(_) | MpdError::Timeout { .. } => PlaybackError::ConnectionExhausted {
            attempts: RECONNECT_MAX_ATTEMPTS,
        },
        MpdError::Protocol(_) | MpdError::Config(_) => PlaybackError::Protocol(describe_mpd_error(&e)),
    }
}

}
