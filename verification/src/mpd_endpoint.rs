//! Where the MPD daemon listens, the connection time budgets, and the
//! failures opening a connection can produce.
use vstd::prelude::*;

use crate::mpd_error::{ConfigError, MpdError, MpdErrorV, TransportErrorV};
use crate::span::Span;
use crate::text::{decimal, push_char, u64_decimal};

verus! {

/// An MPD server address: TCP host and port, or a Unix socket path.
#[derive(Debug, Clone)]
pub enum MpdEndpoint {
    Tcp { host: String, port: u16 },
    Unix { path: String },
}

pub enum EndpointV {
    Tcp { host: Seq<char>, port: u16 },
    Unix { path: Seq<char> },
}

impl View for MpdEndpoint {
    type V = EndpointV;

    open spec fn view(&self) -> EndpointV {
        match self {
            MpdEndpoint::Tcp { host, port } => EndpointV::Tcp { host: host@, port: *port },
            MpdEndpoint::Unix { path } => EndpointV::Unix { path: path@ },
        }
    }
}

/// The text of an endpoint: `host:port`, or the socket path.
pub open spec fn endpoint_text(e: EndpointV) -> Seq<char> {
    match e {
        EndpointV::Tcp { host, port } => host + seq![':'] + decimal(port as nat),
        EndpointV::Unix { path } => path,
    }
}

impl MpdEndpoint {
    /// A TCP endpoint; the host must not be empty.
    pub fn tcp(host: &str, port: u16) -> (r: Result<MpdEndpoint, ConfigError>)
        ensures
            host@.len() == 0 ==> r == Err::<MpdEndpoint, ConfigError>(ConfigError::EmptyHost),
            host@.len() > 0 ==> (r matches Ok(e) && e@ == EndpointV::Tcp { host: host@, port }),
    {
        if host.unicode_len() == 0 {
            Err(ConfigError::EmptyHost)
        } else {
            Ok(MpdEndpoint::Tcp { host: host.to_owned(), port })
        }
    }

    /// A Unix-socket endpoint; the path must not be empty.
    pub fn unix(path: &str) -> (r: Result<MpdEndpoint, ConfigError>)
        ensures
            path@.len() == 0 ==> r == Err::<MpdEndpoint, ConfigError>(ConfigError::EmptyUnixPath),
            path@.len() > 0 ==> (r matches Ok(e) && e@ == EndpointV::Unix { path: path@ }),
    {
        if path.unicode_len() == 0 {
            Err(ConfigError::EmptyUnixPath)
        } else {
            Ok(MpdEndpoint::Unix { path: path.to_owned() })
        }
    }

    /// `host:port` for TCP (the address handed to the connect call), or the
    /// socket path.
    pub fn to_text(&self) -> (s: String)
        ensures
            s@ == endpoint_text(self@),
    {
        match self {
            MpdEndpoint::Tcp { host, port } => {
                let mut s = host.clone();
                push_char(&mut s, ':');
                let p = u64_decimal(*port as u64);
                s.append(p.as_str());
                s
            },
            MpdEndpoint::Unix { path } => path.clone(),
        }
    }

    /// The failure when connecting did not finish within `budget`.
    pub fn connect_timeout(&self, budget: Span) -> (e: MpdError)
        ensures
            e@ == (MpdErrorV::Timeout {
                operation: match self@ {
                    EndpointV::Tcp { .. } => "tcp_connect"@,
                    EndpointV::Unix { .. } => "unix_connect"@,
                },
                elapsed: budget,
            }),
    {
        match self {
            MpdEndpoint::Tcp { .. } => MpdError::Timeout { operation: "tcp_connect", elapsed: budget },
            MpdEndpoint::Unix { .. } => MpdError::Timeout { operation: "unix_connect", elapsed: budget },
        }
    }

    /// The failure when the connect call itself failed; `detail` is the OS
    /// error's text.
    pub fn connect_failed(&self, detail: String) -> (e: MpdError)
        ensures
            e@ == MpdErrorV::Transport(
                match self@ {
                    EndpointV::Tcp { .. } => TransportErrorV::TcpConnect {
                        endpoint: endpoint_text(self@),
                        detail: detail@,
                    },
                    EndpointV::Unix { path } => TransportErrorV::UnixConnect { path, detail: detail@ },
                },
            ),
    {
        match self {
            MpdEndpoint::Tcp { .. } => MpdError::Transport(
                crate::mpd_error::TransportError::TcpConnect { endpoint: self.to_text(), detail },
            ),
            MpdEndpoint::Unix { path } => MpdError::Transport(
                crate::mpd_error::TransportError::UnixConnect { path: path.clone(), detail },
            ),
        }
    }
}

/// Time budgets for one connection.
#[derive(Debug, Clone, Copy, PartialEq, Eq, Structural)]
pub struct ConnectTimeouts {
    /// Completing the TCP or Unix connect call.
    pub connect: Span,
    /// Reading the welcome banner once the transport is up.
    pub welcome: Span,
    /// One command: writing it and reading until `OK` or `ACK`.
    pub command: Span,
}

impl Default for ConnectTimeouts {
    /// 5 s to connect, 2 s for the welcome banner, 3 s per command.
    fn default() -> (t: ConnectTimeouts)
        ensures
            t.connect@ == 5_000_000_000nat,
            t.welcome@ == 2_000_000_000nat,
            t.command@ == 3_000_000_000nat,
    {
        ConnectTimeouts { connect: Span::from_secs(5), welcome: Span::from_secs(2), command: Span::from_secs(3) }
    }
}

}
