//! The plugin-facing values the plugins exchange with the steward: errors,
//! health, custody handles, requests and responses, and self-descriptions.
use vstd::prelude::*;

verus! {

/// Why a plugin operation failed.
#[derive(Debug, Clone)]
pub enum PluginError {
    /// Retrying will not help.
    Permanent(String),
    /// Retrying later may help.
    Transient(String),
}

pub enum PluginErrorV {
    Permanent(Seq<char>),
    Transient(Seq<char>),
}

impl View for PluginError {
    type V = PluginErrorV;

    open spec fn view(&self) -> PluginErrorV {
        match self {
            PluginError::Permanent(s) => PluginErrorV::Permanent(s@),
            PluginError::Transient(s) => PluginErrorV::Transient(s@),
        }
    }
}

/// Health of a plugin or of a custody.
#[derive(Debug, Clone, Copy, PartialEq, Eq, Structural)]
pub enum HealthStatus {
    Healthy,
    Unhealthy,
}

/// A health check's answer: the status and, when unhealthy, why.
#[derive(Debug, Clone)]
pub struct HealthReport {
    pub status: HealthStatus,
    pub reason: Option<String>,
}

/// Identifies one custody a warden holds.
#[derive(Debug, Clone)]
pub struct CustodyHandle {
    pub id: String,
}

impl CustodyHandle {
    pub fn new(id: &str) -> (h: CustodyHandle)
        ensures
            h.id@ == id@,
    {
        CustodyHandle { id: id.to_owned() }
    }
}

/// A request addressed to a respondent.
#[derive(Debug, Clone)]
pub struct Request {
    pub request_type: String,
    pub payload: Vec<u8>,
    pub correlation_id: u64,
}

/// A respondent's answer to a request.
#[derive(Debug, Clone)]
pub struct Response {
    pub correlation_id: u64,
    pub payload: Vec<u8>,
}

/// A semantic version `major.minor.patch`.
#[derive(Debug, Clone, Copy, PartialEq, Eq, Structural)]
pub struct SemVer {
    pub major: u64,
    pub minor: u64,
    pub patch: u64,
}

/// Who a plugin is.
#[derive(Debug, Clone)]
pub struct PluginIdentity {
    pub name: String,
    pub version: SemVer,
    pub contract: u32,
}

/// What a plugin can do at run time.
#[derive(Debug, Clone)]
pub struct RuntimeCapabilities {
    pub request_types: Vec<String>,
    pub accepts_custody: bool,
}

/// A plugin's answer to `describe`.
#[derive(Debug, Clone)]
pub struct PluginDescription {
    pub identity: PluginIdentity,
    pub runtime_capabilities: RuntimeCapabilities,
}

}
