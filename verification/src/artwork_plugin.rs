//! The local artwork respondent's admission surface and request handling.
use vstd::prelude::*;

use crate::contract::{
    HealthReport, HealthStatus, PluginDescription, PluginError, PluginErrorV, PluginIdentity,
    Request, Response, RuntimeCapabilities, SemVer,
};
use crate::text::{debug_quoted, debug_text, str_eq};
use vstd::utf8::encode_utf8;

verus! {

/// Plugin reverse-DNS name.
pub const PLUGIN_NAME: &'static str = "com.volumio.artwork.local";

/// Request type: resolve cover / visual material for a subject.
pub const REQUEST_ARTWORK_RESOLVE: &'static str = "artwork.resolve";

/// The body `artwork.resolve` answers with (UTF-8 JSON).
pub const STUB_RESOLVE_JSON: &'static str = "{\"v\":1,\"status\":\"stub\",\"detail\":\"Milestone 4: artwork.resolve not yet implemented\"}";

pub struct ArtworkPluginV {
    pub loaded: bool,
    pub requests_handled: nat,
}

/// Local artwork respondent: admission state and a count of dispatched
/// requests.
#[derive(Debug)]
pub struct ArtworkLocalPlugin {
    loaded: bool,
    requests_handled: u64,
}

impl View for ArtworkLocalPlugin {
    type V = ArtworkPluginV;

    closed spec fn view(&self) -> ArtworkPluginV {
        ArtworkPluginV { loaded: self.loaded, requests_handled: self.requests_handled as nat }
    }
}

pub open spec fn not_loaded_text() -> Seq<char> {
    "artwork plugin not loaded"@
}

pub open spec fn deadline_text() -> Seq<char> {
    "request deadline already expired"@
}

pub open spec fn unknown_type_text(t: Seq<char>) -> Seq<char> {
    "unknown request type: "@ + debug_text(t) + " (not one of: ["@ + debug_text(
        REQUEST_ARTWORK_RESOLVE@,
    ) + "])"@
}

/// A request's outcome: the correlation id and payload of the response.
pub open spec fn handle_request_spec(
    s: ArtworkPluginV,
    request_type: Seq<char>,
    correlation_id: u64,
    past_deadline: bool,
) -> (ArtworkPluginV, Result<(u64, Seq<u8>), PluginErrorV>) {
    if !s.loaded {
        (s, Err(PluginErrorV::Permanent(not_loaded_text())))
    } else if past_deadline {
        (s, Err(PluginErrorV::Transient(deadline_text())))
    } else {
        let t = ArtworkPluginV { requests_handled: s.requests_handled + 1, ..s };
        if request_type == REQUEST_ARTWORK_RESOLVE@ {
            (t, Ok((correlation_id, encode_utf8(STUB_RESOLVE_JSON@))))
        } else {
            (t, Err(PluginErrorV::Permanent(unknown_type_text(request_type))))
        }
    }
}

pub open spec fn response_result(r: Result<Response, PluginError>) -> Result<(u64, Seq<u8>), PluginErrorV> {
    match r {
        Ok(resp) => Ok((resp.correlation_id, resp.payload@)),
        Err(e) => Err(e@),
    }
}

impl ArtworkLocalPlugin {
    /// A plugin not yet loaded, with no requests handled.
    pub fn new() -> (p: ArtworkLocalPlugin)
        ensures
            p@.loaded == false,
            p@.requests_handled == 0,
    {
        ArtworkLocalPlugin { loaded: false, requests_handled: 0 }
    }

    /// Requests dispatched so far (loaded, before their deadline).
    pub fn requests_handled(&self) -> (n: u64)
        ensures
            n == self@.requests_handled,
    {
        self.requests_handled
    }

    /// Marks the plugin loaded without a load context, as tests do.
    pub fn set_loaded_for_test(&mut self)
        ensures
            final(self)@ == (ArtworkPluginV { loaded: true, ..old(self)@ }),
    {
        self.loaded = true;
    }

    /// Admission.
    pub fn load(&mut self)
        ensures
            final(self)@ == (ArtworkPluginV { loaded: true, ..old(self)@ }),
    {
        self.loaded = true;
    }

    pub fn unload(&mut self)
        ensures
            final(self)@ == (ArtworkPluginV { loaded: false, ..old(self)@ }),
    {
        self.loaded = false;
    }

    /// Healthy exactly when loaded.
    pub fn health_check(&self) -> (r: HealthReport)
        ensures
            self@.loaded ==> r.status == HealthStatus::Healthy && r.reason is None,
            !self@.loaded ==> r.status == HealthStatus::Unhealthy && (r.reason matches Some(t) && t@
                == not_loaded_text()),
    {
        if self.loaded {
            HealthReport { status: HealthStatus::Healthy, reason: None }
        } else {
            HealthReport { status: HealthStatus::Unhealthy, reason: Some("artwork plugin not loaded".to_owned()) }
        }
    }

    /// Identity `com.volumio.artwork.local` at `version`, contract 1;
    /// answers `artwork.resolve` and takes no custody.
    pub fn describe(&self, version: SemVer) -> (d: PluginDescription)
        ensures
            d.identity.name@ == PLUGIN_NAME@,
            d.identity.version == version,
            d.identity.contract == 1,
            d.runtime_capabilities.request_types@.len() == 1,
            d.runtime_capabilities.request_types@[0]@ == REQUEST_ARTWORK_RESOLVE@,
            !d.runtime_capabilities.accepts_custody,
    {
        let mut types: Vec<String> = Vec::new();
        types.push(REQUEST_ARTWORK_RESOLVE.to_owned());
        PluginDescription {
            identity: PluginIdentity { name: PLUGIN_NAME.to_owned(), version, contract: 1 },
            runtime_capabilities: RuntimeCapabilities { request_types: types, accepts_custody: false },
        }
    }

    /// Answers a request; `past_deadline` tells whether its deadline has
    /// already passed.
    pub fn handle_request(&mut self, req: &Request, past_deadline: bool) -> (r: Result<
        Response,
        PluginError,
    >)
        requires
            old(self)@.requests_handled < u64::MAX,
        ensures
            (final(self)@, response_result(r)) == handle_request_spec(
                old(self)@,
                req.request_type@,
                req.correlation_id,
                past_deadline,
            ),
    {
        if !self.loaded {
            return Err(PluginError::Permanent("artwork plugin not loaded".to_owned()));
        }
        if past_deadline {
            return Err(PluginError::Transient("request deadline already expired".to_owned()));
        }
        self.requests_handled = self.requests_handled + 1;
        if str_eq(req.request_type.as_str(), REQUEST_ARTWORK_RESOLVE) {
            return Ok(
                Response { correlation_id: req.correlation_id, payload: STUB_RESOLVE_JSON.as_bytes_vec() },
            );
        }
        let mut msg = "unknown request type: ".to_owned();
        let shown = debug_quoted(req.request_type.as_str());
        msg.append(shown.as_str());
        msg.append(" (not one of: [");
        let known = debug_quoted(REQUEST_ARTWORK_RESOLVE);
        msg.append(known.as_str());
        msg.append("])");
        Err(PluginError::Permanent(msg))
    }
}

impl Default for ArtworkLocalPlugin {
    fn default() -> (p: ArtworkLocalPlugin)
        ensures
            p@.loaded == false,
            p@.requests_handled == 0,
    {
        ArtworkLocalPlugin::new()
    }
}

/// The request count grows by one exactly for requests that reach dispatch
/// (loaded, before their deadline), whatever their type; refused requests
/// change nothing.
pub proof fn requests_counted_iff_dispatched(
    s: ArtworkPluginV,
    request_type: Seq<char>,
    cid: u64,
    past_deadline: bool,
)
    ensures
        handle_request_spec(s, request_type, cid, past_deadline).0.requests_handled == (if s.loaded
            && !past_deadline {
            s.requests_handled + 1
        } else {
            s.requests_handled
        }),
        handle_request_spec(s, request_type, cid, past_deadline).0.loaded == s.loaded,
        handle_request_spec(s, request_type, cid, past_deadline).1 is Ok <==> (s.loaded
            && !past_deadline && request_type == REQUEST_ARTWORK_RESOLVE@),
{
}

/// A successful answer carries the request's correlation id.
pub proof fn response_echoes_correlation_id(
    s: ArtworkPluginV,
    request_type: Seq<char>,
    cid: u64,
    past_deadline: bool,
)
    ensures
        handle_request_spec(s, request_type, cid, past_deadline).1 matches Ok((c, _)) ==> c == cid,
{
}

/// One call on the respondent's surface.
pub enum ArtworkOp {
    Load,
    Unload,
    /// `handle_request` with this request type and correlation id, and
    /// whether its deadline had passed.
    Handle(Seq<char>, u64, bool),
}

pub open spec fn artwork_step(s: ArtworkPluginV, op: ArtworkOp) -> ArtworkPluginV {
    match op {
        ArtworkOp::Load => ArtworkPluginV { loaded: true, ..s },
        ArtworkOp::Unload => ArtworkPluginV { loaded: false, ..s },
        ArtworkOp::Handle(t, cid, late) => handle_request_spec(s, t, cid, late).0,
    }
}

/// The state after the calls `ops`, in order, from `s`.
pub open spec fn artwork_run(s: ArtworkPluginV, ops: Seq<ArtworkOp>) -> ArtworkPluginV
    decreases ops.len(),
{
    if ops.len() == 0 {
        s
    } else {
        artwork_step(artwork_run(s, ops.drop_last()), ops.last())
    }
}

/// How many of the calls `ops` were requests made while loaded and before
/// their deadline, whatever their type and outcome.
pub open spec fn requests_dispatched(s: ArtworkPluginV, ops: Seq<ArtworkOp>) -> nat
    decreases ops.len(),
{
    if ops.len() == 0 {
        0
    } else {
        requests_dispatched(s, ops.drop_last()) + match ops.last() {
            ArtworkOp::Handle(_, _, late) => if artwork_run(s, ops.drop_last()).loaded && !late {
                1nat
            } else {
                0nat
            },
            _ => 0nat,
        }
    }
}

/// Over any sequence of calls, `requests_handled` grows by exactly the
/// requests dispatched: made while loaded and before their deadline.
pub proof fn requests_handled_counts_dispatched(s: ArtworkPluginV, ops: Seq<ArtworkOp>)
    ensures
        artwork_run(s, ops).requests_handled == s.requests_handled + requests_dispatched(s, ops),
    decreases ops.len(),
{
    if ops.len() > 0 {
        requests_handled_counts_dispatched(s, ops.drop_last());
    }
}

}
