//! The MPD playback warden's admission surface and custody bookkeeping.
use vstd::prelude::*;

use crate::contract::{
    CustodyHandle, HealthReport, HealthStatus, PluginDescription, PluginError, PluginErrorV,
    PluginIdentity, RuntimeCapabilities, SemVer,
};
use crate::keyed::{
    entries_map, has_key, keys_unique, lemma_map_dom, lemma_map_len, lemma_map_value, lemma_push,
    lemma_remove, lemma_update,
};
use crate::text::{decimal, str_eq, u64_decimal};

verus! {

/// The plugin's canonical reverse-DNS name.
pub const PLUGIN_NAME: &'static str = "com.volumio.playback.mpd";

/// The state report a warden sends when it takes a custody, before any
/// playback state is known.
pub const INITIAL_STATE_REPORT: &'static str = "state=idle";

pub struct PlaybackPluginV {
    pub loaded: bool,
    /// Custodies held: handle id to custody type.
    pub custodies: Map<Seq<char>, Seq<char>>,
    pub custodies_taken: nat,
    pub corrections_received: nat,
}

/// MPD playback warden plugin: admission state, the custodies it holds, and
/// cumulative counters.
#[derive(Debug)]
pub struct MpdPlaybackPlugin {
    loaded: bool,
    custodies: Vec<(String, String)>,
    custodies_taken: u64,
    corrections_received: u64,
}

pub open spec fn pairs_view(v: Seq<(String, String)>) -> Seq<(Seq<char>, Seq<char>)> {
    v.map_values(|p: (String, String)| (p.0@, p.1@))
}

impl View for MpdPlaybackPlugin {
    type V = PlaybackPluginV;

    closed spec fn view(&self) -> PlaybackPluginV {
        PlaybackPluginV {
            loaded: self.loaded,
            custodies: entries_map(pairs_view(self.custodies@)),
            custodies_taken: self.custodies_taken as nat,
            corrections_received: self.corrections_received as nat,
        }
    }
}

/// The handle id given to the custody of correlation id `cid`.
pub open spec fn custody_id(cid: u64) -> Seq<char> {
    "custody-"@ + decimal(cid as nat)
}

pub open spec fn not_loaded_text() -> Seq<char> {
    "playback plugin not loaded"@
}

pub open spec fn unknown_handle_text(id: Seq<char>) -> Seq<char> {
    "unknown custody handle: "@ + id
}

pub open spec fn load_spec(s: PlaybackPluginV) -> PlaybackPluginV {
    PlaybackPluginV { loaded: true, ..s }
}

pub open spec fn unload_spec(s: PlaybackPluginV) -> PlaybackPluginV {
    PlaybackPluginV { loaded: false, custodies: Map::empty(), ..s }
}

pub open spec fn take_custody_spec(s: PlaybackPluginV, cid: u64, custody_type: Seq<char>) -> (
    PlaybackPluginV,
    Result<Seq<char>, PluginErrorV>,
) {
    if !s.loaded {
        (s, Err(PluginErrorV::Permanent(not_loaded_text())))
    } else {
        (
            PlaybackPluginV {
                custodies: s.custodies.insert(custody_id(cid), custody_type),
                custodies_taken: s.custodies_taken + 1,
                ..s
            },
            Ok(custody_id(cid)),
        )
    }
}

pub open spec fn course_correct_spec(s: PlaybackPluginV, id: Seq<char>) -> (
    PlaybackPluginV,
    Result<(), PluginErrorV>,
) {
    if !s.loaded {
        (s, Err(PluginErrorV::Permanent(not_loaded_text())))
    } else if !s.custodies.dom().contains(id) {
        (s, Err(PluginErrorV::Permanent(unknown_handle_text(id))))
    } else {
        (PlaybackPluginV { corrections_received: s.corrections_received + 1, ..s }, Ok(()))
    }
}

pub open spec fn release_custody_spec(s: PlaybackPluginV, id: Seq<char>) -> (
    PlaybackPluginV,
    Result<(), PluginErrorV>,
) {
    if !s.loaded {
        (s, Err(PluginErrorV::Permanent(not_loaded_text())))
    } else if !s.custodies.dom().contains(id) {
        (s, Err(PluginErrorV::Permanent(unknown_handle_text(id))))
    } else {
        (PlaybackPluginV { custodies: s.custodies.remove(id), ..s }, Ok(()))
    }
}

pub open spec fn handle_result(r: Result<CustodyHandle, PluginError>) -> Result<Seq<char>, PluginErrorV> {
    match r {
        Ok(h) => Ok(h.id@),
        Err(e) => Err(e@),
    }
}

pub open spec fn unit_result(r: Result<(), PluginError>) -> Result<(), PluginErrorV> {
    match r {
        Ok(()) => Ok(()),
        Err(e) => Err(e@),
    }
}

fn not_loaded() -> (e: PluginError)
    ensures
        e@ == PluginErrorV::Permanent(not_loaded_text()),
{
    PluginError::Permanent("playback plugin not loaded".to_owned())
}

fn unknown_handle(id: &str) -> (e: PluginError)
    ensures
        e@ == PluginErrorV::Permanent(unknown_handle_text(id@)),
{
    let mut s = "unknown custody handle: ".to_owned();
    s.append(id);
    PluginError::Permanent(s)
}

impl MpdPlaybackPlugin {
    /// The custody entries have distinct handle ids.
    pub closed spec fn wf(&self) -> bool {
        &&& keys_unique(pairs_view(self.custodies@))
        &&& self.custodies@.len() <= self.custodies_taken
    }

    /// A plugin not yet loaded, holding nothing, with zero counters.
    pub fn new() -> (p: MpdPlaybackPlugin)
        ensures
            p.wf(),
            p@.loaded == false,
            p@.custodies == Map::<Seq<char>, Seq<char>>::empty(),
            p@.custodies_taken == 0,
            p@.corrections_received == 0,
    {
        let p = MpdPlaybackPlugin {
            loaded: false,
            custodies: Vec::new(),
            custodies_taken: 0,
            corrections_received: 0,
        };
        assert(pairs_view(p.custodies@) =~= Seq::<(Seq<char>, Seq<char>)>::empty());
        p
    }

    /// Number of custodies currently held (taken, not yet released).
    pub fn active_custody_count(&self) -> (n: usize)
        requires
            self.wf(),
        ensures
            n == self@.custodies.len(),
    {
        proof {
            lemma_map_len(pairs_view(self.custodies@));
        }
        self.custodies.len()
    }

    /// Custodies accepted since construction; never decreases.
    pub fn custodies_taken(&self) -> (n: u64)
        ensures
            n == self@.custodies_taken,
    {
        self.custodies_taken
    }

    /// Course corrections accepted since construction; never decreases.
    pub fn corrections_received(&self) -> (n: u64)
        ensures
            n == self@.corrections_received,
    {
        self.corrections_received
    }

    /// Admission: the plugin becomes healthy.
    pub fn load(&mut self)
        requires
            old(self).wf(),
        ensures
            final(self).wf(),
            final(self)@ == load_spec(old(self)@),
    {
        self.loaded = true;
    }

    /// Unload: the plugin becomes unhealthy and drops every custody; the
    /// cumulative counters stay.
    pub fn unload(&mut self)
        requires
            old(self).wf(),
        ensures
            final(self).wf(),
            final(self)@ == unload_spec(old(self)@),
    {
        self.loaded = false;
        self.custodies = Vec::new();
        assert(pairs_view(self.custodies@) =~= Seq::<(Seq<char>, Seq<char>)>::empty());
        assert(entries_map(pairs_view(self.custodies@)) =~= Map::<Seq<char>, Seq<char>>::empty());
    }

    /// Healthy exactly when loaded.
    pub fn health_check(&self) -> (r: HealthReport)
        ensures
            self@.loaded ==> r.status == HealthStatus::Healthy && r.reason is None,
            !self@.loaded ==> r.status == HealthStatus::Unhealthy && (r.reason matches Some(t) && t@
                == not_loaded_text()),
    {
        if self.loaded {
            HealthReport { status: HealthStatus::Healthy, reason: None }
        } else {
            HealthReport { status: HealthStatus::Unhealthy, reason: Some("playback plugin not loaded".to_owned()) }
        }
    }

    /// Identity `com.volumio.playback.mpd` 0.1.0, contract 1; accepts
    /// custody and answers no request types.
    pub fn describe(&self) -> (d: PluginDescription)
        ensures
            d.identity.name@ == PLUGIN_NAME@,
            d.identity.version == (SemVer { major: 0, minor: 1, patch: 0 }),
            d.identity.contract == 1,
            d.runtime_capabilities.request_types@.len() == 0,
            d.runtime_capabilities.accepts_custody,
    {
        PluginDescription {
            identity: PluginIdentity {
                name: PLUGIN_NAME.to_owned(),
                version: SemVer { major: 0, minor: 1, patch: 0 },
                contract: 1,
            },
            runtime_capabilities: RuntimeCapabilities { request_types: Vec::new(), accepts_custody: true },
        }
    }

    fn find(&self, id: &str) -> (r: Option<usize>)
        requires
            self.wf(),
        ensures
            match r {
                Some(i) => i < self.custodies@.len() && pairs_view(self.custodies@)[i as int].0 == id@,
                None => !has_key(pairs_view(self.custodies@), id@),
            },
    {
        let ghost pv = pairs_view(self.custodies@);
        let n = self.custodies.len();
        let mut i: usize = 0;
        while i < n
            invariant
                i <= n,
                n == self.custodies@.len(),
                pv == pairs_view(self.custodies@),
                forall|j: int| 0 <= j < i ==> #[trigger] pv[j].0 != id@,
            decreases n - i,
        {
            if str_eq(self.custodies[i].0.as_str(), id) {
                return Some(i);
            }
            i += 1;
        }
        None
    }

    /// Take custody for the assignment with correlation id `correlation_id`:
    /// the handle is `custody-<correlation_id>`.
    pub fn take_custody(&mut self, correlation_id: u64, custody_type: &str) -> (r: Result<
        CustodyHandle,
        PluginError,
    >)
        requires
            old(self).wf(),
            old(self)@.custodies_taken < u64::MAX,
        ensures
            final(self).wf(),
            (final(self)@, handle_result(r)) == take_custody_spec(
                old(self)@,
                correlation_id,
                custody_type@,
            ),
    {
        if !self.loaded {
            return Err(not_loaded());
        }
        let mut id = "custody-".to_owned();
        let digits = u64_decimal(correlation_id);
        id.append(digits.as_str());
        let ghost pv = pairs_view(self.custodies@);
        match self.find(id.as_str()) {
            Some(i) => {
                proof {
                    lemma_update(pv, i as int, custody_type@);
                }
                let key = self.custodies[i].0.clone();
                self.custodies.set(i, (key, custody_type.to_owned()));
                assert(pairs_view(self.custodies@) =~= pv.update(i as int, (pv[i as int].0, custody_type@)));
            },
            None => {
                proof {
                    lemma_push(pv, id@, custody_type@);
                }
                self.custodies.push((id.clone(), custody_type.to_owned()));
                assert(pairs_view(self.custodies@) =~= pv.push((id@, custody_type@)));
            },
        }
        self.custodies_taken = self.custodies_taken + 1;
        Ok(CustodyHandle { id })
    }

    /// Accept a course correction for a held custody.
    pub fn course_correct(&mut self, handle: &CustodyHandle, correction_type: &str) -> (r: Result<
        (),
        PluginError,
    >)
        requires
            old(self).wf(),
            old(self)@.corrections_received < u64::MAX,
        ensures
            final(self).wf(),
            (final(self)@, unit_result(r)) == course_correct_spec(old(self)@, handle.id@),
    {
        if !self.loaded {
            return Err(not_loaded());
        }
        proof {
            lemma_map_dom(pairs_view(self.custodies@));
        }
        match self.find(handle.id.as_str()) {
            None => Err(unknown_handle(handle.id.as_str())),
            Some(i) => {
                proof {
                    assert(has_key(pairs_view(self.custodies@), handle.id@));
                }
                self.corrections_received = self.corrections_received + 1;
                Ok(())
            },
        }
    }

    /// Release a held custody.
    pub fn release_custody(&mut self, handle: CustodyHandle) -> (r: Result<(), PluginError>)
        requires
            old(self).wf(),
        ensures
            final(self).wf(),
            (final(self)@, unit_result(r)) == release_custody_spec(old(self)@, handle.id@),
    {
        if !self.loaded {
            return Err(not_loaded());
        }
        let ghost pv = pairs_view(self.custodies@);
        proof {
            lemma_map_dom(pv);
        }
        match self.find(handle.id.as_str()) {
            None => Err(unknown_handle(handle.id.as_str())),
            Some(i) => {
                proof {
                    assert(has_key(pv, handle.id@));
                    lemma_remove(pv, i as int);
                }
                let _ = self.custodies.remove(i);
                assert(pairs_view(self.custodies@) =~= pv.remove(i as int));
                Ok(())
            },
        }
    }
}


impl Default for MpdPlaybackPlugin {
    fn default() -> (p: MpdPlaybackPlugin)
        ensures
            p.wf(),
            p@.loaded == false,
            p@.custodies == Map::<Seq<char>, Seq<char>>::empty(),
            p@.custodies_taken == 0,
            p@.corrections_received == 0,
    {
        MpdPlaybackPlugin::new()
    }
}

/// The custodies held form a finite map, and no more are held than were
/// ever taken.
pub open spec fn custodies_consistent(s: PlaybackPluginV) -> bool {
    s.custodies.dom().finite() && s.custodies.len() <= s.custodies_taken
}

/// A well-formed plugin (which every constructor and method keeps) holds
/// finitely many custodies, and `active_custody_count() <= custodies_taken()`.
pub proof fn wf_custodies_consistent(p: MpdPlaybackPlugin)
    requires
        p.wf(),
    ensures
        custodies_consistent(p@),
{
    lemma_map_dom(pairs_view(p.custodies@));
    lemma_map_len(pairs_view(p.custodies@));
}

/// Taking custody adds one held custody when its handle is new and none
/// when it is already held; the result stays consistent.
pub proof fn take_custody_counts_new_handles(s: PlaybackPluginV, cid: u64, custody_type: Seq<char>)
    requires
        s.loaded,
        custodies_consistent(s),
    ensures
        custodies_consistent(take_custody_spec(s, cid, custody_type).0),
        take_custody_spec(s, cid, custody_type).0.custodies.len() == s.custodies.len() + (if s.custodies.dom().contains(
            custody_id(cid),
        ) {
            0int
        } else {
            1int
        }),
{
    let m = s.custodies.insert(custody_id(cid), custody_type);
    assert(m.dom() =~= s.custodies.dom().insert(custody_id(cid)));
}

/// One call on the warden's custody surface.
pub enum CustodyOp {
    Load,
    Unload,
    Take(u64, Seq<char>),
    Correct(Seq<char>),
    Release(Seq<char>),
}

/// The state after `op`, and whether it was accepted (`Ok`).
pub open spec fn custody_step(s: PlaybackPluginV, op: CustodyOp) -> (PlaybackPluginV, bool) {
    match op {
        CustodyOp::Load => (load_spec(s), true),
        CustodyOp::Unload => (unload_spec(s), true),
        CustodyOp::Take(cid, t) => (take_custody_spec(s, cid, t).0, take_custody_spec(s, cid, t).1 is Ok),
        CustodyOp::Correct(id) => (course_correct_spec(s, id).0, course_correct_spec(s, id).1 is Ok),
        CustodyOp::Release(id) => (release_custody_spec(s, id).0, release_custody_spec(s, id).1 is Ok),
    }
}

/// The state after the calls `ops`, in order, from `s`.
pub open spec fn custody_run(s: PlaybackPluginV, ops: Seq<CustodyOp>) -> PlaybackPluginV
    decreases ops.len(),
{
    if ops.len() == 0 {
        s
    } else {
        custody_step(custody_run(s, ops.drop_last()), ops.last()).0
    }
}

/// How many of the calls `ops` were accepted `take_custody` calls.
pub open spec fn takes_accepted(s: PlaybackPluginV, ops: Seq<CustodyOp>) -> nat
    decreases ops.len(),
{
    if ops.len() == 0 {
        0
    } else {
        let before = custody_run(s, ops.drop_last());
        takes_accepted(s, ops.drop_last()) + if ops.last() is Take && custody_step(before, ops.last()).1 {
            1nat
        } else {
            0nat
        }
    }
}

/// How many of the calls `ops` were accepted `course_correct` calls.
pub open spec fn corrections_accepted(s: PlaybackPluginV, ops: Seq<CustodyOp>) -> nat
    decreases ops.len(),
{
    if ops.len() == 0 {
        0
    } else {
        let before = custody_run(s, ops.drop_last());
        corrections_accepted(s, ops.drop_last()) + if ops.last() is Correct && custody_step(
            before,
            ops.last(),
        ).1 {
            1nat
        } else {
            0nat
        }
    }
}

/// The handles live after `ops`: those taken since the last unload and not
/// released since.
pub open spec fn live_handles(s: PlaybackPluginV, ops: Seq<CustodyOp>) -> Set<Seq<char>>
    decreases ops.len(),
{
    if ops.len() == 0 {
        s.custodies.dom()
    } else {
        let before = custody_run(s, ops.drop_last());
        let live = live_handles(s, ops.drop_last());
        match ops.last() {
            CustodyOp::Unload => Set::empty(),
            CustodyOp::Take(cid, _) => if custody_step(before, ops.last()).1 {
                live.insert(custody_id(cid))
            } else {
                live
            },
            CustodyOp::Release(id) => if custody_step(before, ops.last()).1 {
                live.remove(id)
            } else {
                live
            },
            _ => live,
        }
    }
}

/// Over any sequence of calls: `custodies_taken` grows by the accepted
/// `take_custody` calls and `corrections_received` by the accepted
/// `course_correct` calls, nothing else moves them; the custodies held are
/// exactly the live handles, finitely many and never more than were taken.
pub proof fn custody_counters_follow_accepted_calls(s: PlaybackPluginV, ops: Seq<CustodyOp>)
    requires
        custodies_consistent(s),
    ensures
        custody_run(s, ops).custodies_taken == s.custodies_taken + takes_accepted(s, ops),
        custody_run(s, ops).corrections_received == s.corrections_received + corrections_accepted(
            s,
            ops,
        ),
        custody_run(s, ops).custodies.dom() == live_handles(s, ops),
        custodies_consistent(custody_run(s, ops)),
    decreases ops.len(),
{
    if ops.len() > 0 {
        let rest = ops.drop_last();
        custody_counters_follow_accepted_calls(s, rest);
        let before = custody_run(s, rest);
        match ops.last() {
            CustodyOp::Load => {},
            CustodyOp::Unload => {
                assert(Map::<Seq<char>, Seq<char>>::empty().dom() =~= Set::<Seq<char>>::empty());
            },
            CustodyOp::Take(cid, t) => {
                if before.loaded {
                    take_custody_counts_new_handles(before, cid, t);
                    assert(before.custodies.insert(custody_id(cid), t).dom() =~= before.custodies.dom().insert(
                        custody_id(cid),
                    ));
                }
            },
            CustodyOp::Correct(id) => {},
            CustodyOp::Release(id) => {
                if release_custody_spec(before, id).1 is Ok {
                    assert(before.custodies.remove(id).dom() =~= before.custodies.dom().remove(id));
                }
            },
        }
    }
}

/// Taking custody under a correlation id not already held, then releasing
/// the handle it returned, gives back the custodies held before; the
/// cumulative count keeps the custody.
pub proof fn custody_round_trip(s: PlaybackPluginV, cid: u64, custody_type: Seq<char>)
    requires
        s.loaded,
        !s.custodies.dom().contains(custody_id(cid)),
    ensures
        take_custody_spec(s, cid, custody_type).1 == Ok::<Seq<char>, PluginErrorV>(custody_id(cid)),
        release_custody_spec(take_custody_spec(s, cid, custody_type).0, custody_id(cid)).1 == Ok::<
            (),
            PluginErrorV,
        >(()),
        release_custody_spec(take_custody_spec(s, cid, custody_type).0, custody_id(cid)).0.custodies
            == s.custodies,
        release_custody_spec(
            take_custody_spec(s, cid, custody_type).0,
            custody_id(cid),
        ).0.custodies_taken == s.custodies_taken + 1,
{
    assert(s.custodies.insert(custody_id(cid), custody_type).remove(custody_id(cid)) =~= s.custodies);
}

/// Before load, and after unload, every custody operation is refused with
/// a permanent error and changes nothing.
pub proof fn custody_refused_unless_loaded(
    s: PlaybackPluginV,
    cid: u64,
    custody_type: Seq<char>,
    id: Seq<char>,
)
    requires
        !s.loaded,
    ensures
        take_custody_spec(s, cid, custody_type).0 == s,
        take_custody_spec(s, cid, custody_type).1 matches Err(PluginErrorV::Permanent(_)),
        course_correct_spec(s, id).0 == s,
        course_correct_spec(s, id).1 matches Err(PluginErrorV::Permanent(_)),
        release_custody_spec(s, id).0 == s,
        release_custody_spec(s, id).1 matches Err(PluginErrorV::Permanent(_)),
{
}

/// The cumulative counters never decrease, whatever the operation.
pub proof fn counters_never_decrease(s: PlaybackPluginV, cid: u64, custody_type: Seq<char>, id: Seq<char>)
    ensures
        take_custody_spec(s, cid, custody_type).0.custodies_taken >= s.custodies_taken,
        take_custody_spec(s, cid, custody_type).0.corrections_received == s.corrections_received,
        course_correct_spec(s, id).0.custodies_taken == s.custodies_taken,
        course_correct_spec(s, id).0.corrections_received >= s.corrections_received,
        release_custody_spec(s, id).0.custodies_taken == s.custodies_taken,
        release_custody_spec(s, id).0.corrections_received == s.corrections_received,
        load_spec(s).custodies_taken == s.custodies_taken,
        load_spec(s).corrections_received == s.corrections_received,
        unload_spec(s).custodies_taken == s.custodies_taken,
        unload_spec(s).corrections_received == s.corrections_received,
{
}

/// Load and unload are idempotent; a load/unload cycle leaves nothing held
/// and the counters as they were.
pub proof fn load_unload_idempotent(s: PlaybackPluginV)
    ensures
        load_spec(load_spec(s)) == load_spec(s),
        unload_spec(unload_spec(s)) == unload_spec(s),
        unload_spec(load_spec(s)).custodies == Map::<Seq<char>, Seq<char>>::empty(),
        !unload_spec(load_spec(s)).loaded,
        unload_spec(load_spec(s)).custodies_taken == s.custodies_taken,
        unload_spec(load_spec(s)).corrections_received == s.corrections_received,
{
}

/// A course correction is accepted exactly when the plugin is loaded and
/// holds the handle, and then it changes nothing but the count.
pub proof fn course_correct_accepted_iff_held(s: PlaybackPluginV, id: Seq<char>)
    ensures
        course_correct_spec(s, id).1 is Ok <==> (s.loaded && s.custodies.dom().contains(id)),
        course_correct_spec(s, id).0.custodies == s.custodies,
{
}

}
