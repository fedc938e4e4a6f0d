//! `metadata.query` v1: reading the request, deciding where the track may
//! be, and shaping the answer from the tags read. Probing the file system
//! and reading tags happen outside the library, which is told what they
//! found.
use vstd::prelude::*;

use vstd::utf8::{decode_utf8, valid_utf8};

use crate::mpd_types::opt_string_view;
use crate::requests::{
    audio_candidates_spec, audio_path_candidates, payload_text, prefixed, route_request,
    strings_view, unsupported_version_text, utf8_error_text, PayloadText, ResponseStatus, Route,
};
use crate::text::decimal;

verus! {

/// Request body for `metadata.query` (JSON v1, UTF-8).
#[derive(Debug, Clone)]
pub struct MetadataQueryRequest {
    pub v: u8,
    pub target: QueryTarget,
}

#[derive(Debug, Clone)]
pub struct QueryTarget {
    pub scheme: String,
    pub value: String,
}

/// The tag values a query reports, as read from a file's primary (or first)
/// tag.
#[derive(Debug, Clone)]
pub struct TagFields {
    pub title: Option<String>,
    pub artist: Option<String>,
    pub album: Option<String>,
    pub genre: Option<String>,
    pub track: Option<u32>,
    pub track_total: Option<u32>,
    pub year: Option<u32>,
}

/// JSON answer to `metadata.query` (v1).
#[derive(Debug, Clone)]
pub struct MetadataQueryResponse {
    pub v: u8,
    pub status: ResponseStatus,
    pub title: Option<String>,
    pub artist: Option<String>,
    pub album: Option<String>,
    pub genre: Option<String>,
    /// 1-based track number when present in tags.
    pub track: Option<u32>,
    pub track_total: Option<u32>,
    /// Year, when present in tags.
    pub year: Option<u32>,
    /// Audio length from the container, in milliseconds; 0 if unknown.
    /// Absent from answers that carry no metadata.
    pub duration_ms: Option<u64>,
    pub detail: Option<String>,
}

pub struct MetadataResponseV {
    pub v: u8,
    pub status: ResponseStatus,
    pub title: Option<Seq<char>>,
    pub artist: Option<Seq<char>>,
    pub album: Option<Seq<char>>,
    pub genre: Option<Seq<char>>,
    pub track: Option<u32>,
    pub track_total: Option<u32>,
    pub year: Option<u32>,
    pub duration_ms: Option<u64>,
    pub detail: Option<Seq<char>>,
}

impl View for MetadataQueryResponse {
    type V = MetadataResponseV;

    open spec fn view(&self) -> MetadataResponseV {
        MetadataResponseV {
            v: self.v,
            status: self.status,
            title: opt_string_view(self.title),
            artist: opt_string_view(self.artist),
            album: opt_string_view(self.album),
            genre: opt_string_view(self.genre),
            track: self.track,
            track_total: self.track_total,
            year: self.year,
            duration_ms: self.duration_ms,
            detail: opt_string_view(self.detail),
        }
    }
}

/// An answer without metadata: a status and an explanation.
pub open spec fn query_answer(status: ResponseStatus, detail: Seq<char>) -> MetadataResponseV {
    MetadataResponseV {
        v: 1,
        status,
        title: None,
        artist: None,
        album: None,
        genre: None,
        track: None,
        track_total: None,
        year: None,
        duration_ms: None,
        detail: Some(detail),
    }
}

/// The answer for a file read without error.
pub open spec fn tag_answer(
    tag: Option<TagFields>,
    duration_ms: u64,
    detail: Option<Seq<char>>,
) -> MetadataResponseV {
    match tag {
        Some(t) => MetadataResponseV {
            v: 1,
            status: ResponseStatus::Success,
            title: opt_string_view(t.title),
            artist: opt_string_view(t.artist),
            album: opt_string_view(t.album),
            genre: opt_string_view(t.genre),
            track: t.track,
            track_total: t.track_total,
            year: t.year,
            duration_ms: Some(duration_ms),
            detail,
        },
        None => MetadataResponseV {
            v: 1,
            status: ResponseStatus::Success,
            title: None,
            artist: None,
            album: None,
            genre: None,
            track: None,
            track_total: None,
            year: None,
            duration_ms: Some(duration_ms),
            detail,
        },
    }
}

/// The wire answer from its columns, with `v` 1.
pub fn metadata_response_from_parts(
    status: ResponseStatus,
    title: Option<String>,
    artist: Option<String>,
    album: Option<String>,
    genre: Option<String>,
    track: Option<u32>,
    track_total: Option<u32>,
    year: Option<u32>,
    duration_ms: Option<u64>,
    detail: Option<String>,
) -> (r: MetadataQueryResponse)
    ensures
        r.v == 1,
        r.status == status,
        r.title == title,
        r.artist == artist,
        r.album == album,
        r.genre == genre,
        r.track == track,
        r.track_total == track_total,
        r.year == year,
        r.duration_ms == duration_ms,
        r.detail == detail,
{
    MetadataQueryResponse {
        v: 1,
        status,
        title,
        artist,
        album,
        genre,
        track,
        track_total,
        year,
        duration_ms,
        detail,
    }
}

fn answer_query(status: ResponseStatus, detail: String) -> (r: MetadataQueryResponse)
    ensures
        r@ == query_answer(status, detail@),
{
    metadata_response_from_parts(status, None, None, None, None, None, None, None, None, Some(detail))
}

fn clone_opt(s: &Option<String>) -> (r: Option<String>)
    ensures
        opt_string_view(r) == opt_string_view(*s),
{
    match s {
        Some(t) => Some(t.clone()),
        None => None,
    }
}

/// The answer built from one tag and the container's length.
pub fn response_from_tag(tag: &TagFields, duration_ms: u64, detail: Option<String>) -> (r:
    MetadataQueryResponse)
    ensures
        r@ == tag_answer(Some(*tag), duration_ms, opt_string_view(detail)),
        r.v == 1,
        r.status == ResponseStatus::Success,
        opt_string_view(r.title) == opt_string_view(tag.title),
        opt_string_view(r.artist) == opt_string_view(tag.artist),
        opt_string_view(r.album) == opt_string_view(tag.album),
        opt_string_view(r.genre) == opt_string_view(tag.genre),
        r.track == tag.track,
        r.track_total == tag.track_total,
        r.year == tag.year,
        r.duration_ms == Some(duration_ms),
        opt_string_view(r.detail) == opt_string_view(detail),
{
    metadata_response_from_parts(
        ResponseStatus::Success,
        clone_opt(&tag.title),
        clone_opt(&tag.artist),
        clone_opt(&tag.album),
        clone_opt(&tag.genre),
        tag.track,
        tag.track_total,
        tag.year,
        Some(duration_ms),
        detail,
    )
}

/// The answer for a file that has no tag at all.
pub fn response_without_tag(duration_ms: u64) -> (r: MetadataQueryResponse)
    ensures
        r@ == tag_answer(None, duration_ms, None),
{
    metadata_response_from_parts(
        ResponseStatus::Success,
        None,
        None,
        None,
        None,
        None,
        None,
        None,
        Some(duration_ms),
        None,
    )
}

pub open spec fn start_query_spec(payload: Seq<u8>) -> Result<Seq<char>, MetadataResponseV> {
    if payload.len() == 0 {
        Err(query_answer(ResponseStatus::BadRequest, "empty payload"@))
    } else if !valid_utf8(payload) {
        Err(
            query_answer(
                ResponseStatus::BadRequest,
                "payload is not UTF-8: "@ + utf8_error_text(payload),
            ),
        )
    } else {
        Ok(decode_utf8(payload))
    }
}

pub open spec fn query_text_or_answer(r: Result<String, MetadataQueryResponse>) -> Result<
    Seq<char>,
    MetadataResponseV,
> {
    match r {
        Ok(t) => Ok(t@),
        Err(a) => Err(a@),
    }
}

/// First stage: the payload must be non-empty UTF-8 (its JSON is read next).
pub fn start_query(payload: &[u8]) -> (r: Result<String, MetadataQueryResponse>)
    ensures
        query_text_or_answer(r) == start_query_spec(payload@),
{
    match payload_text(payload) {
        PayloadText::Empty => Err(answer_query(ResponseStatus::BadRequest, "empty payload".to_owned())),
        PayloadText::NotUtf8(m) => Err(
            answer_query(ResponseStatus::BadRequest, prefixed("payload is not UTF-8: ", m.as_str())),
        ),
        PayloadText::Text(t) => Ok(t),
    }
}

/// The answer when the payload is not the request JSON.
pub fn invalid_json_query(detail: &str) -> (r: MetadataQueryResponse)
    ensures
        r@ == query_answer(ResponseStatus::BadRequest, "invalid JSON: "@ + detail@),
{
    answer_query(ResponseStatus::BadRequest, prefixed("invalid JSON: ", detail))
}

pub open spec fn album_unsupported_query_text() -> Seq<char> {
    "mpd_album: use scheme mpd-path with the track file until graph or library resolution exists"@
}

/// What to do with a well-formed request.
#[derive(Debug)]
pub enum QueryPlan {
    Respond(MetadataQueryResponse),
    /// Read the first of these paths that is an existing file.
    ReadFirstExisting(Vec<String>),
}

pub enum QueryPlanV {
    Respond(MetadataResponseV),
    ReadFirstExisting(Seq<Seq<char>>),
}

pub open spec fn query_plan_view(p: QueryPlan) -> QueryPlanV {
    match p {
        QueryPlan::Respond(a) => QueryPlanV::Respond(a@),
        QueryPlan::ReadFirstExisting(v) => QueryPlanV::ReadFirstExisting(strings_view(v@)),
    }
}

pub open spec fn plan_query_spec(
    roots: Seq<Seq<char>>,
    v: u8,
    scheme: Seq<char>,
    value: Seq<char>,
) -> QueryPlanV {
    if v != 1 {
        QueryPlanV::Respond(
            query_answer(ResponseStatus::BadRequest, "unsupported request v: "@ + decimal(v as nat)),
        )
    } else if scheme == crate::requests::SCHEME_MPD_ALBUM@ {
        QueryPlanV::Respond(query_answer(ResponseStatus::Unsupported, album_unsupported_query_text()))
    } else if scheme == crate::requests::SCHEME_MPD_PATH@ {
        if value.len() == 0 {
            QueryPlanV::Respond(query_answer(ResponseStatus::BadRequest, "empty mpd-path value"@))
        } else {
            QueryPlanV::ReadFirstExisting(audio_candidates_spec(roots, value))
        }
    } else {
        QueryPlanV::Respond(query_answer(ResponseStatus::BadRequest, "unknown target.scheme: "@ + scheme))
    }
}

/// Second stage: check the version, route by scheme, and for `mpd-path`
/// name the places the track may be.
pub fn plan_query(library_roots: &[String], req: &MetadataQueryRequest) -> (r: QueryPlan)
    ensures
        query_plan_view(r) == plan_query_spec(
            strings_view(library_roots@),
            req.v,
            req.target.scheme@,
            req.target.value@,
        ),
{
    match route_request(req.v, req.target.scheme.as_str(), req.target.value.as_str()) {
        Route::UnsupportedVersion(v) => QueryPlan::Respond(
            answer_query(ResponseStatus::BadRequest, unsupported_version_text(v)),
        ),
        Route::Album => QueryPlan::Respond(
            answer_query(
                ResponseStatus::Unsupported,
                "mpd_album: use scheme mpd-path with the track file until graph or library resolution exists".to_owned(),
            ),
        ),
        Route::EmptyPath => QueryPlan::Respond(
            answer_query(ResponseStatus::BadRequest, "empty mpd-path value".to_owned()),
        ),
        Route::Path(value) => QueryPlan::ReadFirstExisting(
            audio_path_candidates(library_roots, value.as_str()),
        ),
        Route::UnknownScheme(s) => QueryPlan::Respond(
            answer_query(ResponseStatus::BadRequest, prefixed("unknown target.scheme: ", s.as_str())),
        ),
    }
}

/// The answer when none of the candidate paths is a file.
pub fn audio_not_found_response() -> (r: MetadataQueryResponse)
    ensures
        r@ == query_answer(ResponseStatus::NotFound, "audio file not found for mpd_path"@),
{
    answer_query(ResponseStatus::NotFound, "audio file not found for mpd_path".to_owned())
}

/// The answer when the track exists but could not be read; `detail` says why.
pub fn read_failed_response(detail: String) -> (r: MetadataQueryResponse)
    ensures
        r@ == query_answer(ResponseStatus::NotFound, detail@),
{
    answer_query(ResponseStatus::NotFound, detail)
}

/// The answer built from a tag carries the tag's own values, column by
/// column, the container's length as read, and the given detail; a file
/// without a tag gives only the length.
pub proof fn tag_answer_carries_tag_columns(
    t: TagFields,
    duration_ms: u64,
    detail: Option<Seq<char>>,
)
    ensures
        tag_answer(Some(t), duration_ms, detail).v == 1,
        tag_answer(Some(t), duration_ms, detail).status == ResponseStatus::Success,
        tag_answer(Some(t), duration_ms, detail).title == opt_string_view(t.title),
        tag_answer(Some(t), duration_ms, detail).artist == opt_string_view(t.artist),
        tag_answer(Some(t), duration_ms, detail).album == opt_string_view(t.album),
        tag_answer(Some(t), duration_ms, detail).genre == opt_string_view(t.genre),
        tag_answer(Some(t), duration_ms, detail).track == t.track,
        tag_answer(Some(t), duration_ms, detail).track_total == t.track_total,
        tag_answer(Some(t), duration_ms, detail).year == t.year,
        tag_answer(Some(t), duration_ms, detail).duration_ms == Some(duration_ms),
        tag_answer(Some(t), duration_ms, detail).detail == detail,
        tag_answer(None, duration_ms, detail).title is None,
        tag_answer(None, duration_ms, detail).track is None,
        tag_answer(None, duration_ms, detail).track_total is None,
        tag_answer(None, duration_ms, detail).year is None,
        tag_answer(None, duration_ms, detail).duration_ms == Some(duration_ms),
{
}

}
