//! `artwork.resolve`: reading the request, and deciding where to look for a
//! cover and what to answer. Probing the file system, reading embedded
//! pictures and writing the cache happen outside the library, which is told
//! what they found.
use vstd::prelude::*;

use vstd::utf8::{decode_utf8, valid_utf8};

use crate::mpd_types::opt_string_view;
use crate::requests::{
    all_absolute, audio_candidates_spec, audio_path_candidates, candidates_of_absolute_roots_are_absolute,
    is_absolute, join_keeps_absolute, join_path, join_spec, mime_for_path, mime_spec,
    parent_of, path_parent, payload_text, prefixed, route_request, strings_view,
    unsupported_version_text, utf8_error_text, PayloadText, ResponseStatus, Route,
};
use crate::text::decimal;

verus! {

/// Request body for `artwork.resolve` (JSON, UTF-8).
#[derive(Debug, Clone)]
pub struct ArtworkResolveRequest {
    /// Schema version; only `1` is accepted.
    pub v: u8,
    /// Which subject to resolve art for.
    pub target: ResolveTarget,
}

/// Subject selector: a scheme registered by the playback warden and a value.
#[derive(Debug, Clone)]
pub struct ResolveTarget {
    pub scheme: String,
    pub value: String,
}

/// The JSON answer to `artwork.resolve`; business outcomes travel in `status`.
#[derive(Debug, Clone)]
pub struct ArtworkResolveResponse {
    pub v: u8,
    pub status: ResponseStatus,
    /// Absolute path to an image file on this device, when `status` is `ok`.
    pub path: Option<String>,
    /// MIME type of `path`, when known.
    pub mime: Option<String>,
    /// Extra context for operators and UIs.
    pub detail: Option<String>,
}

pub struct ArtworkResponseV {
    pub v: u8,
    pub status: ResponseStatus,
    pub path: Option<Seq<char>>,
    pub mime: Option<Seq<char>>,
    pub detail: Option<Seq<char>>,
}

impl View for ArtworkResolveResponse {
    type V = ArtworkResponseV;

    open spec fn view(&self) -> ArtworkResponseV {
        ArtworkResponseV {
            v: self.v,
            status: self.status,
            path: opt_string_view(self.path),
            mime: opt_string_view(self.mime),
            detail: opt_string_view(self.detail),
        }
    }
}

/// An answer with no image: a status and an explanation.
pub open spec fn answer(status: ResponseStatus, detail: Seq<char>) -> ArtworkResponseV {
    ArtworkResponseV { v: 1, status, path: None, mime: None, detail: Some(detail) }
}

fn respond(status: ResponseStatus, detail: String) -> (r: ArtworkResolveResponse)
    ensures
        r@ == answer(status, detail@),
{
    ArtworkResolveResponse { v: 1, status, path: None, mime: None, detail: Some(detail) }
}

pub open spec fn album_unsupported_text() -> Seq<char> {
    "mpd_album: directory resolution is not available yet; use scheme mpd-path with the track file"@
}

/// The payload's text, or the answer for a payload that has none.
pub open spec fn start_resolve_spec(payload: Seq<u8>) -> Result<Seq<char>, ArtworkResponseV> {
    if payload.len() == 0 {
        Err(answer(ResponseStatus::BadRequest, "empty payload"@))
    } else if !valid_utf8(payload) {
        Err(answer(ResponseStatus::BadRequest, "payload is not UTF-8: "@ + utf8_error_text(payload)))
    } else {
        Ok(decode_utf8(payload))
    }
}

pub open spec fn text_or_answer(r: Result<String, ArtworkResolveResponse>) -> Result<
    Seq<char>,
    ArtworkResponseV,
> {
    match r {
        Ok(t) => Ok(t@),
        Err(a) => Err(a@),
    }
}

/// First stage: the payload must be non-empty UTF-8 (its JSON is read next).
pub fn start_resolve(payload: &[u8]) -> (r: Result<String, ArtworkResolveResponse>)
    ensures
        text_or_answer(r) == start_resolve_spec(payload@),
{
    match payload_text(payload) {
        PayloadText::Empty => Err(respond(ResponseStatus::BadRequest, "empty payload".to_owned())),
        PayloadText::NotUtf8(m) => Err(
            respond(ResponseStatus::BadRequest, prefixed("payload is not UTF-8: ", m.as_str())),
        ),
        PayloadText::Text(t) => Ok(t),
    }
}

/// The answer when the payload is not the request JSON; `detail` is the
/// JSON reader's explanation.
pub fn invalid_json_response(detail: &str) -> (r: ArtworkResolveResponse)
    ensures
        r@ == answer(ResponseStatus::BadRequest, "invalid JSON: "@ + detail@),
{
    respond(ResponseStatus::BadRequest, prefixed("invalid JSON: ", detail))
}

/// What to do with a well-formed request.
#[derive(Debug)]
pub enum ResolvePlan {
    Respond(ArtworkResolveResponse),
    /// Look for the track at these paths, in order.
    FindAudio(Vec<String>),
}

pub enum ResolvePlanV {
    Respond(ArtworkResponseV),
    FindAudio(Seq<Seq<char>>),
}

pub open spec fn resolve_plan_view(p: ResolvePlan) -> ResolvePlanV {
    match p {
        ResolvePlan::Respond(a) => ResolvePlanV::Respond(a@),
        ResolvePlan::FindAudio(v) => ResolvePlanV::FindAudio(strings_view(v@)),
    }
}

pub open spec fn plan_resolve_spec(
    roots: Seq<Seq<char>>,
    v: u8,
    scheme: Seq<char>,
    value: Seq<char>,
) -> ResolvePlanV {
    if v != 1 {
        ResolvePlanV::Respond(
            answer(ResponseStatus::BadRequest, "unsupported request v: "@ + decimal(v as nat)),
        )
    } else if scheme == crate::requests::SCHEME_MPD_ALBUM@ {
        ResolvePlanV::Respond(answer(ResponseStatus::Unsupported, album_unsupported_text()))
    } else if scheme == crate::requests::SCHEME_MPD_PATH@ {
        if value.len() == 0 {
            ResolvePlanV::Respond(answer(ResponseStatus::BadRequest, "empty mpd-path value"@))
        } else {
            ResolvePlanV::FindAudio(audio_candidates_spec(roots, value))
        }
    } else {
        ResolvePlanV::Respond(
            answer(ResponseStatus::BadRequest, "unknown target.scheme: "@ + scheme),
        )
    }
}

/// Second stage: check the version, route by scheme, and for `mpd-path`
/// name the places the track may be. The library roots are absolute, so
/// every place named is an absolute path.
pub fn plan_resolve(library_roots: &[String], req: &ArtworkResolveRequest) -> (r: ResolvePlan)
    requires
        all_absolute(strings_view(library_roots@)),
    ensures
        resolve_plan_view(r) == plan_resolve_spec(
            strings_view(library_roots@),
            req.v,
            req.target.scheme@,
            req.target.value@,
        ),
        r matches ResolvePlan::FindAudio(c) ==> all_absolute(strings_view(c@)),
{
    proof {
        candidates_of_absolute_roots_are_absolute(strings_view(library_roots@), req.target.value@);
    }
    match route_request(req.v, req.target.scheme.as_str(), req.target.value.as_str()) {
        Route::UnsupportedVersion(v) => ResolvePlan::Respond(
            respond(ResponseStatus::BadRequest, unsupported_version_text(v)),
        ),
        Route::Album => ResolvePlan::Respond(
            respond(
                ResponseStatus::Unsupported,
                "mpd_album: directory resolution is not available yet; use scheme mpd-path with the track file".to_owned(),
            ),
        ),
        Route::EmptyPath => ResolvePlan::Respond(
            respond(ResponseStatus::BadRequest, "empty mpd-path value".to_owned()),
        ),
        Route::Path(value) => ResolvePlan::FindAudio(
            audio_path_candidates(library_roots, value.as_str()),
        ),
        Route::UnknownScheme(s) => ResolvePlan::Respond(
            respond(ResponseStatus::BadRequest, prefixed("unknown target.scheme: ", s.as_str())),
        ),
    }
}

/// Well-known cover file names, in order of preference.
pub open spec fn cover_names() -> Seq<Seq<char>> {
    seq![
        "cover.jpg"@,
        "folder.jpg"@,
        "front.jpg"@,
        "cover.png"@,
        "folder.png"@,
        "front.png"@,
    ]
}

fn cover_name(i: usize) -> (r: &'static str)
    requires
        i < 6,
    ensures
        r@ == cover_names()[i as int],
{
    match i {
        0 => "cover.jpg",
        1 => "folder.jpg",
        2 => "front.jpg",
        3 => "cover.png",
        4 => "folder.png",
        _ => "front.png",
    }
}

/// Where a cover may sit beside the track: each well-known name in the
/// track's directory, in order; nowhere when the path has no parent.
pub open spec fn cover_candidates_spec(track: Seq<char>) -> Seq<Seq<char>> {
    match path_parent(track) {
        None => seq![],
        Some(dir) => cover_names().map_values(|n: Seq<char>| join_spec(dir, n)),
    }
}

pub fn cover_candidates(track: &str) -> (r: Vec<String>)
    ensures
        strings_view(r@) == cover_candidates_spec(track@),
        is_absolute(track@) ==> all_absolute(strings_view(r@)),
{
    let mut out: Vec<String> = Vec::new();
    match parent_of(track) {
        None => {
            assert(strings_view(out@) =~= Seq::<Seq<char>>::empty());
            out
        },
        Some(dir) => {
            let ghost names = cover_names();
            let mut i: usize = 0;
            while i < 6
                invariant
                    i <= 6,
                    names == cover_names(),
                    names.len() == 6,
                    strings_view(out@) =~= names.take(i as int).map_values(
                        |n: Seq<char>| join_spec(dir@, n),
                    ),
                decreases 6 - i,
            {
                let ghost before = out@;
                let p = join_path(dir.as_str(), cover_name(i));
                out.push(p);
                assert(strings_view(out@) =~= strings_view(before).push(p@));
                assert(names.take(i + 1) =~= names.take(i as int).push(names[i as int]));
                i += 1;
            }
            assert(names.take(6) =~= names);
            proof {
                if is_absolute(track@) {
                    let c = strings_view(out@);
                    assert forall|k: int| 0 <= k < c.len() implies is_absolute(#[trigger] c[k]) by {
                        join_keeps_absolute(dir@, names[k]);
                    }
                }
            }
            out
        },
    }
}

/// What to do once the track has been looked for.
#[derive(Debug)]
pub enum AudioOutcome {
    Respond(ArtworkResolveResponse),
    /// Look for a cover file at these paths, in order.
    FindCover(Vec<String>),
}

/// Third stage: the track's path, when one of the candidates exists; being
/// one of them, it is absolute.
pub fn after_audio_search(track: Option<&str>) -> (r: AudioOutcome)
    requires
        track matches Some(t) ==> is_absolute(t@),
    ensures
        r matches AudioOutcome::FindCover(c) ==> all_absolute(strings_view(c@)),
        match track {
            None => r matches AudioOutcome::Respond(a) && a@ == answer(
                ResponseStatus::NotFound,
                "audio file not found for mpd_path"@,
            ),
            Some(t) => r matches AudioOutcome::FindCover(c) && strings_view(c@)
                == cover_candidates_spec(t@),
        },
{
    match track {
        None => AudioOutcome::Respond(
            respond(ResponseStatus::NotFound, "audio file not found for mpd_path".to_owned()),
        ),
        Some(t) => AudioOutcome::FindCover(cover_candidates(t)),
    }
}

/// The answer naming an image file.
pub open spec fn found_answer(cover: Seq<char>) -> ArtworkResponseV {
    ArtworkResponseV {
        v: 1,
        status: ResponseStatus::Success,
        path: Some(cover),
        mime: mime_spec(cover),
        detail: None,
    }
}

/// The answer for an image at the absolute path `cover`.
pub fn ok_from_path(cover: &str) -> (r: ArtworkResolveResponse)
    requires
        is_absolute(cover@),
    ensures
        r@ == found_answer(cover@),
        r@.path matches Some(p) && is_absolute(p),
{
    let mime = match mime_for_path(cover) {
        Some(m) => Some(m.to_owned()),
        None => None,
    };
    ArtworkResolveResponse {
        v: 1,
        status: ResponseStatus::Success,
        path: Some(cover.to_owned()),
        mime,
        detail: None,
    }
}

/// Fourth stage: the first cover file that exists, if any (one of the
/// absolute candidates). With one, the answer names it; without, the
/// track's embedded picture is looked up.
pub fn after_cover_search(cover: Option<&str>) -> (r: Option<ArtworkResolveResponse>)
    requires
        cover matches Some(c) ==> is_absolute(c@),
    ensures
        r matches Some(a) ==> (a@.path matches Some(p) && is_absolute(p)),
        match cover {
            Some(c) => r matches Some(a) && a@ == found_answer(c@),
            None => r is None,
        },
{
    match cover {
        Some(c) => Some(ok_from_path(c)),
        None => None,
    }
}

/// What to do once the embedded-picture lookup is over.
#[derive(Debug)]
pub enum EmbeddedOutcome {
    Respond(ArtworkResolveResponse),
    /// Write the picture into the cache under the state directory.
    WriteCache,
}

/// Fifth stage, when no cover file exists: whether the track's tags hold
/// a picture, and whether there is a state directory to cache it in.
pub fn after_embedded_read(picture_found: bool, has_state_dir: bool) -> (r: EmbeddedOutcome)
    ensures
        !picture_found ==> (r matches EmbeddedOutcome::Respond(a) && a@ == answer(
            ResponseStatus::NotFound,
            "no sidecar or embedded cover for this track"@,
        )),
        picture_found && !has_state_dir ==> (r matches EmbeddedOutcome::Respond(a) && a@ == answer(
            ResponseStatus::NotFound,
            "embedded cover in tags but no state_dir to write cache; cannot expose path"@,
        )),
        picture_found && has_state_dir ==> r is WriteCache,
{
    if !picture_found {
        EmbeddedOutcome::Respond(
            respond(ResponseStatus::NotFound, "no sidecar or embedded cover for this track".to_owned()),
        )
    } else if !has_state_dir {
        EmbeddedOutcome::Respond(
            respond(
                ResponseStatus::NotFound,
                "embedded cover in tags but no state_dir to write cache; cannot expose path".to_owned(),
            ),
        )
    } else {
        EmbeddedOutcome::WriteCache
    }
}

pub open spec fn non_utf8_cover_text() -> Seq<char> {
    "cover path is not valid UTF-8; cannot represent in JSON"@
}

/// Last stage: the cache file written (its absolute path, or `None` when
/// the path is not UTF-8), or the write's failure, which is an internal
/// error.
pub fn after_cache_write(written: Result<Option<String>, String>) -> (r: Result<
    ArtworkResolveResponse,
    String,
>)
    requires
        written matches Ok(Some(p)) ==> is_absolute(p@),
    ensures
        r matches Ok(a) ==> (a@.path matches Some(p) && is_absolute(p)),
        match written {
            Ok(Some(p)) => r matches Ok(a) && a@ == found_answer(p@),
            Ok(None) => r matches Err(m) && m@ == non_utf8_cover_text(),
            Err(e) => r matches Err(m) && m@ == e@,
        },
{
    match written {
        Ok(Some(p)) => Ok(ok_from_path(p.as_str())),
        Ok(None) => Err("cover path is not valid UTF-8; cannot represent in JSON".to_owned()),
        Err(e) => Err(e),
    }
}

/// The role a picture stored in a track's tags plays.
#[derive(Debug, Clone, Copy, PartialEq, Eq, Structural)]
pub enum PictureKind {
    FrontCover,
    Other,
}

/// The image format a stored picture declares.
#[derive(Debug, Clone, Copy, PartialEq, Eq, Structural)]
pub enum ImageFormat {
    Png,
    Jpeg,
    Tiff,
    Bmp,
    Gif,
    Unknown,
}

/// Index of the first front cover in `kinds`, if any.
pub open spec fn first_front(kinds: Seq<PictureKind>) -> Option<int>
    decreases kinds.len(),
{
    if kinds.len() == 0 {
        None
    } else {
        match first_front(kinds.drop_last()) {
            Some(i) => Some(i),
            None => if kinds.last() == PictureKind::FrontCover {
                Some(kinds.len() - 1)
            } else {
                None
            },
        }
    }
}

/// The picture taken from a track's tags: the first front cover, else the
/// first picture; none when there is no picture.
pub open spec fn chosen_picture(kinds: Seq<PictureKind>) -> Option<int> {
    match first_front(kinds) {
        Some(i) => Some(i),
        None => if kinds.len() > 0 {
            Some(0)
        } else {
            None
        },
    }
}

pub fn choose_picture(kinds: &[PictureKind]) -> (r: Option<usize>)
    ensures
        match r {
            Some(i) => chosen_picture(kinds@) == Some(i as int),
            None => chosen_picture(kinds@) is None,
        },
{
    let n = kinds.len();
    let mut i: usize = 0;
    while i < n
        invariant
            i <= n,
            n == kinds@.len(),
            first_front(kinds@.take(i as int)) is None,
        decreases n - i,
    {
        assert(kinds@.take(i + 1).drop_last() =~= kinds@.take(i as int));
        if kinds[i] == PictureKind::FrontCover {
            proof {
                lemma_first_front_prefix(kinds@, i as int + 1, i as int);
            }
            return Some(i);
        }
        i += 1;
    }
    assert(kinds@.take(n as int) =~= kinds@);
    if n > 0 {
        Some(0)
    } else {
        None
    }
}

proof fn lemma_first_front_prefix(kinds: Seq<PictureKind>, k: int, j: int)
    requires
        0 <= j < k <= kinds.len(),
        first_front(kinds.take(k)) == Some(j),
    ensures
        first_front(kinds) == Some(j),
    decreases kinds.len() - k,
{
    if k < kinds.len() {
        assert(kinds.take(k + 1).drop_last() =~= kinds.take(k));
        lemma_first_front_prefix(kinds, k + 1, j);
    } else {
        assert(kinds.take(k) =~= kinds);
    }
}

/// The file extension a cached picture gets from its format; JPEG when
/// the format is not known.
pub open spec fn extension_spec(f: ImageFormat) -> Seq<char> {
    match f {
        ImageFormat::Png => "png"@,
        ImageFormat::Gif => "gif"@,
        ImageFormat::Bmp => "bmp"@,
        ImageFormat::Tiff => "tiff"@,
        _ => "jpg"@,
    }
}

pub fn cache_extension(f: ImageFormat) -> (r: &'static str)
    ensures
        r@ == extension_spec(f),
{
    match f {
        ImageFormat::Png => "png",
        ImageFormat::Gif => "gif",
        ImageFormat::Bmp => "bmp",
        ImageFormat::Tiff => "tiff",
        _ => "jpg",
    }
}

/// The covers looked for beside a track are, in this order, `cover.jpg`,
/// `folder.jpg`, `front.jpg`, `cover.png`, `folder.png` and `front.png` in
/// the track's directory; none when the track's path has no directory.
pub proof fn cover_candidates_are_well_known_names(track: Seq<char>)
    ensures
        path_parent(track) matches Some(dir) ==> cover_candidates_spec(track) == seq![
            join_spec(dir, "cover.jpg"@),
            join_spec(dir, "folder.jpg"@),
            join_spec(dir, "front.jpg"@),
            join_spec(dir, "cover.png"@),
            join_spec(dir, "folder.png"@),
            join_spec(dir, "front.png"@),
        ],
        path_parent(track) is None ==> cover_candidates_spec(track).len() == 0,
{
    if let Some(dir) = path_parent(track) {
        assert(cover_candidates_spec(track) =~= seq![
            join_spec(dir, "cover.jpg"@),
            join_spec(dir, "folder.jpg"@),
            join_spec(dir, "front.jpg"@),
            join_spec(dir, "cover.png"@),
            join_spec(dir, "folder.png"@),
            join_spec(dir, "front.png"@),
        ]);
    }
}

}
