//! What the two local respondents share: reading a request payload, routing
//! a `target` by scheme, and turning an MPD `file` value into the local
//! paths where the file may be.
use vstd::prelude::*;

use vstd::utf8::{decode_utf8, valid_utf8};

use crate::text::{decimal, push_char, str_eq, u64_decimal};

verus! {

/// `mpd-path` scheme: the value is MPD's `file` (library-relative or absolute).
pub const SCHEME_MPD_PATH: &'static str = "mpd-path";

/// `mpd-album` scheme: the value is `Artist|Album`.
pub const SCHEME_MPD_ALBUM: &'static str = "mpd-album";

/// Outcome of a query, carried in the JSON `status` field.
#[derive(Debug, Clone, Copy, PartialEq, Eq, Structural)]
pub enum ResponseStatus {
    /// Written `ok` on the wire.
    Success,
    NotFound,
    Unsupported,
    BadRequest,
}

/// What `std::str::from_utf8`'s error displays for these bytes.
pub uninterp spec fn utf8_error_text(bytes: Seq<u8>) -> Seq<char>;

/// `std::str::from_utf8`: the text, when the bytes are valid UTF-8;
/// otherwise the error's display text.
#[verifier::external_body]
pub(crate) fn utf8_text(bytes: &[u8]) -> (r: Result<String, String>)
    ensures
        r is Ok <==> valid_utf8(bytes@),
        r matches Ok(s) ==> s@ == decode_utf8(bytes@),
        r matches Err(m) ==> m@ == utf8_error_text(bytes@),
{
    match std::str::from_utf8(bytes) {
        Ok(s) => Ok(s.to_owned()),
        Err(e) => Err(e.to_string()),
    }
}

/// A request payload, read as text.
#[derive(Debug)]
pub enum PayloadText {
    Empty,
    /// Not UTF-8; the decoder's explanation.
    NotUtf8(String),
    Text(String),
}

pub open spec fn payload_text_spec(payload: Seq<u8>) -> (u8, Seq<char>) {
    if payload.len() == 0 {
        (0, seq![])
    } else if !valid_utf8(payload) {
        (1, utf8_error_text(payload))
    } else {
        (2, decode_utf8(payload))
    }
}

pub open spec fn payload_text_view(p: PayloadText) -> (u8, Seq<char>) {
    match p {
        PayloadText::Empty => (0, seq![]),
        PayloadText::NotUtf8(m) => (1, m@),
        PayloadText::Text(t) => (2, t@),
    }
}

/// Reads a payload: empty, not UTF-8, or its text.
pub fn payload_text(payload: &[u8]) -> (r: PayloadText)
    ensures
        payload_text_view(r) == payload_text_spec(payload@),
{
    if payload.len() == 0 {
        return PayloadText::Empty;
    }
    match utf8_text(payload) {
        Ok(t) => PayloadText::Text(t),
        Err(m) => PayloadText::NotUtf8(m),
    }
}

/// Where a request goes once its JSON has been read.
#[derive(Debug)]
pub enum Route {
    /// `v` is not 1.
    UnsupportedVersion(u8),
    /// Scheme `mpd-album`.
    Album,
    /// Scheme `mpd-path` with an empty value.
    EmptyPath,
    /// Scheme `mpd-path` with this value.
    Path(String),
    /// Any other scheme.
    UnknownScheme(String),
}

pub enum RouteV {
    UnsupportedVersion(u8),
    Album,
    EmptyPath,
    Path(Seq<char>),
    UnknownScheme(Seq<char>),
}

pub open spec fn route_view(r: Route) -> RouteV {
    match r {
        Route::UnsupportedVersion(v) => RouteV::UnsupportedVersion(v),
        Route::Album => RouteV::Album,
        Route::EmptyPath => RouteV::EmptyPath,
        Route::Path(p) => RouteV::Path(p@),
        Route::UnknownScheme(s) => RouteV::UnknownScheme(s@),
    }
}

pub open spec fn route_spec(v: u8, scheme: Seq<char>, value: Seq<char>) -> RouteV {
    if v != 1 {
        RouteV::UnsupportedVersion(v)
    } else if scheme == SCHEME_MPD_ALBUM@ {
        RouteV::Album
    } else if scheme == SCHEME_MPD_PATH@ {
        if value.len() == 0 {
            RouteV::EmptyPath
        } else {
            RouteV::Path(value)
        }
    } else {
        RouteV::UnknownScheme(scheme)
    }
}

/// Routes a request by its version and target.
pub fn route_request(v: u8, scheme: &str, value: &str) -> (r: Route)
    ensures
        route_view(r) == route_spec(v, scheme@, value@),
{
    if v != 1 {
        Route::UnsupportedVersion(v)
    } else if str_eq(scheme, SCHEME_MPD_ALBUM) {
        Route::Album
    } else if str_eq(scheme, SCHEME_MPD_PATH) {
        if value.unicode_len() == 0 {
            Route::EmptyPath
        } else {
            Route::Path(value.to_owned())
        }
    } else {
        Route::UnknownScheme(scheme.to_owned())
    }
}

/// `prefix + text`.
pub fn prefixed(prefix: &str, text: &str) -> (r: String)
    ensures
        r@ == prefix@ + text@,
{
    let mut s = prefix.to_owned();
    s.append(text);
    s
}

/// `"unsupported request v: <v>"`.
pub fn unsupported_version_text(v: u8) -> (r: String)
    ensures
        r@ == "unsupported request v: "@ + decimal(v as nat),
{
    let d = u64_decimal(v as u64);
    prefixed("unsupported request v: ", d.as_str())
}

pub open spec fn ascii_lower(c: char) -> char {
    if 'A' <= c && c <= 'Z' {
        ((c as u32) + 32) as char
    } else {
        c
    }
}

/// `s` begins with `p`, ignoring ASCII case (`p` is lower case).
pub open spec fn starts_with_ci(s: Seq<char>, p: Seq<char>) -> bool {
    s.len() >= p.len() && forall|i: int| 0 <= i < p.len() ==> #[trigger] ascii_lower(s[i]) == p[i]
}

/// Equal, ignoring ASCII case (`p` is lower case).
pub open spec fn equals_ci(s: Seq<char>, p: Seq<char>) -> bool {
    s.len() == p.len() && starts_with_ci(s, p)
}

fn lower(c: char) -> (r: char)
    ensures
        r == ascii_lower(c),
{
    if 'A' <= c && c <= 'Z' {
        let b: u32 = (c as u32) + 32;
        let l: u8 = b as u8;
        l as char
    } else {
        c
    }
}

fn starts_with_ignore_case(s: &str, p: &str) -> (r: bool)
    ensures
        r == starts_with_ci(s@, p@),
{
    let n = s.unicode_len();
    let m = p.unicode_len();
    if n < m {
        return false;
    }
    let mut i: usize = 0;
    while i < m
        invariant
            i <= m,
            m <= n,
            n == s@.len(),
            m == p@.len(),
            forall|j: int| 0 <= j < i ==> #[trigger] ascii_lower(s@[j]) == p@[j],
        decreases m - i,
    {
        if lower(s.get_char(i)) != p.get_char(i) {
            return false;
        }
        i += 1;
    }
    true
}

/// Equal, ignoring ASCII case (`p` is lower case).
pub fn equals_ignore_case(s: &str, p: &str) -> (r: bool)
    ensures
        r == equals_ci(s@, p@),
{
    s.unicode_len() == p.unicode_len() && starts_with_ignore_case(s, p)
}

/// An `http://` or `https://` URL (any letter case): a stream, not a file.
pub open spec fn is_remote_spec(value: Seq<char>) -> bool {
    starts_with_ci(value, "http://"@) || starts_with_ci(value, "https://"@)
}

pub fn is_remote_url(value: &str) -> (r: bool)
    ensures
        r == is_remote_spec(value@),
{
    starts_with_ignore_case(value, "http://") || starts_with_ignore_case(value, "https://")
}

/// An absolute path: it begins at the root directory.
pub open spec fn is_absolute(p: Seq<char>) -> bool {
    p.len() > 0 && p[0] == '/'
}

/// Every path in `ps` is absolute.
pub open spec fn all_absolute(ps: Seq<Seq<char>>) -> bool {
    forall|i: int| 0 <= i < ps.len() ==> is_absolute(#[trigger] ps[i])
}

/// Joining onto an absolute directory gives an absolute path.
pub proof fn join_keeps_absolute(root: Seq<char>, rel: Seq<char>)
    requires
        is_absolute(root),
    ensures
        is_absolute(join_spec(root, rel)),
{
    if root.last() == '/' {
        assert((root + rel)[0] == root[0]);
    } else {
        assert((root + seq!['/'] + rel)[0] == root[0]);
    }
}

/// `root` joined with the relative path `rel`, as `Path::join` does on Unix:
/// a separator is added unless `root` is empty or already ends with one.
pub open spec fn join_spec(root: Seq<char>, rel: Seq<char>) -> Seq<char> {
    if root.len() == 0 || root.last() == '/' {
        root + rel
    } else {
        root + seq!['/'] + rel
    }
}

pub fn join_path(root: &str, rel: &str) -> (r: String)
    ensures
        r@ == join_spec(root@, rel@),
{
    let n = root.unicode_len();
    let mut s = root.to_owned();
    if n > 0 && root.get_char(n - 1) != '/' {
        push_char(&mut s, '/');
    }
    s.append(rel);
    s
}

pub open spec fn strings_view(v: Seq<String>) -> Seq<Seq<char>> {
    v.map_values(|s: String| s@)
}

/// Where the MPD `file` value may be on this device, in the order to try:
/// nowhere for a URL; the value itself when absolute; otherwise under each
/// library root in turn.
pub open spec fn audio_candidates_spec(roots: Seq<Seq<char>>, value: Seq<char>) -> Seq<Seq<char>> {
    if is_remote_spec(value) {
        seq![]
    } else if is_absolute(value) {
        seq![value]
    } else {
        roots.map_values(|r: Seq<char>| join_spec(r, value))
    }
}

pub fn audio_path_candidates(library_roots: &[String], value: &str) -> (r: Vec<String>)
    ensures
        strings_view(r@) == audio_candidates_spec(strings_view(library_roots@), value@),
{
    let mut out: Vec<String> = Vec::new();
    if is_remote_url(value) {
        assert(strings_view(out@) =~= Seq::<Seq<char>>::empty());
        return out;
    }
    if value.unicode_len() > 0 && value.get_char(0) == '/' {
        out.push(value.to_owned());
        assert(strings_view(out@) =~= seq![value@]);
        return out;
    }
    let ghost rv = strings_view(library_roots@);
    let n = library_roots.len();
    let mut i: usize = 0;
    while i < n
        invariant
            i <= n,
            n == library_roots@.len(),
            rv == strings_view(library_roots@),
            strings_view(out@) =~= rv.take(i as int).map_values(|r: Seq<char>| join_spec(r, value@)),
        decreases n - i,
    {
        let ghost before = out@;
        let p = join_path(library_roots[i].as_str(), value);
        out.push(p);
        assert(strings_view(out@) =~= strings_view(before).push(p@));
        assert(rv.take(i + 1) =~= rv.take(i as int).push(rv[i as int]));
        i += 1;
    }
    assert(rv.take(n as int) =~= rv);
    out
}

/// With absolute library roots, every place a track may be is an absolute
/// path.
pub proof fn candidates_of_absolute_roots_are_absolute(roots: Seq<Seq<char>>, value: Seq<char>)
    requires
        all_absolute(roots),
    ensures
        all_absolute(audio_candidates_spec(roots, value)),
{
    let c = audio_candidates_spec(roots, value);
    if !is_remote_spec(value) && !is_absolute(value) {
        assert forall|i: int| 0 <= i < c.len() implies is_absolute(#[trigger] c[i]) by {
            join_keeps_absolute(roots[i], value);
        }
    }
}

/// What `Path::parent` gives for this path, as text.
pub uninterp spec fn path_parent(p: Seq<char>) -> Option<Seq<char>>;

/// What `Path::extension` gives for this path, as text.
pub uninterp spec fn path_extension(p: Seq<char>) -> Option<Seq<char>>;

/// `Path::parent`, as text. The parent of an absolute path keeps its root,
/// so it is absolute too.
#[verifier::external_body]
pub(crate) fn parent_of(p: &str) -> (r: Option<String>)
    ensures
        match r {
            Some(d) => path_parent(p@) == Some(d@),
            None => path_parent(p@) is None,
        },
        is_absolute(p@) ==> (r matches Some(d) ==> is_absolute(d@)),
{
    std::path::Path::new(p).parent().map(|d| d.to_string_lossy().into_owned())
}

/// `Path::extension`, as text.
#[verifier::external_body]
pub(crate) fn extension_of(p: &str) -> (r: Option<String>)
    ensures
        match r {
            Some(e) => path_extension(p@) == Some(e@),
            None => path_extension(p@) is None,
        },
{
    std::path::Path::new(p).extension().map(|e| e.to_string_lossy().into_owned())
}

/// The MIME type of a common cover-art file, by extension (any letter case).
pub open spec fn mime_spec(path: Seq<char>) -> Option<Seq<char>> {
    match path_extension(path) {
        Some(e) => if equals_ci(e, "jpg"@) || equals_ci(e, "jpeg"@) {
            Some("image/jpeg"@)
        } else if equals_ci(e, "png"@) {
            Some("image/png"@)
        } else if equals_ci(e, "webp"@) {
            Some("image/webp"@)
        } else {
            None
        },
        None => None,
    }
}

pub fn mime_for_path(path: &str) -> (r: Option<&'static str>)
    ensures
        match r {
            Some(m) => mime_spec(path@) == Some(m@),
            None => mime_spec(path@) is None,
        },
{
    match extension_of(path) {
        Some(e) => {
            let e = e.as_str();
            if equals_ignore_case(e, "jpg") || equals_ignore_case(e, "jpeg") {
                Some("image/jpeg")
            } else if equals_ignore_case(e, "png") {
                Some("image/png")
            } else if equals_ignore_case(e, "webp") {
                Some("image/webp")
            } else {
                None
            }
        },
        None => None,
    }
}


/// A stream URL is never looked for on disk, whatever the library roots.
pub proof fn remote_values_have_no_local_path(roots: Seq<Seq<char>>, value: Seq<char>)
    requires
        is_remote_spec(value),
    ensures
        audio_candidates_spec(roots, value) == Seq::<Seq<char>>::empty(),
{
}

}
