use volumio_plugins::artwork_resolve::{cache_extension, choose_picture, ImageFormat, PictureKind};
use volumio_plugins::artwork_resolve::{
    after_audio_search, after_cache_write, after_cover_search, after_embedded_read,
    invalid_json_response, ok_from_path, plan_resolve, start_resolve, ArtworkResolveRequest,
    AudioOutcome, EmbeddedOutcome, ResolvePlan, ResolveTarget,
};
use volumio_plugins::metadata_query::{
    audio_not_found_response, invalid_json_query, plan_query, read_failed_response,
    response_from_tag, response_without_tag, start_query, MetadataQueryRequest, QueryPlan,
    QueryTarget, TagFields,
};
use volumio_plugins::requests::{
    audio_path_candidates, is_remote_url, join_path, mime_for_path, ResponseStatus,
};

fn first_file(candidates: &[String]) -> Option<String> {
    candidates.iter().find(|c| std::path::Path::new(c).is_file()).cloned()
}

fn artwork_request(scheme: &str, value: &str) -> ArtworkResolveRequest {
    ArtworkResolveRequest {
        v: 1,
        target: ResolveTarget { scheme: scheme.into(), value: value.into() },
    }
}

fn query_request(scheme: &str, value: &str) -> MetadataQueryRequest {
    MetadataQueryRequest { v: 1, target: QueryTarget { scheme: scheme.into(), value: value.into() } }
}

#[test]
fn response_from_tag_maps_fields() {
    let tag = TagFields {
        title: Some("Song".to_string()),
        artist: Some("Band".to_string()),
        album: Some("LP".to_string()),
        genre: Some("Rock".to_string()),
        track: Some(3),
        track_total: None,
        year: None,
    };
    let r = response_from_tag(&tag, 120_000, None);
    assert_eq!(r.status, ResponseStatus::Success);
    assert_eq!(r.title.as_deref(), Some("Song"));
    assert_eq!(r.artist.as_deref(), Some("Band"));
    assert_eq!(r.album.as_deref(), Some("LP"));
    assert_eq!(r.genre.as_deref(), Some("Rock"));
    assert_eq!(r.track, Some(3));
    assert_eq!(r.duration_ms, Some(120_000));
    assert_eq!(response_from_tag(&tag, 0, None).duration_ms, Some(0));
}

#[test]
fn not_found_for_http_url() {
    let payload = r#"{"v":1,"target":{"scheme":"mpd-path","value":"http://x/a.flac"}}"#.as_bytes();
    let text = start_query(payload).unwrap();
    assert!(text.contains("http://x/a.flac"));
    let req = query_request("mpd-path", "http://x/a.flac");
    let r = match plan_query(&[], &req) {
        QueryPlan::ReadFirstExisting(c) => match first_file(&c) {
            Some(_) => panic!("a URL is no file"),
            None => audio_not_found_response(),
        },
        QueryPlan::Respond(r) => r,
    };
    assert_eq!(r.status, ResponseStatus::NotFound);
}

#[test]
fn http_mpd_path_not_found() {
    let req = artwork_request("mpd-path", "http://x/a.flac");
    let r = match plan_resolve(&[], &req) {
        ResolvePlan::FindAudio(c) => match after_audio_search(first_file(&c).as_deref()) {
            AudioOutcome::Respond(r) => r,
            AudioOutcome::FindCover(_) => panic!("a URL is no file"),
        },
        ResolvePlan::Respond(r) => r,
    };
    assert_eq!(r.status, ResponseStatus::NotFound);
    assert_eq!(r.detail.as_deref(), Some("audio file not found for mpd_path"));
}

/// Creates an empty file named exactly `name` in `dir`; it lives as long
/// as the returned handle.
fn touch(dir: &std::path::Path, name: &str) -> tempfile::NamedTempFile {
    let (stem, ext) = match name.rfind('.') {
        Some(i) => (&name[..i], &name[i..]),
        None => (name, ""),
    };
    tempfile::Builder::new()
        .prefix(stem)
        .suffix(ext)
        .rand_bytes(0)
        .tempfile_in(dir)
        .unwrap()
}

fn subdir(dir: &std::path::Path, name: &str) -> tempfile::TempDir {
    tempfile::Builder::new().prefix(name).rand_bytes(0).tempdir_in(dir).unwrap()
}

#[test]
fn find_cover_prefers_first_name() {
    let dir = tempfile::tempdir().unwrap();
    let flac = touch(dir.path(), "1.flac");
    let _folder = touch(dir.path(), "folder.jpg");
    let _cover = touch(dir.path(), "cover.jpg");
    // cover.jpg comes before folder.jpg in the preference order
    let candidates = match after_audio_search(Some(flac.path().to_str().unwrap())) {
        AudioOutcome::FindCover(c) => c,
        AudioOutcome::Respond(r) => panic!("unexpected {r:?}"),
    };
    let got = first_file(&candidates).unwrap();
    assert_eq!(std::path::Path::new(&got).file_name().unwrap(), "cover.jpg");
}

#[test]
fn resolve_mpd_path_with_root() {
    let dir = tempfile::tempdir().unwrap();
    let artist = subdir(dir.path(), "Artist");
    let alb = subdir(artist.path(), "Alb");
    let _flac = touch(alb.path(), "1.flac");
    let _folder = touch(alb.path(), "folder.jpg");

    let body = r#"{"v":1,"target":{"scheme":"mpd-path","value":"Artist/Alb/1.flac"}}"#;
    assert!(start_resolve(body.as_bytes()).is_ok());
    let roots = vec![dir.path().to_str().unwrap().to_string()];
    let req = artwork_request("mpd-path", "Artist/Alb/1.flac");
    let r = match plan_resolve(&roots, &req) {
        ResolvePlan::FindAudio(c) => match after_audio_search(first_file(&c).as_deref()) {
            AudioOutcome::FindCover(covers) => after_cover_search(first_file(&covers).as_deref()).unwrap(),
            AudioOutcome::Respond(r) => r,
        },
        ResolvePlan::Respond(r) => r,
    };
    assert_eq!(r.status, ResponseStatus::Success);
    assert!(r.path.as_ref().unwrap().ends_with("folder.jpg"));
    assert!(r.path.as_ref().unwrap().starts_with('/'));
    assert_eq!(r.mime.as_deref(), Some("image/jpeg"));
}

#[test]
fn payload_checks() {
    let e = start_query(b"").unwrap_err();
    assert_eq!(e.status, ResponseStatus::BadRequest);
    assert_eq!(e.detail.as_deref(), Some("empty payload"));
    let e = start_resolve(b"\xff\xfe").unwrap_err();
    assert_eq!(e.status, ResponseStatus::BadRequest);
    assert!(e.detail.as_deref().unwrap().starts_with("payload is not UTF-8: "));
    assert_eq!(invalid_json_response("oops").detail.as_deref(), Some("invalid JSON: oops"));
    assert_eq!(invalid_json_query("oops").status, ResponseStatus::BadRequest);
}

#[test]
fn routing_by_version_and_scheme() {
    let mut req = query_request("mpd-path", "a.flac");
    req.v = 2;
    match plan_query(&[], &req) {
        QueryPlan::Respond(r) => assert_eq!(r.detail.as_deref(), Some("unsupported request v: 2")),
        other => panic!("unexpected {other:?}"),
    }
    match plan_query(&[], &query_request("mpd-album", "A|B")) {
        QueryPlan::Respond(r) => assert_eq!(r.status, ResponseStatus::Unsupported),
        other => panic!("unexpected {other:?}"),
    }
    match plan_resolve(&[], &artwork_request("mpd-path", "")) {
        ResolvePlan::Respond(r) => assert_eq!(r.detail.as_deref(), Some("empty mpd-path value")),
        other => panic!("unexpected {other:?}"),
    }
    match plan_resolve(&[], &artwork_request("spotify", "x")) {
        ResolvePlan::Respond(r) => {
            assert_eq!(r.status, ResponseStatus::BadRequest);
            assert_eq!(r.detail.as_deref(), Some("unknown target.scheme: spotify"));
        }
        other => panic!("unexpected {other:?}"),
    }
}

#[test]
fn candidates_and_paths() {
    assert!(is_remote_url("HTTPS://host/x"));
    assert!(!is_remote_url("http:/x"));
    assert_eq!(join_path("/music", "a/b.flac"), "/music/a/b.flac");
    assert_eq!(join_path("/music/", "a.flac"), "/music/a.flac");
    assert_eq!(join_path("", "a.flac"), "a.flac");
    let roots = vec!["/m1".to_string(), "/m2/".to_string()];
    assert_eq!(audio_path_candidates(&roots, "x.flac"), vec!["/m1/x.flac", "/m2/x.flac"]);
    assert_eq!(audio_path_candidates(&roots, "/abs/x.flac"), vec!["/abs/x.flac"]);
    assert!(audio_path_candidates(&roots, "http://s/x").is_empty());
    assert_eq!(mime_for_path("/a/b.JPEG"), Some("image/jpeg"));
    assert_eq!(mime_for_path("/a/b.png"), Some("image/png"));
    assert_eq!(mime_for_path("/a/b.webp"), Some("image/webp"));
    assert_eq!(mime_for_path("/a/b.gif"), None);
    assert_eq!(mime_for_path("/a/noext"), None);
}

#[test]
fn embedded_and_cache_stages() {
    assert!(matches!(after_embedded_read(true, true), EmbeddedOutcome::WriteCache));
    match after_embedded_read(false, true) {
        EmbeddedOutcome::Respond(r) => assert_eq!(r.status, ResponseStatus::NotFound),
        other => panic!("unexpected {other:?}"),
    }
    match after_embedded_read(true, false) {
        EmbeddedOutcome::Respond(r) => assert_eq!(r.status, ResponseStatus::NotFound),
        other => panic!("unexpected {other:?}"),
    }
    let ok = after_cache_write(Ok(Some("/state/cover.png".to_string()))).unwrap();
    assert_eq!(ok.mime.as_deref(), Some("image/png"));
    assert!(after_cache_write(Ok(None)).is_err());
    assert_eq!(after_cache_write(Err("disk full".into())).unwrap_err(), "disk full");
    assert_eq!(ok_from_path("/x/front.jpg").path.as_deref(), Some("/x/front.jpg"));
}

#[test]
fn tagless_and_failed_reads() {
    let r = response_without_tag(0);
    assert_eq!(r.status, ResponseStatus::Success);
    assert_eq!(r.duration_ms, Some(0));
    assert_eq!(response_without_tag(5).duration_ms, Some(5));
    let r = read_failed_response("read audio file: bad".to_string());
    assert_eq!(r.status, ResponseStatus::NotFound);
    assert_eq!(r.detail.as_deref(), Some("read audio file: bad"));
}

#[test]
fn embedded_picture_choice_and_extension() {
    assert_eq!(choose_picture(&[]), None);
    assert_eq!(choose_picture(&[PictureKind::Other, PictureKind::Other]), Some(0));
    assert_eq!(
        choose_picture(&[PictureKind::Other, PictureKind::FrontCover, PictureKind::FrontCover]),
        Some(1)
    );
    assert_eq!(cache_extension(ImageFormat::Png), "png");
    assert_eq!(cache_extension(ImageFormat::Jpeg), "jpg");
    assert_eq!(cache_extension(ImageFormat::Unknown), "jpg");
    assert_eq!(cache_extension(ImageFormat::Tiff), "tiff");
}

#[test]
fn candidates_under_absolute_roots_are_absolute() {
    let roots = vec!["/music".to_string(), "/mnt/usb/".to_string()];
    match plan_resolve(&roots, &artwork_request("mpd-path", "A/b.flac")) {
        ResolvePlan::FindAudio(c) => {
            assert_eq!(c, vec!["/music/A/b.flac".to_string(), "/mnt/usb/A/b.flac".to_string()]);
        }
        ResolvePlan::Respond(r) => panic!("unexpected {r:?}"),
    }
    match after_audio_search(Some("/music/A/b.flac")) {
        AudioOutcome::FindCover(c) => {
            assert_eq!(c[0], "/music/A/cover.jpg");
            assert!(c.iter().all(|p| p.starts_with('/')));
        }
        AudioOutcome::Respond(r) => panic!("unexpected {r:?}"),
    }
}
