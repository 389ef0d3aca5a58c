use icon_cache::artifact::{Artifact, CodecError};
use icon_cache::cache::{check_file, check_response, Action, Event, Lookup, Phase};
use icon_cache::endpoint::{is_sendable, respond, Reply};
use icon_cache::error::{ErrorKind, IconError};
use icon_cache::key::directory_name;
use icon_cache::request::{accept, decode_param, parse_url, resolve, ParsedUrl, Target};
use std::collections::HashMap;

const ICON_PARAM: &str = "aHR0cHM6Ly9leGFtcGxlLmNvbS9pY29uLnBuZw==";
const ICON_FILE: &str = "4d2b6c4e8c53f5b51640c4e08a08b625b7437e866ee270599e3dcb61eedc028e.bin";

struct Disk {
    files: HashMap<String, Vec<u8>>,
    directories_made: usize,
    fetches: Vec<String>,
    origin: Event,
}

fn disk(origin: Event) -> Disk {
    Disk { files: HashMap::new(), directories_made: 0, fetches: Vec::new(), origin }
}

fn png_origin() -> Event {
    Event::Responded(200, Some(String::from("image/png")), vec![0x89, 0x50, 0x4E, 0x47])
}

fn perform(disk: &mut Disk, action: Action) -> Result<Event, Result<Artifact, IconError>> {
    match action {
        Action::EnsureDirectory => {
            disk.directories_made += 1;
            Ok(Event::DirectoryReady)
        }
        Action::Probe(name) => {
            Ok(if disk.files.contains_key(&name) { Event::FilePresent } else { Event::FileAbsent })
        }
        Action::Read(name) => Ok(Event::ReadDone(disk.files[&name].clone())),
        Action::Fetch(url) => {
            disk.fetches.push(url);
            Ok(disk.origin.clone())
        }
        Action::Write(name, data) => {
            disk.files.insert(name, data);
            Ok(Event::Written)
        }
        Action::Finish(outcome) => Err(outcome),
    }
}

fn serve(disk: &mut Disk, param: &str) -> Reply {
    let target = match resolve(param) {
        Ok(target) => target,
        Err(e) => return respond(Err(e)),
    };
    let (mut lookup, mut action) = Lookup::begin(target);
    loop {
        match perform(disk, action) {
            Ok(event) => {
                let (l, a) = lookup.step(event);
                lookup = l;
                action = a;
            }
            Err(outcome) => {
                assert_eq!(lookup.phase, Phase::Done);
                return respond(outcome);
            }
        }
    }
}

fn target() -> Target {
    Target { url: String::from("https://example.com/icon.png"), file_name: String::from(ICON_FILE) }
}

fn at(phase: Phase) -> Lookup {
    Lookup { target: target(), phase }
}

fn png() -> Artifact {
    Artifact { mime: String::from("image/png"), bytes: vec![0x89, 0x50, 0x4E, 0x47] }
}

fn failure(action: Action) -> IconError {
    match action {
        Action::Finish(Err(e)) => e,
        other => panic!("no failure: {:?}", other),
    }
}

#[test]
fn resolve_accepts_an_encoded_url() {
    assert_eq!(resolve(ICON_PARAM), Ok(target()));
}

#[test]
fn resolve_normalises_the_url() {
    let t = resolve("aHR0cHM6Ly9FWEFNUExFLmNvbQ==").unwrap();
    assert_eq!(t.url, "https://example.com/");
    assert_eq!(t.file_name, "0f115db062b7c0dd030b16878c99dea5c354b49dc37b38eb8846179c7783e9d7.bin");
}

#[test]
fn resolve_refuses_what_is_not_base64() {
    let e = resolve("not base64!").unwrap_err();
    assert_eq!(e, IconError::new(ErrorKind::Decode, String::from("Invalid symbol 32, offset 3.")));
    assert_eq!(resolve("aHR0cHM6Ly9leGFtcGxlLmNvbS9pY29uLnBuZw").unwrap_err().kind, ErrorKind::Decode);
}

#[test]
fn resolve_refuses_what_is_no_url() {
    let e = resolve("bm90IGEgdXJs").unwrap_err();
    assert_eq!(e.kind, ErrorKind::UrlParse);
    assert_eq!(e.message(), "relative URL without a base");
    assert_eq!(resolve("").unwrap_err().kind, ErrorKind::UrlParse);
}

#[test]
fn resolve_replaces_invalid_utf8() {
    assert_eq!(resolve("/w==").unwrap_err().kind, ErrorKind::UrlParse);
}

#[test]
fn resolve_refuses_a_url_without_host() {
    let e = resolve("bWFpbHRvOnNvbWVvbmVAZXhhbXBsZS5jb20=").unwrap_err();
    assert_eq!(e.kind, ErrorKind::MissingHost);
    assert_eq!(e.message(), "empty host");
}

#[test]
fn decode_param_gives_the_bytes() {
    assert_eq!(decode_param("YWJj").unwrap(), b"abc".to_vec());
    assert_eq!(decode_param("").unwrap(), Vec::<u8>::new());
    assert_eq!(decode_param("/w==").unwrap(), vec![0xff]);
    let e = decode_param("YWJ").unwrap_err();
    assert_eq!(e, IconError::new(ErrorKind::Decode, String::from("Invalid padding")));
    let e = decode_param("YWJj=").unwrap_err();
    assert_eq!(e.kind, ErrorKind::Decode);
    assert_eq!(e.message(), "Invalid symbol 61, offset 4.");
}

#[test]
fn parse_url_tells_text_and_host() {
    let p = parse_url("HTTP://Example.COM:80/a b").unwrap();
    assert_eq!(p, ParsedUrl { text: String::from("http://example.com/a%20b"), has_host: true });
    let p = parse_url("data:text/plain,hi").unwrap();
    assert_eq!(p, ParsedUrl { text: String::from("data:text/plain,hi"), has_host: false });
    let e = parse_url("//example.com").unwrap_err();
    assert_eq!(e, IconError::new(ErrorKind::UrlParse, String::from("relative URL without a base")));
    let e = parse_url("https://").unwrap_err();
    assert_eq!(e, IconError::new(ErrorKind::UrlParse, String::from("empty host")));
}

#[test]
fn accept_derives_the_file_name() {
    let p = ParsedUrl { text: String::from("https://example.com/icon.png"), has_host: true };
    assert_eq!(accept(p), Ok(target()));
    let p = ParsedUrl { text: String::from("data:text/plain,hi"), has_host: false };
    assert_eq!(accept(p), Err(IconError::of_kind(ErrorKind::MissingHost)));
}

#[test]
fn check_response_wants_a_success_status() {
    let mime = || Some(String::from("image/png"));
    assert_eq!(check_response(200, mime(), vec![1]), Ok(Artifact { mime: String::from("image/png"), bytes: vec![1] }));
    assert!(check_response(299, mime(), vec![]).is_ok());
    assert!(check_response(204, mime(), vec![]).is_ok());
    for status in [0u16, 100, 199, 300, 304, 404, 500, 65535] {
        let e = check_response(status, mime(), vec![1]).unwrap_err();
        assert_eq!(e.kind, ErrorKind::FetchStatus(status));
        assert_eq!(e.message(), "HTTP status error");
    }
}

#[test]
fn check_response_wants_a_content_type() {
    let e = check_response(200, None, vec![1, 2]).unwrap_err();
    assert_eq!(e, IconError { kind: ErrorKind::MissingContentType, text: String::from("no content-type") });
    assert_eq!(check_response(404, None, vec![]).unwrap_err().kind, ErrorKind::FetchStatus(404));
}

#[test]
fn check_file_reports_a_corrupt_file() {
    assert_eq!(check_file(&png().encode()), Ok(png()));
    let e = check_file(&[1, 2, 3]).unwrap_err();
    assert_eq!(e.kind, ErrorKind::DeserializeFailed(CodecError::Truncated));
    assert_eq!(e.message(), "cache file is truncated");
    let e = check_file(&[1, 0, 0, 0, 0, 0, 0, 0, 0x80]).unwrap_err();
    assert_eq!(e.kind, ErrorKind::DeserializeFailed(CodecError::InvalidText));
}

#[test]
fn lookup_begins_with_the_directory() {
    let (lookup, action) = Lookup::begin(target());
    assert_eq!(lookup, at(Phase::Directory));
    assert_eq!(action, Action::EnsureDirectory);
}

#[test]
fn lookup_probes_once_the_directory_is_ready() {
    let (lookup, action) = at(Phase::Directory).step(Event::DirectoryReady);
    assert_eq!(lookup, at(Phase::Probe));
    assert_eq!(action, Action::Probe(String::from(ICON_FILE)));
}

#[test]
fn lookup_fails_where_the_directory_cannot_be_made() {
    let (lookup, action) = at(Phase::Directory).step(Event::DirectoryFailed(String::from("denied")));
    assert_eq!(lookup, at(Phase::Done));
    assert_eq!(failure(action), IconError::new(ErrorKind::DirectoryCreationFailed, String::from("denied")));
}

#[test]
fn lookup_reads_a_present_file() {
    let (lookup, action) = at(Phase::Probe).step(Event::FilePresent);
    assert_eq!(lookup, at(Phase::Read));
    assert_eq!(action, Action::Read(String::from(ICON_FILE)));
    let (lookup, action) = lookup.step(Event::ReadDone(png().encode()));
    assert_eq!(lookup, at(Phase::Done));
    assert_eq!(action, Action::Finish(Ok(png())));
}

#[test]
fn lookup_reports_a_failed_read() {
    let (_, action) = at(Phase::Read).step(Event::ReadFailed(String::from("io")));
    assert_eq!(failure(action), IconError::new(ErrorKind::ReadFailed, String::from("io")));
}

#[test]
fn lookup_reports_a_corrupt_file() {
    let (lookup, action) = at(Phase::Read).step(Event::ReadDone(vec![9, 9]));
    assert_eq!(lookup, at(Phase::Done));
    assert_eq!(failure(action).kind, ErrorKind::DeserializeFailed(CodecError::Truncated));
}

#[test]
fn lookup_fetches_an_absent_file() {
    let (lookup, action) = at(Phase::Probe).step(Event::FileAbsent);
    assert_eq!(lookup, at(Phase::Fetch));
    assert_eq!(action, Action::Fetch(String::from("https://example.com/icon.png")));
    let (lookup, action) = lookup.step(png_origin());
    assert_eq!(lookup, at(Phase::Write(png())));
    assert_eq!(action, Action::Write(String::from(ICON_FILE), png().encode()));
    let (lookup, action) = lookup.step(Event::Written);
    assert_eq!(lookup, at(Phase::Done));
    assert_eq!(action, Action::Finish(Ok(png())));
}

#[test]
fn lookup_reports_an_unreachable_origin() {
    let (lookup, action) = at(Phase::Fetch).step(Event::Unreachable(String::from("timed out")));
    assert_eq!(lookup, at(Phase::Done));
    assert_eq!(failure(action), IconError::new(ErrorKind::FetchFailed, String::from("timed out")));
}

#[test]
fn lookup_reports_a_failed_write() {
    let (lookup, action) = at(Phase::Write(png())).step(Event::WriteFailed(String::from("full")));
    assert_eq!(lookup, at(Phase::Done));
    assert_eq!(failure(action), IconError::new(ErrorKind::WriteFailed, String::from("full")));
}

#[test]
fn lookup_ends_on_an_event_it_did_not_wait_for() {
    for phase in [Phase::Directory, Phase::Probe, Phase::Read, Phase::Done] {
        let (lookup, action) = at(phase).step(Event::Written);
        assert_eq!(lookup, at(Phase::Done));
        assert_eq!(failure(action), IconError::of_kind(ErrorKind::UnexpectedEvent));
    }
    let (_, action) = at(Phase::Write(png())).step(Event::FileAbsent);
    assert_eq!(failure(action).message(), "unexpected event");
}

#[test]
fn respond_passes_an_artifact_through() {
    let a = Artifact { mime: String::from("image/png; charset=binary"), bytes: (0..=255).collect() };
    let reply = respond(Ok(a.clone()));
    assert_eq!(reply, Reply { status: 200, content_type: Some(a.mime), body: a.bytes });
}

#[test]
fn respond_answers_an_error_with_its_text() {
    let reply = respond(Err(IconError::new(ErrorKind::ReadFailed, String::from("d\u{e9}j\u{e0}"))));
    assert_eq!(reply, Reply { status: 400, content_type: None, body: "d\u{e9}j\u{e0}".as_bytes().to_vec() });
    let reply = respond(Err(IconError::of_kind(ErrorKind::MissingContentType)));
    assert_eq!(reply.body, b"no content-type".to_vec());
}

#[test]
fn first_request_fetches_and_second_is_served_from_the_file() {
    let mut d = disk(png_origin());
    let first = serve(&mut d, ICON_PARAM);
    assert_eq!(
        first,
        Reply { status: 200, content_type: Some(String::from("image/png")), body: vec![0x89, 0x50, 0x4E, 0x47] }
    );
    assert_eq!(d.fetches, vec![String::from("https://example.com/icon.png")]);
    assert_eq!(d.files.len(), 1);
    let stored = d.files[ICON_FILE].clone();
    assert_eq!(stored, png().encode());

    d.origin = Event::Unreachable(String::from("gone"));
    let second = serve(&mut d, ICON_PARAM);
    assert_eq!(second, first);
    assert_eq!(d.fetches.len(), 1);
    assert_eq!(d.files.len(), 1);
    assert_eq!(d.files[ICON_FILE], stored);
}

#[test]
fn request_for_what_is_no_url_is_refused_and_makes_no_file() {
    let mut d = disk(png_origin());
    let reply = serve(&mut d, "bm90IGEgdXJs");
    assert_eq!(reply.status, 400);
    assert_eq!(reply.content_type, None);
    assert_eq!(String::from_utf8(reply.body).unwrap(), "relative URL without a base");
    assert!(d.files.is_empty());
    assert!(d.fetches.is_empty());
    assert_eq!(d.directories_made, 0);
}

#[test]
fn request_that_is_not_base64_is_refused_and_makes_no_file() {
    let mut d = disk(png_origin());
    let reply = serve(&mut d, "%%%");
    assert_eq!(reply.status, 400);
    assert!(d.files.is_empty());
    assert!(d.fetches.is_empty());
    assert_eq!(d.directories_made, 0);
}

#[test]
fn failing_origin_is_answered_with_400_and_nothing_is_written() {
    let origins = [
        Event::Responded(404, Some(String::from("text/html")), b"missing".to_vec()),
        Event::Responded(500, None, Vec::new()),
        Event::Responded(200, None, vec![1, 2, 3]),
        Event::Unreachable(String::from("connection refused")),
    ];
    for origin in origins {
        let mut d = disk(origin);
        let reply = serve(&mut d, ICON_PARAM);
        assert_eq!(reply.status, 400);
        assert_eq!(reply.content_type, None);
        assert!(d.files.is_empty());
        assert_eq!(d.fetches.len(), 1);
    }
}

#[test]
fn corrupt_file_is_reported_and_not_fetched_again() {
    let mut d = disk(png_origin());
    d.files.insert(String::from(ICON_FILE), vec![1, 2, 3]);
    let reply = serve(&mut d, ICON_PARAM);
    assert_eq!(reply.status, 400);
    assert_eq!(reply.body, b"cache file is truncated".to_vec());
    assert!(d.fetches.is_empty());
    assert_eq!(d.files[ICON_FILE], vec![1, 2, 3]);
}

#[test]
fn every_kind_has_its_fixed_text() {
    let texts = [
        (ErrorKind::Decode, "invalid base64"),
        (ErrorKind::UrlParse, "invalid URL"),
        (ErrorKind::MissingHost, "empty host"),
        (ErrorKind::DirectoryCreationFailed, "cache directory could not be created"),
        (ErrorKind::ReadFailed, "cache file could not be read"),
        (ErrorKind::DeserializeFailed(CodecError::Truncated), "cache file is truncated"),
        (ErrorKind::DeserializeFailed(CodecError::InvalidText), "cache file holds an invalid MIME string"),
        (ErrorKind::FetchFailed, "fetch failed"),
        (ErrorKind::FetchStatus(503), "HTTP status error"),
        (ErrorKind::MissingContentType, "no content-type"),
        (ErrorKind::WriteFailed, "cache file could not be written"),
        (ErrorKind::UnsendableMime, "MIME string cannot be sent as a header"),
        (ErrorKind::UnexpectedEvent, "unexpected event"),
    ];
    for (kind, text) in texts {
        let e = IconError::of_kind(kind);
        assert_eq!(e.kind, kind);
        assert_eq!(e.message(), text);
        assert_eq!(respond(Err(e)).body, text.as_bytes().to_vec());
    }
}

#[test]
fn resolve_accepts_a_url_with_an_invalid_byte_replaced() {
    let raw = decode_param("aHR0cHM6Ly9leGFtcGxlLmNvbS//").unwrap();
    assert_eq!(raw, b"https://example.com/\xff".to_vec());
    let t = resolve("aHR0cHM6Ly9leGFtcGxlLmNvbS//").unwrap();
    assert_eq!(t.url, "https://example.com/%EF%BF%BD");
    assert_eq!(t.file_name, "21c0f4879eee6ef8d8d52a9b933a202b8d8c13d3cce1820875bcd67ebde6187e.bin");
}

#[test]
fn resolved_file_name_has_68_characters() {
    assert_eq!(resolve(ICON_PARAM).unwrap().file_name.len(), 68);
    let p = ParsedUrl { text: String::from("https://example.com/"), has_host: true };
    assert_eq!(accept(p).unwrap().file_name.len(), 68);
}

#[test]
fn cache_files_live_in_icons() {
    assert_eq!(directory_name(), "icons");
}

#[test]
fn is_sendable_follows_the_header_rule() {
    assert!(is_sendable(""));
    assert!(is_sendable("image/png"));
    assert!(is_sendable("image/png; charset=binary"));
    assert!(is_sendable("text/plain;\tq=1"));
    assert!(is_sendable(" ~"));
    assert!(is_sendable("text/plain; name=\u{e9}\u{4e2d}"));
    assert!(!is_sendable("image/png\n"));
    assert!(!is_sendable("image/png\r\nx: y"));
    assert!(!is_sendable("\0"));
    assert!(!is_sendable("a\u{1f}b"));
    assert!(!is_sendable("a\u{7f}"));
    for code in 0u8..=127 {
        let text = String::from(code as char);
        assert_eq!(is_sendable(&text), code == 9 || (code >= 32 && code != 127));
    }
}

#[test]
fn respond_refuses_a_mime_that_cannot_be_sent() {
    for mime in ["image/png\nx", "image\0png", "a\u{7f}"] {
        let reply = respond(Ok(Artifact { mime: String::from(mime), bytes: vec![1, 2, 3] }));
        assert_eq!(
            reply,
            Reply { status: 400, content_type: None, body: b"MIME string cannot be sent as a header".to_vec() }
        );
    }
}

#[test]
fn stored_artifact_with_a_mime_that_cannot_be_sent_is_answered_with_400() {
    let mut d = disk(png_origin());
    let bad = Artifact { mime: String::from("image/png\nset-cookie: x"), bytes: vec![1, 2, 3] };
    d.files.insert(String::from(ICON_FILE), bad.encode());
    let reply = serve(&mut d, ICON_PARAM);
    assert_eq!(reply.status, 400);
    assert_eq!(reply.content_type, None);
    assert_eq!(reply.body, b"MIME string cannot be sent as a header".to_vec());
    assert!(d.fetches.is_empty());

    let other = "aHR0cHM6Ly9leGFtcGxlLmNvbS8=";
    let reply = serve(&mut d, other);
    assert_eq!(
        reply,
        Reply { status: 200, content_type: Some(String::from("image/png")), body: vec![0x89, 0x50, 0x4E, 0x47] }
    );
    assert_eq!(d.fetches, vec![String::from("https://example.com/")]);
}
