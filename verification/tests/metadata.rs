use download_core::error::CoreError;
use download_core::metadata::{
    metadata_args, parse_video_info, read_document, read_entry, resolve_output, summarize,
    summarize_entry, EntryFields, MetadataDocument, VideoMetadata,
};
use serde_json::{Number, Value};

fn object(members: &[(&str, Value)]) -> Value {
    let mut map = serde_json::Map::new();
    for (key, value) in members {
        map.insert(key.to_string(), value.clone());
    }
    Value::Object(map)
}

fn string(text: &str) -> Value {
    Value::String(text.to_string())
}

fn summary(title: &str, thumbnail: &str, uploader: &str, duration: Option<&str>) -> VideoMetadata {
    VideoMetadata {
        title: title.to_string(),
        thumbnail: thumbnail.to_string(),
        uploader: uploader.to_string(),
        duration_string: duration.map(|d| d.to_string()),
    }
}

fn fields(
    title: Option<&str>,
    thumbnail: Option<&str>,
    uploader: Option<&str>,
    duration: Option<&str>,
) -> EntryFields {
    EntryFields {
        title: title.map(|s| s.to_string()),
        thumbnail: thumbnail.map(|s| s.to_string()),
        uploader: uploader.map(|s| s.to_string()),
        duration_string: duration.map(|s| s.to_string()),
    }
}

#[test]
fn playlist_gives_one_summary_per_entry() {
    let json = br#"{
        "title": "My list",
        "entries": [
            {"title": "First", "thumbnail": "https://img/1.jpg", "uploader": "Ann", "duration_string": "3:05"},
            {"title": "Second"},
            {}
        ]
    }"#;
    let list = parse_video_info(json).unwrap();
    assert_eq!(
        list,
        vec![
            summary("First", "https://img/1.jpg", "Ann", Some("3:05")),
            summary("Second", "", "Unknown", None),
            summary("Unknown", "", "Unknown", None),
        ]
    );
}

#[test]
fn empty_playlist_gives_no_summary() {
    let list = parse_video_info(br#"{"title": "Empty", "entries": []}"#).unwrap();
    assert_eq!(list, Vec::<VideoMetadata>::new());
}

#[test]
fn malformed_entries_fall_back_to_defaults() {
    let json = br#"{"entries": [42, "text", null, [1, 2], {"title": 7, "uploader": null, "thumbnail": {"url": "x"}, "duration_string": 185}, {"title": "Good"}]}"#;
    let list = parse_video_info(json).unwrap();
    assert_eq!(list.len(), 6);
    for broken in &list[..5] {
        assert_eq!(*broken, summary("Unknown", "", "Unknown", None));
    }
    assert_eq!(list[5], summary("Good", "", "Unknown", None));
}

#[test]
fn single_video_gives_one_summary() {
    let json = br#"{"title": "Solo", "thumbnail": "https://img/s.png", "uploader": "Bob", "duration_string": "1:02:03", "id": "abc"}"#;
    let list = parse_video_info(json).unwrap();
    assert_eq!(
        list,
        vec![summary("Solo", "https://img/s.png", "Bob", Some("1:02:03"))]
    );
}

#[test]
fn entries_that_is_no_array_means_single_video() {
    for json in [
        &br#"{"title": "T", "entries": 5}"#[..],
        &br#"{"title": "T", "entries": null}"#[..],
        &br#"{"title": "T", "entries": {"0": {"title": "inner"}}}"#[..],
        &br#"{"title": "T", "entries": "none"}"#[..],
    ] {
        let list = parse_video_info(json).unwrap();
        assert_eq!(list, vec![summary("T", "", "Unknown", None)]);
    }
}

#[test]
fn document_that_is_no_object_gives_one_default_summary() {
    for json in [&b"[1, 2, 3]"[..], &b"null"[..], &b"\"text\""[..], &b"17"[..], &b"true"[..]] {
        let list = parse_video_info(json).unwrap();
        assert_eq!(list, vec![summary("Unknown", "", "Unknown", None)]);
    }
}

#[test]
fn text_is_taken_as_the_source_wrote_it() {
    let json = "{\"title\": \"Caf\\u00e9 \\\"live\\\" \u{1F3B5}\", \"uploader\": \"\"}".as_bytes();
    let list = parse_video_info(json).unwrap();
    assert_eq!(list, vec![summary("Caf\u{e9} \"live\" \u{1F3B5}", "", "", None)]);
}

#[test]
fn invalid_json_is_a_parse_error() {
    assert_eq!(
        parse_video_info(b"not json"),
        Err(CoreError::MetadataParse(
            "expected ident at line 1 column 2".to_string()
        ))
    );
    assert_eq!(
        parse_video_info(b""),
        Err(CoreError::MetadataParse(
            "EOF while parsing a value at line 1 column 0".to_string()
        ))
    );
    assert_eq!(
        parse_video_info(b"{\"title\": \"x\"} trailing"),
        Err(CoreError::MetadataParse(
            "trailing characters at line 1 column 16".to_string()
        ))
    );
    assert_eq!(
        parse_video_info(b"{\"entries\": ["),
        Err(CoreError::MetadataParse(
            "EOF while parsing a list at line 1 column 13".to_string()
        ))
    );
}

#[test]
fn parse_error_message_is_the_parsers_own() {
    let bytes = b"{\"title\": }";
    let expected = serde_json::from_slice::<serde_json::Value>(bytes)
        .unwrap_err()
        .to_string();
    assert_eq!(
        parse_video_info(bytes),
        Err(CoreError::MetadataParse(expected))
    );
}

#[test]
fn failed_run_reports_the_error_stream() {
    let outcome = resolve_output(false, b"{\"title\": \"ignored\"}", b"ERROR: unsupported URL\n");
    assert_eq!(
        outcome,
        Err(CoreError::ToolExecution("ERROR: unsupported URL\n".to_string()))
    );
}

#[test]
fn failed_run_decodes_the_error_stream_lossily() {
    let outcome = resolve_output(false, b"", &[b'a', 0xff, b'b', 0xc3]);
    assert_eq!(
        outcome,
        Err(CoreError::ToolExecution("a\u{fffd}b\u{fffd}".to_string()))
    );
    let empty = resolve_output(false, b"{}", b"");
    assert_eq!(empty, Err(CoreError::ToolExecution(String::new())));
}

#[test]
fn successful_run_is_parsed() {
    let outcome = resolve_output(true, b"{\"title\": \"Ok\"}", b"WARNING: something\n");
    assert_eq!(outcome, Ok(vec![summary("Ok", "", "Unknown", None)]));
    let bad = resolve_output(true, b"<html>", b"");
    assert_eq!(
        bad,
        Err(CoreError::MetadataParse(
            "expected value at line 1 column 1".to_string()
        ))
    );
}

#[test]
fn summarize_entry_fills_defaults() {
    assert_eq!(
        summarize_entry(&fields(None, None, None, None)),
        summary("Unknown", "", "Unknown", None)
    );
    assert_eq!(
        summarize_entry(&fields(Some("T"), Some("P"), Some("U"), Some("D"))),
        summary("T", "P", "U", Some("D"))
    );
    assert_eq!(
        summarize_entry(&fields(Some(""), None, Some(""), Some(""))),
        summary("", "", "", Some(""))
    );
}

#[test]
fn summarize_keeps_count_and_order() {
    let doc = MetadataDocument::Playlist(vec![
        fields(Some("a"), None, None, None),
        fields(None, None, Some("b"), None),
        fields(Some("c"), Some("t"), None, Some("0:10")),
    ]);
    assert_eq!(
        summarize(&doc),
        vec![
            summary("a", "", "Unknown", None),
            summary("Unknown", "", "b", None),
            summary("c", "t", "Unknown", Some("0:10")),
        ]
    );
    assert_eq!(
        summarize(&MetadataDocument::Playlist(Vec::new())),
        Vec::<VideoMetadata>::new()
    );
    assert_eq!(
        summarize(&MetadataDocument::Single(fields(None, None, None, Some("9")))),
        vec![summary("Unknown", "", "Unknown", Some("9"))]
    );
}

#[test]
fn large_playlist_keeps_its_length() {
    let mut json = String::from("{\"entries\": [");
    for i in 0..250 {
        if i > 0 {
            json.push(',');
        }
        json.push_str(&format!("{{\"title\": \"v{}\"}}", i));
    }
    json.push_str("]}");
    let list = parse_video_info(json.as_bytes()).unwrap();
    assert_eq!(list.len(), 250);
    assert_eq!(list[0].title, "v0");
    assert_eq!(list[249].title, "v249");
    assert_eq!(list[100].uploader, "Unknown");
}

#[test]
fn metadata_query_arguments() {
    assert_eq!(
        metadata_args("https://example.com/v"),
        vec![
            "-J".to_string(),
            "--flat-playlist".to_string(),
            "https://example.com/v".to_string()
        ]
    );
}

#[test]
fn error_message_is_the_carried_text() {
    assert_eq!(CoreError::ToolInvocation("not found".to_string()).message(), "not found");
    assert_eq!(CoreError::ToolExecution("exit 1".to_string()).message(), "exit 1");
    assert_eq!(CoreError::MetadataParse("bad".to_string()).message(), "bad");
}

#[test]
fn read_entry_takes_strings_only() {
    let entry = object(&[
        ("title", string("T")),
        ("thumbnail", Value::Null),
        ("uploader", Value::Number(Number::from(3))),
        ("duration_string", string("0:42")),
        ("extra", string("ignored")),
    ]);
    assert_eq!(read_entry(&entry), fields(Some("T"), None, None, Some("0:42")));
    assert_eq!(read_entry(&object(&[])), fields(None, None, None, None));
    assert_eq!(read_entry(&string("title")), fields(None, None, None, None));
    assert_eq!(
        read_entry(&Value::Array(vec![string("title")])),
        fields(None, None, None, None)
    );
}

#[test]
fn read_document_tells_playlist_from_single() {
    let playlist = object(&[
        ("title", string("List")),
        (
            "entries",
            Value::Array(vec![
                object(&[("title", string("a"))]),
                Value::Bool(true),
                object(&[("uploader", string("u"))]),
            ]),
        ),
    ]);
    assert_eq!(
        read_document(&playlist),
        MetadataDocument::Playlist(vec![
            fields(Some("a"), None, None, None),
            fields(None, None, None, None),
            fields(None, None, Some("u"), None),
        ])
    );
    let single = object(&[("title", string("Solo")), ("entries", string("no list"))]);
    assert_eq!(
        read_document(&single),
        MetadataDocument::Single(fields(Some("Solo"), None, None, None))
    );
    assert_eq!(
        read_document(&Value::Array(vec![object(&[("title", string("x"))])])),
        MetadataDocument::Single(fields(None, None, None, None))
    );
}
