use ratubetui::app::PlayerEvent;
use ratubetui::json::{
    json_field, json_parse, mpv_event, mpv_message, search_documents, search_entry, search_results,
};
use ratubetui::mpv::{parse_event, MpvEvent};
use ratubetui::search::{track_from_entry, Field};

fn is_str(f: &Field, s: &str) -> bool {
    matches!(f, Field::Str(x) if x == s)
}

#[test]
fn json_parse_accepts_documents_only() {
    assert!(json_parse("{\"a\": 1}").is_some());
    assert!(json_parse("[1, 2]").is_some());
    assert!(json_parse("{not json").is_none());
    assert!(json_parse("").is_none());
}

#[test]
fn json_field_reads_members() {
    let v = json_parse("{\"s\": \"x\", \"n\": 3, \"z\": null}").unwrap();
    assert!(is_str(&json_field(&v, "s"), "x"));
    assert!(matches!(json_field(&v, "n"), Field::Other));
    assert!(matches!(json_field(&v, "z"), Field::Other));
    assert!(matches!(json_field(&v, "missing"), Field::Absent));
    let arr = json_parse("[\"s\"]").unwrap();
    assert!(matches!(json_field(&arr, "s"), Field::Absent));
}

#[test]
fn search_line_to_track() {
    let line = "{\"ie_key\": \"Youtube\", \"id\": \"dQw4w9WgXcQ\", \"title\": \"Never\", \
                \"channel\": null, \"uploader\": \"Rick\", \"duration\": 212.0}";
    let v = json_parse(line).unwrap();
    let e = search_entry(&v, Some(212_000));
    assert!(is_str(&e.id, "dQw4w9WgXcQ"));
    assert!(matches!(e.channel, Field::Other));
    assert!(matches!(e.playlist_uploader, Field::Absent));
    let t = track_from_entry(&e).unwrap();
    assert_eq!(t.title, "Never");
    assert_eq!(t.channel, "");
    assert_eq!(t.duration_ms, Some(212_000));
}

#[test]
fn channel_line_is_skipped() {
    let line = "{\"ie_key\": \"YoutubeTab\", \"id\": \"UCabcdefghijklmnopqrstuv\"}";
    let v = json_parse(line).unwrap();
    assert!(track_from_entry(&search_entry(&v, None)).is_none());
}

#[test]
fn mpv_line_to_event() {
    let v = json_parse("{\"event\":\"property-change\",\"id\":3,\"name\":\"pause\",\"data\":true}").unwrap();
    let m = mpv_message(&v, None, Some(true));
    assert_eq!(parse_event(&m), Some(MpvEvent::Player(PlayerEvent::Paused(true))));
    let v = json_parse("{\"event\":\"end-file\",\"reason\":\"eof\"}").unwrap();
    let m = mpv_message(&v, None, None);
    assert_eq!(
        parse_event(&m),
        Some(MpvEvent::Player(PlayerEvent::EndFile { reason: "eof".to_string() }))
    );
    let v = json_parse("{\"request_id\":0,\"error\":\"success\"}").unwrap();
    assert_eq!(parse_event(&mpv_message(&v, None, None)), None);
}

#[test]
fn search_output_to_tracks() {
    let out = b"{\"id\": \"aaaaaaaaaaa\", \"title\": \"One\", \"uploader\": \"U\"}\n\
                \n   \nnot json at all\n\
                {\"ie_key\": \"YoutubeTab\", \"id\": \"UCabcdefghijklmnopqrstuv\"}\n\
                  {\"ie_key\": \"Youtube\", \"id\": \"bbbbbbbbbbb\", \"channel\": \"C\"}  \n";
    let docs = search_documents(out);
    assert_eq!(docs.len(), 3);
    let tracks = search_results(&docs, &vec![Some(1_500), None, Some(60_000)]);
    assert_eq!(tracks.len(), 2);
    assert_eq!(tracks[0].id, "aaaaaaaaaaa");
    assert_eq!(tracks[0].title, "One");
    assert_eq!(tracks[0].channel, "U");
    assert_eq!(tracks[0].duration_ms, Some(1_500));
    assert_eq!(tracks[1].id, "bbbbbbbbbbb");
    assert_eq!(tracks[1].title, "(no title)");
    assert_eq!(tracks[1].channel, "C");
    assert_eq!(tracks[1].duration_ms, Some(60_000));
}

#[test]
fn empty_search_output_has_no_documents() {
    assert!(search_documents(b"").is_empty());
    assert!(search_documents(b"\n \n").is_empty());
    assert!(search_results(&vec![], &vec![]).is_empty());
}

#[test]
fn mpv_document_to_event() {
    let v = json_parse("{\"event\":\"property-change\",\"name\":\"time-pos\",\"data\":12.5}").unwrap();
    assert_eq!(
        mpv_event(&v, Some(12_500), None),
        Some(MpvEvent::Player(PlayerEvent::TimePos(Some(12_500))))
    );
    let v = json_parse("{\"event\":\"start-file\"}").unwrap();
    assert_eq!(mpv_event(&v, None, None), Some(MpvEvent::Player(PlayerEvent::StartFile)));
    let v = json_parse("{\"event\":\"end-file\",\"reason\":\"error\"}").unwrap();
    assert_eq!(
        mpv_event(&v, None, None),
        Some(MpvEvent::Player(PlayerEvent::EndFile { reason: "error".to_string() }))
    );
    let v = json_parse("{\"event\":\"idle\"}").unwrap();
    assert_eq!(mpv_event(&v, None, None), None);
}
