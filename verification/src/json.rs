//! JSON messages from `yt-dlp` and mpv, read through `serde_json`, and the
//! members of them that the player uses.
use vstd::prelude::*;
use vstd::utf8::encode_utf8;
use crate::mpv::{means_of, parse_event, MpvEvent, MpvMessage};
use crate::output::{lossy_text, lossy_utf8, nonblank_lines, nonblank_lines_of};
use crate::search::{
    field_str, is_video, str_or, track_of, tracks_from_entries, tracks_of, Field, SearchEntry,
};
use crate::types::Track;

verus! {

#[verifier::external_type_specification]
#[verifier::external_body]
pub struct ExJsonValue(serde_json::Value);

/// Whether `serde_json` accepts `text` as one JSON document.
pub uninterp spec fn json_accepts(text: Seq<char>) -> bool;

/// The member names of the JSON document in `text`.
pub uninterp spec fn json_doc_keys(text: Seq<char>) -> Set<Seq<char>>;

/// The string-valued members of the JSON document in `text`.
pub uninterp spec fn json_doc_strings(text: Seq<char>) -> Map<Seq<char>, Seq<char>>;

/// The member names of a JSON value (none unless it is an object).
pub uninterp spec fn json_keys(v: serde_json::Value) -> Set<Seq<char>>;

/// The members of a JSON value whose values are strings, with those strings.
pub uninterp spec fn json_strings(v: serde_json::Value) -> Map<Seq<char>, Seq<char>>;

/// `serde_json::from_str::<Value>`: the JSON document in `text`, or `None`
/// when it is not one. Its members are those of the text's document (the
/// names [`json_doc_keys`] and [`json_doc_strings`]); what the members hold
/// beyond strings is left unsaid.
#[verifier::external_body]
pub fn json_parse(text: &str) -> (r: Option<serde_json::Value>)
    ensures
        r is Some <==> json_accepts(text@),
        r matches Some(v) ==> json_keys(v) == json_doc_keys(text@) && json_strings(v)
            == json_doc_strings(text@),
{
    serde_json::from_str::<serde_json::Value>(text).ok()
}

/// `Value::get` with a string key, read as a [`Field`]: absent when the
/// value is not an object or has no such member, the string when the member
/// is a string, `Other` for any other member.
#[verifier::external_body]
pub fn json_field(v: &serde_json::Value, key: &str) -> (r: Field)
    ensures
        (r is Absent) == !json_keys(*v).contains(key@),
        (r is Str) == json_strings(*v).contains_key(key@),
        r matches Field::Str(s) ==> s@ == json_strings(*v)[key@],
{
    match v.get(key) {
        None => Field::Absent,
        Some(serde_json::Value::String(s)) => Field::Str(s.clone()),
        Some(_) => Field::Other,
    }
}

/// Whether `f` is what member `key` of `v` reads as.
pub open spec fn field_of(f: Field, v: serde_json::Value, key: Seq<char>) -> bool {
    match f {
        Field::Absent => !json_keys(v).contains(key) && !json_strings(v).contains_key(key),
        Field::Str(s) => json_keys(v).contains(key) && json_strings(v).contains_key(key) && s@ == json_strings(v)[key],
        Field::Other => json_keys(v).contains(key) && !json_strings(v).contains_key(key),
    }
}

/// One line of search output as a [`SearchEntry`]; `duration_ms` is its
/// `duration` member in milliseconds, which the caller reads (it is a
/// floating-point number).
pub fn search_entry(v: &serde_json::Value, duration_ms: Option<u64>) -> (e: SearchEntry)
    ensures
        field_of(e.ie_key, *v, "ie_key"@),
        field_of(e.id, *v, "id"@),
        field_of(e.title, *v, "title"@),
        field_of(e.channel, *v, "channel"@),
        field_of(e.uploader, *v, "uploader"@),
        field_of(e.playlist_uploader, *v, "playlist_uploader"@),
        e.duration_ms == duration_ms,
{
    SearchEntry {
        ie_key: json_field(v, "ie_key"),
        id: json_field(v, "id"),
        title: json_field(v, "title"),
        channel: json_field(v, "channel"),
        uploader: json_field(v, "uploader"),
        playlist_uploader: json_field(v, "playlist_uploader"),
        duration_ms,
    }
}

/// One mpv message as an [`MpvMessage`]; `data_ms` and `data_bool` are its
/// `data` member as milliseconds and as a boolean, which the caller reads.
pub fn mpv_message(v: &serde_json::Value, data_ms: Option<i64>, data_bool: Option<bool>) -> (m: MpvMessage)
    ensures
        field_of(m.event, *v, "event"@),
        field_of(m.name, *v, "name"@),
        field_of(m.reason, *v, "reason"@),
        m.data_ms == data_ms,
        m.data_bool == data_bool,
{
    MpvMessage {
        event: json_field(v, "event"),
        name: json_field(v, "name"),
        reason: json_field(v, "reason"),
        data_ms,
        data_bool,
    }
}


// ---------------------------------------------------------------------------
// Search output and mpv messages, read member by member
// ---------------------------------------------------------------------------

/// The string member `key` of a document with string members `strings`.
pub open spec fn member(strings: Map<Seq<char>, Seq<char>>, key: Seq<char>) -> Option<Seq<char>> {
    if strings.contains_key(key) { Some(strings[key]) } else { None }
}

/// The string member `key`, or `default`.
pub open spec fn member_or(strings: Map<Seq<char>, Seq<char>>, key: Seq<char>, default: Seq<char>) -> Seq<char> {
    match member(strings, key) {
        Some(x) => x,
        None => default,
    }
}

/// Whether a search result document is a playable video (see
/// [`crate::search::is_video`]).
pub open spec fn doc_is_video(strings: Map<Seq<char>, Seq<char>>) -> bool {
    let key = member_or(strings, "ie_key"@, Seq::empty());
    &&& (key.len() == 0 || key == "Youtube"@)
    &&& encode_utf8(member_or(strings, "id"@, Seq::empty())).len() == 11
}

/// A search result document's channel: the first present member of
/// `channel`, `uploader`, `playlist_uploader`, if it is a string.
pub open spec fn doc_channel(keys: Set<Seq<char>>, strings: Map<Seq<char>, Seq<char>>) -> Seq<char> {
    if keys.contains("channel"@) {
        member_or(strings, "channel"@, Seq::empty())
    } else if keys.contains("uploader"@) {
        member_or(strings, "uploader"@, Seq::empty())
    } else {
        member_or(strings, "playlist_uploader"@, Seq::empty())
    }
}

/// Whether `t` is the track of a video document with length `d`.
pub open spec fn doc_track(
    keys: Set<Seq<char>>,
    strings: Map<Seq<char>, Seq<char>>,
    d: Option<u64>,
    t: Track,
) -> bool {
    &&& t.id@ == member_or(strings, "id"@, Seq::empty())
    &&& t.title@ == member_or(strings, "title"@, "(no title)"@)
    &&& t.channel@ == doc_channel(keys, strings)
    &&& t.duration_ms == d
}

/// `ts` holds, in order, one track for each video among the documents
/// `vs`, whose lengths are `ds`.
pub open spec fn value_tracks(vs: Seq<serde_json::Value>, ds: Seq<Option<u64>>, ts: Seq<Track>) -> bool
    decreases vs.len(),
{
    if vs.len() == 0 {
        ts.len() == 0
    } else {
        let v = vs.last();
        let rest = value_tracks(vs.drop_last(), ds.drop_last(), if doc_is_video(json_strings(v)) {
            ts.drop_last()
        } else {
            ts
        });
        if doc_is_video(json_strings(v)) {
            ts.len() > 0 && doc_track(json_keys(v), json_strings(v), ds.last(), ts.last()) && rest
        } else {
            rest
        }
    }
}

/// The lines, in order, that `serde_json` accepts as JSON documents.
pub open spec fn accepted(lines: Seq<Seq<char>>) -> Seq<Seq<char>>
    decreases lines.len(),
{
    if lines.len() == 0 {
        Seq::empty()
    } else {
        let r = accepted(lines.drop_last());
        if json_accepts(lines.last()) { r.push(lines.last()) } else { r }
    }
}

/// `vs` are the documents of the accepted ones among `lines`, in order.
pub open spec fn documents_of(lines: Seq<Seq<char>>, vs: Seq<serde_json::Value>) -> bool {
    &&& vs.len() == accepted(lines).len()
    &&& forall|i: int|
        0 <= i < vs.len() ==> json_keys(#[trigger] vs[i]) == json_doc_keys(accepted(lines)[i])
            && json_strings(vs[i]) == json_doc_strings(accepted(lines)[i])
}

proof fn lemma_field_reads(f: Field, v: serde_json::Value, key: Seq<char>, default: Seq<char>)
    requires
        field_of(f, v, key),
    ensures
        str_or(f, default) == member_or(json_strings(v), key, default),
        field_str(f) == member(json_strings(v), key),
        (f is Absent) == !json_keys(v).contains(key),
{
}

/// The JSON documents of a search's output: its non-blank lines, as text,
/// that parse, in order (a line that does not parse is skipped).
pub fn search_documents(stdout: &[u8]) -> (r: Vec<serde_json::Value>)
    ensures
        documents_of(nonblank_lines_of(lossy_text(stdout@)), r@),
{
    let text = lossy_utf8(stdout);
    let lines = nonblank_lines(text.as_str());
    let ghost ls = lines@.map_values(|l: String| l@);
    let mut out: Vec<serde_json::Value> = Vec::new();
    let n = lines.len();
    assert(ls.take(0) =~= Seq::<Seq<char>>::empty());
    for i in 0..n
        invariant
            n == lines@.len(),
            ls == lines@.map_values(|l: String| l@),
            documents_of(ls.take(i as int), out@),
    {
        assert(ls.take(i + 1).drop_last() =~= ls.take(i as int));
        assert(ls.take(i + 1).last() == lines@[i as int]@);
        let ghost before = out@;
        match json_parse(lines[i].as_str()) {
            Some(v) => {
                out.push(v);
                assert(accepted(ls.take(i + 1)) == accepted(ls.take(i as int)).push(ls[i as int]));
                assert forall|j: int| 0 <= j < out@.len() implies json_keys(#[trigger] out@[j])
                    == json_doc_keys(accepted(ls.take(i + 1))[j]) && json_strings(out@[j])
                    == json_doc_strings(accepted(ls.take(i + 1))[j]) by {
                    if j < before.len() {
                        assert(out@[j] == before[j]);
                    }
                }
            },
            None => {
                assert(accepted(ls.take(i + 1)) == accepted(ls.take(i as int)));
            },
        }
    }
    assert(ls.take(n as int) =~= ls);
    out
}

/// Whether `e` is what [`search_entry`] reads from document `v` with length
/// `d`.
pub open spec fn entry_reads(e: SearchEntry, v: serde_json::Value, d: Option<u64>) -> bool {
    &&& field_of(e.ie_key, v, "ie_key"@)
    &&& field_of(e.id, v, "id"@)
    &&& field_of(e.title, v, "title"@)
    &&& field_of(e.channel, v, "channel"@)
    &&& field_of(e.uploader, v, "uploader"@)
    &&& field_of(e.playlist_uploader, v, "playlist_uploader"@)
    &&& e.duration_ms == d
}

proof fn lemma_entry_reads(e: SearchEntry, v: serde_json::Value, d: Option<u64>, t: Track)
    requires
        entry_reads(e, v, d),
    ensures
        is_video(e) == doc_is_video(json_strings(v)),
        track_of(e, t) ==> doc_track(json_keys(v), json_strings(v), d, t),
{
    lemma_field_reads(e.ie_key, v, "ie_key"@, Seq::empty());
    lemma_field_reads(e.id, v, "id"@, Seq::empty());
    lemma_field_reads(e.title, v, "title"@, "(no title)"@);
    lemma_field_reads(e.channel, v, "channel"@, Seq::empty());
    lemma_field_reads(e.uploader, v, "uploader"@, Seq::empty());
    lemma_field_reads(e.playlist_uploader, v, "playlist_uploader"@, Seq::empty());
}

proof fn lemma_entries_tracks(
    es: Seq<SearchEntry>,
    vs: Seq<serde_json::Value>,
    ds: Seq<Option<u64>>,
    ts: Seq<Track>,
)
    requires
        es.len() == vs.len(),
        es.len() == ds.len(),
        forall|j: int| 0 <= j < es.len() ==> entry_reads(#[trigger] es[j], vs[j], ds[j]),
        tracks_of(es, ts),
    ensures
        value_tracks(vs, ds, ts),
    decreases es.len(),
{
    if es.len() > 0 {
        let last = es.len() - 1;
        assert(entry_reads(es[last], vs[last], ds[last]));
        lemma_entry_reads(es.last(), vs.last(), ds.last(), ts.last());
        let rest = if is_video(es.last()) { ts.drop_last() } else { ts };
        assert forall|j: int| 0 <= j < es.drop_last().len() implies entry_reads(
            #[trigger] es.drop_last()[j],
            vs.drop_last()[j],
            ds.drop_last()[j],
        ) by {
            assert(entry_reads(es[j], vs[j], ds[j]));
        }
        lemma_entries_tracks(es.drop_last(), vs.drop_last(), ds.drop_last(), rest);
    }
}

/// The tracks of a search: one for each video among the documents `docs`,
/// in order, with the lengths `durations` (read by the caller, one per
/// document).
pub fn search_results(docs: &Vec<serde_json::Value>, durations: &Vec<Option<u64>>) -> (r: Vec<Track>)
    requires
        docs@.len() == durations@.len(),
    ensures
        value_tracks(docs@, durations@, r@),
{
    let mut entries: Vec<SearchEntry> = Vec::new();
    let n = docs.len();
    for i in 0..n
        invariant
            n == docs@.len(),
            n == durations@.len(),
            entries@.len() == i,
            forall|j: int| 0 <= j < i ==> entry_reads(#[trigger] entries@[j], docs@[j], durations@[j]),
    {
        entries.push(search_entry(&docs[i], durations[i]));
    }
    let r = tracks_from_entries(&entries);
    proof {
        lemma_entries_tracks(entries@, docs@, durations@, r@);
    }
    r
}

/// What an mpv message means to the player (see [`means_of`]), given its
/// `data` member as milliseconds and as a boolean (read by the caller).
pub fn mpv_event(v: &serde_json::Value, data_ms: Option<i64>, data_bool: Option<bool>) -> (r: Option<MpvEvent>)
    ensures
        means_of(
            member(json_strings(*v), "event"@),
            member(json_strings(*v), "name"@),
            member(json_strings(*v), "reason"@),
            data_ms,
            data_bool,
            r,
        ),
{
    let m = mpv_message(v, data_ms, data_bool);
    proof {
        lemma_field_reads(m.event, *v, "event"@, Seq::empty());
        lemma_field_reads(m.name, *v, "name"@, Seq::empty());
        lemma_field_reads(m.reason, *v, "reason"@, Seq::empty());
    }
    parse_event(&m)
}

} // verus!
