//! Turning the entries that a `yt-dlp` search prints into playable tracks.
use vstd::prelude::*;
use vstd::utf8::{encode_scalar, encode_utf8};
use crate::text::push_dec;
use crate::types::Track;

verus! {

/// One member of a JSON object, as far as the search reads it: missing, a
/// string, or some other JSON value (such as `null`).
pub enum Field {
    Absent,
    Str(String),
    Other,
}

/// The string a member holds, if it holds one.
pub open spec fn field_str(f: Field) -> Option<Seq<char>> {
    match f {
        Field::Str(s) => Some(s@),
        _ => None,
    }
}

/// The string a member holds, or `default`.
pub open spec fn str_or(f: Field, default: Seq<char>) -> Seq<char> {
    match field_str(f) {
        Some(s) => s,
        None => default,
    }
}

/// One line of `yt-dlp --flat-playlist -j` output: the members the player
/// reads, and the `duration` member in milliseconds when it is a finite,
/// non-negative number.
pub struct SearchEntry {
    pub ie_key: Field,
    pub id: Field,
    pub title: Field,
    pub channel: Field,
    pub uploader: Field,
    pub playlist_uploader: Field,
    pub duration_ms: Option<u64>,
}

/// Whether an entry is a playable video: its extractor key is missing,
/// empty or `Youtube` (channels and playlists carry others), and its id is
/// exactly 11 bytes long, as YouTube video ids are.
pub open spec fn is_video(e: SearchEntry) -> bool {
    let key = str_or(e.ie_key, Seq::empty());
    &&& (key.len() == 0 || key == "Youtube"@)
    &&& encode_utf8(str_or(e.id, Seq::empty())).len() == 11
}

/// The entry's channel: the first of `channel`, `uploader` and
/// `playlist_uploader` that is present, if it is a string; else empty.
pub open spec fn channel_of(e: SearchEntry) -> Seq<char> {
    if !(e.channel is Absent) {
        str_or(e.channel, Seq::empty())
    } else if !(e.uploader is Absent) {
        str_or(e.uploader, Seq::empty())
    } else {
        str_or(e.playlist_uploader, Seq::empty())
    }
}

/// Whether `t` is the track made from the video entry `e`; a missing title
/// reads `(no title)`.
pub open spec fn track_of(e: SearchEntry, t: Track) -> bool {
    &&& t.id@ == str_or(e.id, Seq::empty())
    &&& t.title@ == str_or(e.title, "(no title)"@)
    &&& t.channel@ == channel_of(e)
    &&& t.duration_ms == e.duration_ms
}

fn str_or_exec(f: &Field, default: &str) -> (r: String)
    ensures
        r@ == str_or(*f, default@),
{
    match f {
        Field::Str(s) => s.clone(),
        _ => String::from_str(default),
    }
}

/// Whether the UTF-8 encoding of `s` is exactly `n` bytes long (what
/// `str::len` measures).
pub fn utf8_len_is(s: &str, n: usize) -> (r: bool)
    ensures
        r == (encode_utf8(s@).len() == n),
{
    let len = s.unicode_len();
    let mut total: usize = 0;
    let mut i: usize = 0;
    assert(s@.skip(0) =~= s@);
    while i < len
        invariant
            len == s@.len(),
            i <= len,
            total <= n,
            total + encode_utf8(s@.skip(i as int)).len() == encode_utf8(s@).len(),
        decreases len - i,
    {
        let c = s.get_char(i);
        let v = c as u32;
        let w: usize = if v <= 0x7f {
            1
        } else if v <= 0x7ff {
            2
        } else if v <= 0xffff {
            3
        } else {
            4
        };
        proof {
            let rest = s@.skip(i as int);
            assert(rest[0] == c);
            assert(rest.drop_first() =~= s@.skip(i + 1));
            assert(encode_scalar(v).len() == w);
        }
        if w > n - total {
            return false;
        }
        total = total + w;
        i = i + 1;
    }
    proof {
        assert(s@.skip(len as int) =~= Seq::<char>::empty());
    }
    total == n
}

/// The track for one search entry, or `None` for anything but a playable
/// video.
pub fn track_from_entry(e: &SearchEntry) -> (r: Option<Track>)
    ensures
        match r {
            Some(t) => is_video(*e) && track_of(*e, t),
            None => !is_video(*e),
        },
{
    proof {
        reveal_strlit("");
        assert(""@ =~= Seq::<char>::empty());
    }
    let key = str_or_exec(&e.ie_key, "");
    if !key.as_str().is_empty() && !(key == String::from_str("Youtube")) {
        return None;
    }
    let id = str_or_exec(&e.id, "");
    if !utf8_len_is(id.as_str(), 11) {
        return None;
    }
    let title = str_or_exec(&e.title, "(no title)");
    let channel = match &e.channel {
        Field::Absent => match &e.uploader {
            Field::Absent => str_or_exec(&e.playlist_uploader, ""),
            f => str_or_exec(f, ""),
        },
        f => str_or_exec(f, ""),
    };
    Some(Track { id, title, channel, duration_ms: e.duration_ms })
}

/// `tracks` holds one track for each video entry of `entries`, in order.
pub open spec fn tracks_of(entries: Seq<SearchEntry>, tracks: Seq<Track>) -> bool
    decreases entries.len(),
{
    if entries.len() == 0 {
        tracks.len() == 0
    } else if is_video(entries.last()) {
        tracks.len() > 0 && track_of(entries.last(), tracks.last()) && tracks_of(
            entries.drop_last(),
            tracks.drop_last(),
        )
    } else {
        tracks_of(entries.drop_last(), tracks)
    }
}

/// The tracks of a search's output: every playable video, in the order
/// printed; everything else is skipped.
pub fn tracks_from_entries(entries: &Vec<SearchEntry>) -> (r: Vec<Track>)
    ensures
        tracks_of(entries@, r@),
{
    let mut out: Vec<Track> = Vec::new();
    let n = entries.len();
    for i in 0..n
        invariant
            n == entries@.len(),
            tracks_of(entries@.take(i as int), out@),
    {
        let ghost prev = out@;
        assert(entries@.take(i + 1).drop_last() =~= entries@.take(i as int));
        assert(entries@.take(i + 1).last() == entries@[i as int]);
        match track_from_entry(&entries[i]) {
            Some(t) => {
                out.push(t);
                assert(out@.drop_last() =~= prev);
            },
            None => {},
        }
    }
    assert(entries@.take(n as int) =~= entries@);
    out
}

/// The `yt-dlp` target that searches YouTube for the first `limit` hits of
/// `query`: `ytsearch{limit}:{query}`.
pub fn search_target(limit: usize, query: &str) -> (r: String)
    ensures
        r@ == "ytsearch"@ + crate::text::dec(limit as nat) + ":"@ + query@,
{
    let mut s = String::from_str("ytsearch");
    push_dec(&mut s, limit as u64);
    s.append(":");
    s.append(query);
    s
}

} // verus!
