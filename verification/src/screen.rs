//! The text that the screen shows: pane titles, list rows, the now-playing
//! glyph and words, the time label, the status line and the help box's
//! placement. Drawing it is the caller's part.
use vstd::prelude::*;
use crate::app::{visible_status, App};
use crate::text::{
    clock, dec, dec_right3, push_dec, string_push, trunc, truncated, unknown_time, fmt_time,
    unknown_time_string,
};
use crate::types::{duration_text, Track};

verus! {

/// The key summary shown in the status line when there is nothing else.
pub fn help_line() -> (r: &'static str)
    ensures
        r@ == " /:search  Tab:focus  j/k:move  Enter:play  a:add  m:more  dd:del  Space/p:pause  n/N:next/prev  </>/seek  l:loop  +/-:vol  ?:help  q:quit "@,
{
    " /:search  Tab:focus  j/k:move  Enter:play  a:add  m:more  dd:del  Space/p:pause  n/N:next/prev  </>/seek  l:loop  +/-:vol  ?:help  q:quit "
}

/// The search box title.
pub open spec fn search_title_text(searching: bool) -> Seq<char> {
    if searching { " Search  (searching…) "@ } else { " Search "@ }
}

pub fn search_title(searching: bool) -> (r: &'static str)
    ensures
        r@ == search_title_text(searching),
{
    if searching { " Search  (searching…) " } else { " Search " }
}

/// The results pane title, with the number of results.
pub open spec fn results_title_text(n: nat) -> Seq<char> {
    " Results ("@ + dec(n) + ") "@
}

pub fn results_title(n: usize) -> (r: String)
    ensures
        r@ == results_title_text(n as nat),
{
    let mut s = String::from_str(" Results (");
    push_dec(&mut s, n as u64);
    s.append(") ");
    s
}

/// The playlist pane title: the playing position (1-based, 0 when nothing
/// plays) over the length.
pub open spec fn playlist_title_text(current: Option<usize>, len: nat) -> Seq<char> {
    let pos: nat = match current {
        Some(i) => (i + 1) as nat,
        None => 0,
    };
    " Playlist ("@ + dec(pos) + "/"@ + dec(len) + ") "@
}

pub fn playlist_title(current: Option<usize>, len: usize) -> (r: String)
    requires
        current matches Some(i) ==> i < len,
    ensures
        r@ == playlist_title_text(current, len as nat),
{
    let pos: u64 = match current {
        Some(i) => i as u64 + 1,
        None => 0,
    };
    let mut s = String::from_str(" Playlist (");
    push_dec(&mut s, pos);
    s.append("/");
    push_dec(&mut s, len as u64);
    s.append(") ");
    s
}

/// The pieces of one list row: the number column, the (cut) title and the
/// length column.
#[derive(Debug, PartialEq, Eq)]
pub struct RowText {
    pub idx: String,
    pub title: String,
    pub dur: String,
}

/// The number column of row `i`: `i + 1` right-aligned in three places,
/// then `. `.
pub open spec fn row_number(i: nat) -> Seq<char> {
    dec_right3(i + 1) + ". "@
}

/// The length column: two spaces, then the track length.
pub open spec fn row_duration(d: Option<u64>) -> Seq<char> {
    "  "@ + duration_text(d)
}

/// Room left for the title in a row of `width` columns after `reserved`
/// columns, but never less than 10.
pub open spec fn title_room(width: nat, reserved: nat) -> nat {
    let left: nat = if width > reserved { (width - reserved) as nat } else { 0 };
    if left < 10 { 10 } else { left }
}

/// What a result row shows as its title: the title, then ` — channel` when
/// the channel is known.
pub open spec fn result_label(t: Track) -> Seq<char> {
    if t.channel@.len() > 0 { t.title@ + " — "@ + t.channel@ } else { t.title@ }
}

/// A row of the results pane. The number and length columns are ASCII, so
/// their widths are their lengths; two more columns go to the highlight
/// symbol.
pub open spec fn result_row_text(i: nat, t: Track, width: nat) -> (Seq<char>, Seq<char>, Seq<char>) {
    let idx = row_number(i);
    let dur = row_duration(t.duration_ms);
    let avail = title_room(width, idx.len() + dur.len() + 2);
    (idx, truncated(result_label(t), avail), dur)
}

/// A row of the playlist pane; the playing track's `♪ ` marker takes four
/// bytes of the reserved room, a blank marker two.
pub open spec fn playlist_row_text(i: nat, t: Track, is_current: bool, width: nat) -> (
    Seq<char>,
    Seq<char>,
    Seq<char>,
) {
    let idx = row_number(i);
    let dur = row_duration(t.duration_ms);
    let marker_bytes: nat = if is_current { 4 } else { 2 };
    let avail = title_room(width, marker_bytes + idx.len() + dur.len() + 2);
    (idx, truncated(t.title@, avail), dur)
}

fn number_column(i: usize) -> (r: String)
    requires
        i < usize::MAX,
    ensures
        r@ == row_number(i as nat),
{
    let n = i as u64 + 1;
    let mut s = String::new();
    if n < 10 {
        string_push(&mut s, ' ');
        string_push(&mut s, ' ');
    } else if n < 100 {
        string_push(&mut s, ' ');
    }
    push_dec(&mut s, n);
    s.append(". ");
    proof {
        if n < 10 {
            assert(seq![' ', ' '] + dec(n as nat) =~= Seq::<char>::empty().push(' ').push(' ') + dec(n as nat));
        } else if n < 100 {
            assert(seq![' '] + dec(n as nat) =~= Seq::<char>::empty().push(' ') + dec(n as nat));
        } else {
            assert(Seq::<char>::empty() + dec(n as nat) =~= dec(n as nat));
        }
    }
    s
}

fn duration_column(t: &Track) -> (r: String)
    ensures
        r@ == row_duration(t.duration_ms),
{
    String::from_str("  ").concat(t.duration_str().as_str())
}

fn room(width: usize, reserved: usize) -> (r: usize)
    ensures
        r == title_room(width as nat, reserved as nat),
{
    let left = width.saturating_sub(reserved);
    if left < 10 { 10 } else { left }
}

/// The row for result `i` in a pane `width` columns wide.
pub fn result_row(i: usize, t: &Track, width: usize) -> (r: RowText)
    requires
        i < usize::MAX,
    ensures
        (r.idx@, r.title@, r.dur@) == result_row_text(i as nat, *t, width as nat),
{
    let idx = number_column(i);
    let dur = duration_column(t);
    let reserved = idx.unicode_len().saturating_add(dur.unicode_len()).saturating_add(2);
    assert(reserved == idx@.len() + dur@.len() + 2) by {
        assert(idx@.len() < 30 && dur@.len() < 80) by {
            reveal_strlit(". ");
            reveal_strlit("  ");
            lemma_dec_short(i as nat + 1);
            lemma_clock_short(t.duration_ms);
        }
    }
    let avail = room(width, reserved);
    let label = if t.channel.unicode_len() > 0 {
        t.title.clone().concat(" — ").concat(t.channel.as_str())
    } else {
        t.title.clone()
    };
    RowText { idx, title: trunc(label.as_str(), avail), dur }
}

/// The row for playlist entry `i` in a pane `width` columns wide.
pub fn playlist_row(i: usize, t: &Track, is_current: bool, width: usize) -> (r: RowText)
    requires
        i < usize::MAX,
    ensures
        (r.idx@, r.title@, r.dur@) == playlist_row_text(i as nat, *t, is_current, width as nat),
{
    let idx = number_column(i);
    let dur = duration_column(t);
    let marker: usize = if is_current { 4 } else { 2 };
    let reserved = marker.saturating_add(idx.unicode_len()).saturating_add(dur.unicode_len()).saturating_add(2);
    assert(reserved == marker + idx@.len() + dur@.len() + 2) by {
        assert(idx@.len() < 30 && dur@.len() < 80) by {
            reveal_strlit(". ");
            reveal_strlit("  ");
            lemma_dec_short(i as nat + 1);
            lemma_clock_short(t.duration_ms);
        }
    }
    let avail = room(width, reserved);
    RowText { idx, title: trunc(t.title.as_str(), avail), dur }
}

/// Numerals of numbers below 2^64 have at most 20 digits.
proof fn lemma_dec_short(n: nat)
    requires
        n <= u64::MAX + 1,
    ensures
        dec(n).len() <= 20,
        dec_right3(n).len() <= 22,
{
    reveal_with_fuel(pow10, 21);
    assert(pow10(20) == 100000000000000000000nat);
    lemma_dec_digits(n, 20);
}

proof fn lemma_dec_digits(n: nat, k: nat)
    requires
        k >= 1,
        n < pow10(k),
    ensures
        dec(n).len() <= k,
    decreases k,
{
    if n >= 10 {
        assert(n / 10 < pow10((k - 1) as nat)) by {
            assert(pow10(k) == 10 * pow10((k - 1) as nat));
        }
        lemma_dec_digits(n / 10, (k - 1) as nat);
    }
}

spec fn pow10(k: nat) -> nat
    decreases k,
{
    if k == 0 { 1 } else { 10 * pow10((k - 1) as nat) }
}

proof fn lemma_clock_short(d: Option<u64>)
    ensures
        duration_text(d).len() <= 70,
{
    if let Some(ms) = d {
        let total = (ms / 1000) as nat;
        lemma_dec_short(total / 3600);
        lemma_dec_short((total % 3600) / 60);
        lemma_dec_short(total % 60);
        assert(crate::text::dec2((total % 3600) / 60).len() <= 20);
        assert(crate::text::dec2(total % 60).len() <= 20);
    }
}

/// The now-playing glyph: idle, loading, paused or playing.
pub open spec fn state_glyph_text(playing: bool, loading: bool, paused: bool) -> Seq<char> {
    if !playing { "■"@ } else if loading { "…"@ } else if paused { "❚❚"@ } else { "▶"@ }
}

/// The now-playing state word.
pub open spec fn state_word_text(playing: bool, loading: bool, paused: bool) -> Seq<char> {
    if !playing { "idle"@ } else if loading { "loading…"@ } else if paused { "paused"@ } else { "playing"@ }
}

/// The position over the length: `m:ss / m:ss`, with `--:--` for a
/// position that is unknown or negative and a length that is unknown or
/// not positive.
pub open spec fn time_label_text(pos: Option<i64>, dur: Option<i64>) -> Seq<char> {
    let p = match pos {
        Some(ms) => if ms >= 0 { clock((ms / 1000) as nat) } else { unknown_time() },
        None => unknown_time(),
    };
    let d = match dur {
        Some(ms) => if ms > 0 { clock((ms / 1000) as nat) } else { unknown_time() },
        None => unknown_time(),
    };
    p + " / "@ + d
}

/// What the status line shows.
#[derive(Debug, PartialEq, Eq)]
pub enum StatusLine {
    /// A fresh status message, padded with one space on each side.
    Message(String),
    /// The count being typed.
    Count(String),
    /// The key summary.
    Help,
}

/// The view of a [`StatusLine`].
pub enum StatusLineView {
    Message(Seq<char>),
    Count(Seq<char>),
    Help,
}

impl View for StatusLine {
    type V = StatusLineView;

    open spec fn view(&self) -> StatusLineView {
        match self {
            StatusLine::Message(s) => StatusLineView::Message(s@),
            StatusLine::Count(s) => StatusLineView::Count(s@),
            StatusLine::Help => StatusLineView::Help,
        }
    }
}

impl App {
    /// The now-playing glyph.
    pub fn state_glyph(&self) -> (r: &'static str)
        ensures
            r@ == state_glyph_text(self.current is Some, self.loading, self.paused),
    {
        if self.current.is_none() {
            "■"
        } else if self.loading {
            "…"
        } else if self.paused {
            "❚❚"
        } else {
            "▶"
        }
    }

    /// The now-playing state word.
    pub fn state_word(&self) -> (r: &'static str)
        ensures
            r@ == state_word_text(self.current is Some, self.loading, self.paused),
    {
        if self.current.is_none() {
            "idle"
        } else if self.loading {
            "loading…"
        } else if self.paused {
            "paused"
        } else {
            "playing"
        }
    }

    /// The position and length of the current track as `pos / length`.
    pub fn time_label(&self) -> (r: String)
        ensures
            r@ == time_label_text(self.time_pos, self.duration),
    {
        let mut s = match self.time_pos {
            Some(ms) => if ms >= 0 { fmt_time((ms / 1000) as u64) } else { unknown_time_string() },
            None => unknown_time_string(),
        };
        s.append(" / ");
        let d = match self.duration {
            Some(ms) => if ms > 0 { fmt_time((ms / 1000) as u64) } else { unknown_time_string() },
            None => unknown_time_string(),
        };
        s.append(d.as_str());
        s
    }

    /// The status line at time `now`: a fresh message first, else the count
    /// being typed, else the key summary.
    pub fn status_line(&self, now: u64) -> (r: StatusLine)
        ensures
            r@ == match visible_status(self@, now) {
                Some(m) => StatusLineView::Message(" "@ + m + " "@),
                None => match self.pending_count {
                    Some(n) => StatusLineView::Count(dec(n as nat)),
                    None => StatusLineView::Help,
                },
            },
    {
        match self.status_text(now) {
            Some(m) => {
                let s = String::from_str(" ").concat(m).concat(" ");
                StatusLine::Message(s)
            },
            None => match self.pending_count {
                Some(n) => {
                    let mut s = String::new();
                    push_dec(&mut s, n as u64);
                    StatusLine::Count(s)
                },
                None => StatusLine::Help,
            },
        }
    }
}

/// `a + b`, or `u16::MAX` where the sum does not fit.
pub open spec fn add_capped(a: int, b: int) -> u16 {
    if a + b > u16::MAX { u16::MAX } else { (a + b) as u16 }
}

/// The help box: at most 78 by 22 cells, 8 columns and 4 rows smaller than
/// the screen where that is less, centred on it (a corner past the end of
/// the `u16` coordinate space stops at its last cell).
pub open spec fn help_box(x: u16, y: u16, width: u16, height: u16) -> (u16, u16, u16, u16) {
    let w: int = if width >= 8 { width - 8 } else { 0 };
    let w2: int = if w > 78 { 78 } else { w };
    let h: int = if height >= 4 { height - 4 } else { 0 };
    let h2: int = if h > 22 { 22 } else { h };
    (add_capped(x as int, (width - w2) / 2), add_capped(y as int, (height - h2) / 2), w2 as u16, h2 as u16)
}

/// Where the help box goes on a screen area at `(x, y)` of `width` by
/// `height` cells.
pub fn help_rect(x: u16, y: u16, width: u16, height: u16) -> (r: (u16, u16, u16, u16))
    ensures
        r == help_box(x, y, width, height),
{
    let w = {
        let a = width.saturating_sub(8);
        if a > 78 { 78 } else { a }
    };
    let h = {
        let a = height.saturating_sub(4);
        if a > 22 { 22 } else { a }
    };
    (x.saturating_add((width - w) / 2), y.saturating_add((height - h) / 2), w, h)
}

} // verus!
