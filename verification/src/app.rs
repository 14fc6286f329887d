//! The player's state machine: what each key press and each report from the
//! search, the stream resolver and the audio player does to the state, and
//! which outside actions it asks for.
//!
//! The caller owns the outside world (terminal, threads, processes, clock):
//! it hands every key and report to [`App`] with the current time in
//! milliseconds, and carries out the [`Action`]s that come back, in order.
use vstd::prelude::*;
use crate::text::{dec, push_dec, string_pop, string_push, str_trim, trimmed, trunc, truncated};
use crate::types::{loop_label, watch_url, Focus, LoopMode, Track};

verus! {

/// Results asked for by one search, and added by each "load more".
pub const RESULTS_PER_QUERY: usize = 30;

/// How long a status message stays on screen, in milliseconds.
pub const STATUS_TTL_MS: u64 = 4000;

/// Playback-error retries before giving up on a track.
pub const MAX_ERROR_RETRIES: u32 = 3;

// ---------------------------------------------------------------------------
// Input, reports and actions
// ---------------------------------------------------------------------------

/// Whether a key went down, repeats while held, or went up.
#[derive(Debug, Clone, Copy, PartialEq, Eq, Structural)]
pub enum KeyKind {
    Press,
    Repeat,
    Release,
}

/// The keys the player tells apart.
#[derive(Debug, Clone, Copy, PartialEq, Eq, Structural)]
pub enum KeyCode {
    Char(char),
    Esc,
    Enter,
    Tab,
    BackTab,
    Backspace,
    Up,
    Down,
    PageUp,
    PageDown,
    Other,
}

/// One key event: the key, how it was pressed, and whether Ctrl was held.
#[derive(Debug, Clone, Copy, PartialEq, Eq, Structural)]
pub struct Key {
    pub code: KeyCode,
    pub kind: KeyKind,
    pub ctrl: bool,
}

/// A finished search: its request number and the tracks found, or the error.
#[derive(Debug)]
pub enum SearchEvent {
    Results(u64, Vec<Track>),
    Error(u64, String),
}

/// A finished stream-URL resolution for play request `req`.
#[derive(Debug, PartialEq, Eq)]
pub enum ResolveEvent {
    Resolved { req: u64, stream_url: String },
    Failed { req: u64, err: String },
}

/// A report from the audio player. Times are in milliseconds; `None` stands
/// for a value that is not a finite number (mpv reports none while idle).
#[derive(Debug, PartialEq, Eq)]
pub enum PlayerEvent {
    TimePos(Option<i64>),
    Duration(Option<i64>),
    Paused(bool),
    StartFile,
    EndFile { reason: String },
}

/// Outside work that a step asks for.
#[derive(Debug, PartialEq, Eq)]
pub enum Action {
    /// Run a search for `query`, asking for `limit` results, tagged `req`.
    Search { query: String, limit: usize, req: u64 },
    /// Resolve the stream URL of the video at `url`, tagged `req`.
    Resolve { req: u64, url: String },
    /// Have the player load `url`; report the outcome with
    /// [`App::on_loadfile_result`].
    LoadFile { url: String },
    /// Stop playback.
    Stop,
    /// Pause or resume.
    TogglePause,
    /// Seek by this many seconds.
    Seek(i64),
    /// Change the volume by this many percent.
    AddVolume(i64),
}

/// An [`Action`] with its strings as character sequences.
pub enum ActionView {
    Search { query: Seq<char>, limit: usize, req: u64 },
    Resolve { req: u64, url: Seq<char> },
    LoadFile { url: Seq<char> },
    Stop,
    TogglePause,
    Seek(i64),
    AddVolume(i64),
}

impl View for Action {
    type V = ActionView;

    open spec fn view(&self) -> ActionView {
        match self {
            Action::Search { query, limit, req } => ActionView::Search {
                query: query@,
                limit: *limit,
                req: *req,
            },
            Action::Resolve { req, url } => ActionView::Resolve { req: *req, url: url@ },
            Action::LoadFile { url } => ActionView::LoadFile { url: url@ },
            Action::Stop => ActionView::Stop,
            Action::TogglePause => ActionView::TogglePause,
            Action::Seek(s) => ActionView::Seek(*s),
            Action::AddVolume(d) => ActionView::AddVolume(*d),
        }
    }
}

/// The views of a list of actions.
pub open spec fn acts_view(v: Seq<Action>) -> Seq<ActionView> {
    v.map_values(|a: Action| a@)
}

broadcast use crate::text::lemma_add_nothing;

fn emit(out: &mut Vec<Action>, a: Action)
    ensures
        acts_view(final(out)@) == acts_view(old(out)@).push(a@),
{
    let ghost av = a@;
    out.push(a);
    assert(acts_view(out@) =~= acts_view(old(out)@).push(av));
}

// ---------------------------------------------------------------------------
// State
// ---------------------------------------------------------------------------

/// The whole state of the player, as the key handler and the event handlers
/// see and change it.
pub struct App {
    pub focus: Focus,
    pub query: String,
    pub results: Vec<Track>,
    pub playlist: Vec<Track>,
    pub results_sel: usize,
    pub playlist_sel: usize,
    /// Index in `playlist` of the track being played.
    pub current: Option<usize>,
    pub paused: bool,
    pub loading: bool,
    /// Playback position in milliseconds, `None` while unknown.
    pub time_pos: Option<i64>,
    /// Length of the current track in milliseconds, `None` while unknown.
    pub duration: Option<i64>,
    pub loop_mode: LoopMode,
    pub show_help: bool,
    /// The status message and the time (ms) it was set.
    pub status: Option<(String, u64)>,
    pub searching: bool,
    pub search_req: u64,
    pub last_query: String,
    pub results_limit: usize,
    pub jump_to_on_results: Option<usize>,
    pub play_req: u64,
    pub pending_g: bool,
    pub pending_d: bool,
    pub error_retries: u32,
    pub should_quit: bool,
    pub pending_count: Option<u32>,
}

/// The mathematical value of an [`App`].
pub struct AppView {
    pub focus: Focus,
    pub query: Seq<char>,
    pub results: Seq<Track>,
    pub playlist: Seq<Track>,
    pub results_sel: usize,
    pub playlist_sel: usize,
    pub current: Option<usize>,
    pub paused: bool,
    pub loading: bool,
    pub time_pos: Option<i64>,
    pub duration: Option<i64>,
    pub loop_mode: LoopMode,
    pub show_help: bool,
    pub status: Option<(Seq<char>, u64)>,
    pub searching: bool,
    pub search_req: u64,
    pub last_query: Seq<char>,
    pub results_limit: usize,
    pub jump_to_on_results: Option<usize>,
    pub play_req: u64,
    pub pending_g: bool,
    pub pending_d: bool,
    pub error_retries: u32,
    pub should_quit: bool,
    pub pending_count: Option<u32>,
}

impl View for App {
    type V = AppView;

    open spec fn view(&self) -> AppView {
        AppView {
            focus: self.focus,
            query: self.query@,
            results: self.results@,
            playlist: self.playlist@,
            results_sel: self.results_sel,
            playlist_sel: self.playlist_sel,
            current: self.current,
            paused: self.paused,
            loading: self.loading,
            time_pos: self.time_pos,
            duration: self.duration,
            loop_mode: self.loop_mode,
            show_help: self.show_help,
            status: match self.status {
                Some(st) => Some((st.0@, st.1)),
                None => None,
            },
            searching: self.searching,
            search_req: self.search_req,
            last_query: self.last_query@,
            results_limit: self.results_limit,
            jump_to_on_results: self.jump_to_on_results,
            play_req: self.play_req,
            pending_g: self.pending_g,
            pending_d: self.pending_d,
            error_retries: self.error_retries,
            should_quit: self.should_quit,
            pending_count: self.pending_count,
        }
    }
}

impl AppView {
    /// The state's own consistency: both cursors and the playing index point
    /// into their lists (a cursor may be 0 on an empty list), a typed count is
    /// never 0, and the retry counter never passes its limit.
    pub open spec fn wf(self) -> bool {
        &&& (self.results_sel == 0 || self.results_sel < self.results.len())
        &&& (self.playlist_sel == 0 || self.playlist_sel < self.playlist.len())
        &&& (self.current matches Some(c) ==> c < self.playlist.len())
        &&& (self.pending_count matches Some(n) ==> n >= 1)
        &&& self.error_retries <= MAX_ERROR_RETRIES
    }
}

/// A step that leaves the state `s` and asks for nothing. Steps are pairs
/// of the new state and the actions asked for, in order.
pub open spec fn nothing(s: AppView) -> (AppView, Seq<ActionView>) {
    (s, Seq::empty())
}

/// The request number that follows `r` (wrapping).
pub open spec fn next_req(r: u64) -> u64 {
    if r == u64::MAX { 0 } else { (r + 1) as u64 }
}

fn bump(r: u64) -> (n: u64)
    ensures
        n == next_req(r),
{
    if r == u64::MAX { 0 } else { r + 1 }
}

/// `s` with the status message `msg`, set at time `now`.
pub open spec fn with_status(s: AppView, msg: Seq<char>, now: u64) -> AppView {
    AppView { status: Some((msg, now)), ..s }
}

/// The state when the program starts, with the playlist that was saved.
pub open spec fn initial(saved: Option<Seq<Track>>, now: u64) -> AppView {
    let s = AppView {
        focus: Focus::Playlist,
        query: Seq::empty(),
        results: Seq::empty(),
        playlist: Seq::empty(),
        results_sel: 0,
        playlist_sel: 0,
        current: None,
        paused: false,
        loading: false,
        time_pos: None,
        duration: None,
        loop_mode: LoopMode::Off,
        show_help: false,
        status: None,
        searching: false,
        search_req: 0,
        last_query: Seq::empty(),
        results_limit: RESULTS_PER_QUERY,
        jump_to_on_results: None,
        play_req: 0,
        pending_g: false,
        pending_d: false,
        error_retries: 0,
        should_quit: false,
        pending_count: None,
    };
    match saved {
        Some(p) => if p.len() > 0 {
            AppView {
                playlist: p,
                ..with_status(s, "loaded "@ + dec(p.len()) + " saved tracks"@, now)
            }
        } else {
            AppView { playlist: p, ..s }
        },
        None => s,
    }
}

/// The status text still on screen at time `now`.
pub open spec fn visible_status(s: AppView, now: u64) -> Option<Seq<char>> {
    match s.status {
        Some((msg, t)) => if (if now >= t { now - t } else { 0 }) < STATUS_TTL_MS {
            Some(msg)
        } else {
            None
        },
        None => None,
    }
}

// --- cursor movement -------------------------------------------------------

/// The length of the focused list (the search box has none).
pub open spec fn list_len(s: AppView) -> nat {
    match s.focus {
        Focus::Results => s.results.len(),
        Focus::Playlist => s.playlist.len(),
        Focus::Search => 0,
    }
}

/// The focused cursor (the search box moves the results cursor).
pub open spec fn sel(s: AppView) -> usize {
    match s.focus {
        Focus::Playlist => s.playlist_sel,
        _ => s.results_sel,
    }
}

/// `s` with the focused cursor at `v`.
pub open spec fn with_sel(s: AppView, v: usize) -> AppView {
    match s.focus {
        Focus::Playlist => AppView { playlist_sel: v, ..s },
        _ => AppView { results_sel: v, ..s },
    }
}

/// `cur + delta` kept within `0..len`.
pub open spec fn clamp(cur: int, delta: int, len: int) -> int {
    let n = cur + delta;
    if n < 0 { 0 } else if n >= len { len - 1 } else { n }
}

/// The focused cursor moved by `delta` lines, stopping at either end.
pub open spec fn moved(s: AppView, delta: int) -> AppView {
    let len = list_len(s);
    if len == 0 { s } else { with_sel(s, clamp(sel(s) as int, delta, len as int) as usize) }
}

/// `gg`: the focused cursor on the first line.
pub open spec fn to_top(s: AppView) -> AppView {
    with_sel(s, 0)
}

/// `G`: the focused cursor on the last line.
pub open spec fn to_bottom(s: AppView) -> AppView {
    if list_len(s) > 0 { with_sel(s, (list_len(s) - 1) as usize) } else { s }
}

// --- playback --------------------------------------------------------------

/// Nothing playing any more: the player is told to stop, and the play
/// request number moves on so that a late resolution is ignored.
pub open spec fn stopped(s: AppView) -> (AppView, Seq<ActionView>) {
    (
        AppView {
            current: None,
            time_pos: None,
            duration: None,
            paused: false,
            loading: false,
            play_req: next_req(s.play_req),
            ..s
        },
        seq![ActionView::Stop],
    )
}

/// Starts playlist entry `idx`: a new play request resolves its stream URL.
pub open spec fn play_at(s: AppView, idx: usize, now: u64) -> (AppView, Seq<ActionView>) {
    if idx < s.playlist.len() {
        let t = s.playlist[idx as int];
        let req = next_req(s.play_req);
        (
            AppView {
                current: Some(idx),
                time_pos: None,
                duration: None,
                paused: false,
                loading: true,
                error_retries: 0,
                play_req: req,
                status: Some(("resolving: "@ + truncated(t.title@, 60), now)),
                ..s
            },
            seq![ActionView::Resolve { req, url: watch_url(t.id@) }],
        )
    } else {
        nothing(s)
    }
}


// --- playlist editing -------------------------------------------------------

/// `Enter`: in the results, appends the highlighted result to the playlist
/// and plays it; in the playlist, plays the highlighted track.
pub open spec fn activated(s: AppView, now: u64) -> (AppView, Seq<ActionView>) {
    match s.focus {
        Focus::Results => if s.results_sel < s.results.len() {
            let idx = s.playlist.len() as usize;
            play_at(
                AppView {
                    playlist: s.playlist.push(s.results[s.results_sel as int]),
                    playlist_sel: idx,
                    ..s
                },
                idx,
                now,
            )
        } else {
            nothing(s)
        },
        Focus::Playlist => if s.playlist_sel < s.playlist.len() {
            play_at(s, s.playlist_sel, now)
        } else {
            nothing(s)
        },
        Focus::Search => nothing(s),
    }
}

/// `a`: appends the highlighted result to the playlist.
pub open spec fn added_selected(s: AppView, now: u64) -> AppView {
    if s.results_sel < s.results.len() {
        let t = s.results[s.results_sel as int];
        with_status(
            AppView { playlist: s.playlist.push(t), ..s },
            "added: "@ + truncated(t.title@, 60),
            now,
        )
    } else {
        s
    }
}

/// `A`: appends every result to the playlist, in order.
pub open spec fn added_all(s: AppView, now: u64) -> AppView {
    with_status(
        AppView { playlist: s.playlist + s.results, ..s },
        "added "@ + dec(s.results.len()) + " tracks"@,
        now,
    )
}

/// `a + b`, or `usize::MAX` where that overflows.
pub open spec fn sat_add(a: usize, b: usize) -> usize {
    if a + b > usize::MAX { usize::MAX } else { (a + b) as usize }
}

/// `m`: asks the last search again for 30 more results, and remembers where
/// the new ones will start.
pub open spec fn more_loaded(s: AppView, now: u64) -> (AppView, Seq<ActionView>) {
    if s.last_query.len() == 0 || s.searching {
        nothing(s)
    } else {
        let limit = sat_add(s.results_limit, RESULTS_PER_QUERY);
        let req = next_req(s.search_req);
        (
            with_status(
                AppView {
                    results_limit: limit,
                    search_req: req,
                    searching: true,
                    jump_to_on_results: Some(s.results.len() as usize),
                    ..s
                },
                "loading up to "@ + dec(limit as nat) + " results…"@,
                now,
            ),
            seq![ActionView::Search { query: s.last_query, limit, req }],
        )
    }
}

/// The playing index once entry `i` left the playlist: playback stops if
/// it was that entry, and an index after it moves down by one.
pub open spec fn reindexed(s: AppView, i: usize) -> (AppView, Seq<ActionView>) {
    match s.current {
        Some(c) => if c == i {
            stopped(s)
        } else if c > i {
            nothing(AppView { current: Some((c - 1) as usize), ..s })
        } else {
            nothing(s)
        },
        None => nothing(s),
    }
}

/// Removes the highlighted playlist entry. Deleting the playing track stops
/// playback; deleting one before it keeps the same track playing.
pub open spec fn deleted(s: AppView, now: u64) -> (AppView, Seq<ActionView>) {
    if s.playlist_sel >= s.playlist.len() {
        nothing(s)
    } else {
        let r = entry_removed(s);
        (
            with_status(r.0, "removed: "@ + truncated(s.playlist[s.playlist_sel as int].title@, 60), now),
            r.1,
        )
    }
}

/// The highlighted entry taken out of the playlist, with the playing index
/// and the cursor adjusted (the cursor moves up when it was on the last
/// entry).
pub open spec fn entry_removed(s: AppView) -> (AppView, Seq<ActionView>) {
    let i = s.playlist_sel;
    let r = reindexed(AppView { playlist: s.playlist.remove(i as int), ..s }, i);
    let new_sel = if i >= r.0.playlist.len() && i > 0 { (i - 1) as usize } else { i };
    (AppView { playlist_sel: new_sel, ..r.0 }, r.1)
}

/// `[n]dd`: [`deleted`] `n` times.
pub open spec fn deleted_times(s: AppView, n: nat, now: u64) -> (AppView, Seq<ActionView>)
    decreases n,
{
    if n == 0 {
        nothing(s)
    } else {
        let (s1, a1) = deleted(s, now);
        let (s2, a2) = deleted_times(s1, (n - 1) as nat, now);
        (s2, a1 + a2)
    }
}

/// `n`: plays the track `inc` places after the current one. Past the end it
/// wraps to the top when the whole list loops; otherwise a key press only
/// says so, while a track that ended by itself stops playback. With nothing
/// playing, it starts from the top.
pub open spec fn next_played(s: AppView, inc: usize, auto: bool, now: u64) -> (
    AppView,
    Seq<ActionView>,
) {
    let len = s.playlist.len();
    if len == 0 {
        nothing(s)
    } else {
        match s.current {
            None => play_at(AppView { playlist_sel: 0, ..s }, 0, now),
            Some(cur) => {
                let next = sat_add(cur, inc);
                if next < len {
                    play_at(AppView { playlist_sel: next, ..s }, next, now)
                } else if s.loop_mode == LoopMode::Playlist {
                    play_at(AppView { playlist_sel: 0, ..s }, 0, now)
                } else if !auto {
                    nothing(with_status(s, "end of playlist"@, now))
                } else {
                    stopped(s)
                }
            },
        }
    }
}

/// `N`: plays the track `dec` places before the current one; before the top
/// it wraps to the bottom when the whole list loops, else it stops at the top.
pub open spec fn prev_played(s: AppView, dec: usize, now: u64) -> (AppView, Seq<ActionView>) {
    let len = s.playlist.len();
    if len == 0 {
        nothing(s)
    } else {
        match s.current {
            None => play_at(AppView { playlist_sel: 0, ..s }, 0, now),
            Some(cur) => {
                let prev: usize = if cur >= dec {
                    (cur - dec) as usize
                } else if s.loop_mode == LoopMode::Playlist {
                    (len - 1) as usize
                } else {
                    0
                };
                play_at(AppView { playlist_sel: prev, ..s }, prev, now)
            },
        }
    }
}

/// The loop cycle: off, then the whole list, then one track, then off.
pub open spec fn next_loop(m: LoopMode) -> LoopMode {
    match m {
        LoopMode::Off => LoopMode::Playlist,
        LoopMode::Playlist => LoopMode::One,
        LoopMode::One => LoopMode::Off,
    }
}

/// The quick repeat toggle: one track, or off when it already was.
pub open spec fn repeat_toggled(m: LoopMode) -> LoopMode {
    match m {
        LoopMode::One => LoopMode::Off,
        _ => LoopMode::One,
    }
}

/// `s` in loop mode `m`, announced in the status line.
pub open spec fn with_loop(s: AppView, m: LoopMode, now: u64) -> AppView {
    with_status(AppView { loop_mode: m, ..s }, "loop: "@ + loop_label(m), now)
}

/// The typed count, or 1 when none was typed.
pub open spec fn count_of(p: Option<u32>) -> int {
    match p {
        Some(n) => n as int,
        None => 1,
    }
}

/// A count used as a number of tracks to skip.
pub open spec fn count_steps(n: int) -> usize {
    n as usize
}

/// The state with the typed count consumed.
pub open spec fn count_taken(s: AppView) -> AppView {
    AppView { pending_count: None, ..s }
}

/// Seeking only applies while a track is selected for playback.
pub open spec fn seek_acts(s: AppView, secs: int) -> Seq<ActionView> {
    if s.current is Some { seq![ActionView::Seek(secs as i64)] } else { Seq::empty() }
}


// --- keys ---------------------------------------------------------------------

/// Tab: the results and the playlist swap focus; the search box hands it to
/// the results.
pub open spec fn focus_toggled(f: Focus) -> Focus {
    match f {
        Focus::Results => Focus::Playlist,
        Focus::Playlist => Focus::Results,
        Focus::Search => Focus::Results,
    }
}

/// A key typed in the search box.
pub open spec fn search_key(s: AppView, k: Key, now: u64) -> (AppView, Seq<ActionView>) {
    match k.code {
        KeyCode::Tab => nothing(AppView { focus: Focus::Results, ..s }),
        KeyCode::Enter => {
            let q = trimmed(s.query);
            if q.len() > 0 {
                let req = next_req(s.search_req);
                (
                    with_status(
                        AppView {
                            last_query: q,
                            results_limit: RESULTS_PER_QUERY,
                            jump_to_on_results: None,
                            search_req: req,
                            searching: true,
                            ..s
                        },
                        "searching…"@,
                        now,
                    ),
                    seq![ActionView::Search { query: q, limit: RESULTS_PER_QUERY, req }],
                )
            } else {
                nothing(s)
            }
        },
        KeyCode::Backspace => nothing(
            if s.query.len() > 0 { AppView { query: s.query.drop_last(), ..s } } else { s },
        ),
        KeyCode::Char(c) => if c == 'j' && k.ctrl {
            nothing(AppView { focus: Focus::Results, ..s })
        } else if c == 'l' && k.ctrl {
            nothing(AppView { focus: Focus::Playlist, ..s })
        } else {
            nothing(AppView { query: s.query.push(c), ..s })
        },
        _ => nothing(s),
    }
}

/// The digit a key types, if it is one.
pub open spec fn key_digit(k: Key) -> Option<u32> {
    match k.code {
        KeyCode::Char(c) => if '0' <= c && c <= '9' {
            Some((c as u32 - '0' as u32) as u32)
        } else {
            None
        },
        _ => None,
    }
}

/// The typed count after one more digit (saturating at `u32::MAX`).
pub open spec fn accumulated(p: Option<u32>, d: u32) -> u32 {
    let base: int = match p {
        Some(n) => n as int,
        None => 0,
    };
    let m: int = if base * 10 > u32::MAX { u32::MAX as int } else { base * 10 };
    if m + d > u32::MAX { u32::MAX } else { (m + d) as u32 }
}

/// A count used as a number of repetitions.
pub open spec fn repetitions(n: int) -> nat {
    if n > 0 { n as nat } else { 0 }
}

/// Keys that take the typed count: movement, track skipping and seeking.
pub open spec fn count_key(s: AppView, k: Key, now: u64) -> (AppView, Seq<ActionView>) {
    let n = count_of(s.pending_count);
    let t = count_taken(s);
    match k.code {
        KeyCode::Down => nothing(moved(t, n)),
        KeyCode::Up => if k.ctrl {
            nothing(AppView { focus: Focus::Search, ..s })
        } else {
            nothing(moved(t, -n))
        },
        KeyCode::PageDown => nothing(moved(t, 10 * n)),
        KeyCode::PageUp => nothing(moved(t, -10 * n)),
        KeyCode::Char(c) => if c == 'j' {
            nothing(moved(t, n))
        } else if c == 'k' {
            if k.ctrl {
                nothing(AppView { focus: Focus::Search, ..s })
            } else {
                nothing(moved(t, -n))
            }
        } else if c == 'd' && k.ctrl {
            nothing(moved(t, 10 * n))
        } else if c == 'u' && k.ctrl {
            nothing(moved(t, -10 * n))
        } else if c == 'n' {
            next_played(t, count_steps(n), false, now)
        } else if c == 'N' {
            prev_played(t, count_steps(n), now)
        } else if c == '>' {
            (t, seek_acts(t, if k.kind == KeyKind::Repeat { 60 } else { 10 * n }))
        } else if c == '<' {
            (t, seek_acts(t, if k.kind == KeyKind::Repeat { -60 } else { -(10 * n) }))
        } else {
            nothing(s)
        },
        _ => nothing(s),
    }
}

/// `C`: empties the playlist and stops playback.
pub open spec fn cleared(s: AppView, now: u64) -> (AppView, Seq<ActionView>) {
    let r = stopped(AppView { playlist: Seq::empty(), playlist_sel: 0, ..s });
    (with_status(r.0, "playlist cleared"@, now), r.1)
}

/// Command keys, once the typed count has been used or dropped.
pub open spec fn command_key(s: AppView, k: Key, now: u64) -> (AppView, Seq<ActionView>) {
    match k.code {
        KeyCode::Tab => nothing(AppView { focus: focus_toggled(s.focus), ..s }),
        KeyCode::BackTab => nothing(AppView { focus: focus_toggled(s.focus), ..s }),
        KeyCode::Enter => activated(s, now),
        KeyCode::Char(c) => if c == 'q' {
            nothing(AppView { should_quit: true, ..s })
        } else if c == '?' {
            nothing(AppView { show_help: true, ..s })
        } else if c == '/' {
            nothing(AppView { focus: Focus::Search, query: Seq::empty(), ..s })
        } else if c == 'g' {
            nothing(AppView { pending_g: true, ..s })
        } else if c == 'G' {
            nothing(to_bottom(s))
        } else if c == 'C' && s.focus == Focus::Playlist {
            cleared(s, now)
        } else if c == 'a' && s.focus == Focus::Results {
            nothing(added_selected(s, now))
        } else if c == 'A' && s.focus == Focus::Results {
            nothing(added_all(s, now))
        } else if c == 'm' && s.focus == Focus::Results {
            more_loaded(s, now)
        } else if c == ' ' || c == 'p' {
            (s, if s.current is Some { seq![ActionView::TogglePause] } else { Seq::empty() })
        } else if c == 'h' {
            nothing(
                if k.ctrl && s.focus == Focus::Playlist {
                    AppView { focus: Focus::Results, ..s }
                } else {
                    s
                },
            )
        } else if c == 'l' {
            nothing(
                if k.ctrl && s.focus == Focus::Results {
                    AppView { focus: Focus::Playlist, ..s }
                } else {
                    with_loop(s, next_loop(s.loop_mode), now)
                },
            )
        } else if c == 'r' {
            nothing(with_loop(s, repeat_toggled(s.loop_mode), now))
        } else if c == '+' || c == '=' {
            (s, seq![ActionView::AddVolume(5i64)])
        } else if c == '-' {
            (s, seq![ActionView::AddVolume(-5i64)])
        } else {
            nothing(s)
        },
        _ => nothing(s),
    }
}

/// A key after the `g` / `d` prefixes: a digit extends the typed count;
/// anything else first runs as a count key, then (with the count dropped)
/// as a command key.
pub open spec fn after_prefix(s: AppView, k: Key, now: u64) -> (AppView, Seq<ActionView>) {
    match key_digit(k) {
        Some(d) => if d > 0 || s.pending_count is Some {
            nothing(AppView { pending_count: Some(accumulated(s.pending_count, d)), ..s })
        } else {
            counted_then_command(s, k, now)
        },
        None => counted_then_command(s, k, now),
    }
}

/// A key that is not a digit: first as a count key, then as a command key.
pub open spec fn counted_then_command(s: AppView, k: Key, now: u64) -> (AppView, Seq<ActionView>) {
    let a = count_key(s, k, now);
    let b = command_key(count_taken(a.0), k, now);
    (b.0, a.1 + b.1)
}

/// A plain `d` (with Ctrl, `d` pages down instead).
pub open spec fn is_plain_d(k: Key) -> bool {
    k.code == KeyCode::Char('d') && !k.ctrl
}

/// A key in the results or the playlist: `gg` jumps to the top, `dd` (with
/// a count: that many times) deletes from the playlist.
pub open spec fn list_key(s: AppView, k: Key, now: u64) -> (AppView, Seq<ActionView>) {
    if s.pending_g && k.code == KeyCode::Char('g') {
        nothing(to_top(AppView { pending_g: false, ..s }))
    } else {
        let s1 = AppView { pending_g: false, ..s };
        if s1.pending_d {
            let s2 = AppView { pending_d: false, ..s1 };
            if is_plain_d(k) {
                if s2.focus == Focus::Playlist {
                    deleted_times(
                        count_taken(s2),
                        repetitions(count_of(s2.pending_count)),
                        now,
                    )
                } else {
                    nothing(s2)
                }
            } else {
                after_prefix(s2, k, now)
            }
        } else if is_plain_d(k) {
            nothing(
                if s1.focus == Focus::Playlist { AppView { pending_d: true, ..s1 } } else { s1 },
            )
        } else {
            after_prefix(s1, k, now)
        }
    }
}

/// What one key event does. Releases are ignored; `Esc` quits, and so does
/// `q` except where it is typed into the search box; the help overlay
/// swallows other keys (`?` closes it); the search box edits the query;
/// elsewhere the vim-style keys apply.
pub open spec fn key_step(s: AppView, k: Key, now: u64) -> (AppView, Seq<ActionView>) {
    if k.kind == KeyKind::Release {
        nothing(s)
    } else if k.code == KeyCode::Esc {
        nothing(AppView { should_quit: true, ..s })
    } else if s.show_help {
        nothing(
            if k.code == KeyCode::Char('?') {
                AppView { show_help: false, ..s }
            } else if k.code == KeyCode::Char('q') {
                AppView { show_help: false, should_quit: true, ..s }
            } else {
                s
            },
        )
    } else if s.focus == Focus::Search {
        search_key(s, k, now)
    } else {
        list_key(s, k, now)
    }
}

// --- reports -----------------------------------------------------------------

/// A finished search. Only the latest request counts: its tracks replace the
/// results, the cursor goes to the first new one after "load more" (else to
/// the top), and focus leaves the search box.
pub open spec fn search_step(s: AppView, ev: SearchEvent, now: u64) -> AppView {
    match ev {
        SearchEvent::Results(id, tracks) => if id != s.search_req {
            s
        } else {
            let n = tracks@.len();
            let sel: usize = match s.jump_to_on_results {
                Some(j) => if j < n { j } else { 0 },
                None => 0,
            };
            with_status(
                AppView {
                    searching: false,
                    results: tracks@,
                    results_sel: sel,
                    jump_to_on_results: None,
                    focus: if s.focus == Focus::Search { Focus::Results } else { s.focus },
                    ..s
                },
                dec(n) + " results"@,
                now,
            )
        },
        SearchEvent::Error(id, e) => if id != s.search_req {
            s
        } else {
            with_status(AppView { searching: false, ..s }, "search error: "@ + truncated(e@, 80), now)
        },
    }
}

/// A finished resolution. Only the latest play request counts: its URL goes
/// to the player, or its failure is shown.
pub open spec fn resolve_step(s: AppView, ev: ResolveEvent, now: u64) -> (AppView, Seq<ActionView>) {
    match ev {
        ResolveEvent::Resolved { req, stream_url } => if req != s.play_req {
            nothing(s)
        } else {
            (s, seq![ActionView::LoadFile { url: stream_url@ }])
        },
        ResolveEvent::Failed { req, err } => if req != s.play_req {
            nothing(s)
        } else {
            nothing(
                with_status(
                    AppView { loading: false, ..s },
                    "resolve failed: "@ + truncated(err@, 120),
                    now,
                ),
            )
        },
    }
}

/// The player's answer to a `LoadFile`: its error, or `None` when it took
/// the URL.
pub open spec fn loadfile_step(s: AppView, err: Option<Seq<char>>, now: u64) -> AppView {
    match err {
        Some(e) => with_status(AppView { loading: false, ..s }, "mpv error: "@ + e, now),
        None => match s.current {
            Some(i) => if i < s.playlist.len() {
                with_status(s, "playing: "@ + truncated(s.playlist[i as int].title@, 60), now)
            } else {
                s
            },
            None => s,
        },
    }
}

/// A playback error: the current track is resolved afresh, at most three
/// times in a row; then playback gives up.
pub open spec fn error_retried(s: AppView, now: u64) -> (AppView, Seq<ActionView>) {
    if s.error_retries < MAX_ERROR_RETRIES {
        match s.current {
            Some(i) => if i < s.playlist.len() {
                let r = (s.error_retries + 1) as u32;
                let req = next_req(s.play_req);
                (
                    with_status(
                        AppView { error_retries: r, play_req: req, loading: true, ..s },
                        "playback error, retrying… ("@ + dec(r as nat) + "/3)"@,
                        now,
                    ),
                    seq![ActionView::Resolve { req, url: watch_url(s.playlist[i as int].id@) }],
                )
            } else {
                nothing(AppView { loading: false, ..s })
            },
            None => nothing(AppView { loading: false, ..s }),
        }
    } else {
        nothing(
            with_status(
                AppView { loading: false, ..s },
                "mpv: playback error (gave up after 3 retries)"@,
                now,
            ),
        )
    }
}

/// A track came to its end: repeat it in loop-one mode, else go on to the
/// next one.
pub open spec fn track_ended(s: AppView, now: u64) -> (AppView, Seq<ActionView>) {
    if s.loop_mode == LoopMode::One {
        match s.current {
            Some(i) => play_at(s, i, now),
            None => nothing(s),
        }
    } else {
        next_played(s, 1, true, now)
    }
}

/// A report from the player.
pub open spec fn player_step(s: AppView, ev: PlayerEvent, now: u64) -> (AppView, Seq<ActionView>) {
    match ev {
        PlayerEvent::TimePos(t) => nothing(
            if t is Some {
                AppView { time_pos: t, loading: false, error_retries: 0, ..s }
            } else {
                AppView { time_pos: t, ..s }
            },
        ),
        PlayerEvent::Duration(d) => nothing(AppView { duration: d, ..s }),
        PlayerEvent::Paused(p) => nothing(AppView { paused: p, ..s }),
        PlayerEvent::StartFile => nothing(AppView { paused: false, loading: true, ..s }),
        PlayerEvent::EndFile { reason } => if reason@ == "eof"@ {
            track_ended(s, now)
        } else if reason@ == "error"@ {
            error_retried(s, now)
        } else {
            nothing(s)
        },
    }
}


/// Once the cursor is past the end of the playlist, further deletions
/// change nothing.
pub proof fn lemma_deleted_times_noop(s: AppView, k: nat, now: u64)
    requires
        s.playlist_sel >= s.playlist.len(),
    ensures
        deleted_times(s, k, now) == nothing(s),
    decreases k,
{
    if k > 0 {
        lemma_deleted_times_noop(s, (k - 1) as nat, now);
        assert(Seq::<ActionView>::empty() + Seq::<ActionView>::empty() =~= Seq::<ActionView>::empty());
    }
}

impl App {
    /// The starting state, with the playlist that was saved last time (if
    /// any); a non-empty one is announced in the status line.
    pub fn new(saved: Option<Vec<Track>>, now: u64) -> (r: App)
        ensures
            r@ == initial(
                match saved {
                    Some(v) => Some(v@),
                    None => None,
                },
                now,
            ),
    {
        let mut app = App {
            focus: Focus::Playlist,
            query: String::new(),
            results: Vec::new(),
            playlist: Vec::new(),
            results_sel: 0,
            playlist_sel: 0,
            current: None,
            paused: false,
            loading: false,
            time_pos: None,
            duration: None,
            loop_mode: LoopMode::Off,
            show_help: false,
            status: None,
            searching: false,
            search_req: 0,
            last_query: String::new(),
            results_limit: RESULTS_PER_QUERY,
            jump_to_on_results: None,
            play_req: 0,
            pending_g: false,
            pending_d: false,
            error_retries: 0,
            should_quit: false,
            pending_count: None,
        };
        if let Some(saved) = saved {
            if saved.len() > 0 {
                let mut msg = String::from_str("loaded ");
                push_dec(&mut msg, saved.len() as u64);
                msg.append(" saved tracks");
                app.set_status(msg, now);
            }
            app.playlist = saved;
        }
        app
    }

    /// Shows `msg` in the status line from time `now` on.
    pub fn set_status(&mut self, msg: String, now: u64)
        ensures
            final(self)@ == with_status(old(self)@, msg@, now),
    {
        self.status = Some((msg, now));
    }

    /// The status message, while it is less than four seconds old.
    pub fn status_text(&self, now: u64) -> (r: Option<&str>)
        ensures
            match r {
                Some(t) => visible_status(self@, now) == Some(t@),
                None => visible_status(self@, now) is None,
            },
    {
        match &self.status {
            Some((msg, t)) => {
                if now.saturating_sub(*t) < STATUS_TTL_MS {
                    Some(msg.as_str())
                } else {
                    None
                }
            },
            None => None,
        }
    }

    fn list_len(&self) -> (n: usize)
        ensures
            n == list_len(self@),
    {
        match self.focus {
            Focus::Results => self.results.len(),
            Focus::Playlist => self.playlist.len(),
            Focus::Search => 0,
        }
    }

    fn sel(&self) -> (n: usize)
        ensures
            n == sel(self@),
    {
        match self.focus {
            Focus::Playlist => self.playlist_sel,
            _ => self.results_sel,
        }
    }

    fn set_sel(&mut self, v: usize)
        ensures
            final(self)@ == with_sel(old(self)@, v),
    {
        match self.focus {
            Focus::Playlist => self.playlist_sel = v,
            _ => self.results_sel = v,
        }
    }

    fn move_sel(&mut self, delta: i64)
        ensures
            final(self)@ == moved(old(self)@, delta as int),
    {
        let len = self.list_len();
        if len == 0 {
            return;
        }
        let cur = self.sel();
        let t: i128 = cur as i128 + delta as i128;
        let next: usize = if t < 0 {
            0
        } else if t >= len as i128 {
            len - 1
        } else {
            t as usize
        };
        self.set_sel(next);
    }

    fn go_top(&mut self)
        ensures
            final(self)@ == to_top(old(self)@),
    {
        self.set_sel(0);
    }

    fn go_bottom(&mut self)
        ensures
            final(self)@ == to_bottom(old(self)@),
    {
        let len = self.list_len();
        if len > 0 {
            self.set_sel(len - 1);
        }
    }


    fn take_pending_count(&mut self) -> (n: i64)
        ensures
            n == count_of(old(self)@.pending_count),
            0 <= n <= u32::MAX,
            final(self)@ == count_taken(old(self)@),
    {
        let n: i64 = match self.pending_count {
            Some(c) => c as i64,
            None => 1,
        };
        self.pending_count = None;
        n
    }

    fn activate(&mut self, now: u64, out: &mut Vec<Action>)
        ensures
            final(self)@ == activated(old(self)@, now).0,
            acts_view(final(out)@) == acts_view(old(out)@) + activated(old(self)@, now).1,
    {
        match self.focus {
            Focus::Results => {
                if self.results_sel < self.results.len() {
                    let t = self.results[self.results_sel].clone();
                    self.playlist.push(t);
                    let idx = self.playlist.len() - 1;
                    self.playlist_sel = idx;
                    self.play_index(idx, now, out);
                } else {
                }
            },
            Focus::Playlist => {
                if self.playlist_sel < self.playlist.len() {
                    self.play_index(self.playlist_sel, now, out);
                } else {
                }
            },
            Focus::Search => {
            },
        }
    }

    fn add_selected_to_playlist(&mut self, now: u64)
        ensures
            final(self)@ == added_selected(old(self)@, now),
    {
        if self.results_sel < self.results.len() {
            let t = self.results[self.results_sel].clone();
            let mut msg = String::from_str("added: ");
            msg.append(trunc(t.title.as_str(), 60).as_str());
            self.playlist.push(t);
            self.set_status(msg, now);
        }
    }

    fn add_all_to_playlist(&mut self, now: u64)
        ensures
            final(self)@ == added_all(old(self)@, now),
    {
        let n = self.results.len();
        let ghost s0 = self@;
        for i in 0..n
            invariant
                n == self.results.len(),
                s0 == old(self)@,
                self@ == (AppView { playlist: s0.playlist + s0.results.take(i as int), ..s0 }),
        {
            let t = self.results[i].clone();
            self.playlist.push(t);
            assert(s0.results.take(i as int).push(s0.results[i as int]) =~= s0.results.take(i + 1));
        }
        assert(s0.results.take(n as int) =~= s0.results);
        let mut msg = String::from_str("added ");
        push_dec(&mut msg, n as u64);
        msg.append(" tracks");
        self.set_status(msg, now);
    }

    fn load_more_results(&mut self, now: u64, out: &mut Vec<Action>)
        ensures
            final(self)@ == more_loaded(old(self)@, now).0,
            acts_view(final(out)@) == acts_view(old(out)@) + more_loaded(old(self)@, now).1,
    {
        if self.last_query.as_str().is_empty() || self.searching {
            return;
        }
        let old_count = self.results.len();
        self.results_limit = self.results_limit.saturating_add(RESULTS_PER_QUERY);
        self.search_req = bump(self.search_req);
        self.searching = true;
        self.jump_to_on_results = Some(old_count);
        emit(out, Action::Search {
            query: self.last_query.clone(),
            limit: self.results_limit,
            req: self.search_req,
        });
        let mut msg = String::from_str("loading up to ");
        push_dec(&mut msg, self.results_limit as u64);
        msg.append(" results…");
        self.set_status(msg, now);
        assert(seq![ActionView::Search { query: old(self)@.last_query, limit: self.results_limit, req: self.search_req }] =~= more_loaded(old(self)@, now).1);
    }

    fn reindex_after_removal(&mut self, i: usize, out: &mut Vec<Action>)
        ensures
            final(self)@ == reindexed(old(self)@, i).0,
            acts_view(final(out)@) == acts_view(old(out)@) + reindexed(old(self)@, i).1,
    {
        match self.current {
            Some(c) => {
                if c == i {
                    self.clear_now_playing(out);
                } else if c > i {
                    self.current = Some(c - 1);
                } else {
                }
            },
            None => {
            },
        }
    }

    fn remove_selected(&mut self, out: &mut Vec<Action>) -> (removed: Track)
        requires
            old(self).playlist_sel < old(self).playlist.len(),
        ensures
            removed == old(self).playlist@[old(self).playlist_sel as int],
            final(self)@ == entry_removed(old(self)@).0,
            acts_view(final(out)@) == acts_view(old(out)@) + entry_removed(old(self)@).1,
    {
        let ghost s0 = self@;
        let i = self.playlist_sel;
        let removed = self.playlist.remove(i);
        let ghost s1 = self@;
        assert(s1 == AppView { playlist: s0.playlist.remove(i as int), ..s0 });
        self.reindex_after_removal(i, out);
        let ghost r = reindexed(s1, i);
        assert(self@ == r.0);
        if self.playlist_sel >= self.playlist.len() && self.playlist_sel > 0 {
            self.playlist_sel = self.playlist_sel - 1;
        }
        assert(self@ == entry_removed(s0).0);
        removed
    }

    fn delete_playlist_current(&mut self, now: u64, out: &mut Vec<Action>)
        ensures
            final(self)@ == deleted(old(self)@, now).0,
            acts_view(final(out)@) == acts_view(old(out)@) + deleted(old(self)@, now).1,
    {
        if self.playlist_sel >= self.playlist.len() {
            return;
        }
        let removed = self.remove_selected(out);
        let mut msg = String::from_str("removed: ");
        msg.append(trunc(removed.title.as_str(), 60).as_str());
        self.set_status(msg, now);
    }

    fn next_track(&mut self, inc: usize, auto: bool, now: u64, out: &mut Vec<Action>)
        ensures
            final(self)@ == next_played(old(self)@, inc, auto, now).0,
            acts_view(final(out)@) == acts_view(old(out)@) + next_played(old(self)@, inc, auto, now).1,
    {
        let len = self.playlist.len();
        if len == 0 {
            return;
        }
        match self.current {
            None => {
                self.playlist_sel = 0;
                self.play_index(0, now, out);
            },
            Some(cur) => {
                let next = cur.saturating_add(inc);
                if next < len {
                    self.playlist_sel = next;
                    self.play_index(next, now, out);
                } else if self.loop_mode == LoopMode::Playlist {
                    self.playlist_sel = 0;
                    self.play_index(0, now, out);
                } else if !auto {
                    self.set_status(String::from_str("end of playlist"), now);
                } else {
                    self.clear_now_playing(out);
                }
            },
        }
    }

    fn prev_track(&mut self, dec: usize, now: u64, out: &mut Vec<Action>)
        ensures
            final(self)@ == prev_played(old(self)@, dec, now).0,
            acts_view(final(out)@) == acts_view(old(out)@) + prev_played(old(self)@, dec, now).1,
    {
        let len = self.playlist.len();
        if len == 0 {
            return;
        }
        match self.current {
            None => {
                self.playlist_sel = 0;
                self.play_index(0, now, out);
            },
            Some(cur) => {
                let prev = if cur >= dec {
                    cur - dec
                } else if self.loop_mode == LoopMode::Playlist {
                    len - 1
                } else {
                    0
                };
                self.playlist_sel = prev;
                self.play_index(prev, now, out);
            },
        }
    }

    fn set_loop(&mut self, m: LoopMode, now: u64)
        ensures
            final(self)@ == with_loop(old(self)@, m, now),
    {
        self.loop_mode = m;
        let msg = String::from_str("loop: ").concat(m.label());
        self.set_status(msg, now);
    }

    fn cycle_loop(&mut self, now: u64)
        ensures
            final(self)@ == with_loop(old(self)@, next_loop(old(self)@.loop_mode), now),
    {
        let m = match self.loop_mode {
            LoopMode::Off => LoopMode::Playlist,
            LoopMode::Playlist => LoopMode::One,
            LoopMode::One => LoopMode::Off,
        };
        self.set_loop(m, now);
    }

    fn seek(&self, secs: i64, out: &mut Vec<Action>)
        ensures
            acts_view(final(out)@) == acts_view(old(out)@) + seek_acts(self@, secs as int),
    {
        if self.current.is_some() {
            emit(out, Action::Seek(secs));
            assert(acts_view(old(out)@).push(ActionView::Seek(secs)) =~= acts_view(old(out)@) + seek_acts(self@, secs as int));
        } else {
        }
    }


    fn on_key_search(&mut self, key: Key, now: u64, out: &mut Vec<Action>)
        ensures
            final(self)@ == search_key(old(self)@, key, now).0,
            acts_view(final(out)@) == acts_view(old(out)@) + search_key(old(self)@, key, now).1,
    {
        match key.code {
            KeyCode::Tab => {
                self.focus = Focus::Results;
            },
            KeyCode::Enter => {
                let q = String::from_str(str_trim(self.query.as_str()));
                if !q.as_str().is_empty() {
                    self.last_query = q.clone();
                    self.results_limit = RESULTS_PER_QUERY;
                    self.jump_to_on_results = None;
                    self.search_req = bump(self.search_req);
                    self.searching = true;
                    emit(out, Action::Search { query: q, limit: self.results_limit, req: self.search_req });
                    self.set_status(String::from_str("searching…"), now);
                } else {
                }
            },
            KeyCode::Backspace => {
                let _ = string_pop(&mut self.query);
            },
            KeyCode::Char(c) => {
                if c == 'j' && key.ctrl {
                    self.focus = Focus::Results;
                } else if c == 'l' && key.ctrl {
                    self.focus = Focus::Playlist;
                } else {
                    string_push(&mut self.query, c);
                }
            },
            _ => {
            },
        }
    }

    fn count_key(&mut self, key: Key, now: u64, out: &mut Vec<Action>)
        ensures
            final(self)@ == count_key(old(self)@, key, now).0,
            acts_view(final(out)@) == acts_view(old(out)@) + count_key(old(self)@, key, now).1,
    {
        let ghost s0 = self@;
        let is_down = match key.code {
            KeyCode::Down => true,
            KeyCode::Char(c) => c == 'j',
            _ => false,
        };
        let is_up = match key.code {
            KeyCode::Up => true,
            KeyCode::Char(c) => c == 'k',
            _ => false,
        };
        let page = match key.code {
            KeyCode::PageDown => 1i64,
            KeyCode::PageUp => -1i64,
            KeyCode::Char(c) => if key.ctrl && c == 'd' {
                1
            } else if key.ctrl && c == 'u' {
                -1
            } else {
                0
            },
            _ => 0,
        };
        let ch: Option<char> = match key.code {
            KeyCode::Char(c) => Some(c),
            _ => None,
        };
        if is_down {
            let n = self.take_pending_count();
            self.move_sel(n);
        } else if is_up {
            if key.ctrl {
                self.focus = Focus::Search;
            } else {
                let n = self.take_pending_count();
                self.move_sel(-n);
            }
        } else if page != 0 {
            let n = self.take_pending_count();
            let delta = if page > 0 { 10 * n } else { -(10 * n) };
            self.move_sel(delta);
        } else if ch == Some('n') {
            let n = self.take_pending_count();
            let steps = n as usize;
            self.next_track(steps, false, now, out);
        } else if ch == Some('N') {
            let n = self.take_pending_count();
            let steps = n as usize;
            self.prev_track(steps, now, out);
        } else if ch == Some('>') {
            let n = self.take_pending_count();
            let secs = if key.kind == KeyKind::Repeat { 60 } else { 10 * n };
            self.seek(secs, out);
        } else if ch == Some('<') {
            let n = self.take_pending_count();
            let secs = if key.kind == KeyKind::Repeat { -60 } else { -(10 * n) };
            self.seek(secs, out);
        } else {
        }
    }

    fn clear_playlist(&mut self, now: u64, out: &mut Vec<Action>)
        ensures
            final(self)@ == cleared(old(self)@, now).0,
            acts_view(final(out)@) == acts_view(old(out)@) + cleared(old(self)@, now).1,
    {
        self.playlist.clear();
        self.playlist_sel = 0;
        self.clear_now_playing(out);
        self.set_status(String::from_str("playlist cleared"), now);
    }

    fn command_key(&mut self, key: Key, now: u64, out: &mut Vec<Action>)
        ensures
            final(self)@ == command_key(old(self)@, key, now).0,
            acts_view(final(out)@) == acts_view(old(out)@) + command_key(old(self)@, key, now).1,
    {
        match key.code {
            KeyCode::Tab | KeyCode::BackTab => {
                self.focus = match self.focus {
                    Focus::Results => Focus::Playlist,
                    Focus::Playlist => Focus::Results,
                    Focus::Search => Focus::Results,
                };
            },
            KeyCode::Enter => self.activate(now, out),
            KeyCode::Char(c) => {
                if c == 'q' {
                    self.should_quit = true;
                } else if c == '?' {
                    self.show_help = true;
                } else if c == '/' {
                    self.focus = Focus::Search;
                    self.query = String::new();
                } else if c == 'g' {
                    self.pending_g = true;
                } else if c == 'G' {
                    self.go_bottom();
                } else if c == 'C' && self.focus == Focus::Playlist {
                    self.clear_playlist(now, out);
                } else if c == 'a' && self.focus == Focus::Results {
                    self.add_selected_to_playlist(now);
                } else if c == 'A' && self.focus == Focus::Results {
                    self.add_all_to_playlist(now);
                } else if c == 'm' && self.focus == Focus::Results {
                    self.load_more_results(now, out);
                } else if c == ' ' || c == 'p' {
                    if self.current.is_some() {
                        emit(out, Action::TogglePause);
                    } else {
                    }
                } else if c == 'h' {
                    if key.ctrl && self.focus == Focus::Playlist {
                        self.focus = Focus::Results;
                    }
                } else if c == 'l' {
                    if key.ctrl && self.focus == Focus::Results {
                        self.focus = Focus::Playlist;
                    } else {
                        self.cycle_loop(now);
                    }
                } else if c == 'r' {
                    let m = match self.loop_mode {
                        LoopMode::One => LoopMode::Off,
                        _ => LoopMode::One,
                    };
                    self.set_loop(m, now);
                } else if c == '+' || c == '=' {
                    emit(out, Action::AddVolume(5));
                } else if c == '-' {
                    emit(out, Action::AddVolume(-5));
                } else {
                }
            },
            _ => {
            },
        }
    }

    fn counted_then_command(&mut self, key: Key, now: u64, out: &mut Vec<Action>)
        ensures
            final(self)@ == counted_then_command(old(self)@, key, now).0,
            acts_view(final(out)@) == acts_view(old(out)@) + counted_then_command(old(self)@, key, now).1,
    {
        let ghost o0 = acts_view(out@);
        let ghost a = count_key(self@, key, now);
        self.count_key(key, now, out);
        self.pending_count = None;
        let ghost b = command_key(self@, key, now);
        self.command_key(key, now, out);
        assert(o0 + a.1 + b.1 =~= o0 + (a.1 + b.1));
    }

    fn after_prefix(&mut self, key: Key, now: u64, out: &mut Vec<Action>)
        ensures
            final(self)@ == after_prefix(old(self)@, key, now).0,
            acts_view(final(out)@) == acts_view(old(out)@) + after_prefix(old(self)@, key, now).1,
    {
        let d: Option<u32> = match key.code {
            KeyCode::Char(c) => if '0' <= c && c <= '9' {
                Some(c as u32 - '0' as u32)
            } else {
                None
            },
            _ => None,
        };
        match d {
            Some(d) => {
                if d > 0 || self.pending_count.is_some() {
                    let base: u32 = match self.pending_count {
                        Some(n) => n,
                        None => 0,
                    };
                    let m: u32 = match base.checked_mul(10) {
                        Some(v) => v,
                        None => u32::MAX,
                    };
                    self.pending_count = Some(m.saturating_add(d));
                } else {
                    self.counted_then_command(key, now, out);
                }
            },
            None => self.counted_then_command(key, now, out),
        }
    }

    fn delete_times(&mut self, n: i64, now: u64, out: &mut Vec<Action>)
        ensures
            final(self)@ == deleted_times(old(self)@, repetitions(n as int), now).0,
            acts_view(final(out)@) == acts_view(old(out)@) + deleted_times(old(self)@, repetitions(n as int), now).1,
    {
        let ghost s0 = self@;
        let ghost o0 = acts_view(out@);
        let ghost total = repetitions(n as int);
        let mut i: i64 = 0;
        assert(o0 + deleted_times(s0, total, now).1 =~= acts_view(out@) + deleted_times(self@, total, now).1);
        while i < n && self.playlist_sel < self.playlist.len()
            invariant
                0 <= i,
                n > 0 ==> i <= n,
                n <= 0 ==> i == 0,
                total == repetitions(n as int),
                deleted_times(self@, (total - i) as nat, now).0 == deleted_times(s0, total, now).0,
                acts_view(out@) + deleted_times(self@, (total - i) as nat, now).1
                    == o0 + deleted_times(s0, total, now).1,
            decreases n - i,
        {
            let ghost s = self@;
            let ghost o = acts_view(out@);
            let ghost k = (total - i) as nat;
            self.delete_playlist_current(now, out);
            i = i + 1;
            proof {
                let d = deleted(s, now);
                let rest = deleted_times(d.0, (k - 1) as nat, now);
                assert(deleted_times(s, k, now) == (rest.0, d.1 + rest.1));
                assert(o + (d.1 + rest.1) =~= (o + d.1) + rest.1);
            }
        }
        proof {
            if self.playlist_sel >= self.playlist.len() {
                lemma_deleted_times_noop(self@, (total - i) as nat, now);
            }
            assert(acts_view(out@) + Seq::<ActionView>::empty() =~= acts_view(out@));
        }
    }

    fn list_key(&mut self, key: Key, now: u64, out: &mut Vec<Action>)
        ensures
            final(self)@ == list_key(old(self)@, key, now).0,
            acts_view(final(out)@) == acts_view(old(out)@) + list_key(old(self)@, key, now).1,
    {
        let plain_d = key.code == KeyCode::Char('d') && !key.ctrl;
        if self.pending_g {
            self.pending_g = false;
            if key.code == KeyCode::Char('g') {
                self.go_top();
                return;
            }
        }
        if self.pending_d {
            self.pending_d = false;
            if plain_d {
                if self.focus == Focus::Playlist {
                    let n = self.take_pending_count();
                    self.delete_times(n, now, out);
                } else {
                }
                return;
            }
            self.after_prefix(key, now, out);
        } else if plain_d {
            if self.focus == Focus::Playlist {
                self.pending_d = true;
            }
        } else {
            self.after_prefix(key, now, out);
        }
    }

    /// Handles one key event at time `now` (ms) and returns the actions it
    /// asks for, in order.
    pub fn on_key(&mut self, key: Key, now: u64) -> (out: Vec<Action>)
        ensures
            final(self)@ == key_step(old(self)@, key, now).0,
            acts_view(out@) == key_step(old(self)@, key, now).1,
    {
        let mut out: Vec<Action> = Vec::new();
        assert(acts_view(out@) =~= Seq::<ActionView>::empty());
        if key.kind == KeyKind::Release {
            return out;
        }
        if key.code == KeyCode::Esc {
            self.should_quit = true;
            return out;
        }
        if self.show_help {
            if key.code == KeyCode::Char('?') {
                self.show_help = false;
            } else if key.code == KeyCode::Char('q') {
                self.show_help = false;
                self.should_quit = true;
            }
            return out;
        }
        if self.focus == Focus::Search {
            self.on_key_search(key, now, &mut out);
        } else {
            self.list_key(key, now, &mut out);
        }
        assert(Seq::<ActionView>::empty() + key_step(old(self)@, key, now).1 =~= key_step(old(self)@, key, now).1);
        out
    }

    /// Handles a finished search at time `now`.
    pub fn on_search_event(&mut self, ev: SearchEvent, now: u64)
        ensures
            final(self)@ == search_step(old(self)@, ev, now),
    {
        match ev {
            SearchEvent::Results(id, tracks) => {
                if id != self.search_req {
                    return;
                }
                self.searching = false;
                let n = tracks.len();
                self.results = tracks;
                let sel = match self.jump_to_on_results {
                    Some(j) => if j < n { j } else { 0 },
                    None => 0,
                };
                self.jump_to_on_results = None;
                self.results_sel = sel;
                if self.focus == Focus::Search {
                    self.focus = Focus::Results;
                }
                let mut msg = String::new();
                push_dec(&mut msg, n as u64);
                msg.append(" results");
                self.set_status(msg, now);
            },
            SearchEvent::Error(id, e) => {
                if id != self.search_req {
                    return;
                }
                self.searching = false;
                let mut msg = String::from_str("search error: ");
                msg.append(trunc(e.as_str(), 80).as_str());
                self.set_status(msg, now);
            },
        }
    }

    /// Handles a finished stream resolution at time `now`; a `LoadFile`
    /// that comes back must be answered with [`App::on_loadfile_result`].
    pub fn on_resolve_event(&mut self, ev: ResolveEvent, now: u64) -> (out: Vec<Action>)
        ensures
            final(self)@ == resolve_step(old(self)@, ev, now).0,
            acts_view(out@) == resolve_step(old(self)@, ev, now).1,
    {
        let mut out: Vec<Action> = Vec::new();
        assert(acts_view(out@) =~= Seq::<ActionView>::empty());
        match ev {
            ResolveEvent::Resolved { req, stream_url } => {
                if req == self.play_req {
                    emit(&mut out, Action::LoadFile { url: stream_url });
                    assert(acts_view(out@) =~= seq![ActionView::LoadFile { url: stream_url@ }]);
                }
            },
            ResolveEvent::Failed { req, err } => {
                if req == self.play_req {
                    self.loading = false;
                    let mut msg = String::from_str("resolve failed: ");
                    msg.append(trunc(err.as_str(), 120).as_str());
                    self.set_status(msg, now);
                }
            },
        }
        out
    }

    /// Reports what the player said to a `LoadFile`: `Some(error)` or
    /// `None` for success.
    pub fn on_loadfile_result(&mut self, err: Option<String>, now: u64)
        ensures
            final(self)@ == loadfile_step(
                old(self)@,
                match err {
                    Some(e) => Some(e@),
                    None => None,
                },
                now,
            ),
    {
        match err {
            Some(e) => {
                self.loading = false;
                let msg = String::from_str("mpv error: ").concat(e.as_str());
                self.set_status(msg, now);
            },
            None => {
                if let Some(i) = self.current {
                    if i < self.playlist.len() {
                        let mut msg = String::from_str("playing: ");
                        msg.append(trunc(self.playlist[i].title.as_str(), 60).as_str());
                        self.set_status(msg, now);
                    }
                }
            },
        }
    }

    fn retry_after_error(&mut self, now: u64, out: &mut Vec<Action>)
        ensures
            final(self)@ == error_retried(old(self)@, now).0,
            acts_view(final(out)@) == acts_view(old(out)@) + error_retried(old(self)@, now).1,
    {
        if self.error_retries < MAX_ERROR_RETRIES {
            match self.current {
                Some(i) => {
                    if i < self.playlist.len() {
                        let t = self.playlist[i].clone();
                        self.error_retries = self.error_retries + 1;
                        let mut msg = String::from_str("playback error, retrying… (");
                        push_dec(&mut msg, self.error_retries as u64);
                        msg.append("/3)");
                        self.set_status(msg, now);
                        self.play_req = bump(self.play_req);
                        self.loading = true;
                        emit(out, Action::Resolve { req: self.play_req, url: t.url() });
                    } else {
                        self.loading = false;
                    }
                },
                None => {
                    self.loading = false;
                },
            }
        } else {
            self.loading = false;
            self.set_status(String::from_str("mpv: playback error (gave up after 3 retries)"), now);
        }
    }

    fn end_of_track(&mut self, now: u64, out: &mut Vec<Action>)
        ensures
            final(self)@ == track_ended(old(self)@, now).0,
            acts_view(final(out)@) == acts_view(old(out)@) + track_ended(old(self)@, now).1,
    {
        if self.loop_mode == LoopMode::One {
            match self.current {
                Some(i) => self.play_index(i, now, out),
                None => {
                },
            }
        } else {
            self.next_track(1, true, now, out);
        }
    }

    /// Handles a report from the player at time `now`.
    pub fn on_player_event(&mut self, ev: PlayerEvent, now: u64) -> (out: Vec<Action>)
        ensures
            final(self)@ == player_step(old(self)@, ev, now).0,
            acts_view(out@) == player_step(old(self)@, ev, now).1,
    {
        let mut out: Vec<Action> = Vec::new();
        assert(acts_view(out@) =~= Seq::<ActionView>::empty());
        match ev {
            PlayerEvent::TimePos(t) => {
                self.time_pos = t;
                if t.is_some() {
                    self.loading = false;
                    self.error_retries = 0;
                }
            },
            PlayerEvent::Duration(d) => self.duration = d,
            PlayerEvent::Paused(p) => self.paused = p,
            PlayerEvent::StartFile => {
                self.paused = false;
                self.loading = true;
            },
            PlayerEvent::EndFile { reason } => {
                if reason == String::from_str("eof") {
                    self.end_of_track(now, &mut out);
                } else if reason == String::from_str("error") {
                    self.retry_after_error(now, &mut out);
                }
                assert(Seq::<ActionView>::empty() + player_step(old(self)@, ev, now).1 =~= player_step(old(self)@, ev, now).1);
            },
        }
        out
    }

    fn clear_now_playing(&mut self, out: &mut Vec<Action>)
        ensures
            final(self)@ == stopped(old(self)@).0,
            acts_view(final(out)@) == acts_view(old(out)@) + stopped(old(self)@).1,
    {
        self.current = None;
        self.time_pos = None;
        self.duration = None;
        self.paused = false;
        self.loading = false;
        self.play_req = bump(self.play_req);
        emit(out, Action::Stop);
    }

    fn play_index(&mut self, idx: usize, now: u64, out: &mut Vec<Action>)
        ensures
            final(self)@ == play_at(old(self)@, idx, now).0,
            acts_view(final(out)@) == acts_view(old(out)@) + play_at(old(self)@, idx, now).1,
    {
        if idx >= self.playlist.len() {
            return;
        }
        let t = self.playlist[idx].clone();
        self.current = Some(idx);
        self.time_pos = None;
        self.duration = None;
        self.paused = false;
        self.loading = true;
        self.error_retries = 0;
        self.play_req = bump(self.play_req);
        emit(out, Action::Resolve { req: self.play_req, url: t.url() });
        let mut msg = String::from_str("resolving: ");
        msg.append(trunc(t.title.as_str(), 60).as_str());
        self.set_status(msg, now);
    }
}

} // verus!
