//! Properties of the player that hold across all inputs and across several
//! steps, proved over the transition functions that the handlers in
//! [`crate::app`] are verified against.
use vstd::prelude::*;
use crate::app::{
    activated, added_all, added_selected, after_prefix, cleared, command_key, count_key,
    counted_then_command, deleted, deleted_times, entry_removed, error_retried, initial,
    key_step, list_key, loadfile_step, more_loaded, moved, next_played, play_at, player_step,
    prev_played, reindexed, resolve_step, search_key, search_step, stopped, to_bottom, to_top,
    track_ended, AppView, ActionView, Key, KeyCode, KeyKind, PlayerEvent,
    ResolveEvent, SearchEvent, next_loop, repeat_toggled, nothing,
};
use crate::text::trimmed;
use crate::types::{watch_url, Focus, LoopMode};
use crate::types::Track;


verus! {

// ---------------------------------------------------------------------------
// The state's consistency is kept by every step
// ---------------------------------------------------------------------------

proof fn lemma_play_at_wf(s: AppView, idx: usize, now: u64)
    requires
        s.wf(),
    ensures
        play_at(s, idx, now).0.wf(),
{
}

proof fn lemma_moved_wf(s: AppView, delta: int)
    requires
        s.wf(),
    ensures
        moved(s, delta).wf(),
        to_top(s).wf(),
        to_bottom(s).wf(),
{
}

/// `dd` removes exactly the highlighted entry, keeping the others in order;
/// the playing index stops if it was that entry and moves down by one if it
/// came after it; the cursor stays on the list; and the state stays
/// consistent.
pub proof fn law_delete_entry(s: AppView, now: u64)
    requires
        s.wf(),
        s.playlist_sel < s.playlist.len(),
    ensures
        ({
            let i = s.playlist_sel;
            let r = deleted(s, now).0;
            &&& r.playlist == s.playlist.remove(i as int)
            &&& r.current == match s.current {
                Some(c) => if c == i {
                    None
                } else if c > i {
                    Some((c - 1) as usize)
                } else {
                    Some(c)
                },
                None => None,
            }
            &&& (r.playlist.len() == 0 || r.playlist_sel < r.playlist.len())
            &&& (r.current matches Some(k) ==> r.playlist[k as int] == s.playlist[s.current->0 as int])
            &&& r.wf()
        }),
{
    lemma_deleted_wf(s, now);
    if s.current is Some && s.current->0 != s.playlist_sel {
        law_delete_keeps_playing_track(s, now);
    }
}

proof fn lemma_deleted_wf(s: AppView, now: u64)
    requires
        s.wf(),
    ensures
        deleted(s, now).0.wf(),
{
    if s.playlist_sel < s.playlist.len() {
        let i = s.playlist_sel;
        let s1 = AppView { playlist: s.playlist.remove(i as int), ..s };
        assert(s1.playlist.len() == s.playlist.len() - 1);
        let r = reindexed(s1, i);
        assert(r.0.playlist == s1.playlist);
        assert(r.0.current matches Some(c) ==> c < s1.playlist.len());
        assert(entry_removed(s).0.wf());
    }
}

proof fn lemma_deleted_times_wf(s: AppView, n: nat, now: u64)
    requires
        s.wf(),
    ensures
        deleted_times(s, n, now).0.wf(),
    decreases n,
{
    if n > 0 {
        lemma_deleted_wf(s, now);
        lemma_deleted_times_wf(deleted(s, now).0, (n - 1) as nat, now);
    }
}

proof fn lemma_track_steps_wf(s: AppView, n: usize, auto: bool, now: u64)
    requires
        s.wf(),
    ensures
        next_played(s, n, auto, now).0.wf(),
        prev_played(s, n, now).0.wf(),
        activated(s, now).0.wf(),
        added_selected(s, now).wf(),
        added_all(s, now).wf(),
        more_loaded(s, now).0.wf(),
        cleared(s, now).0.wf(),
        track_ended(s, now).0.wf(),
        error_retried(s, now).0.wf(),
{
    if s.focus == crate::types::Focus::Results && s.results_sel < s.results.len() {
        let idx = s.playlist.len() as usize;
        let s1 = AppView {
            playlist: s.playlist.push(s.results[s.results_sel as int]),
            playlist_sel: idx,
            ..s
        };
        assert(s1.wf());
        lemma_play_at_wf(s1, idx, now);
    }
}

proof fn lemma_search_key_wf(s: AppView, k: Key, now: u64)
    requires
        s.wf(),
    ensures
        search_key(s, k, now).0.wf(),
{
}

#[verifier::spinoff_prover]
proof fn lemma_count_key_wf(s: AppView, k: Key, now: u64)
    requires
        s.wf(),
    ensures
        count_key(s, k, now).0.wf(),
{
    let t = AppView { pending_count: None, ..s };
    let n = crate::app::count_of(s.pending_count);
    lemma_moved_wf(t, n);
    lemma_moved_wf(t, -n);
    lemma_moved_wf(t, 10 * n);
    lemma_moved_wf(t, -10 * n);
    lemma_track_steps_wf(t, crate::app::count_steps(n), false, now);
}

#[verifier::spinoff_prover]
proof fn lemma_command_key_wf(s: AppView, k: Key, now: u64)
    requires
        s.wf(),
    ensures
        command_key(s, k, now).0.wf(),
{
    lemma_track_steps_wf(s, 0, false, now);
    lemma_moved_wf(s, 0);
}

proof fn lemma_key_parts_wf(s: AppView, k: Key, now: u64)
    requires
        s.wf(),
    ensures
        search_key(s, k, now).0.wf(),
        count_key(s, k, now).0.wf(),
        command_key(s, k, now).0.wf(),
{
    lemma_search_key_wf(s, k, now);
    lemma_count_key_wf(s, k, now);
    lemma_command_key_wf(s, k, now);
}

proof fn lemma_list_key_wf(s: AppView, k: Key, now: u64)
    requires
        s.wf(),
    ensures
        list_key(s, k, now).0.wf(),
{
    let s1 = AppView { pending_g: false, ..s };
    let s2 = AppView { pending_d: false, ..s1 };
    lemma_moved_wf(s1, 0);
    lemma_after_prefix_wf(s1, k, now);
    lemma_after_prefix_wf(s2, k, now);
    lemma_deleted_times_wf(AppView { pending_count: None, ..s2 }, 0, now);
    let n = crate::app::repetitions(crate::app::count_of(s2.pending_count));
    lemma_deleted_times_wf(AppView { pending_count: None, ..s2 }, n, now);
}

proof fn lemma_after_prefix_wf(s: AppView, k: Key, now: u64)
    requires
        s.wf(),
    ensures
        after_prefix(s, k, now).0.wf(),
{
    lemma_key_parts_wf(s, k, now);
    let a = count_key(s, k, now);
    lemma_key_parts_wf(AppView { pending_count: None, ..a.0 }, k, now);
    assert(counted_then_command(s, k, now).0.wf());
}

/// Every key keeps both cursors and the playing index inside their lists
/// (and the retry counter within its limit).
pub proof fn law_key_keeps_wf(s: AppView, k: Key, now: u64)
    requires
        s.wf(),
    ensures
        key_step(s, k, now).0.wf(),
{
    lemma_key_parts_wf(s, k, now);
    lemma_list_key_wf(s, k, now);
}

/// Every report from the search, the resolver and the player keeps the
/// state consistent as well.
pub proof fn law_reports_keep_wf(
    s: AppView,
    sev: SearchEvent,
    rev: ResolveEvent,
    pev: PlayerEvent,
    err: Option<Seq<char>>,
    now: u64,
)
    requires
        s.wf(),
    ensures
        search_step(s, sev, now).wf(),
        resolve_step(s, rev, now).0.wf(),
        loadfile_step(s, err, now).wf(),
        player_step(s, pev, now).0.wf(),
{
    lemma_track_steps_wf(s, 1, true, now);
}

/// The starting state is consistent, whatever playlist was saved.
pub proof fn law_initial_wf(saved: Option<Seq<Track>>, now: u64)
    ensures
        initial(saved, now).wf(),
{
}


// ---------------------------------------------------------------------------
// Late reports are ignored
// ---------------------------------------------------------------------------

/// The request number a search report answers.
pub open spec fn search_event_id(ev: SearchEvent) -> u64 {
    match ev {
        SearchEvent::Results(id, _) => id,
        SearchEvent::Error(id, _) => id,
    }
}

/// The play request a resolution report answers.
pub open spec fn resolve_event_req(ev: ResolveEvent) -> u64 {
    match ev {
        ResolveEvent::Resolved { req, .. } => req,
        ResolveEvent::Failed { req, .. } => req,
    }
}

/// A search report for any request but the latest changes nothing.
pub proof fn law_stale_search_ignored(s: AppView, ev: SearchEvent, now: u64)
    requires
        search_event_id(ev) != s.search_req,
    ensures
        search_step(s, ev, now) == s,
{
}

/// A resolution for any play request but the latest changes nothing and
/// asks for nothing.
pub proof fn law_stale_resolution_ignored(s: AppView, ev: ResolveEvent, now: u64)
    requires
        resolve_event_req(ev) != s.play_req,
    ensures
        resolve_step(s, ev, now) == nothing(s),
{
}

/// Running a new search from the search box makes the reports of the
/// search that was running before stale.
pub proof fn law_new_search_supersedes(s: AppView, k: Key, now: u64, ev: SearchEvent, later: u64)
    requires
        s.focus == Focus::Search,
        !s.show_help,
        k.kind != KeyKind::Release,
        k.code == KeyCode::Enter,
        trimmed(s.query).len() > 0,
        search_event_id(ev) == s.search_req,
    ensures
        search_step(key_step(s, k, now).0, ev, later) == key_step(s, k, now).0,
{
}

/// Stopping playback, or starting any track, makes a late resolution of the
/// track that was being resolved stale.
pub proof fn law_stop_or_play_invalidates_resolution(
    s: AppView,
    idx: usize,
    ev: ResolveEvent,
    now: u64,
    later: u64,
)
    requires
        resolve_event_req(ev) == s.play_req,
    ensures
        resolve_step(stopped(s).0, ev, later) == nothing(stopped(s).0),
        idx < s.playlist.len() ==> resolve_step(play_at(s, idx, now).0, ev, later) == nothing(
            play_at(s, idx, now).0,
        ),
{
}

// ---------------------------------------------------------------------------
// Deleting from the playlist
// ---------------------------------------------------------------------------

/// `dd` on the playing track stops playback, and its resolution, should it
/// still arrive, is ignored.
pub proof fn law_delete_playing_stops(s: AppView, ev: ResolveEvent, now: u64, later: u64)
    requires
        s.wf(),
        s.playlist_sel < s.playlist.len(),
        s.current == Some(s.playlist_sel),
        resolve_event_req(ev) == s.play_req,
    ensures
        deleted(s, now).0.current is None,
        deleted(s, now).1 == seq![ActionView::Stop],
        resolve_step(deleted(s, now).0, ev, later) == nothing(deleted(s, now).0),
{
}

/// `dd` on any other entry keeps the same track playing, and asks for
/// nothing.
pub proof fn law_delete_keeps_playing_track(s: AppView, now: u64)
    requires
        s.wf(),
        s.playlist_sel < s.playlist.len(),
        s.current matches Some(c) && c != s.playlist_sel,
    ensures
        deleted(s, now).1.len() == 0,
        deleted(s, now).0.current matches Some(c2) && c2 < deleted(s, now).0.playlist.len()
            && deleted(s, now).0.playlist[c2 as int] == s.playlist[s.current->0 as int],
{
    let c = s.current->0;
    let i = s.playlist_sel;
    let r = s.playlist.remove(i as int);
    if c > i {
        assert(r[c - 1] == s.playlist[c as int]);
    } else {
        assert(r[c as int] == s.playlist[c as int]);
    }
}

// ---------------------------------------------------------------------------
// Loop modes
// ---------------------------------------------------------------------------

/// `l` cycles off → list → one → off: it always changes the mode, and three
/// presses bring it back.
pub proof fn law_loop_cycle(m: LoopMode)
    ensures
        next_loop(m) != m,
        next_loop(next_loop(next_loop(m))) == m,
{
}

/// `r` turns repeat-one on, or off when it was on; from off, two presses
/// come back to off.
pub proof fn law_repeat_toggle(m: LoopMode)
    ensures
        (repeat_toggled(m) == LoopMode::One) <==> (m != LoopMode::One),
        repeat_toggled(repeat_toggled(LoopMode::Off)) == LoopMode::Off,
{
}

/// A plain `l` pressed in the results or the playlist.
pub open spec fn key_l() -> Key {
    Key { code: KeyCode::Char('l'), kind: KeyKind::Press, ctrl: false }
}

proof fn lemma_l_cycles(s: AppView, now: u64)
    requires
        s.focus != Focus::Search,
        !s.show_help,
    ensures
        key_step(s, key_l(), now).0.loop_mode == next_loop(s.loop_mode),
        key_step(s, key_l(), now).0.focus == s.focus,
        !key_step(s, key_l(), now).0.show_help,
{
}

/// Pressing `l` three times in the results or the playlist leaves the loop
/// mode as it was.
pub proof fn law_l_three_times(s: AppView, now: u64)
    requires
        s.focus != Focus::Search,
        !s.show_help,
    ensures
        key_step(key_step(key_step(s, key_l(), now).0, key_l(), now).0, key_l(), now).0.loop_mode
            == s.loop_mode,
{
    let s1 = key_step(s, key_l(), now).0;
    lemma_l_cycles(s, now);
    let s2 = key_step(s1, key_l(), now).0;
    lemma_l_cycles(s1, now);
    lemma_l_cycles(s2, now);
}

// ---------------------------------------------------------------------------
// Keys
// ---------------------------------------------------------------------------

/// `Esc` quits from anywhere, and does nothing else.
pub proof fn law_esc_quits(s: AppView, k: Key, now: u64)
    requires
        k.kind != KeyKind::Release,
        k.code == KeyCode::Esc,
    ensures
        key_step(s, k, now) == nothing(AppView { should_quit: true, ..s }),
{
}

/// While the help overlay is open, keys other than `Esc` and `q` only ever
/// close it.
pub proof fn law_help_swallows_keys(s: AppView, k: Key, now: u64)
    requires
        s.show_help,
        k.code != KeyCode::Esc,
        k.code != KeyCode::Char('q'),
    ensures
        key_step(s, k, now).1.len() == 0,
        key_step(s, k, now).0 == s || key_step(s, k, now).0 == (AppView { show_help: false, ..s }),
{
}

/// `q` quits from the results, the playlist and the help overlay (in the
/// search box it is typed), and changes neither list, the query nor the
/// loop mode.
pub proof fn law_q_quits(s: AppView, k: Key, now: u64)
    requires
        k.kind != KeyKind::Release,
        k.code == KeyCode::Char('q'),
        s.show_help || s.focus != Focus::Search,
    ensures
        key_step(s, k, now).0.should_quit,
        key_step(s, k, now).1.len() == 0,
        key_step(s, k, now).0.playlist == s.playlist,
        key_step(s, k, now).0.results == s.results,
        key_step(s, k, now).0.query == s.query,
        key_step(s, k, now).0.loop_mode == s.loop_mode,
{
}

/// A typed count `n` (any `u32`) before `j` or Down moves the cursor `n`
/// lines down, and before PageDown or Ctrl-d `10 n` lines, stopping at the
/// last line.
pub proof fn law_count_moves_down(s: AppView, k: Key, n: u32, now: u64)
    requires
        s.wf(),
        !s.show_help,
        s.focus != Focus::Search,
        !s.pending_d,
        crate::app::list_len(s) > 0,
        crate::app::list_len(s) <= usize::MAX,
        s.pending_count == Some(n),
        k.kind != KeyKind::Release,
        k.code == KeyCode::Down || k.code == KeyCode::PageDown || (k.code == KeyCode::Char('j')
            && !k.ctrl) || (k.code == KeyCode::Char('d') && k.ctrl),
    ensures
        ({
            let step: int = if k.code == KeyCode::Down || k.code == KeyCode::Char('j') {
                n as int
            } else {
                10 * n
            };
            let last = crate::app::list_len(s) - 1;
            let r = key_step(s, k, now);
            &&& r.1.len() == 0
            &&& r.0.pending_count is None
            &&& crate::app::sel(r.0) == if crate::app::sel(s) + step < last {
                crate::app::sel(s) + step
            } else {
                last
            }
            &&& r.0.playlist == s.playlist
            &&& r.0.results == s.results
        }),
{
    let step: int = if k.code == KeyCode::Down || k.code == KeyCode::Char('j') {
        n as int
    } else {
        10 * n
    };
    let s1 = AppView { pending_g: false, ..s };
    assert(crate::app::key_digit(k) is None);
    assert(key_step(s, k, now) == list_key(s, k, now));
    assert(list_key(s, k, now) == after_prefix(s1, k, now));
    assert(after_prefix(s1, k, now) == counted_then_command(s1, k, now));
    let t = crate::app::count_taken(s1);
    assert(count_key(s1, k, now) == nothing(moved(t, step)));
    let m = moved(t, step);
    assert(command_key(crate::app::count_taken(m), k, now) == nothing(crate::app::count_taken(m)));
}

/// Typing a character in the search box and then Backspace gives the state
/// back as it was.
pub proof fn law_type_then_backspace(s: AppView, c: char, now: u64)
    requires
        s.focus == Focus::Search,
        !s.show_help,
    ensures
        ({
            let typed = Key { code: KeyCode::Char(c), kind: KeyKind::Press, ctrl: false };
            let back = Key { code: KeyCode::Backspace, kind: KeyKind::Press, ctrl: false };
            key_step(key_step(s, typed, now).0, back, now) == nothing(s)
        }),
{
    assert(s.query.push(c).drop_last() =~= s.query);
}

/// A digit key `1`–`9`.
pub open spec fn digit_key(d: u32) -> Key {
    Key {
        code: KeyCode::Char((('0' as u32) + d) as char),
        kind: KeyKind::Press,
        ctrl: false,
    }
}

/// A count typed before `j` moves the cursor down by that many lines
/// (`3j` moves three).
pub proof fn law_count_then_j(s: AppView, d: u32, now: u64)
    requires
        1 <= d <= 9,
        s.focus != Focus::Search,
        !s.show_help,
        !s.pending_g,
        !s.pending_d,
        s.pending_count is None,
    ensures
        ({
            let j = Key { code: KeyCode::Char('j'), kind: KeyKind::Press, ctrl: false };
            key_step(key_step(s, digit_key(d), now).0, j, now) == nothing(moved(s, d as int))
        }),
{
    let k = digit_key(d);
    assert(crate::app::key_digit(k) == Some(d));
}

// ---------------------------------------------------------------------------
// Playback errors
// ---------------------------------------------------------------------------

/// The end-of-file report of a playback error.
pub open spec fn is_error_end(ev: PlayerEvent) -> bool {
    ev matches PlayerEvent::EndFile { reason } && reason@ == "error"@
}

/// One failed load of the current track: its stream URL `url` arrives for
/// the current play request, the player takes it, and mpv reports the start
/// of the file and then its end with an error.
pub open spec fn failed_load(
    s: AppView,
    url: String,
    start: PlayerEvent,
    err: PlayerEvent,
    now: u64,
) -> (AppView, Seq<ActionView>) {
    let resolved = resolve_step(s, ResolveEvent::Resolved { req: s.play_req, stream_url: url }, now).0;
    let loaded = loadfile_step(resolved, None, now);
    player_step(player_step(loaded, start, now).0, err, now)
}

/// A track whose loads keep failing is resolved afresh three times, each
/// time under a new play request; the fourth failure gives up, says so,
/// and asks for nothing, and so does every error report after it.
pub proof fn law_three_retries_then_give_up(
    s: AppView,
    url: String,
    start: PlayerEvent,
    ev: PlayerEvent,
    now: u64,
)
    requires
        s.wf(),
        s.current is Some,
        s.error_retries == 0,
        start is StartFile,
        is_error_end(ev),
    ensures
        ({
            let r1 = failed_load(s, url, start, ev, now);
            let r2 = failed_load(r1.0, url, start, ev, now);
            let r3 = failed_load(r2.0, url, start, ev, now);
            let r4 = failed_load(r3.0, url, start, ev, now);
            &&& r1.1.len() == 1 && r1.1[0] is Resolve && r1.1[0]->Resolve_req == r1.0.play_req
            &&& r2.1.len() == 1 && r2.1[0] is Resolve && r2.1[0]->Resolve_req == r2.0.play_req
            &&& r3.1.len() == 1 && r3.1[0] is Resolve && r3.1[0]->Resolve_req == r3.0.play_req
            &&& r4.1.len() == 0
            &&& !r4.0.loading
            &&& r4.0.status == Some(("mpv: playback error (gave up after 3 retries)"@, now))
            &&& player_step(r4.0, ev, now).1.len() == 0
        }),
{
    reveal_strlit("eof");
    reveal_strlit("error");
    assert("eof"@ != "error"@) by {
        assert("eof"@[1] != "error"@[1]);
    }
}

/// The retry counter only goes back to zero when playback really runs (a
/// known position is reported) or a track is started anew: resolutions,
/// the player's answer to a load, and any other report leave it as it was
/// or raise it.
pub proof fn law_retry_counter_resets(
    s: AppView,
    rev: ResolveEvent,
    pev: PlayerEvent,
    err: Option<Seq<char>>,
    now: u64,
)
    ensures
        resolve_step(s, rev, now).0.error_retries == s.error_retries,
        loadfile_step(s, err, now).error_retries == s.error_retries,
        !(pev matches PlayerEvent::TimePos(Some(_))) && !(pev matches PlayerEvent::EndFile { .. })
            ==> player_step(s, pev, now).0.error_retries == s.error_retries,
        pev matches PlayerEvent::TimePos(Some(_)) ==> player_step(s, pev, now).0.error_retries == 0,
{
}

// ---------------------------------------------------------------------------
// Counted deletion, skipping and moving
// ---------------------------------------------------------------------------

/// `[n]dd` in a consistent state removes `n` entries, or all of them when
/// fewer are left.
pub proof fn law_counted_delete_length(s: AppView, n: nat, now: u64)
    requires
        s.wf(),
    ensures
        deleted_times(s, n, now).0.playlist.len() == if n <= s.playlist.len() {
            s.playlist.len() - n
        } else {
            0
        },
    decreases n,
{
    if n > 0 {
        lemma_deleted_wf(s, now);
        law_counted_delete_length(deleted(s, now).0, (n - 1) as nat, now);
    }
}

/// `n` then `N` comes back to the same track, when the next one exists.
pub proof fn law_next_then_prev(s: AppView, now: u64)
    requires
        s.wf(),
        s.current matches Some(c) && c + 1 < s.playlist.len(),
        s.playlist.len() <= usize::MAX,
    ensures
        prev_played(next_played(s, 1, false, now).0, 1, now).0.current == s.current,
{
    let c = s.current->0;
    let next = (c + 1) as usize;
    assert(crate::app::sat_add(c, 1) == next);
    let s1 = next_played(s, 1, false, now).0;
    assert(s1 == play_at(AppView { playlist_sel: next, ..s }, next, now).0);
    assert(s1.current == Some(next));
    assert(s1.playlist == s.playlist);
    let s2 = prev_played(s1, 1, now).0;
    assert(s2 == play_at(AppView { playlist_sel: c, ..s1 }, c, now).0);
}

/// `j` then `k` comes back to the same line, unless `j` stopped at the
/// bottom.
pub proof fn law_down_then_up(s: AppView)
    requires
        s.wf(),
        crate::app::sel(s) + 1 < crate::app::list_len(s),
        crate::app::list_len(s) <= usize::MAX,
    ensures
        moved(moved(s, 1), -1) == s,
{
    let i = crate::app::sel(s);
    let s1 = moved(s, 1);
    assert(crate::app::clamp(i as int, 1, crate::app::list_len(s) as int) == i + 1);
    assert(s1 == crate::app::with_sel(s, (i + 1) as usize));
    assert(crate::app::sel(s1) == i + 1);
    assert(crate::app::list_len(s1) == crate::app::list_len(s));
    assert(crate::app::clamp(i + 1, -1, crate::app::list_len(s) as int) == i);
}

// ---------------------------------------------------------------------------
// The playlist
// ---------------------------------------------------------------------------

/// Reports never edit the playlist: searches, resolutions, the player's
/// answer to a load and the player's own reports leave it as it was.
pub proof fn law_reports_keep_playlist(
    s: AppView,
    sev: SearchEvent,
    rev: ResolveEvent,
    pev: PlayerEvent,
    err: Option<Seq<char>>,
    now: u64,
)
    ensures
        search_step(s, sev, now).playlist == s.playlist,
        resolve_step(s, rev, now).0.playlist == s.playlist,
        loadfile_step(s, err, now).playlist == s.playlist,
        player_step(s, pev, now).0.playlist == s.playlist,
{
}

/// `Enter` on a result appends exactly that result to the playlist and
/// plays the new last entry.
pub proof fn law_enter_on_result_appends_and_plays(s: AppView, now: u64)
    requires
        s.focus == Focus::Results,
        s.results_sel < s.results.len(),
        s.playlist.len() < usize::MAX,
    ensures
        activated(s, now).0.playlist == s.playlist.push(s.results[s.results_sel as int]),
        activated(s, now).0.current == Some(s.playlist.len() as usize),
        activated(s, now).1.len() == 1,
{
}


// ---------------------------------------------------------------------------
// What single operations give
// ---------------------------------------------------------------------------

/// When the playing track `c` comes to its end: in loop-one mode it is
/// played again; otherwise the entry after it is played (with the cursor on
/// it), and after the last entry playback goes back to the first one when
/// the whole list loops, or stops when it does not. Playing an entry means a
/// fresh play request asking to resolve exactly that entry's watch URL.
pub proof fn law_end_of_file_plays_on(s: AppView, c: usize, ev: PlayerEvent, now: u64)
    requires
        s.wf(),
        s.playlist.len() <= usize::MAX,
        s.current == Some(c),
        ev matches PlayerEvent::EndFile { reason } && reason@ == "eof"@,
    ensures
        ({
            let r = player_step(s, ev, now);
            let len = s.playlist.len();
            let next: int = if s.loop_mode == LoopMode::One {
                c as int
            } else if c + 1 < len {
                c + 1
            } else {
                0
            };
            if s.loop_mode == LoopMode::Off && c + 1 == len {
                &&& r.0.current is None
                &&& r.1 == seq![ActionView::Stop]
                &&& r.0.playlist == s.playlist
            } else {
                &&& r.0.current == Some(next as usize)
                &&& (s.loop_mode != LoopMode::One ==> r.0.playlist_sel == next)
                &&& r.0.play_req != s.play_req
                &&& r.1 == seq![
                    ActionView::Resolve { req: r.0.play_req, url: watch_url(s.playlist[next].id@) },
                ]
                &&& r.0.playlist == s.playlist
            }
        }),
{
    reveal_strlit("eof");
}

/// Submitting a non-blank query from the search box asks for exactly 30
/// results of the trimmed query under a fresh search request, whatever the
/// previous limit was, and the limit goes back to 30.
pub proof fn law_search_asks_for_thirty(s: AppView, k: Key, now: u64)
    requires
        s.focus == Focus::Search,
        !s.show_help,
        k.kind != KeyKind::Release,
        k.code == KeyCode::Enter,
        trimmed(s.query).len() > 0,
    ensures
        ({
            let r = key_step(s, k, now);
            &&& r.1 == seq![
                ActionView::Search { query: trimmed(s.query), limit: 30, req: r.0.search_req },
            ]
            &&& r.0.search_req != s.search_req
            &&& r.0.results_limit == 30
            &&& r.0.last_query == trimmed(s.query)
        }),
{
}

/// A playback error that is retried asks to resolve the watch URL of the
/// playing entry (not of the highlighted one) under a fresh play request,
/// keeps that entry playing and counts the retry.
pub proof fn law_retry_resolves_playing_entry(s: AppView, c: usize, ev: PlayerEvent, now: u64)
    requires
        s.wf(),
        s.current == Some(c),
        s.error_retries < 3,
        is_error_end(ev),
    ensures
        ({
            let r = player_step(s, ev, now);
            &&& r.1 == seq![
                ActionView::Resolve { req: r.0.play_req, url: watch_url(s.playlist[c as int].id@) },
            ]
            &&& r.0.play_req != s.play_req
            &&& r.0.current == Some(c)
            &&& r.0.error_retries == s.error_retries + 1
            &&& r.0.playlist == s.playlist
        }),
{
    reveal_strlit("eof");
    reveal_strlit("error");
    assert("eof"@ != "error"@) by {
        assert("eof"@[1] != "error"@[1]);
    }
}

/// The results of the latest search replace the list, and the cursor
/// starts on the first of them, unless a `m` load asked to jump to a row
/// that the new list has.
pub proof fn law_results_cursor(s: AppView, tracks: Vec<Track>, now: u64)
    ensures
        ({
            let r = search_step(s, SearchEvent::Results(s.search_req, tracks), now);
            &&& r.results == tracks@
            &&& r.results_sel == match s.jump_to_on_results {
                Some(j) => if j < tracks@.len() { j } else { 0 },
                None => 0,
            }
            &&& r.jump_to_on_results is None
            &&& !r.searching
            &&& r.playlist == s.playlist
        }),
{
}

/// Holding `>` or `<` (a repeated key) while a track is playing seeks 60
/// seconds forward or back, whatever count was typed; a single press seeks
/// 10 seconds times the count.
pub proof fn law_seek_keys(s: AppView, k: Key, now: u64)
    requires
        !s.show_help,
        s.focus != Focus::Search,
        s.current is Some,
        k.kind != KeyKind::Release,
        k.code == KeyCode::Char('>') || k.code == KeyCode::Char('<'),
    ensures
        ({
            let r = key_step(s, k, now);
            let n: int = match s.pending_count {
                Some(n) => n as int,
                None => 1,
            };
            let secs: int = if k.kind == KeyKind::Repeat { 60 } else { 10 * n };
            &&& r.1 == seq![
                ActionView::Seek(
                    (if k.code == KeyCode::Char('>') { secs } else { -secs }) as i64,
                ),
            ]
            &&& r.0.pending_count is None
            &&& r.0.playlist == s.playlist
            &&& r.0.current == s.current
        }),
{
    let s1 = AppView { pending_g: false, ..s };
    let s2 = AppView { pending_d: false, ..s1 };
    assert(crate::app::key_digit(k) is None);
    let base = if s1.pending_d { s2 } else { s1 };
    assert(list_key(s, k, now) == after_prefix(base, k, now));
    assert(after_prefix(base, k, now) == counted_then_command(base, k, now));
    let a = count_key(base, k, now);
    assert(command_key(crate::app::count_taken(a.0), k, now) == nothing(crate::app::count_taken(a.0)));
    assert(a.1 + Seq::<ActionView>::empty() =~= a.1);
}

} // verus!
