use ratubetui::app::{
    Action, App, Key, KeyCode, KeyKind, PlayerEvent, ResolveEvent, SearchEvent,
};
use ratubetui::types::{Focus, LoopMode, Track};

fn track(n: usize) -> Track {
    Track {
        id: format!("id{:09}", n),
        title: format!("Track {}", n),
        channel: format!("Channel {}", n),
        duration_ms: Some(60_000 * n as u64),
    }
}

fn tracks(n: usize) -> Vec<Track> {
    (1..=n).map(track).collect()
}

fn key(c: char) -> Key {
    Key { code: KeyCode::Char(c), kind: KeyKind::Press, ctrl: false }
}

fn ctrl(c: char) -> Key {
    Key { code: KeyCode::Char(c), kind: KeyKind::Press, ctrl: true }
}

fn code(k: KeyCode) -> Key {
    Key { code: k, kind: KeyKind::Press, ctrl: false }
}

fn press(app: &mut App, keys: &[Key]) -> Vec<Action> {
    let mut all = Vec::new();
    for k in keys {
        all.extend(app.on_key(*k, 0));
    }
    all
}

fn status(app: &App) -> String {
    app.status_text(0).unwrap_or("").to_string()
}

fn with_playlist(n: usize) -> App {
    App::new(Some(tracks(n)), 0)
}

fn with_results(n: usize) -> App {
    let mut app = App::new(None, 0);
    app.focus = Focus::Results;
    app.results = tracks(n);
    app
}

#[test]
fn new_without_saved_playlist() {
    let app = App::new(None, 0);
    assert_eq!(app.focus, Focus::Playlist);
    assert!(app.playlist.is_empty());
    assert_eq!(app.results_limit, 30);
    assert_eq!(app.loop_mode, LoopMode::Off);
    assert!(app.status.is_none());
}

#[test]
fn new_with_saved_playlist_announces_it() {
    let app = App::new(Some(tracks(2)), 7);
    assert_eq!(app.playlist.len(), 2);
    assert_eq!(app.status_text(7), Some("loaded 2 saved tracks"));
    let empty = App::new(Some(Vec::new()), 7);
    assert!(empty.status.is_none());
}

#[test]
fn status_expires_after_four_seconds() {
    let mut app = App::new(None, 0);
    app.set_status("hi".to_string(), 1000);
    assert_eq!(app.status_text(1000), Some("hi"));
    assert_eq!(app.status_text(4999), Some("hi"));
    assert_eq!(app.status_text(5000), None);
    assert_eq!(app.status_text(10), Some("hi"));
}

#[test]
fn release_is_ignored_and_esc_quits() {
    let mut app = with_playlist(3);
    let rel = Key { code: KeyCode::Char('q'), kind: KeyKind::Release, ctrl: false };
    assert!(press(&mut app, &[rel]).is_empty());
    assert!(!app.should_quit);
    app.show_help = true;
    press(&mut app, &[code(KeyCode::Esc)]);
    assert!(app.should_quit);
}

#[test]
fn help_overlay_swallows_keys() {
    let mut app = with_playlist(3);
    press(&mut app, &[key('?')]);
    assert!(app.show_help);
    press(&mut app, &[key('j'), key('n')]);
    assert_eq!(app.playlist_sel, 0);
    assert!(app.current.is_none());
    press(&mut app, &[key('q')]);
    assert!(!app.show_help);
    assert!(app.should_quit);
}

#[test]
fn j_k_move_and_stop_at_the_ends() {
    let mut app = with_playlist(3);
    press(&mut app, &[key('j'), key('j'), key('j'), key('j')]);
    assert_eq!(app.playlist_sel, 2);
    press(&mut app, &[key('k'), code(KeyCode::Up), key('k')]);
    assert_eq!(app.playlist_sel, 0);
    press(&mut app, &[code(KeyCode::Down)]);
    assert_eq!(app.playlist_sel, 1);
}

#[test]
fn count_prefix_moves_that_many() {
    let mut app = with_playlist(20);
    press(&mut app, &[key('3'), key('j')]);
    assert_eq!(app.playlist_sel, 3);
    assert!(app.pending_count.is_none());
    press(&mut app, &[key('1'), key('0'), key('j')]);
    assert_eq!(app.playlist_sel, 13);
    press(&mut app, &[key('2'), key('k')]);
    assert_eq!(app.playlist_sel, 11);
    press(&mut app, &[key('0'), key('j')]);
    assert_eq!(app.playlist_sel, 12);
}

#[test]
fn count_digits_saturate() {
    let mut app = with_playlist(1);
    for _ in 0..15 {
        press(&mut app, &[key('9')]);
    }
    assert_eq!(app.pending_count, Some(u32::MAX));
}

#[test]
fn gg_and_g_jump() {
    let mut app = with_playlist(5);
    press(&mut app, &[key('G')]);
    assert_eq!(app.playlist_sel, 4);
    press(&mut app, &[key('g'), key('g')]);
    assert_eq!(app.playlist_sel, 0);
    press(&mut app, &[key('G'), key('g'), key('j')]);
    assert!(!app.pending_g);
    assert_eq!(app.playlist_sel, 4);
}

#[test]
fn paging_moves_ten() {
    let mut app = with_playlist(30);
    press(&mut app, &[code(KeyCode::PageDown)]);
    assert_eq!(app.playlist_sel, 10);
    press(&mut app, &[ctrl('d')]);
    assert_eq!(app.playlist_sel, 20);
    assert!(!app.pending_d);
    press(&mut app, &[ctrl('u')]);
    assert_eq!(app.playlist_sel, 10);
    press(&mut app, &[code(KeyCode::PageUp), code(KeyCode::PageUp)]);
    assert_eq!(app.playlist_sel, 0);
    press(&mut app, &[key('2'), code(KeyCode::PageDown)]);
    assert_eq!(app.playlist_sel, 20);
}

#[test]
fn dd_deletes_the_highlighted_entry() {
    let mut app = with_playlist(3);
    press(&mut app, &[key('j'), key('d')]);
    assert!(app.pending_d);
    let acts = press(&mut app, &[key('d')]);
    assert!(acts.is_empty());
    assert_eq!(app.playlist.len(), 2);
    assert_eq!(app.playlist[1].title, "Track 3");
    assert_eq!(status(&app), "removed: Track 2");
}

#[test]
fn counted_dd_deletes_several() {
    let mut app = with_playlist(5);
    press(&mut app, &[key('j'), key('3'), key('d'), key('d')]);
    assert_eq!(app.playlist.len(), 2);
    assert_eq!(app.playlist[0].title, "Track 1");
    assert_eq!(app.playlist[1].title, "Track 5");
    let mut app = with_playlist(3);
    press(&mut app, &[key('9'), key('d'), key('d')]);
    assert!(app.playlist.is_empty());
    assert_eq!(app.playlist_sel, 0);
}

#[test]
fn dd_on_last_entry_moves_cursor_up() {
    let mut app = with_playlist(3);
    press(&mut app, &[key('G'), key('d'), key('d')]);
    assert_eq!(app.playlist.len(), 2);
    assert_eq!(app.playlist_sel, 1);
}

#[test]
fn d_in_results_does_nothing() {
    let mut app = with_results(3);
    press(&mut app, &[key('d'), key('d')]);
    assert!(!app.pending_d);
    assert_eq!(app.results.len(), 3);
}

#[test]
fn deleting_the_playing_track_stops_it() {
    let mut app = with_playlist(3);
    press(&mut app, &[key('j'), code(KeyCode::Enter)]);
    assert_eq!(app.current, Some(1));
    let req = app.play_req;
    let acts = press(&mut app, &[key('d'), key('d')]);
    assert_eq!(acts, vec![Action::Stop]);
    assert!(app.current.is_none());
    assert_ne!(app.play_req, req);
    let late = app.on_resolve_event(
        ResolveEvent::Resolved { req, stream_url: "http://x".to_string() },
        0,
    );
    assert!(late.is_empty());
}

#[test]
fn deleting_before_the_playing_track_keeps_it() {
    let mut app = with_playlist(4);
    press(&mut app, &[key('2'), key('j'), code(KeyCode::Enter)]);
    assert_eq!(app.current, Some(2));
    press(&mut app, &[key('g'), key('g'), key('d'), key('d')]);
    assert_eq!(app.current, Some(1));
    assert_eq!(app.playlist[1].title, "Track 3");
}

#[test]
fn enter_in_results_adds_and_plays() {
    let mut app = with_results(3);
    app.playlist = tracks(1);
    let acts = press(&mut app, &[key('j'), code(KeyCode::Enter)]);
    assert_eq!(app.playlist.len(), 2);
    assert_eq!(app.playlist_sel, 1);
    assert_eq!(app.current, Some(1));
    assert!(app.loading);
    assert_eq!(app.play_req, 1);
    assert_eq!(
        acts,
        vec![Action::Resolve {
            req: 1,
            url: "https://www.youtube.com/watch?v=id000000002".to_string()
        }]
    );
    assert_eq!(status(&app), "resolving: Track 2");
}

#[test]
fn enter_in_playlist_plays() {
    let mut app = with_playlist(2);
    let acts = press(&mut app, &[key('j'), code(KeyCode::Enter)]);
    assert_eq!(app.current, Some(1));
    assert_eq!(acts.len(), 1);
    let mut empty = App::new(None, 0);
    assert!(press(&mut empty, &[code(KeyCode::Enter)]).is_empty());
}

#[test]
fn add_one_and_all_results() {
    let mut app = with_results(3);
    press(&mut app, &[key('j'), key('a')]);
    assert_eq!(app.playlist.len(), 1);
    assert_eq!(app.playlist[0].title, "Track 2");
    assert_eq!(status(&app), "added: Track 2");
    press(&mut app, &[key('A')]);
    assert_eq!(app.playlist.len(), 4);
    assert_eq!(app.playlist[1], track(1));
    assert_eq!(app.playlist[3], track(3));
    assert_eq!(status(&app), "added 3 tracks");
}

#[test]
fn add_keys_only_work_in_results() {
    let mut app = with_playlist(1);
    app.results = tracks(2);
    press(&mut app, &[key('a'), key('A')]);
    assert_eq!(app.playlist.len(), 1);
}

#[test]
fn long_titles_are_cut_in_status() {
    let mut app = with_results(0);
    let mut t = track(1);
    t.title = "x".repeat(70);
    app.results = vec![t];
    press(&mut app, &[key('a')]);
    let s = status(&app);
    assert_eq!(s.chars().count(), "added: ".len() + 60);
    assert!(s.ends_with('…'));
}

#[test]
fn search_box_editing_and_submit() {
    let mut app = App::new(None, 0);
    press(&mut app, &[key('/')]);
    assert_eq!(app.focus, Focus::Search);
    press(&mut app, &[key(' '), key('l'), key('o'), key('x'), code(KeyCode::Backspace)]);
    press(&mut app, &[key('f'), key('i'), key(' ')]);
    assert_eq!(app.query, " lofi ");
    let acts = press(&mut app, &[code(KeyCode::Enter)]);
    assert_eq!(
        acts,
        vec![Action::Search { query: "lofi".to_string(), limit: 30, req: 1 }]
    );
    assert!(app.searching);
    assert_eq!(app.last_query, "lofi");
    assert_eq!(status(&app), "searching…");
}

#[test]
fn blank_query_is_not_searched() {
    let mut app = App::new(None, 0);
    press(&mut app, &[key('/'), key(' '), key(' ')]);
    assert!(press(&mut app, &[code(KeyCode::Enter)]).is_empty());
    assert!(!app.searching);
}

#[test]
fn slash_clears_query_and_tab_leaves_search() {
    let mut app = App::new(None, 0);
    press(&mut app, &[key('/'), key('a'), code(KeyCode::Tab)]);
    assert_eq!(app.focus, Focus::Results);
    press(&mut app, &[key('/')]);
    assert_eq!(app.query, "");
    press(&mut app, &[ctrl('l')]);
    assert_eq!(app.focus, Focus::Playlist);
    press(&mut app, &[key('/'), ctrl('j')]);
    assert_eq!(app.focus, Focus::Results);
    press(&mut app, &[ctrl('k')]);
    assert_eq!(app.focus, Focus::Search);
}

#[test]
fn tab_and_ctrl_h_l_switch_panes() {
    let mut app = App::new(None, 0);
    press(&mut app, &[code(KeyCode::Tab)]);
    assert_eq!(app.focus, Focus::Results);
    press(&mut app, &[code(KeyCode::BackTab)]);
    assert_eq!(app.focus, Focus::Playlist);
    press(&mut app, &[ctrl('h')]);
    assert_eq!(app.focus, Focus::Results);
    press(&mut app, &[ctrl('l')]);
    assert_eq!(app.focus, Focus::Playlist);
    assert_eq!(app.loop_mode, LoopMode::Off);
}

#[test]
fn search_results_replace_and_stale_ones_are_ignored() {
    let mut app = App::new(None, 0);
    press(&mut app, &[key('/'), key('x'), code(KeyCode::Enter)]);
    app.on_search_event(SearchEvent::Results(0, tracks(5)), 0);
    assert!(app.results.is_empty());
    assert!(app.searching);
    app.on_search_event(SearchEvent::Results(1, tracks(4)), 0);
    assert_eq!(app.results.len(), 4);
    assert!(!app.searching);
    assert_eq!(app.focus, Focus::Results);
    assert_eq!(status(&app), "4 results");
}

#[test]
fn load_more_jumps_to_first_new_result() {
    let mut app = App::new(None, 0);
    press(&mut app, &[key('/'), key('x'), code(KeyCode::Enter)]);
    app.on_search_event(SearchEvent::Results(1, tracks(30)), 0);
    let acts = press(&mut app, &[key('m')]);
    assert_eq!(acts, vec![Action::Search { query: "x".to_string(), limit: 60, req: 2 }]);
    assert_eq!(status(&app), "loading up to 60 results…");
    assert!(press(&mut app, &[key('m')]).is_empty());
    app.on_search_event(SearchEvent::Results(2, tracks(60)), 0);
    assert_eq!(app.results_sel, 30);
    assert!(app.jump_to_on_results.is_none());
}

#[test]
fn load_more_needs_a_query() {
    let mut app = with_results(3);
    assert!(press(&mut app, &[key('m')]).is_empty());
    assert_eq!(app.search_req, 0);
}

#[test]
fn search_error_is_shown() {
    let mut app = App::new(None, 0);
    press(&mut app, &[key('/'), key('x'), code(KeyCode::Enter)]);
    app.on_search_event(SearchEvent::Error(1, "boom".to_string()), 0);
    assert!(!app.searching);
    assert_eq!(status(&app), "search error: boom");
}

#[test]
fn resolution_loads_then_reports() {
    let mut app = with_playlist(2);
    press(&mut app, &[code(KeyCode::Enter)]);
    let acts = app.on_resolve_event(
        ResolveEvent::Resolved { req: 1, stream_url: "http://s".to_string() },
        0,
    );
    assert_eq!(acts, vec![Action::LoadFile { url: "http://s".to_string() }]);
    app.on_loadfile_result(None, 0);
    assert_eq!(status(&app), "playing: Track 1");
    app.on_loadfile_result(Some("mpv writer thread is gone".to_string()), 0);
    assert!(!app.loading);
    assert_eq!(status(&app), "mpv error: mpv writer thread is gone");
}

#[test]
fn resolution_failure_is_shown() {
    let mut app = with_playlist(1);
    press(&mut app, &[code(KeyCode::Enter)]);
    let acts = app.on_resolve_event(ResolveEvent::Failed { req: 9, err: "x".to_string() }, 0);
    assert!(acts.is_empty());
    assert!(app.loading);
    app.on_resolve_event(ResolveEvent::Failed { req: 1, err: "no video".to_string() }, 0);
    assert!(!app.loading);
    assert_eq!(status(&app), "resolve failed: no video");
}

#[test]
fn next_and_previous_tracks() {
    let mut app = with_playlist(3);
    let acts = press(&mut app, &[key('n')]);
    assert_eq!(app.current, Some(0));
    assert_eq!(acts.len(), 1);
    press(&mut app, &[key('2'), key('n')]);
    assert_eq!(app.current, Some(2));
    assert_eq!(app.playlist_sel, 2);
    let acts = press(&mut app, &[key('n')]);
    assert!(acts.is_empty());
    assert_eq!(status(&app), "end of playlist");
    press(&mut app, &[key('N')]);
    assert_eq!(app.current, Some(1));
    press(&mut app, &[key('5'), key('N')]);
    assert_eq!(app.current, Some(0));
}

#[test]
fn list_loop_wraps_both_ways() {
    let mut app = with_playlist(3);
    press(&mut app, &[key('l')]);
    assert_eq!(app.loop_mode, LoopMode::Playlist);
    assert_eq!(status(&app), "loop: list");
    press(&mut app, &[key('G'), code(KeyCode::Enter), key('n')]);
    assert_eq!(app.current, Some(0));
    press(&mut app, &[key('N')]);
    assert_eq!(app.current, Some(2));
}

#[test]
fn loop_cycle_and_repeat_toggle() {
    let mut app = with_playlist(1);
    press(&mut app, &[key('l'), key('l')]);
    assert_eq!(app.loop_mode, LoopMode::One);
    assert_eq!(status(&app), "loop: one");
    press(&mut app, &[key('l')]);
    assert_eq!(app.loop_mode, LoopMode::Off);
    press(&mut app, &[key('r')]);
    assert_eq!(app.loop_mode, LoopMode::One);
    press(&mut app, &[key('r')]);
    assert_eq!(app.loop_mode, LoopMode::Off);
    assert_eq!(status(&app), "loop: off");
}

#[test]
fn pause_seek_and_volume() {
    let mut app = with_playlist(1);
    assert!(press(&mut app, &[key(' '), key('>')]).is_empty());
    press(&mut app, &[code(KeyCode::Enter)]);
    assert_eq!(press(&mut app, &[key('p')]), vec![Action::TogglePause]);
    assert_eq!(press(&mut app, &[key('>')]), vec![Action::Seek(10)]);
    assert_eq!(press(&mut app, &[key('<')]), vec![Action::Seek(-10)]);
    assert_eq!(press(&mut app, &[key('3'), key('>')]), vec![Action::Seek(30)]);
    let held = Key { code: KeyCode::Char('<'), kind: KeyKind::Repeat, ctrl: false };
    assert_eq!(press(&mut app, &[held]), vec![Action::Seek(-60)]);
    assert_eq!(
        press(&mut app, &[key('+'), key('='), key('-')]),
        vec![Action::AddVolume(5), Action::AddVolume(5), Action::AddVolume(-5)]
    );
}

#[test]
fn clear_playlist_stops_playback() {
    let mut app = with_playlist(3);
    press(&mut app, &[code(KeyCode::Enter)]);
    let acts = press(&mut app, &[key('C')]);
    assert_eq!(acts, vec![Action::Stop]);
    assert!(app.playlist.is_empty());
    assert!(app.current.is_none());
    assert_eq!(status(&app), "playlist cleared");
}

#[test]
fn player_reports_update_state() {
    let mut app = with_playlist(2);
    press(&mut app, &[code(KeyCode::Enter)]);
    assert!(app.loading);
    app.on_player_event(PlayerEvent::TimePos(None), 0);
    assert!(app.loading);
    app.on_player_event(PlayerEvent::TimePos(Some(1500)), 0);
    assert!(!app.loading);
    assert_eq!(app.time_pos, Some(1500));
    app.on_player_event(PlayerEvent::Duration(Some(60_000)), 0);
    assert_eq!(app.duration, Some(60_000));
    app.on_player_event(PlayerEvent::Paused(true), 0);
    assert!(app.paused);
    app.on_player_event(PlayerEvent::StartFile, 0);
    assert!(!app.paused);
    assert!(app.loading);
}

#[test]
fn end_of_file_plays_next_or_stops() {
    let mut app = with_playlist(2);
    press(&mut app, &[code(KeyCode::Enter)]);
    let eof = || PlayerEvent::EndFile { reason: "eof".to_string() };
    let acts = app.on_player_event(eof(), 0);
    assert_eq!(app.current, Some(1));
    assert_eq!(acts.len(), 1);
    let acts = app.on_player_event(eof(), 0);
    assert_eq!(acts, vec![Action::Stop]);
    assert!(app.current.is_none());
}

#[test]
fn end_of_file_repeats_in_loop_one() {
    let mut app = with_playlist(2);
    press(&mut app, &[code(KeyCode::Enter), key('r')]);
    let acts = app.on_player_event(PlayerEvent::EndFile { reason: "eof".to_string() }, 0);
    assert_eq!(app.current, Some(0));
    assert_eq!(acts.len(), 1);
    let other = app.on_player_event(PlayerEvent::EndFile { reason: "quit".to_string() }, 0);
    assert!(other.is_empty());
}

#[test]
fn playback_errors_retry_three_times() {
    let mut app = with_playlist(1);
    press(&mut app, &[code(KeyCode::Enter)]);
    let err = || PlayerEvent::EndFile { reason: "error".to_string() };
    for i in 1..=3u32 {
        app.on_player_event(PlayerEvent::StartFile, 0);
        assert_eq!(app.error_retries, i - 1);
        let acts = app.on_player_event(err(), 0);
        assert_eq!(acts.len(), 1);
        assert_eq!(app.error_retries, i);
        assert_eq!(status(&app), format!("playback error, retrying… ({}/3)", i));
    }
    app.on_player_event(PlayerEvent::StartFile, 0);
    let acts = app.on_player_event(err(), 0);
    assert!(acts.is_empty());
    assert!(!app.loading);
    assert_eq!(status(&app), "mpv: playback error (gave up after 3 retries)");
    assert!(app.on_player_event(err(), 0).is_empty());
    app.on_player_event(PlayerEvent::StartFile, 0);
    assert_eq!(app.error_retries, 3);
    app.on_player_event(PlayerEvent::TimePos(Some(250)), 0);
    assert_eq!(app.error_retries, 0);
    assert!(!app.loading);
}

#[test]
fn count_beyond_i32_moves_to_the_last_line() {
    let mut app = with_playlist(5);
    app.pending_count = Some(u32::MAX);
    press(&mut app, &[key('j')]);
    assert_eq!(app.playlist_sel, 4);
    assert!(app.pending_count.is_none());
    app.pending_count = Some(3_000_000_000);
    press(&mut app, &[code(KeyCode::PageUp)]);
    assert_eq!(app.playlist_sel, 0);
    app.pending_count = Some(2_147_483_648);
    press(&mut app, &[code(KeyCode::PageDown)]);
    assert_eq!(app.playlist_sel, 4);
    app.pending_count = Some(2_147_483_648);
    press(&mut app, &[key('k')]);
    assert_eq!(app.playlist_sel, 0);
    app.pending_count = Some(2_147_483_648);
    let ctrl_d = Key { code: KeyCode::Char('d'), kind: KeyKind::Press, ctrl: true };
    app.on_key(ctrl_d, 0);
    assert_eq!(app.playlist_sel, 4);
}
