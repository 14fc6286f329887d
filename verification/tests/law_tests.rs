use ratubetui::app::{Action, App, Key, KeyCode, KeyKind, PlayerEvent, ResolveEvent, SearchEvent};
use ratubetui::types::{Focus, LoopMode, Track};

fn track(n: usize) -> Track {
    Track {
        id: format!("vid{:08}", n),
        title: format!("T{}", n),
        channel: String::new(),
        duration_ms: None,
    }
}

fn key(c: char) -> Key {
    Key { code: KeyCode::Char(c), kind: KeyKind::Press, ctrl: false }
}

fn code(k: KeyCode) -> Key {
    Key { code: k, kind: KeyKind::Press, ctrl: false }
}

fn consistent(app: &App) -> bool {
    (app.results_sel == 0 || app.results_sel < app.results.len())
        && (app.playlist_sel == 0 || app.playlist_sel < app.playlist.len())
        && app.current.map_or(true, |c| c < app.playlist.len())
        && app.pending_count.map_or(true, |n| n >= 1)
        && app.error_retries <= 3
}

#[test]
fn every_step_keeps_the_state_consistent() {
    let mut app = App::new(Some((0..6).map(track).collect()), 0);
    app.results = (10..14).map(track).collect();
    let script: Vec<Key> = "jj\nGdd3dd\tjjj\nA\tgG5k9jnnNNlrCq"
        .chars()
        .map(|c| match c {
            '\n' => code(KeyCode::Enter),
            '\t' => code(KeyCode::Tab),
            c => key(c),
        })
        .collect();
    for k in script {
        app.on_key(k, 0);
        assert!(consistent(&app));
        app.on_player_event(PlayerEvent::EndFile { reason: "eof".to_string() }, 0);
        assert!(consistent(&app));
    }
    app.on_search_event(SearchEvent::Results(app.search_req, vec![]), 0);
    assert!(consistent(&app));
}

#[test]
fn stale_search_reports_change_nothing() {
    let mut app = App::new(None, 0);
    app.search_req = 5;
    app.on_search_event(SearchEvent::Results(4, vec![track(1)]), 0);
    app.on_search_event(SearchEvent::Error(6, "x".to_string()), 0);
    assert!(app.results.is_empty());
    assert!(app.status.is_none());
}

#[test]
fn stale_resolutions_change_nothing() {
    let mut app = App::new(Some(vec![track(1)]), 0);
    app.play_req = 3;
    let acts = app.on_resolve_event(
        ResolveEvent::Resolved { req: 2, stream_url: "u".to_string() },
        0,
    );
    assert!(acts.is_empty());
}

#[test]
fn new_search_supersedes_the_running_one() {
    let mut app = App::new(None, 0);
    app.on_key(key('/'), 0);
    app.on_key(key('a'), 0);
    app.on_key(code(KeyCode::Enter), 0);
    app.focus = Focus::Search;
    app.on_key(code(KeyCode::Enter), 0);
    app.on_search_event(SearchEvent::Results(1, vec![track(1)]), 0);
    assert!(app.results.is_empty());
    assert!(app.searching);
}

#[test]
fn starting_another_track_ignores_the_old_resolution() {
    let mut app = App::new(Some(vec![track(1), track(2)]), 0);
    app.on_key(code(KeyCode::Enter), 0);
    let old = app.play_req;
    app.on_key(key('n'), 0);
    let acts = app.on_resolve_event(
        ResolveEvent::Resolved { req: old, stream_url: "u".to_string() },
        0,
    );
    assert!(acts.is_empty());
}

#[test]
fn deleting_the_playing_entry_stops_and_ignores_its_resolution() {
    let mut app = App::new(Some(vec![track(1), track(2)]), 0);
    app.on_key(code(KeyCode::Enter), 0);
    let req = app.play_req;
    app.on_key(key('d'), 0);
    assert_eq!(app.on_key(key('d'), 0), vec![Action::Stop]);
    assert!(app.current.is_none());
    let acts = app.on_resolve_event(ResolveEvent::Resolved { req, stream_url: "u".into() }, 0);
    assert!(acts.is_empty());
}

#[test]
fn deleting_another_entry_keeps_the_playing_track() {
    let mut app = App::new(Some((0..4).map(track).collect()), 0);
    app.on_key(key('G'), 0);
    app.on_key(code(KeyCode::Enter), 0);
    app.on_key(key('g'), 0);
    app.on_key(key('g'), 0);
    app.on_key(key('d'), 0);
    assert!(app.on_key(key('d'), 0).is_empty());
    let c = app.current.unwrap();
    assert_eq!(app.playlist[c], track(3));
}

#[test]
fn l_cycles_and_three_presses_restore() {
    let mut app = App::new(None, 0);
    let start = app.loop_mode;
    let mut seen = vec![start];
    for _ in 0..3 {
        app.on_key(key('l'), 0);
        seen.push(app.loop_mode);
    }
    assert_eq!(seen, vec![LoopMode::Off, LoopMode::Playlist, LoopMode::One, LoopMode::Off]);
}

#[test]
fn r_toggles_repeat_one() {
    let mut app = App::new(None, 0);
    app.loop_mode = LoopMode::Playlist;
    app.on_key(key('r'), 0);
    assert_eq!(app.loop_mode, LoopMode::One);
    app.on_key(key('r'), 0);
    assert_eq!(app.loop_mode, LoopMode::Off);
}

#[test]
fn esc_quits_from_the_search_box() {
    let mut app = App::new(None, 0);
    app.focus = Focus::Search;
    assert!(app.on_key(code(KeyCode::Esc), 0).is_empty());
    assert!(app.should_quit);
    assert_eq!(app.query, "");
}

#[test]
fn help_overlay_only_closes() {
    let mut app = App::new(Some(vec![track(1)]), 0);
    app.show_help = true;
    assert!(app.on_key(code(KeyCode::Enter), 0).is_empty());
    assert!(app.current.is_none());
    assert!(app.show_help);
    app.on_key(key('?'), 0);
    assert!(!app.show_help);
}

#[test]
fn count_before_j_moves_that_far() {
    let mut app = App::new(Some((0..10).map(track).collect()), 0);
    app.on_key(key('4'), 0);
    assert_eq!(app.pending_count, Some(4));
    app.on_key(key('j'), 0);
    assert_eq!(app.playlist_sel, 4);
}

#[test]
fn three_retries_then_give_up() {
    let mut app = App::new(Some(vec![track(1)]), 0);
    app.on_key(code(KeyCode::Enter), 0);
    let err = || PlayerEvent::EndFile { reason: "error".to_string() };
    let counts: Vec<usize> = (0..4)
        .map(|_| {
            app.on_player_event(PlayerEvent::StartFile, 0);
            app.on_player_event(err(), 0).len()
        })
        .collect();
    assert_eq!(counts, vec![1, 1, 1, 0]);
    assert!(!app.loading);
}

#[test]
fn playback_resets_the_retry_count() {
    let mut app = App::new(Some(vec![track(1)]), 0);
    app.on_key(code(KeyCode::Enter), 0);
    app.on_player_event(PlayerEvent::StartFile, 0);
    app.on_player_event(PlayerEvent::EndFile { reason: "error".into() }, 0);
    assert_eq!(app.error_retries, 1);
    app.on_player_event(PlayerEvent::TimePos(Some(0)), 0);
    assert_eq!(app.error_retries, 0);
}

#[test]
fn q_quits_even_with_help_open() {
    let mut app = App::new(Some(vec![track(1)]), 0);
    app.show_help = true;
    app.on_key(key('q'), 0);
    assert!(app.should_quit);
    assert!(!app.show_help);
    assert_eq!(app.playlist.len(), 1);
}

#[test]
fn typing_then_backspace_restores_the_query() {
    let mut app = App::new(None, 0);
    app.focus = Focus::Search;
    app.query = "lofi".to_string();
    for c in ['q', '?', 'j', '/', 'é'] {
        app.on_key(key(c), 0);
        assert_eq!(app.query, format!("lofi{}", c));
        app.on_key(code(KeyCode::Backspace), 0);
        assert_eq!(app.query, "lofi");
        assert!(!app.should_quit && !app.show_help);
        assert_eq!(app.focus, Focus::Search);
    }
}

#[test]
fn deleting_keeps_the_rest_in_order() {
    let mut app = App::new(Some((0..5).map(track).collect()), 0);
    app.focus = Focus::Playlist;
    app.playlist_sel = 3;
    app.current = Some(4);
    app.on_key(key('d'), 0);
    app.on_key(key('d'), 0);
    let ids: Vec<String> = app.playlist.iter().map(|t| t.id.clone()).collect();
    assert_eq!(ids, vec![track(0).id, track(1).id, track(2).id, track(4).id]);
    assert_eq!(app.current, Some(3));
    assert_eq!(app.playlist[3], track(4));
    assert!(app.playlist_sel < app.playlist.len());
}

#[test]
fn reports_leave_the_playlist_alone() {
    let mut app = App::new(Some(vec![track(1), track(2)]), 0);
    app.on_key(code(KeyCode::Enter), 0);
    let before = app.playlist.clone();
    app.on_search_event(SearchEvent::Results(app.search_req, vec![track(9)]), 0);
    app.on_resolve_event(ResolveEvent::Failed { req: app.play_req, err: "e".into() }, 0);
    app.on_loadfile_result(Some("x".into()), 0);
    app.on_player_event(PlayerEvent::TimePos(Some(5)), 0);
    app.on_player_event(PlayerEvent::EndFile { reason: "error".into() }, 0);
    assert_eq!(app.playlist, before);
}
