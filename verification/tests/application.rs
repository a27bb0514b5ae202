use music_player::config::Config;
use music_player::keys::{Key, KeyCode, Modifiers};
use music_player::song::Song;
use music_player::ui::app::{
    global_key_action, ActiveView, App, AppCommand, Connection, GlobalAction, Mode, NoConnection, PlayerStatus,
};
use music_player::ui::playlist::QueueCommand;
use music_player::ui::statusbar::StatusLine;

struct FakeLink;

impl Connection for FakeLink {}

fn config() -> Config {
    Config {
        mpd_host: "localhost".to_string(),
        mpd_port: 6600,
        mpd_music_dir: "~/Music".to_string(),
        visualizer_data_source: "/tmp/mpd.fifo".to_string(),
        visualizer_output_name: "my_fifo".to_string(),
        visualizer_in_stereo: "yes".to_string(),
        visualizer_type: "spectrum".to_string(),
        visualizer_look: "+|".to_string(),
    }
}

fn song(title: &str, artist: &str, album: &str, secs: u64, id: u32) -> Song {
    Song {
        file: format!("{}/{}.flac", artist, title),
        title: Some(title.to_string()),
        artist: Some(artist.to_string()),
        duration: Some(secs),
        place_id: Some(id),
        tags: vec![("Album".to_string(), album.to_string())],
    }
}

fn songs() -> Vec<Song> {
    vec![
        song("River", "Joni Mitchell", "Blue", 243, 1),
        song("Carey", "Joni Mitchell", "Blue", 180, 2),
        song("Creep", "Radiohead", "Pablo Honey", 238, 3),
    ]
}

fn titles(v: &[Song]) -> Vec<String> {
    v.iter().map(|s| s.title.clone().unwrap_or_default()).collect()
}

fn plain(c: char) -> Key {
    Key::new(Modifiers::NoModifier, KeyCode::Char(c))
}

fn code(k: KeyCode) -> Key {
    Key::new(Modifiers::NoModifier, k)
}

fn app() -> App<FakeLink> {
    let mut a = App::new(config()).connect(FakeLink);
    a.load_library(Ok(songs()));
    a
}

fn status(elapsed: Option<u64>, duration: Option<u64>, updating_db: bool, song_id: Option<u32>) -> PlayerStatus {
    PlayerStatus { elapsed, duration, updating_db, song_id }
}

#[test]
fn a_new_application_shows_the_empty_playlist() {
    let a = App::new(config());
    assert_eq!(a.active_view, ActiveView::Playlist);
    assert_eq!(a.mode, Mode::Normal);
    assert!(!a.db_updating);
    assert_eq!(a.current_song_id, None);
    assert_eq!(a.config.mpd_port, 6600);
    let linked: App<NoConnection> = a;
    assert_eq!(linked.playlist.tracks.len(), 0);
}

#[test]
fn global_keys_in_normal_mode() {
    assert_eq!(global_key_action(Mode::Normal, plain('q')), GlobalAction::Quit);
    assert_eq!(
        global_key_action(Mode::Normal, Key::new(Modifiers::Control, KeyCode::Enter)),
        GlobalAction::UpdateDatabase
    );
    assert_eq!(global_key_action(Mode::Normal, plain('p')), GlobalAction::TogglePause);
    assert_eq!(global_key_action(Mode::Normal, plain('>')), GlobalAction::Next);
    assert_eq!(global_key_action(Mode::Normal, plain('<')), GlobalAction::Prev);
    assert_eq!(global_key_action(Mode::Normal, plain('1')), GlobalAction::ShowView(ActiveView::Playlist));
    assert_eq!(global_key_action(Mode::Normal, plain('3')), GlobalAction::ShowView(ActiveView::Browse));
    assert_eq!(global_key_action(Mode::Normal, plain('4')), GlobalAction::ShowView(ActiveView::Library));
    assert_eq!(global_key_action(Mode::Normal, code(KeyCode::Right)), GlobalAction::SeekForward);
    assert_eq!(global_key_action(Mode::Normal, code(KeyCode::Left)), GlobalAction::SeekBackward);
    assert_eq!(global_key_action(Mode::Normal, plain('2')), GlobalAction::PassToView);
    assert_eq!(global_key_action(Mode::Normal, plain('j')), GlobalAction::PassToView);
}

#[test]
fn every_key_goes_to_the_views_while_typing() {
    assert_eq!(global_key_action(Mode::Input, plain('q')), GlobalAction::PassToView);
    assert_eq!(global_key_action(Mode::Input, code(KeyCode::Right)), GlobalAction::PassToView);
}

#[test]
fn command_bar_plays_a_song() {
    let mut a = app();
    assert!(matches!(a.handle_key(plain(':')), AppCommand::Nothing));
    assert!(a.command_bar.active);
    assert_eq!(a.mode, Mode::Input);
    for c in "s cr".chars() {
        a.handle_key(plain(c));
    }
    match a.status_line() {
        Some(StatusLine::Command { input, completion }) => {
            assert_eq!(input, "s cr");
            assert_eq!(completion, Some("eep".to_string()));
        },
        _ => panic!("the command line shows"),
    }
    match a.handle_key(code(KeyCode::Enter)) {
        AppCommand::AppendAndPlay(v) => assert_eq!(titles(&v), vec!["Creep"]),
        _ => panic!("Enter plays the match"),
    }
    assert!(!a.command_bar.active);
    assert_eq!(a.mode, Mode::Normal);
    assert_eq!(a.command_bar.history, vec!["s cr".to_string()]);
}

#[test]
fn command_bar_reports_an_invalid_song() {
    let mut a = app();
    a.handle_key(plain(':'));
    for c in "s zz".chars() {
        a.handle_key(plain(c));
    }
    assert!(matches!(a.handle_key(code(KeyCode::Enter)), AppCommand::Nothing));
    assert_eq!(a.status_bar.message, Ok("Invalid song.".to_string()));
    assert!(a.command_bar.active);
    a.handle_key(code(KeyCode::Esc));
    assert!(!a.command_bar.active);
    assert_eq!(a.mode, Mode::Normal);
}

#[test]
fn open_then_close_leaves_the_application_as_it_was() {
    let mut a = app();
    let before_history = a.command_bar.history.clone();
    a.handle_key(plain(':'));
    a.handle_key(plain('x'));
    a.handle_key(code(KeyCode::Backspace));
    a.handle_key(code(KeyCode::Esc));
    assert!(!a.command_bar.active);
    assert_eq!(a.command_bar.input, "");
    assert_eq!(a.command_bar.history, before_history);
    assert_eq!(a.mode, Mode::Normal);
}

#[test]
fn album_completion_is_shown_whole_when_not_a_prefix() {
    let mut a = app();
    a.handle_key(plain(':'));
    for c in "a blu".chars() {
        a.handle_key(plain(c));
    }
    match a.status_line() {
        Some(StatusLine::Command { completion, .. }) => {
            assert_eq!(completion, Some("Joni Mitchell: Blue".to_string()))
        },
        _ => panic!("the command line shows"),
    }
}

#[test]
fn database_update_reloads_the_library_once() {
    let mut a = app();
    a.trigger_database_update(Ok(()));
    assert!(a.db_updating);
    assert_eq!(a.status_bar.message, Ok("Updating database...".to_string()));
    let t = a.tick(Ok(status(None, None, true, None)));
    assert!(!t.reload_library);
    assert!(a.db_updating);
    let t = a.tick(Ok(status(None, None, false, None)));
    assert!(t.reload_library);
    assert!(!a.db_updating);
    let mut more = songs();
    more.push(song("Angie", "Rolling Stones", "Goats Head Soup", 272, 4));
    a.on_library_reloaded(Ok(more));
    assert_eq!(a.status_bar.message, Ok("Database updated.".to_string()));
    assert_eq!(a.library.artists.len(), 3);
    let t = a.tick(Ok(status(None, None, false, None)));
    assert!(!t.reload_library);
}

#[test]
fn failed_requests_show_errors() {
    let mut a = app();
    a.trigger_database_update(Err("denied".to_string()));
    assert!(!a.db_updating);
    assert_eq!(a.status_bar.message, Err("Update error: denied".to_string()));
    let t = a.tick(Err("gone".to_string()));
    assert!(!t.reload_library && !t.fetch_current_song);
    assert_eq!(a.status_bar.message, Err("Status error: gone".to_string()));
    a.load_library(Err("bad".to_string()));
    assert_eq!(a.status_bar.message, Err("Library load error: bad".to_string()));
    a.on_library_reloaded(Err("late".to_string()));
    assert_eq!(a.status_bar.message, Err("Reload error: late".to_string()));
    a.on_current_song(Err("lost".to_string()), None);
    assert_eq!(a.status_bar.message, Err("Error: lost".to_string()));
    a.refresh_playlist(Err("q".to_string()));
    assert_eq!(a.status_bar.message, Err("Error: q".to_string()));
    a.on_player_result(Err("pause".to_string()));
    assert_eq!(a.status_bar.message, Err("Error: pause".to_string()));
    a.on_queue_command_result(Err("boom".to_string()));
    assert_eq!(a.status_bar.message, Ok("Error: boom".to_string()));
    assert_eq!(a.append_and_play(Err("len".to_string())), None);
    assert_eq!(a.status_bar.message, Err("Error: len".to_string()));
    assert_eq!(a.append_and_play(Ok(7)), Some(7));
    a.on_seek(5, Err("far".to_string()));
    assert_eq!(a.status_bar.message, Err("Seek error: far".to_string()));
}

#[test]
fn the_song_playing_is_fetched_when_it_changes() {
    let mut a = app();
    let t = a.tick(Ok(status(Some(1000), Some(200_000), false, Some(2))));
    assert!(t.fetch_current_song);
    assert_eq!(a.current_song_id, Some(2));
    assert_eq!(a.status_bar.elapsed, Some(1000));
    assert_eq!(a.status_bar.total, Some(200_000));
    a.on_current_song(Ok(Some(songs()[1].duplicate())), Some(1000));
    assert_eq!(a.status_bar.now_playing.as_ref().and_then(|s| s.title.clone()), Some("Carey".to_string()));
    let t = a.tick(Ok(status(Some(2000), Some(200_000), false, Some(2))));
    assert!(!t.fetch_current_song);
    assert_eq!(a.status_bar.elapsed, Some(2000));
    let t = a.tick(Ok(status(None, None, false, None)));
    assert!(t.fetch_current_song);
    a.on_current_song(Ok(None), None);
    assert!(a.status_bar.now_playing.is_none());
}

#[test]
fn seeking_stays_within_the_song() {
    let mut a = app();
    a.status_bar.elapsed = Some(5000);
    a.status_bar.total = Some(12_000);
    assert_eq!(a.seek_forward_target(), 12_000);
    assert_eq!(a.seek_backward_target(), 0);
    a.status_bar.elapsed = Some(30_000);
    a.status_bar.total = Some(100_000);
    assert_eq!(a.seek_forward_target(), 40_000);
    assert_eq!(a.seek_backward_target(), 20_000);
    a.on_seek(40_000, Ok(()));
    assert_eq!(a.status_bar.elapsed, Some(40_000));
    a.status_bar.elapsed = None;
    a.status_bar.total = None;
    assert_eq!(a.seek_forward_target(), 0);
    a.status_bar.elapsed = Some(u64::MAX);
    a.status_bar.total = Some(u64::MAX);
    assert_eq!(a.seek_forward_target(), u64::MAX);
}

#[test]
fn playlist_keys_become_queue_commands() {
    let mut a = app();
    a.refresh_playlist(Ok(songs()));
    assert_eq!(a.playlist.tracks.len(), 3);
    a.handle_key(plain('j'));
    match a.handle_key(code(KeyCode::Enter)) {
        AppCommand::Queue(c) => assert_eq!(c, QueueCommand::PlayAt(1)),
        _ => panic!("Enter plays the track"),
    }
    a.handle_key(plain('o'));
    assert_eq!(a.mode, Mode::Input);
    a.handle_key(plain('q'));
    assert!(matches!(a.handle_key(code(KeyCode::Enter)), AppCommand::Nothing));
    assert_eq!(a.status_bar.message, Ok("Invalid song.".to_string()));
    a.handle_key(code(KeyCode::Esc));
    assert_eq!(a.mode, Mode::Normal);
}

#[test]
fn library_enter_appends_and_plays() {
    let mut a = app();
    a.set_view(ActiveView::Library);
    match a.handle_key(code(KeyCode::Enter)) {
        AppCommand::AppendAndPlay(v) => assert_eq!(titles(&v), vec!["River", "Carey"]),
        _ => panic!("Enter queues the artist"),
    }
    a.handle_key(plain('/'));
    assert_eq!(a.mode, Mode::Input);
    match a.status_line() {
        Some(StatusLine::Search { text }) => assert_eq!(text, "/_ (0 matches)"),
        _ => panic!("the search line shows"),
    }
    a.handle_key(plain('r'));
    match a.status_line() {
        Some(StatusLine::Search { text }) => assert_eq!(text, "/r_ (1 match)"),
        _ => panic!("the search line shows"),
    }
}

#[test]
fn browse_editing_is_input_mode() {
    let mut a = app();
    a.set_view(ActiveView::Browse);
    a.handle_key(plain('i'));
    assert_eq!(a.mode, Mode::Input);
    for c in "creep".chars() {
        a.handle_key(plain(c));
    }
    assert_eq!(titles(&a.browse.results), vec!["Creep"]);
    a.handle_key(code(KeyCode::Enter));
    assert_eq!(a.mode, Mode::Normal);
}

#[test]
fn idle_status_line_without_a_song() {
    let a = app();
    assert!(matches!(a.status_line(), Some(StatusLine::Idle)));
}

#[test]
fn command_bar_keys_that_would_overflow_are_reported() {
    let mut a = app();
    a.handle_key(plain(':'));
    for c in "s r".chars() {
        a.handle_key(plain(c));
    }
    assert!(!a.key_would_panic(code(KeyCode::Tab)));
    a.command_bar.selected = usize::MAX;
    assert!(a.key_would_panic(code(KeyCode::Tab)));
    a.command_bar.history_idx = Some(usize::MAX);
    assert!(a.key_would_panic(code(KeyCode::Down)));
}
