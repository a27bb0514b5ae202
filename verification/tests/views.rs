use music_player::keys::{Key, KeyCode, Modifiers};
use music_player::song::Song;
use music_player::ui::autocomplete::{filter_suggestions, Autocomplete};
use music_player::ui::browse::{BrowseEditMode, BrowseFocus, BrowseResult, BrowseView};
use music_player::ui::command::{CommandBar, CommandMode};
use music_player::ui::display::{PopupArea, RowStyle};
use music_player::ui::library::{next_index, LibraryColumn, LibraryView};
use music_player::ui::playlist::{PlaylistKeyResult, PlaylistView, QueueCommand};

fn song(title: &str, artist: &str, album: &str, secs: u64, id: u32) -> Song {
    Song {
        file: format!("{}/{}/{}.flac", artist, album, title),
        title: Some(title.to_string()),
        artist: Some(artist.to_string()),
        duration: Some(secs),
        place_id: Some(id),
        tags: vec![("Album".to_string(), album.to_string()), ("Track".to_string(), id.to_string())],
    }
}

fn plain(c: char) -> Key {
    Key::new(Modifiers::NoModifier, KeyCode::Char(c))
}

fn shifted(c: char) -> Key {
    Key::new(Modifiers::Shift, KeyCode::Char(c))
}

fn code(k: KeyCode) -> Key {
    Key::new(Modifiers::NoModifier, k)
}

fn library_songs() -> Vec<Song> {
    vec![
        song("River", "Joni Mitchell", "Blue", 243, 1),
        song("Carey", "Joni Mitchell", "Blue", 180, 2),
        song("Help", "Joni Mitchell", "Court and Spark", 200, 3),
        song("Airbag", "Radiohead", "OK Computer", 284, 4),
        song("Creep", "Radiohead", "Pablo Honey", 238, 5),
        song("Angie", "Rolling Stones", "Goats Head Soup", 272, 6),
    ]
}

fn titles(v: &[Song]) -> Vec<String> {
    v.iter().map(|s| s.title.clone().unwrap_or_default()).collect()
}

fn playlist_with(n: usize) -> PlaylistView {
    let mut p = PlaylistView::new();
    let all = library_songs();
    p.set_tracks(all.into_iter().take(n).collect());
    p
}

#[test]
fn playlist_moves_and_plays_the_current_track() {
    let mut p = playlist_with(3);
    let all = library_songs();
    assert!(matches!(p.actions(plain('j'), &all), PlaylistKeyResult::Nothing));
    assert_eq!(p.cursor, 1);
    match p.actions(code(KeyCode::Enter), &all) {
        PlaylistKeyResult::Queue(c) => assert_eq!(c, QueueCommand::PlayAt(1)),
        _ => panic!("Enter plays the track"),
    }
    p.actions(shifted('G'), &all);
    assert_eq!(p.cursor, 2);
    p.actions(plain('g'), &all);
    p.actions(plain('g'), &all);
    assert_eq!(p.cursor, 0);
}

#[test]
fn playlist_count_multiplies_the_motion() {
    let mut p = playlist_with(6);
    let all = library_songs();
    p.actions(plain('3'), &all);
    assert_eq!(p.motion.pending_count, Some(3));
    p.actions(plain('j'), &all);
    assert_eq!(p.cursor, 3);
    p.actions(plain('2'), &all);
    p.actions(plain('k'), &all);
    assert_eq!(p.cursor, 1);
}

#[test]
fn library_half_pages_reload_the_columns() {
    let mut many = library_songs();
    for i in 0..12u32 {
        many.push(song(&format!("Song {}", i), &format!("Artist {:02}", i), &format!("Album {}", i), 100, 100 + i));
    }
    let mut lib = LibraryView::new();
    lib.load_all_songs(many);
    assert_eq!(lib.artists[0], "Artist 00");
    lib.handle_key(Key::new(Modifiers::Control, KeyCode::Char('d')));
    assert_eq!(lib.artist_cursor, 10);
    assert_eq!(lib.albums, vec!["Album 10"]);
    assert_eq!(titles(&lib.songs), vec!["Song 10"]);
    lib.handle_key(Key::new(Modifiers::Control, KeyCode::Char('u')));
    assert_eq!(lib.artist_cursor, 0);
    assert_eq!(lib.albums, vec!["Album 0"]);
    lib.handle_key(plain('2'));
    lib.handle_key(plain('j'));
    assert_eq!(lib.artist_cursor, 2);
    assert_eq!(lib.albums, vec!["Album 2"]);
}

#[test]
fn browse_count_and_enter_on_results() {
    let all = library_songs();
    let mut b = BrowseView::new();
    b.focus = BrowseFocus::Search;
    b.handle_key(code(KeyCode::Enter), &all);
    assert_eq!(b.focus, BrowseFocus::Results);
    b.handle_key(plain('3'), &all);
    b.handle_key(plain('j'), &all);
    match b.handle_key(code(KeyCode::Enter), &all) {
        BrowseResult::AppendAndPlay(v) => assert_eq!(titles(&v), vec!["Airbag"]),
        _ => panic!("Enter plays the result"),
    }
}

#[test]
fn popup_lists_the_window_of_suggestions() {
    let all = library_songs();
    let mut a = Autocomplete::new();
    a.update("i", &all);
    for _ in 0..5 {
        a.next();
    }
    assert_eq!(a.selected, 5);
    assert_eq!(a.scroll_offset, 1);
    let lines = a.popup_lines();
    assert_eq!(lines.len(), 5);
    assert_eq!(lines[0].0, "Joni Mitchell - Blue: Carey");
    assert!(!lines[0].1);
    assert_eq!(lines[4].0, "Rolling Stones - Goats Head Soup: Angie");
    assert!(lines[4].1);
}

#[test]
fn playlist_c_clears_the_queue() {
    let mut p = playlist_with(3);
    let all = library_songs();
    p.actions(plain('j'), &all);
    match p.actions(plain('c'), &all) {
        PlaylistKeyResult::Queue(c) => assert_eq!(c, QueueCommand::Clear),
        _ => panic!("c clears the queue"),
    }
    assert_eq!(p.tracks.len(), 0);
    assert_eq!(p.cursor, 0);
}

#[test]
fn playlist_edit_keys_change_the_queue() {
    let all = library_songs();
    let mut p = playlist_with(3);
    match p.actions(shifted('J'), &all) {
        PlaylistKeyResult::Queue(c) => assert_eq!(c, QueueCommand::Swap(1, 0)),
        _ => panic!("J moves the track down"),
    }
    assert_eq!(p.cursor, 1);
    assert_eq!(titles(&p.tracks), vec!["Carey", "River", "Help"]);
    match p.actions(shifted('K'), &all) {
        PlaylistKeyResult::Queue(c) => assert_eq!(c, QueueCommand::Swap(0, 1)),
        _ => panic!("K moves the track up"),
    }
    assert_eq!(titles(&p.tracks), vec!["River", "Carey", "Help"]);
    p.actions(plain('j'), &all);
    match p.actions(shifted('D'), &all) {
        PlaylistKeyResult::Queue(c) => assert_eq!(c, QueueCommand::DeleteRange { pos: 1, count: 2 }),
        _ => panic!("D deletes from the cursor"),
    }
    assert_eq!(titles(&p.tracks), vec!["River"]);
    assert_eq!(p.cursor, 0);
}

#[test]
fn playlist_moves_at_the_edges_change_nothing() {
    let all = library_songs();
    let mut p = playlist_with(3);
    assert!(matches!(p.actions(shifted('K'), &all), PlaylistKeyResult::Nothing));
    assert_eq!(titles(&p.tracks), vec!["River", "Carey", "Help"]);
    p.actions(shifted('G'), &all);
    assert!(matches!(p.actions(shifted('J'), &all), PlaylistKeyResult::Nothing));
    assert_eq!(p.cursor, 2);
    assert_eq!(titles(&p.tracks), vec!["River", "Carey", "Help"]);
}

#[test]
fn playlist_dd_deletes_the_current_track() {
    let all = library_songs();
    let mut p = playlist_with(3);
    p.actions(shifted('G'), &all);
    assert!(matches!(p.actions(plain('d'), &all), PlaylistKeyResult::Nothing));
    assert_eq!(p.tracks.len(), 3);
    match p.actions(plain('d'), &all) {
        PlaylistKeyResult::Queue(c) => assert_eq!(c, QueueCommand::DeleteAt(2)),
        _ => panic!("dd deletes the track"),
    }
    assert_eq!(titles(&p.tracks), vec!["River", "Carey"]);
    assert_eq!(p.cursor, 1);
    // Another key between the two d's cancels the first.
    p.actions(plain('d'), &all);
    p.actions(plain('x'), &all);
    assert!(matches!(p.actions(plain('d'), &all), PlaylistKeyResult::Nothing));
    assert_eq!(p.tracks.len(), 2);
}

#[test]
fn playlist_search_moves_to_matches() {
    let all = library_songs();
    let mut p = playlist_with(6);
    p.actions(plain('/'), &all);
    assert!(p.search.active);
    p.actions(plain('r'), &all);
    p.actions(plain('a'), &all);
    assert_eq!(p.search.query, "ra");
    assert_eq!(p.search_matches, vec![3, 4]);
    assert_eq!(p.cursor, 3);
    p.actions(code(KeyCode::Enter), &all);
    assert!(!p.search.active);
    p.actions(plain('n'), &all);
    assert_eq!(p.cursor, 4);
    p.actions(plain('n'), &all);
    assert_eq!(p.cursor, 3);
    p.actions(shifted('N'), &all);
    assert_eq!(p.cursor, 4);
}

#[test]
fn playlist_insert_mode_suggests_and_plays() {
    let all = library_songs();
    let mut p = playlist_with(1);
    p.actions(plain('o'), &all);
    assert!(p.insert_state.is_some());
    for c in "cre".chars() {
        p.actions(plain(c), &all);
    }
    {
        let ins = p.insert_state.as_ref().unwrap();
        assert_eq!(ins.input, "cre");
        assert_eq!(titles(&ins.autocomplete.matches), vec!["Creep"]);
        assert!(ins.shows_popup());
    }
    match p.actions(code(KeyCode::Enter), &all) {
        PlaylistKeyResult::AppendAndPlay(v) => assert_eq!(titles(&v), vec!["Creep"]),
        _ => panic!("Enter plays the suggestion"),
    }
    assert!(p.insert_state.is_none());
    p.actions(plain('i'), &all);
    p.actions(plain('z'), &all);
    match p.actions(code(KeyCode::Enter), &all) {
        PlaylistKeyResult::Status(m) => assert_eq!(m, "Invalid song."),
        _ => panic!("no suggestion"),
    }
    assert!(p.insert_state.is_some());
    p.actions(code(KeyCode::Esc), &all);
    assert!(p.insert_state.is_none());
}

#[test]
fn playlist_rows_show_the_song_playing() {
    let all = library_songs();
    let mut p = playlist_with(3);
    p.set_current_song_id(Some(2));
    let row = p.track_row(1);
    assert_eq!(row.artist, "Joni Mitchell");
    assert_eq!(row.track, "2");
    assert_eq!(row.title, "Carey");
    assert_eq!(row.album, "Blue");
    assert_eq!(row.time, "3:00");
    assert_eq!(row.style, RowStyle::Playing);
    assert_eq!(p.track_row(0).style, RowStyle::Plain);
    p.actions(plain('/'), &all);
    p.actions(plain('h'), &all);
    assert_eq!(p.search_matches, vec![0, 1, 2]);
    assert_eq!(p.track_row(0).style, RowStyle::Match);
    assert_eq!(p.track_row(1).style, RowStyle::Playing);
}

#[test]
fn key_that_would_overflow_is_reported() {
    let mut p = playlist_with(2);
    p.cursor = usize::MAX;
    assert!(p.key_would_panic(plain('j')));
    assert!(!p.key_would_panic(plain('k')));
}

#[test]
fn suggestions_match_title_artist_or_album() {
    let all = library_songs();
    assert_eq!(titles(&filter_suggestions(&all, "blue")), vec!["River", "Carey"]);
    assert_eq!(titles(&filter_suggestions(&all, "radio")), vec!["Airbag", "Creep"]);
    let mut a = Autocomplete::new();
    a.update("i", &all);
    assert_eq!(a.matches.len(), 6);
    a.next();
    a.next();
    assert_eq!(a.selected, 2);
    a.prev();
    assert_eq!(a.selected, 1);
    for _ in 0..5 {
        a.next();
    }
    assert_eq!(a.selected, 0);
    assert_eq!(a.scroll_offset, 0);
    a.prev();
    assert_eq!(a.selected, 5);
    assert_eq!(a.scroll_offset, 1);
    assert_eq!(a.visible_rows(), 5);
    assert_eq!(a.popup_title(), "Suggestions (6/6)");
    assert_eq!(a.popup_area(0, 0, 120, 20), Some(PopupArea { x: 2, y: 14, width: 60, height: 7 }));
    assert_eq!(a.popup_area(0, 0, 50, 2), Some(PopupArea { x: 2, y: 0, width: 40, height: 7 }));
    assert_eq!(a.popup_area(0, 65535, 50, 2), None);
}

#[test]
fn library_lists_sorted_artists_and_their_albums() {
    let mut lib = LibraryView::new();
    lib.load_all_songs(library_songs());
    assert_eq!(lib.artists, vec!["Joni Mitchell", "Radiohead", "Rolling Stones"]);
    assert_eq!(lib.albums, vec!["Blue", "Court and Spark"]);
    assert_eq!(titles(&lib.songs), vec!["River", "Carey"]);
    lib.handle_key(plain('j'));
    assert_eq!(lib.artist_cursor, 1);
    assert_eq!(lib.albums, vec!["OK Computer", "Pablo Honey"]);
    assert_eq!(titles(&lib.songs), vec!["Airbag"]);
}

#[test]
fn library_h_and_l_move_between_columns() {
    let mut lib = LibraryView::new();
    lib.load_all_songs(library_songs());
    assert_eq!(lib.focused_column, LibraryColumn::Artists);
    lib.handle_key(plain('l'));
    assert_eq!(lib.focused_column, LibraryColumn::Albums);
    lib.handle_key(plain('j'));
    assert_eq!(lib.album_cursor, 1);
    assert_eq!(titles(&lib.songs), vec!["Help"]);
    lib.handle_key(plain('l'));
    lib.handle_key(plain('l'));
    assert_eq!(lib.focused_column, LibraryColumn::Songs);
    lib.handle_key(plain('h'));
    assert_eq!(lib.focused_column, LibraryColumn::Albums);
    lib.handle_key(plain('h'));
    lib.handle_key(plain('h'));
    assert_eq!(lib.focused_column, LibraryColumn::Artists);
}

#[test]
fn library_enter_queues_the_selection() {
    let mut lib = LibraryView::new();
    lib.load_all_songs(library_songs());
    let sel = lib.handle_key(code(KeyCode::Enter));
    assert_eq!(titles(&sel.songs_to_add), vec!["River", "Carey", "Help"]);
    lib.handle_key(plain('l'));
    let sel = lib.handle_key(code(KeyCode::Enter));
    assert_eq!(titles(&sel.songs_to_add), vec!["River", "Carey"]);
    lib.handle_key(plain('l'));
    lib.handle_key(plain('j'));
    let sel = lib.handle_key(code(KeyCode::Enter));
    assert_eq!(titles(&sel.songs_to_add), vec!["Carey"]);
    assert!(sel.status.is_none());
}

#[test]
fn library_search_finds_artists() {
    let mut lib = LibraryView::new();
    lib.load_all_songs(library_songs());
    lib.handle_key(plain('/'));
    lib.handle_key(plain('r'));
    assert_eq!(lib.search_matches, vec![1, 2]);
    assert_eq!(lib.artist_cursor, 1);
    assert!(lib.artist_highlighted(2));
    assert!(!lib.artist_highlighted(0));
    lib.handle_key(code(KeyCode::Esc));
    lib.handle_key(plain('n'));
    assert_eq!(lib.artist_cursor, 2);
    assert_eq!(lib.albums, vec!["Goats Head Soup"]);
    assert_eq!(next_index(1, 2), 0);
}

#[test]
fn browse_filters_and_plays_a_result() {
    let all = library_songs();
    let mut b = BrowseView::new();
    // Edit the "Artist" field.
    b.handle_key(plain('l'), &all);
    assert_eq!(b.focus, BrowseFocus::Field(1));
    b.handle_key(plain('i'), &all);
    assert_eq!(b.edit_mode, BrowseEditMode::Editing);
    for c in "radio".chars() {
        b.handle_key(plain(c), &all);
    }
    assert_eq!(b.field_display(1), "radio_");
    assert_eq!(titles(&b.results), vec!["Airbag", "Creep"]);
    b.handle_key(code(KeyCode::Esc), &all);
    assert_eq!(b.field_display(1), "radio");
    // Tab to the Search button and run it.
    b.handle_key(code(KeyCode::Tab), &all);
    b.handle_key(code(KeyCode::Tab), &all);
    b.handle_key(code(KeyCode::Tab), &all);
    b.handle_key(code(KeyCode::Tab), &all);
    b.handle_key(code(KeyCode::Tab), &all);
    b.handle_key(code(KeyCode::Tab), &all);
    assert_eq!(b.focus, BrowseFocus::Search);
    b.handle_key(code(KeyCode::Enter), &all);
    assert_eq!(b.focus, BrowseFocus::Results);
    b.handle_key(plain('j'), &all);
    match b.handle_key(code(KeyCode::Enter), &all) {
        BrowseResult::AppendAndPlay(v) => assert_eq!(titles(&v), vec!["Creep"]),
        _ => panic!("Enter plays the result"),
    }
    b.handle_key(code(KeyCode::Esc), &all);
    assert_eq!(b.focus, BrowseFocus::Search);
    b.handle_key(code(KeyCode::Tab), &all);
    assert_eq!(b.focus, BrowseFocus::Reset);
    b.handle_key(code(KeyCode::Enter), &all);
    assert_eq!(b.results.len(), 0);
    assert_eq!(b.field_display(1), "");
}

#[test]
fn browse_focus_cycles() {
    let all = library_songs();
    let mut b = BrowseView::new();
    b.handle_key(shifted_backtab(), &all);
    assert_eq!(b.focus, BrowseFocus::Reset);
    b.handle_key(code(KeyCode::Tab), &all);
    assert_eq!(b.focus, BrowseFocus::Field(0));
    b.handle_key(plain('h'), &all);
    b.handle_key(plain('h'), &all);
    assert_eq!(b.focus, BrowseFocus::Search);
    b.handle_key(plain('h'), &all);
    assert_eq!(b.focus, BrowseFocus::Field(6));
}

fn shifted_backtab() -> Key {
    Key::new(Modifiers::Shift, KeyCode::BackTab)
}

#[test]
fn command_bar_album_search_and_history() {
    let all = library_songs();
    let mut bar = CommandBar::new();
    bar.open();
    for c in "a b".chars() {
        bar.push(c);
    }
    bar.update_matches(&all);
    assert_eq!(bar.mode, Some(CommandMode::Album));
    // One song per album whose name contains "b".
    assert_eq!(titles(&bar.matches), vec!["River", "Creep"]);
    assert_eq!(bar.ghost_text(), Some("Joni Mitchell: Blue".to_string()));
    assert_eq!(titles(&bar.songs_to_add(&all)), vec!["River", "Carey"]);
    bar.next_match();
    assert_eq!(bar.ghost_text(), Some("Radiohead: Pablo Honey".to_string()));
    bar.prev_match();
    bar.prev_match();
    assert_eq!(bar.selected, 1);
    bar.commit_history();
    bar.close();
    assert!(!bar.active);
    assert_eq!(bar.history, vec!["a b".to_string()]);
    bar.open();
    bar.history_prev();
    assert_eq!(bar.input, "a b");
    bar.history_next();
    assert_eq!(bar.input, "");
    assert_eq!(bar.history_idx, None);
}

#[test]
fn command_bar_song_search() {
    let all = library_songs();
    let mut bar = CommandBar::new();
    bar.open();
    for c in "s CR".chars() {
        bar.push(c);
    }
    bar.update_matches(&all);
    assert_eq!(bar.mode, Some(CommandMode::Song));
    assert_eq!(titles(&bar.matches), vec!["Creep"]);
    assert_eq!(bar.ghost_text(), Some("Creep".to_string()));
    bar.pop();
    bar.pop();
    bar.update_matches(&all);
    assert_eq!(bar.matches.len(), 6);
    bar.pop();
    bar.update_matches(&all);
    assert_eq!(bar.mode, None);
    assert_eq!(bar.matches.len(), 0);
    assert_eq!(bar.songs_to_add(&all).len(), 0);
}

#[test]
fn command_history_keeps_the_last_ten() {
    let mut bar = CommandBar::new();
    for i in 0..12u32 {
        bar.open();
        for c in format!("s {}", i).chars() {
            bar.push(c);
        }
        bar.commit_history();
        bar.close();
    }
    assert_eq!(bar.history.len(), 10);
    assert_eq!(bar.history[0], "s 2");
    assert_eq!(bar.history[9], "s 11");
    bar.open();
    bar.commit_history();
    assert_eq!(bar.history.len(), 10);
}

#[test]
fn album_matches_tell_artist_and_album_apart() {
    let all = vec![
        song("One", "x::y", "z", 100, 1),
        song("Two", "x", "y::z", 100, 2),
        song("Three", "x", "y::z", 100, 3),
    ];
    let mut bar = CommandBar::new();
    bar.open();
    for c in "a z".chars() {
        bar.push(c);
    }
    bar.update_matches(&all);
    assert_eq!(titles(&bar.matches), vec!["One", "Two"]);
}

#[test]
fn browse_focus_prev_undoes_focus_next() {
    let mut b = BrowseView::new();
    for _ in 0..9 {
        let before = b.focus;
        b.focus_next();
        b.focus_prev();
        assert_eq!(b.focus, before);
        b.focus_next();
    }
}
