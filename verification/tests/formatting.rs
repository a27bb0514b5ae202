use music_player::song::{song_tag, song_tag_or_empty, song_tag_owned, Song};
use music_player::text::{decimal2_string, decimal_string, insert_sorted, text_contains, text_less};
use music_player::ui::autocomplete::format_song_suggestion;
use music_player::ui::browse::BrowseField;
use music_player::ui::command::{format_album_suggestion, registered_commands};
use music_player::ui::display::{
    format_result_item, format_results_title, format_song_item, format_track_time, progress_bar,
};
use music_player::ui::statusbar::{
    format_duration, format_now_playing, format_search_text, typed_query_of, StatusBar, StatusLine,
};

fn tagged(title: Option<&str>, artist: Option<&str>, tags: &[(&str, &str)], secs: Option<u64>) -> Song {
    Song {
        file: "music/file.flac".to_string(),
        title: title.map(|t| t.to_string()),
        artist: artist.map(|a| a.to_string()),
        duration: secs,
        place_id: None,
        tags: tags.iter().map(|(k, v)| (k.to_string(), v.to_string())).collect(),
    }
}

#[test]
fn duration_is_minutes_and_two_digit_seconds() {
    assert_eq!(format_duration(0), "0:00");
    assert_eq!(format_duration(125_000), "2:05");
    assert_eq!(format_duration(125_999), "2:05");
    assert_eq!(format_duration(3_600_000), "60:00");
}

#[test]
fn decimal_forms() {
    assert_eq!(decimal_string(0), "0");
    assert_eq!(decimal_string(1234), "1234");
    assert_eq!(decimal_string(u64::MAX), "18446744073709551615");
    assert_eq!(decimal2_string(7), "07");
    assert_eq!(decimal2_string(42), "42");
}

#[test]
fn text_order_is_by_code_point() {
    assert!(text_less("Abba", "abba"));
    assert!(!text_less("abba", "Abba"));
    assert!(text_less("ab", "abc"));
    assert!(!text_less("abc", "abc"));
}

#[test]
fn contains_finds_blocks() {
    assert!(text_contains("hello world", "o w"));
    assert!(text_contains("abc", ""));
    assert!(!text_contains("abc", "abcd"));
}

#[test]
fn insert_sorted_keeps_order_and_drops_repeats() {
    let mut v: Vec<String> = Vec::new();
    insert_sorted(&mut v, "b".to_string());
    insert_sorted(&mut v, "a".to_string());
    insert_sorted(&mut v, "b".to_string());
    insert_sorted(&mut v, "C".to_string());
    assert_eq!(v, vec!["C".to_string(), "a".to_string(), "b".to_string()]);
}

#[test]
fn tags_are_found_ignoring_ascii_case() {
    let s = tagged(Some("T"), Some("A"), &[("album", "Blue"), ("Date", "1971")], None);
    assert_eq!(song_tag(&s, "Album"), "Blue");
    assert_eq!(song_tag(&s, "DATE"), "1971");
    assert_eq!(song_tag(&s, "Genre"), "Unknown");
    assert_eq!(song_tag_or_empty(&s, "Genre"), "");
    assert_eq!(song_tag_owned(&s, "ALBUM"), Some("Blue".to_string()));
    assert_eq!(song_tag_owned(&s, "Track"), None);
}

#[test]
fn first_tag_with_the_key_wins() {
    let s = tagged(None, None, &[("Album", "First"), ("ALBUM", "Second")], None);
    assert_eq!(song_tag(&s, "album"), "First");
}

#[test]
fn now_playing_line() {
    let s = tagged(Some("Blue"), Some("Joni Mitchell"), &[("Album", "Blue"), ("Date", "1971")], Some(180));
    assert_eq!(format_now_playing(&s), "Playing: Joni Mitchell | Blue 1971 | Blue");
    let bare = tagged(None, None, &[], None);
    assert_eq!(format_now_playing(&bare), "Playing: Unknown | Unknown Unknown | Unknown");
}

#[test]
fn suggestions_and_album_suggestions() {
    let s = tagged(Some("River"), Some("Joni"), &[("Album", "Blue")], Some(240));
    assert_eq!(format_song_suggestion(&s), "Joni - Blue: River");
    assert_eq!(format_album_suggestion(&s), "Joni: Blue");
    let bare = tagged(None, None, &[], None);
    assert_eq!(format_song_suggestion(&bare), "Unknown - Unknown: Unknown");
    assert_eq!(format_album_suggestion(&bare), "Unknown: Unknown");
}

#[test]
fn track_times_and_items() {
    let s = tagged(Some("River"), Some("Joni"), &[("Album", "Blue")], Some(245));
    assert_eq!(format_track_time(&s), "4:05");
    assert_eq!(format_song_item(&s), "River [4:05]");
    assert_eq!(format_result_item(&s), "Joni — River — Blue [4:05]");
    let bare = tagged(None, None, &[], None);
    assert_eq!(format_track_time(&bare), "-");
    assert_eq!(format_song_item(&bare), "Unknown [-]");
    assert_eq!(format_result_item(&bare), "Unknown — Unknown —  [-]");
    assert_eq!(format_results_title(12), "Results (12)");
}

#[test]
fn search_line_counts_matches() {
    assert_eq!(format_search_text("ab", 1), "/ab_ (1 match)");
    assert_eq!(format_search_text("ab", 0), "/ab_ (0 matches)");
    assert_eq!(format_search_text("", 3), "/_ (3 matches)");
}

#[test]
fn typed_query_is_after_the_first_space() {
    assert_eq!(typed_query_of("a blue sky"), "blue sky");
    assert_eq!(typed_query_of("a "), "");
    assert_eq!(typed_query_of("abc"), "");
}

#[test]
fn progress_label_and_bar() {
    let mut sb = StatusBar::new();
    assert_eq!(sb.progress_label(), "[0:00/0:01]");
    sb.elapsed = Some(61_000);
    sb.total = Some(200_000);
    assert_eq!(sb.progress_label(), "[1:01/3:20]");
    assert_eq!(progress_bar(3, 6), "==>   ");
    assert_eq!(progress_bar(0, 4), "    ");
    assert_eq!(progress_bar(1, 3), ">  ");
    assert_eq!(progress_bar(5, 0), "");
    assert_eq!(progress_bar(8, 4), "=======>");
    assert_eq!(sb.progress_bar_width(20), 8);
    assert_eq!(sb.progress_bar_width(5), 0);
    assert_eq!(sb.progress_line(2, 4), "=>   [1:01/3:20]");
}

#[test]
fn status_line_without_bars_hides_the_message() {
    let mut sb = StatusBar::new();
    sb.set_message(Err("Seek error: x".to_string()));
    assert!(matches!(sb.normal_content(), StatusLine::Idle));
    sb.set_now_playing(Some(tagged(Some("T"), Some("A"), &[], None)), Some(0));
    match sb.normal_content() {
        StatusLine::Playing { text } => assert_eq!(text, "Playing: A | Unknown Unknown | T"),
        _ => panic!("expected the song playing"),
    }
}

#[test]
fn commands_and_field_labels() {
    let cmds = registered_commands();
    assert_eq!(cmds.len(), 2);
    assert_eq!(cmds[0].name, "a");
    assert_eq!(cmds[1].name, "s");
    let labels: Vec<&str> = BrowseField::all().iter().map(|f| f.label()).collect();
    assert_eq!(labels, vec!["Any", "Artist", "Album", "Song", "Genre", "Filename", "Date"]);
}
