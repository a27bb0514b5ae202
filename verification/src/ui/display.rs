//! What the views draw: the texts of their rows and items, which rows
//! stand out, where the suggestion popup goes and the progress bar.
use vstd::prelude::*;

use crate::song::{artist_or_unknown, song_tag, song_tag_or_empty, tag_or, text_or_default, title_or_unknown, Song, SongView};
use crate::text::{
    decimal, decimal2, decimal2_string, decimal_string, empty_string, owned, push_char, push_str,
};
use crate::ui::autocomplete::{format_song_suggestion, song_suggestion, Autocomplete};
use crate::ui::browse::{BrowseEditMode, BrowseFocus, BrowseView};
use crate::ui::library::LibraryView;
use crate::ui::playlist::{InsertState, PlaylistView};
use crate::ui::statusbar::{progress_label_text, StatusBar};

verus! {

/// "m:ss" of a song's length, "-" when it is unknown.
pub open spec fn track_time_text(s: SongView) -> Seq<char> {
    match s.duration {
        Some(secs) => decimal(secs / 60) + ":"@ + decimal2(secs % 60),
        None => "-"@,
    }
}

/// Formats a song's length as "m:ss", or "-".
pub fn format_track_time(song: &Song) -> (r: String)
    ensures
        r@ == track_time_text(song@),
{
    match song.duration {
        Some(secs) => {
            let mut r = decimal_string(secs / 60);
            push_str(&mut r, ":");
            let s = decimal2_string(secs % 60);
            push_str(&mut r, s.as_str());
            r
        },
        None => owned("-"),
    }
}

/// Whether `v` holds `i`.
pub fn holds_index(v: &Vec<usize>, i: usize) -> (r: bool)
    ensures
        r == v@.contains(i),
{
    let mut k: usize = 0;
    while k < v.len()
        invariant
            k <= v@.len(),
            forall|j: int| 0 <= j < k ==> v@[j] != i,
        decreases v@.len() - k,
    {
        if v[k] == i {
            return true;
        }
        k = k + 1;
    }
    false
}

/// How a row stands out: the song playing in bold, a search match in
/// yellow.
#[derive(Debug, Clone, Copy, PartialEq, Eq, Structural)]
pub enum RowStyle {
    Plain,
    Playing,
    Match,
}

/// A row of the playlist table: artist, track number, title, album and
/// length ("Unknown" or "-" when missing), and its style.
pub struct TrackRow {
    pub artist: String,
    pub track: String,
    pub title: String,
    pub album: String,
    pub time: String,
    pub style: RowStyle,
}

impl PlaylistView {
    /// The style of row `i`: playing when its queue id is the song playing,
    /// else a match when the search found it.
    pub open spec fn row_style_of(self, i: int) -> RowStyle {
        if self.current_song_id is Some && self.tracks@[i].place_id == self.current_song_id {
            RowStyle::Playing
        } else if self.search_matches@.contains(i as usize) {
            RowStyle::Match
        } else {
            RowStyle::Plain
        }
    }

    /// The row of track `i`.
    pub fn track_row(&self, i: usize) -> (r: TrackRow)
        requires
            i < self.tracks@.len(),
        ensures
            r.artist@ == artist_or_unknown(self.tracks@[i as int]@),
            r.track@ == tag_or(self.tracks@[i as int]@, "Track"@, "Unknown"@),
            r.title@ == title_or_unknown(self.tracks@[i as int]@),
            r.album@ == tag_or(self.tracks@[i as int]@, "Album"@, "Unknown"@),
            r.time@ == track_time_text(self.tracks@[i as int]@),
            r.style == self.row_style_of(i as int),
    {
        let s = &self.tracks[i];
        let style = if self.is_playing(i) {
            RowStyle::Playing
        } else if holds_index(&self.search_matches, i) {
            RowStyle::Match
        } else {
            RowStyle::Plain
        };
        TrackRow {
            artist: owned(text_or_default(&s.artist, "Unknown")),
            track: owned(song_tag(s, "Track")),
            title: owned(text_or_default(&s.title, "Unknown")),
            album: owned(song_tag(s, "Album")),
            time: format_track_time(s),
            style,
        }
    }
}

impl InsertState {
    /// The suggestion popup shows once something is typed and there are
    /// matches.
    pub fn shows_popup(&self) -> (r: bool)
        ensures
            r == (self.input@.len() > 0 && self.autocomplete.matches@.len() > 0),
    {
        self.input.unicode_len() != 0 && self.autocomplete.has_matches()
    }
}

/// Where the suggestion popup goes on screen.
#[derive(Debug, Clone, Copy, PartialEq, Eq, Structural)]
pub struct PopupArea {
    pub x: u16,
    pub y: u16,
    pub width: u16,
    pub height: u16,
}

/// The smaller of two counts.
pub open spec fn min_usize(a: usize, b: usize) -> usize {
    if a < b {
        a
    } else {
        b
    }
}

/// How many suggestions the popup lists: those from the scroll offset on,
/// no more than the window.
pub open spec fn popup_line_count(a: Autocomplete) -> int {
    let visible = min_usize(a.visible_count, a.matches@.len() as usize);
    let rest = a.matches@.len() - a.scroll_offset;
    if rest <= 0 {
        0
    } else if rest < visible {
        rest
    } else {
        visible as int
    }
}

impl Autocomplete {
    /// How many suggestions the popup lists: the window, or fewer.
    pub fn visible_rows(&self) -> (r: usize)
        ensures
            r == min_usize(self.visible_count, self.matches@.len() as usize),
    {
        if self.visible_count < self.matches.len() {
            self.visible_count
        } else {
            self.matches.len()
        }
    }

    /// The popup's place in an area at (`ax`, `ay`) of width `aw`, with
    /// the playlist cursor on row `cursor`: two columns in, as high as the
    /// rows plus the border, half the area wide but at least 40, its bottom
    /// just above the cursor's row (below the header), clipped at the top.
    /// `None` where the screen arithmetic overflows.
    pub fn popup_area(&self, ax: u16, ay: u16, aw: u16, cursor: usize) -> (r: Option<PopupArea>)
        ensures
            ({
                let visible = min_usize(self.visible_count, self.matches@.len() as usize);
                let row = cursor as u16;
                if visible + 2 > u16::MAX || ax + 2 > u16::MAX || ay + row + 1 > u16::MAX {
                    r is None
                } else {
                    r matches Some(p) && p.height == visible + 2 && p.width == (if aw / 2 < 40 {
                        40
                    } else {
                        aw / 2
                    }) && p.x == ax + 2 && p.y == (if ay + row + 1 >= visible + 2 {
                        ay + row + 1 - (visible + 2)
                    } else {
                        0
                    })
                }
            }),
    {
        let visible = self.visible_rows();
        if visible > 65533 {
            return None;
        }
        let height: u16 = (visible as u16) + 2;
        if ax > 65533 {
            return None;
        }
        let row = cursor as u16;
        if (ay as u32) + (row as u32) + 1 > 65535 {
            return None;
        }
        let cursor_row: u16 = ay + row + 1;
        let half = aw / 2;
        let width: u16 = if half < 40 {
            40
        } else {
            half
        };
        let y: u16 = if cursor_row >= height {
            cursor_row - height
        } else {
            0
        };
        Some(PopupArea { x: ax + 2, y, width, height })
    }

    /// The suggestions the popup lists, from the scroll offset on and no
    /// more than the window: each one's text and whether it is selected.
    pub fn popup_lines(&self) -> (r: Vec<(String, bool)>)
        ensures
            r@.len() == popup_line_count(*self),
            forall|k: int|
                0 <= k < r@.len() ==> (#[trigger] r@[k]).0@ == song_suggestion(
                    self.matches@[self.scroll_offset + k]@,
                ) && r@[k].1 == (self.scroll_offset + k == self.selected),
    {
        let visible = self.visible_rows();
        let n = self.matches.len();
        let count = if self.scroll_offset >= n {
            0
        } else if n - self.scroll_offset < visible {
            n - self.scroll_offset
        } else {
            visible
        };
        let mut r: Vec<(String, bool)> = Vec::new();
        let mut k: usize = 0;
        while k < count
            invariant
                count == popup_line_count(*self),
                count <= n,
                n == self.matches@.len(),
                count > 0 ==> self.scroll_offset + count <= n,
                k <= count,
                r@.len() == k,
                forall|j: int|
                    0 <= j < k ==> (#[trigger] r@[j]).0@ == song_suggestion(
                        self.matches@[self.scroll_offset + j]@,
                    ) && r@[j].1 == (self.scroll_offset + j == self.selected),
            decreases count - k,
        {
            let i = self.scroll_offset + k;
            r.push((format_song_suggestion(&self.matches[i]), i == self.selected));
            k = k + 1;
        }
        r
    }

    /// The popup's title: "Suggestions (k/n)" with the selection's rank
    /// when not all matches fit, else "Suggestions".
    pub fn popup_title(&self) -> (r: String)
        requires
            self.matches@.len() > min_usize(self.visible_count, self.matches@.len() as usize) ==> self.selected
                < usize::MAX,
        ensures
            r@ == (if self.matches@.len() > min_usize(self.visible_count, self.matches@.len() as usize) {
                "Suggestions ("@ + decimal((self.selected + 1) as u64) + "/"@ + decimal(
                    self.matches@.len() as u64,
                ) + ")"@
            } else {
                "Suggestions"@
            }),
    {
        let visible = self.visible_rows();
        if self.matches.len() > visible {
            let mut r = owned("Suggestions (");
            let a = decimal_string((self.selected + 1) as u64);
            push_str(&mut r, a.as_str());
            push_str(&mut r, "/");
            let b = decimal_string(self.matches.len() as u64);
            push_str(&mut r, b.as_str());
            push_str(&mut r, ")");
            r
        } else {
            owned("Suggestions")
        }
    }
}

/// A song in the library's songs column: "title [m:ss]".
pub open spec fn song_item_text(s: SongView) -> Seq<char> {
    title_or_unknown(s) + " ["@ + track_time_text(s) + "]"@
}

/// Formats a song of the library's songs column.
pub fn format_song_item(song: &Song) -> (r: String)
    ensures
        r@ == song_item_text(song@),
{
    let mut r = owned(text_or_default(&song.title, "Unknown"));
    push_str(&mut r, " [");
    let t = format_track_time(song);
    push_str(&mut r, t.as_str());
    push_str(&mut r, "]");
    r
}

impl LibraryView {
    /// Artist `i` is a search match (drawn in yellow).
    pub fn artist_highlighted(&self, i: usize) -> (r: bool)
        ensures
            r == self.search_matches@.contains(i),
    {
        holds_index(&self.search_matches, i)
    }
}

/// A row of the browse results: "artist — title — album [m:ss]" (the
/// album empty when missing).
pub open spec fn result_item_text(s: SongView) -> Seq<char> {
    artist_or_unknown(s) + " — "@ + title_or_unknown(s) + " — "@ + tag_or(s, "Album"@, ""@) + " ["@
        + track_time_text(s) + "]"@
}

/// Formats a row of the browse results.
pub fn format_result_item(song: &Song) -> (r: String)
    ensures
        r@ == result_item_text(song@),
{
    let mut r = owned(text_or_default(&song.artist, "Unknown"));
    push_str(&mut r, " — ");
    push_str(&mut r, text_or_default(&song.title, "Unknown"));
    push_str(&mut r, " — ");
    push_str(&mut r, song_tag_or_empty(song, "Album"));
    push_str(&mut r, " [");
    let t = format_track_time(song);
    push_str(&mut r, t.as_str());
    push_str(&mut r, "]");
    r
}

/// The title of the results list: "Results (n)".
pub open spec fn results_title_text(n: usize) -> Seq<char> {
    "Results ("@ + decimal(n as u64) + ")"@
}

/// Formats the title of the results list.
pub fn format_results_title(n: usize) -> (r: String)
    ensures
        r@ == results_title_text(n),
{
    let mut r = owned("Results (");
    let d = decimal_string(n as u64);
    push_str(&mut r, d.as_str());
    push_str(&mut r, ")");
    r
}

impl BrowseView {
    /// What field `i` shows: its value, with "_" after it while it is
    /// being edited.
    pub open spec fn field_text(self, i: int) -> Seq<char> {
        let v = self.fields@[i].1@;
        if self.focus == BrowseFocus::Field(i as usize) && self.edit_mode == BrowseEditMode::Editing {
            v + "_"@
        } else {
            v
        }
    }

    /// The text of field `i`.
    pub fn field_display(&self, i: usize) -> (r: String)
        requires
            i < self.fields@.len(),
        ensures
            r@ == self.field_text(i as int),
    {
        let mut r = self.fields[i].1.clone();
        if self.focus == BrowseFocus::Field(i) && self.edit_mode == BrowseEditMode::Editing {
            push_str(&mut r, "_");
        }
        r
    }

    /// Result `i` is a search match (drawn in yellow).
    pub fn result_highlighted(&self, i: usize) -> (r: bool)
        ensures
            r == self.search_matches@.contains(i),
    {
        holds_index(&self.search_matches, i)
    }
}

/// `n` times the character `c`.
pub open spec fn repeated(c: char, n: int) -> Seq<char> {
    Seq::new(if n > 0 { n as nat } else { 0 }, |_i: int| c)
}

/// The progress bar of width `width` with `filled` cells done: "=" up to
/// a ">" at the last done cell, then spaces to the width; empty when the
/// width is zero.
pub open spec fn progress_bar_text(filled: usize, width: usize) -> Seq<char> {
    if width == 0 {
        Seq::empty()
    } else {
        let body = repeated('=', filled - 1) + (if filled > 0 {
            seq!['>']
        } else {
            Seq::empty()
        });
        body + repeated(' ', width - body.len())
    }
}

fn push_repeated(s: &mut String, c: char, n: usize)
    ensures
        final(s)@ == old(s)@ + repeated(c, n as int),
{
    let mut k: usize = 0;
    while k < n
        invariant
            k <= n,
            s@ == old(s)@ + repeated(c, k as int),
        decreases n - k,
    {
        push_char(s, c);
        k = k + 1;
        assert(s@ =~= old(s)@ + repeated(c, k as int));
    }
}

/// Builds the progress bar.
pub fn progress_bar(filled: usize, width: usize) -> (r: String)
    ensures
        r@ == progress_bar_text(filled, width),
{
    let mut s = empty_string();
    if width == 0 {
        return s;
    }
    let eq = if filled >= 1 {
        filled - 1
    } else {
        0
    };
    push_repeated(&mut s, '=', eq);
    assert(repeated('=', eq as int) =~= repeated('=', filled - 1));
    if filled > 0 {
        push_char(&mut s, '>');
    }
    let ghost body = s@;
    let used = s.unicode_len();
    let rest = if width >= used {
        width - used
    } else {
        0
    };
    push_repeated(&mut s, ' ', rest);
    assert(s@ =~= progress_bar_text(filled, width));
    s
}

impl StatusBar {
    /// The width left to the bar on a line `line_width` wide: the line
    /// less the "[elapsed/total]" label and a space, at least zero.
    pub fn progress_bar_width(&self, line_width: u16) -> (r: usize)
        ensures
            r == (if line_width >= progress_label_text(self.elapsed, self.total).len() + 1 {
                line_width - (progress_label_text(self.elapsed, self.total).len() + 1)
            } else {
                0
            }),
    {
        let label = self.progress_label();
        let n = label.unicode_len();
        if (line_width as usize) >= n && (line_width as usize) - n >= 1 {
            (line_width as usize) - n - 1
        } else {
            0
        }
    }

    /// The progress line: the bar, a space and the "[elapsed/total]"
    /// label.
    pub fn progress_line(&self, filled: usize, width: usize) -> (r: String)
        ensures
            r@ == progress_bar_text(filled, width) + " "@ + progress_label_text(self.elapsed, self.total),
    {
        let mut r = progress_bar(filled, width);
        push_str(&mut r, " ");
        let label = self.progress_label();
        push_str(&mut r, label.as_str());
        r
    }
}

} // verus!
