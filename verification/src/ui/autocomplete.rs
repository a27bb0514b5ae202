//! Song suggestions while typing in the playlist's insert mode.
use vstd::prelude::*;

use crate::song::{
    album_or_unknown, artist_or_unknown, lemma_filter_take_step, lemma_take_all, lemma_views_push,
    song_tag, song_views, tag_or, text_or, text_or_default, title_or_unknown, Song, SongView,
};
use crate::text::{lowercase_of, owned, push_str, seq_contains, text_contains, to_lowercase};

verus! {

/// "artist - album: title", each "Unknown" when missing.
pub open spec fn song_suggestion(s: SongView) -> Seq<char> {
    artist_or_unknown(s) + " - "@ + album_or_unknown(s) + ": "@ + title_or_unknown(s)
}

/// Formats a suggestion as "artist - album: title".
pub fn format_song_suggestion(song: &Song) -> (r: String)
    ensures
        r@ == song_suggestion(song@),
{
    let artist = text_or_default(&song.artist, "Unknown");
    let album = song_tag(song, "Album");
    let title = text_or_default(&song.title, "Unknown");
    let mut r = owned(artist);
    push_str(&mut r, " - ");
    push_str(&mut r, album);
    push_str(&mut r, ": ");
    push_str(&mut r, title);
    r
}

/// The title, artist or album of the song, lower-cased, contains `q`
/// (a missing title or artist counts as empty, a missing album as "Unknown").
pub open spec fn suggestion_matches(s: SongView, q: Seq<char>) -> bool {
    ||| seq_contains(lowercase_of(text_or(s.title, ""@)), q)
    ||| seq_contains(lowercase_of(text_or(s.artist, ""@)), q)
    ||| seq_contains(lowercase_of(tag_or(s, "Album"@, "Unknown"@)), q)
}

/// The filter of songs that match the lower-cased query `q`.
pub open spec fn suggestion_filter(q: Seq<char>) -> spec_fn(SongView) -> bool {
    |s: SongView| suggestion_matches(s, q)
}

/// Whether a song matches a lower-cased query.
pub fn song_matches_suggestion(song: &Song, q: &str) -> (r: bool)
    ensures
        r == suggestion_matches(song@, q@),
{
    let title = to_lowercase(text_or_default(&song.title, ""));
    if text_contains(title.as_str(), q) {
        return true;
    }
    let artist = to_lowercase(text_or_default(&song.artist, ""));
    if text_contains(artist.as_str(), q) {
        return true;
    }
    let album = to_lowercase(song_tag(song, "Album"));
    text_contains(album.as_str(), q)
}

/// The songs of `all` that match lower-cased `q`, in order.
pub fn filter_suggestions(all: &[Song], q: &str) -> (r: Vec<Song>)
    ensures
        song_views(r@) == song_views(all@).filter(suggestion_filter(q@)),
{
    let ghost p = suggestion_filter(q@);
    let mut out: Vec<Song> = Vec::new();
    let mut i: usize = 0;
    while i < all.len()
        invariant
            i <= all@.len(),
            p == suggestion_filter(q@),
            song_views(out@) == song_views(all@).take(i as int).filter(p),
        decreases all@.len() - i,
    {
        let b = song_matches_suggestion(&all[i], q);
        proof {
            lemma_filter_take_step(song_views(all@), i as int, p);
        }
        if b {
            let d = all[i].duplicate();
            proof {
                lemma_views_push(out@, d);
            }
            out.push(d);
        }
        i = i + 1;
    }
    proof {
        lemma_take_all(song_views(all@));
    }
    out
}

/// The suggestions for the text typed so far.
pub struct Autocomplete {
    pub query: String,
    pub matches: Vec<Song>,
    pub selected: usize,
    pub scroll_offset: usize,
    pub visible_count: usize,
}

/// The scroll offset that keeps `selected` within the window of `visible`
/// rows starting at `offset`.
pub open spec fn scrolled_to(selected: usize, offset: usize, visible: usize) -> usize {
    if selected < offset {
        selected
    } else if selected >= offset + visible {
        (selected - visible + 1) as usize
    } else {
        offset
    }
}

/// Scrolling the window of `visible` rows at `offset` to `selected` stays
/// within `usize`: the window's end is computed once the selection is at or
/// past the offset, and the new offset once it is past the window.
pub open spec fn scroll_fits(selected: usize, offset: usize, visible: usize) -> bool {
    &&& selected >= offset ==> offset + visible <= usize::MAX
    &&& selected >= offset + visible ==> selected - visible + 1 <= usize::MAX
}

/// Whether scrolling to `selected` would overflow (see `scroll_fits`).
pub fn scroll_would_overflow(selected: usize, offset: usize, visible: usize) -> (r: bool)
    ensures
        r == !scroll_fits(selected, offset, visible),
{
    let s = selected as u128;
    let o = offset as u128;
    let v = visible as u128;
    let m = usize::MAX as u128;
    (s >= o && o + v > m) || (s >= o + v && s - v + 1 > m)
}

/// After scrolling to `selected`, the selection is in the window (when the
/// window has at least one row).
pub proof fn lemma_scrolled_to_shows_selected(selected: usize, offset: usize, visible: usize)
    requires
        visible >= 1,
        scroll_fits(selected, offset, visible),
    ensures
        scrolled_to(selected, offset, visible) <= selected < scrolled_to(selected, offset, visible) + visible,
{
}

/// The index after `selected`, wrapping to the first.
pub open spec fn wrap_next(selected: usize, len: nat) -> usize {
    ((selected + 1) % (len as int)) as usize
}

/// The index before `selected`, wrapping to the last.
pub open spec fn wrap_prev(selected: usize, len: nat) -> usize {
    if selected >= 1 {
        (selected - 1) as usize
    } else {
        (len - 1) as usize
    }
}

/// Selecting the next entry and then the previous one comes back to the
/// entry one started from.
pub proof fn lemma_wrap_next_then_prev(selected: usize, len: nat)
    requires
        selected < len,
        selected < usize::MAX,
    ensures
        wrap_prev(wrap_next(selected, len), len) == selected,
{
    if selected + 1 < len {
        vstd::arithmetic::div_mod::lemma_small_mod((selected + 1) as nat, len);
    } else {
        vstd::arithmetic::div_mod::lemma_mod_self_0(len as int);
    }
}

/// Selecting the previous entry and then the next one comes back to the
/// entry one started from.
pub proof fn lemma_wrap_prev_then_next(selected: usize, len: nat)
    requires
        selected < len <= usize::MAX,
    ensures
        wrap_next(wrap_prev(selected, len), len) == selected,
{
    if selected >= 1 {
        vstd::arithmetic::div_mod::lemma_small_mod(selected as nat, len);
    } else {
        vstd::arithmetic::div_mod::lemma_mod_self_0(len as int);
    }
}

impl Autocomplete {
    /// No query, no matches, a window of five rows.
    pub fn new() -> (a: Self)
        ensures
            a.query@ == Seq::<char>::empty(),
            a.matches@.len() == 0,
            a.selected == 0,
            a.scroll_offset == 0,
            a.visible_count == 5,
    {
        Autocomplete { query: String::new(), matches: Vec::new(), selected: 0, scroll_offset: 0, visible_count: 5 }
    }

    /// A copy.
    pub fn duplicate(&self) -> (a: Self)
        ensures
            a.query@ == self.query@,
            song_views(a.matches@) == song_views(self.matches@),
            a.selected == self.selected,
            a.scroll_offset == self.scroll_offset,
            a.visible_count == self.visible_count,
    {
        Autocomplete {
            query: self.query.clone(),
            matches: crate::song::duplicate_songs(&self.matches),
            selected: self.selected,
            scroll_offset: self.scroll_offset,
            visible_count: self.visible_count,
        }
    }

    /// Sets the query and recomputes the matches: the songs of `all_songs`
    /// whose title, artist or album contains the lower-cased query,
    /// case-insensitively. The selection and scroll return to the top.
    pub fn update(&mut self, query: &str, all_songs: &[Song])
        ensures
            final(self).query@ == query@,
            song_views(final(self).matches@) == song_views(all_songs@).filter(
                suggestion_filter(lowercase_of(query@)),
            ),
            final(self).selected == 0,
            final(self).scroll_offset == 0,
            final(self).visible_count == old(self).visible_count,
    {
        self.query = owned(query);
        let q = to_lowercase(query);
        self.matches = filter_suggestions(all_songs, q.as_str());
        self.selected = 0;
        self.scroll_offset = 0;
    }

    /// Selects the next match, wrapping to the first; nothing without matches.
    pub fn next(&mut self)
        requires
            old(self).matches@.len() == 0 || old(self).selected < usize::MAX,
            old(self).matches@.len() == 0 || scroll_fits(
                wrap_next(old(self).selected, old(self).matches@.len()),
                old(self).scroll_offset,
                old(self).visible_count,
            ),
        ensures
            final(self).query == old(self).query,
            final(self).matches == old(self).matches,
            final(self).visible_count == old(self).visible_count,
            old(self).matches@.len() == 0 ==> final(self).selected == old(self).selected
                && final(self).scroll_offset == old(self).scroll_offset,
            old(self).matches@.len() > 0 ==> {
                &&& final(self).selected == wrap_next(old(self).selected, old(self).matches@.len())
                &&& final(self).scroll_offset == scrolled_to(
                    final(self).selected,
                    old(self).scroll_offset,
                    old(self).visible_count,
                )
            },
    {
        if self.matches.len() == 0 {
            return;
        }
        self.selected = (self.selected + 1) % self.matches.len();
        self.sync_scroll();
    }

    /// Selects the previous match, wrapping to the last; nothing without matches.
    pub fn prev(&mut self)
        requires
            old(self).matches@.len() == 0 || scroll_fits(
                wrap_prev(old(self).selected, old(self).matches@.len()),
                old(self).scroll_offset,
                old(self).visible_count,
            ),
        ensures
            final(self).query == old(self).query,
            final(self).matches == old(self).matches,
            final(self).visible_count == old(self).visible_count,
            old(self).matches@.len() == 0 ==> final(self).selected == old(self).selected
                && final(self).scroll_offset == old(self).scroll_offset,
            old(self).matches@.len() > 0 ==> {
                &&& final(self).selected == wrap_prev(old(self).selected, old(self).matches@.len())
                &&& final(self).scroll_offset == scrolled_to(
                    final(self).selected,
                    old(self).scroll_offset,
                    old(self).visible_count,
                )
            },
    {
        if self.matches.len() == 0 {
            return;
        }
        self.selected = if self.selected >= 1 { self.selected - 1 } else { self.matches.len() - 1 };
        self.sync_scroll();
    }

    /// Scrolls the window so that the selection is in it.
    fn sync_scroll(&mut self)
        requires
            scroll_fits(old(self).selected, old(self).scroll_offset, old(self).visible_count),
        ensures
            final(self).scroll_offset == scrolled_to(
                old(self).selected,
                old(self).scroll_offset,
                old(self).visible_count,
            ),
            final(self).selected == old(self).selected,
            final(self).visible_count == old(self).visible_count,
            final(self).query == old(self).query,
            final(self).matches == old(self).matches,
    {
        if self.selected < self.scroll_offset {
            self.scroll_offset = self.selected;
        } else if self.selected >= self.scroll_offset + self.visible_count {
            self.scroll_offset = self.selected - self.visible_count + 1;
        }
    }

    /// The selected match, if any.
    pub fn current(&self) -> (r: Option<&Song>)
        ensures
            self.selected < self.matches@.len() ==> r == Some(&self.matches@[self.selected as int]),
            self.selected >= self.matches@.len() ==> r is None,
    {
        if self.selected < self.matches.len() {
            Some(&self.matches[self.selected])
        } else {
            None
        }
    }

    /// Whether there is at least one match.
    pub fn has_matches(&self) -> (r: bool)
        ensures
            r == (self.matches@.len() > 0),
    {
        self.matches.len() != 0
    }
}

} // verus!
