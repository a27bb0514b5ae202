//! The library view: artists, their albums and the album's songs in three
//! columns, browsed with vim motions.
use vstd::prelude::*;

use crate::keys::{Key, KeyCode, Modifiers};
use crate::song::{
    album_or_unknown, lemma_filter_take_step, lemma_take_all, lemma_views_push, song_tag,
    song_tag_owned, song_views, tag_lookup, text_or, text_or_default, Song, SongView,
};
use crate::text::{
    insert_sorted, lowercase_of, owned, seq_contains, strictly_sorted, text_contains, text_eq,
    texts, to_lowercase,
};
use crate::vim::motion::{
    count_would_overflow, rows_down,
    count_overflows, handle_motion_key, motion_cleared, motion_outcome, motion_overflows, ListCursor, MotionAction,
    MotionState,
};
use crate::vim::search::{
    handle_search_input, handle_search_normal, query_popped, SearchState, VimSearchable,
};

verus! {

/// The column that has the focus.
#[derive(Debug, Clone, Copy, PartialEq, Eq, Structural)]
pub enum LibraryColumn {
    Artists,
    Albums,
    Songs,
}

/// What a key chose in the library: a message, the artist, album or song
/// selected, and the songs to queue.
pub struct Selection {
    pub status: Option<String>,
    pub artist: Option<String>,
    pub album: Option<String>,
    pub song: Option<Song>,
    pub songs_to_add: Vec<Song>,
}

impl Selection {
    /// Nothing chosen.
    pub fn empty() -> (s: Self)
        ensures
            s.is_empty(),
    {
        Selection { status: None, artist: None, album: None, song: None, songs_to_add: Vec::new() }
    }

    /// Nothing chosen.
    pub open spec fn is_empty(self) -> bool {
        &&& self.status is None
        &&& self.artist is None
        &&& self.album is None
        &&& self.song is None
        &&& self.songs_to_add@.len() == 0
    }
}

/// The library view's state.
pub struct LibraryView {
    pub all_songs: Vec<Song>,
    pub artists: Vec<String>,
    pub albums: Vec<String>,
    pub songs: Vec<Song>,
    pub artist_cursor: usize,
    pub album_cursor: usize,
    pub song_cursor: usize,
    pub focused_column: LibraryColumn,
    pub artist_motion: MotionState,
    pub album_motion: MotionState,
    pub song_motion: MotionState,
    pub search: SearchState,
    pub search_matches: Vec<usize>,
    pub search_match_idx: usize,
}

/// The artists that songs of `all` name.
pub open spec fn artist_set(all: Seq<SongView>) -> Set<Seq<char>> {
    Set::new(|a: Seq<char>| exists|i: int| 0 <= i < all.len() && (#[trigger] all[i]).artist == Some(a))
}

/// The albums that songs of `all` by `artist` (missing artist: empty) name.
pub open spec fn album_set(all: Seq<SongView>, artist: Seq<char>) -> Set<Seq<char>> {
    Set::new(
        |b: Seq<char>|
            exists|i: int|
                0 <= i < all.len() && text_or((#[trigger] all[i]).artist, ""@) == artist && tag_lookup(
                    all[i].tags,
                    "Album"@,
                ) == Some(b),
    )
}

/// Songs by `artist` (missing artist: empty) on `album` (missing: "Unknown").
pub open spec fn artist_album_filter(artist: Seq<char>, album: Seq<char>) -> spec_fn(SongView) -> bool {
    |s: SongView| text_or(s.artist, ""@) == artist && album_or_unknown(s) == album
}

/// Songs by `artist` (missing artist: empty).
pub open spec fn artist_filter(artist: Seq<char>) -> spec_fn(SongView) -> bool {
    |s: SongView| text_or(s.artist, ""@) == artist
}

/// The `i`th text of `v`, or the empty text past its end.
pub open spec fn text_at_or_empty(v: Seq<String>, i: usize) -> Seq<char> {
    if i < v.len() {
        v[i as int]@
    } else {
        ""@
    }
}

/// The positions of the artists whose name, lower-cased, contains `q`.
pub open spec fn artist_match_indices(artists: Seq<Seq<char>>, q: Seq<char>) -> Seq<usize>
    decreases artists.len(),
{
    if artists.len() == 0 {
        Seq::empty()
    } else {
        let r = artist_match_indices(artists.drop_last(), q);
        if seq_contains(lowercase_of(artists.last()), q) {
            r.push((artists.len() - 1) as usize)
        } else {
            r
        }
    }
}

/// The search finds exactly the artists that match, in order: every index
/// it lists is a matching artist, in increasing order, and every matching
/// artist is listed.
pub proof fn lemma_artist_matches_exact(items: Seq<Seq<char>>, q: Seq<char>)
    requires
        items.len() <= usize::MAX,
    ensures
        forall|k: int|
            0 <= k < artist_match_indices(items, q).len() ==> {
                let i = #[trigger] artist_match_indices(items, q)[k];
                i < items.len() && seq_contains(lowercase_of(items[i as int]), q)
            },
        forall|k1: int, k2: int|
            0 <= k1 < k2 < artist_match_indices(items, q).len() ==> artist_match_indices(items, q)[k1]
                < artist_match_indices(items, q)[k2],
        forall|i: int|
            0 <= i < items.len() && seq_contains(lowercase_of(#[trigger] items[i]), q) ==> artist_match_indices(
                items,
                q,
            ).contains(i as usize),
    decreases items.len(),
{
    if items.len() > 0 {
        let init = items.drop_last();
        lemma_artist_matches_exact(init, q);
        let r = artist_match_indices(init, q);
        assert forall|i: int| 0 <= i < items.len() && seq_contains(lowercase_of(#[trigger] items[i]), q) implies artist_match_indices(
            items,
            q,
        ).contains(i as usize) by {
            if i < items.len() - 1 {
                assert(init[i] == items[i]);
                let k = choose|k: int| 0 <= k < r.len() && r[k] == i as usize;
                assert(artist_match_indices(items, q)[k] == i as usize);
            } else {
                assert(artist_match_indices(items, q) == r.push(i as usize));
                assert(artist_match_indices(items, q)[r.len() as int] == i as usize);
            }
        }
    }
}

impl LibraryView {
    /// The artist under the cursor, empty when there is none.
    pub open spec fn current_artist(self) -> Seq<char> {
        text_at_or_empty(self.artists@, self.artist_cursor)
    }

    /// The album under the cursor, empty when there is none.
    pub open spec fn current_album(self) -> Seq<char> {
        text_at_or_empty(self.albums@, self.album_cursor)
    }

    /// The albums list is that of the current artist, its cursor at the top.
    pub open spec fn albums_fresh(self) -> bool {
        &&& strictly_sorted(texts(self.albums@))
        &&& texts(self.albums@).to_set() == album_set(song_views(self.all_songs@), self.current_artist())
        &&& self.album_cursor == 0
    }

    /// The songs list is that of the current artist and album, its cursor
    /// at the top.
    pub open spec fn songs_fresh(self) -> bool {
        &&& song_views(self.songs@) == song_views(self.all_songs@).filter(
            artist_album_filter(self.current_artist(), self.current_album()),
        )
        &&& self.song_cursor == 0
    }

    /// The albums column lists the albums of the artist under the cursor
    /// (sorted, each once), and the songs column the songs of that artist
    /// and of the album under the cursor.
    pub open spec fn lists_current(self) -> bool {
        &&& strictly_sorted(texts(self.albums@))
        &&& texts(self.albums@).to_set() == album_set(song_views(self.all_songs@), self.current_artist())
        &&& song_views(self.songs@) == song_views(self.all_songs@).filter(
            artist_album_filter(self.current_artist(), self.current_album()),
        )
    }

    /// Everything but the search matches, the albums, the songs and the
    /// artist, album and song cursors is as in `other`.
    pub open spec fn same_settings(self, other: Self) -> bool {
        &&& self.all_songs == other.all_songs
        &&& self.artists == other.artists
        &&& self.focused_column == other.focused_column
        &&& self.artist_motion == other.artist_motion
        &&& self.album_motion == other.album_motion
        &&& self.song_motion == other.song_motion
        &&& self.search == other.search
    }

    /// The lists and their cursors are as in `other`.
    pub open spec fn same_lists(self, other: Self) -> bool {
        &&& self.albums == other.albums
        &&& self.songs == other.songs
        &&& self.artist_cursor == other.artist_cursor
        &&& self.album_cursor == other.album_cursor
        &&& self.song_cursor == other.song_cursor
    }

    /// Everything but the focused column is as in `other`.
    pub open spec fn same_but_focus(self, other: Self) -> bool {
        &&& self.same_lists(other)
        &&& self.same_matches(other)
        &&& self.all_songs == other.all_songs
        &&& self.artists == other.artists
        &&& self.search == other.search
        &&& self.artist_motion == other.artist_motion
        &&& self.album_motion == other.album_motion
        &&& self.song_motion == other.song_motion
    }

    /// The search matches are as in `other`.
    pub open spec fn same_matches(self, other: Self) -> bool {
        &&& self.search_matches == other.search_matches
        &&& self.search_match_idx == other.search_match_idx
    }

    /// The state of a new library: empty, the artists column focused, no
    /// count or `g` pending, the search bar closed and empty.
    pub open spec fn at_start(self) -> bool {
        &&& self.all_songs@.len() == 0
        &&& self.artists@.len() == 0
        &&& self.albums@.len() == 0
        &&& self.songs@.len() == 0
        &&& self.artist_cursor == 0
        &&& self.album_cursor == 0
        &&& self.song_cursor == 0
        &&& self.focused_column == LibraryColumn::Artists
        &&& !self.search.active
        &&& self.search_matches@.len() == 0
        &&& self.search_match_idx == 0
        &&& self.artist_motion == motion_cleared()
        &&& self.album_motion == motion_cleared()
        &&& self.song_motion == motion_cleared()
        &&& self.search.query@ == Seq::<char>::empty()
    }

    /// An empty library, the artists column focused.
    pub fn new() -> (v: Self)
        ensures
            v.at_start(),
    {
        LibraryView {
            all_songs: Vec::new(),
            artists: Vec::new(),
            albums: Vec::new(),
            songs: Vec::new(),
            artist_cursor: 0,
            album_cursor: 0,
            song_cursor: 0,
            focused_column: LibraryColumn::Artists,
            artist_motion: MotionState::new(),
            album_motion: MotionState::new(),
            song_motion: MotionState::new(),
            search: SearchState::new(),
            search_matches: Vec::new(),
            search_match_idx: 0,
        }
    }

    /// Loads the music database: the artists are listed sorted, once each,
    /// the first selected, with its albums and the first album's songs.
    pub fn load_all_songs(&mut self, songs: Vec<Song>)
        ensures
            library_loaded(*old(self), songs, *final(self)),
    {
        self.all_songs = songs;
        self.artists = collect_artists(&self.all_songs);
        self.artist_cursor = 0;
        self.refresh_albums();
        self.refresh_songs();
    }

    /// Lists the albums of the current artist and puts the album cursor at
    /// the top.
    fn refresh_albums(&mut self)
        ensures
            final(self).albums_fresh(),
            final(self).same_settings(*old(self)),
            final(self).same_matches(*old(self)),
            final(self).artist_cursor == old(self).artist_cursor,
            final(self).songs == old(self).songs,
            final(self).song_cursor == old(self).song_cursor,
    {
        let artist = if self.artist_cursor < self.artists.len() {
            self.artists[self.artist_cursor].clone()
        } else {
            owned("")
        };
        self.albums = collect_albums(&self.all_songs, artist.as_str());
        self.album_cursor = 0;
    }

    /// Lists the songs of the current artist and album and puts the song
    /// cursor at the top.
    fn refresh_songs(&mut self)
        ensures
            final(self).songs_fresh(),
            final(self).same_settings(*old(self)),
            final(self).same_matches(*old(self)),
            final(self).artist_cursor == old(self).artist_cursor,
            final(self).albums == old(self).albums,
            final(self).album_cursor == old(self).album_cursor,
    {
        let artist = if self.artist_cursor < self.artists.len() {
            self.artists[self.artist_cursor].clone()
        } else {
            owned("")
        };
        let album = if self.album_cursor < self.albums.len() {
            self.albums[self.album_cursor].clone()
        } else {
            owned("")
        };
        self.songs = collect_artist_album(&self.all_songs, artist.as_str(), album.as_str());
        self.song_cursor = 0;
    }

    /// The artist cursor moved to `cursor`, and the albums and songs
    /// followed.
    fn select_artist(&mut self, cursor: usize)
        ensures
            final(self).artist_cursor == cursor,
            final(self).albums_fresh(),
            final(self).songs_fresh(),
            final(self).same_settings(*old(self)),
            final(self).same_matches(*old(self)),
    {
        self.artist_cursor = cursor;
        self.refresh_albums();
        self.refresh_songs();
    }

    /// Moves the focus a column to the left.
    pub fn focus_left(&mut self)
        ensures
            final(self).focused_column == (match old(self).focused_column {
                LibraryColumn::Albums => LibraryColumn::Artists,
                LibraryColumn::Songs => LibraryColumn::Albums,
                LibraryColumn::Artists => LibraryColumn::Artists,
            }),
            final(self).same_lists(*old(self)),
            final(self).same_matches(*old(self)),
            final(self).all_songs == old(self).all_songs,
            final(self).artists == old(self).artists,
            final(self).search == old(self).search,
            final(self).artist_motion == old(self).artist_motion,
            final(self).album_motion == old(self).album_motion,
            final(self).song_motion == old(self).song_motion,
    {
        self.focused_column = match self.focused_column {
            LibraryColumn::Albums => LibraryColumn::Artists,
            LibraryColumn::Songs => LibraryColumn::Albums,
            LibraryColumn::Artists => LibraryColumn::Artists,
        };
    }

    /// Moves the focus a column to the right; chooses nothing.
    pub fn focus_right(&mut self) -> (s: Selection)
        ensures
            s.is_empty(),
            final(self).focused_column == (match old(self).focused_column {
                LibraryColumn::Artists => LibraryColumn::Albums,
                LibraryColumn::Albums => LibraryColumn::Songs,
                LibraryColumn::Songs => LibraryColumn::Songs,
            }),
            final(self).same_lists(*old(self)),
            final(self).same_matches(*old(self)),
            final(self).all_songs == old(self).all_songs,
            final(self).artists == old(self).artists,
            final(self).search == old(self).search,
            final(self).artist_motion == old(self).artist_motion,
            final(self).album_motion == old(self).album_motion,
            final(self).song_motion == old(self).song_motion,
    {
        match self.focused_column {
            LibraryColumn::Artists => {
                self.focused_column = LibraryColumn::Albums;
            },
            LibraryColumn::Albums => {
                self.focused_column = LibraryColumn::Songs;
            },
            LibraryColumn::Songs => {},
        }
        Selection::empty()
    }

    /// The songs Enter queues: all songs of the current artist, of the
    /// current album, or the current song, by the focused column.
    pub open spec fn selected_songs(self) -> Seq<SongView> {
        match self.focused_column {
            LibraryColumn::Artists => song_views(self.all_songs@).filter(artist_filter(self.current_artist())),
            LibraryColumn::Albums => song_views(self.all_songs@).filter(
                artist_album_filter(self.current_artist(), self.current_album()),
            ),
            LibraryColumn::Songs => if self.song_cursor < self.songs@.len() {
                seq![self.songs@[self.song_cursor as int]@]
            } else {
                Seq::empty()
            },
        }
    }

    /// The songs to queue for the focused column's selection.
    pub fn select_current(&self) -> (s: Selection)
        ensures
            s.status is None,
            s.artist is None,
            s.album is None,
            s.song is None,
            song_views(s.songs_to_add@) == self.selected_songs(),
    {
        let artist = if self.artist_cursor < self.artists.len() {
            self.artists[self.artist_cursor].as_str()
        } else {
            ""
        };
        match self.focused_column {
            LibraryColumn::Artists => {
                let songs = collect_artist(&self.all_songs, artist);
                Selection { status: None, artist: None, album: None, song: None, songs_to_add: songs }
            },
            LibraryColumn::Albums => {
                let album = if self.album_cursor < self.albums.len() {
                    self.albums[self.album_cursor].as_str()
                } else {
                    ""
                };
                let songs = collect_artist_album(&self.all_songs, artist, album);
                Selection { status: None, artist: None, album: None, song: None, songs_to_add: songs }
            },
            LibraryColumn::Songs => {
                let mut v: Vec<Song> = Vec::new();
                if self.song_cursor < self.songs.len() {
                    let d = self.songs[self.song_cursor].duplicate();
                    v.push(d);
                    assert(song_views(v@) =~= seq![d@]);
                } else {
                    assert(song_views(v@) =~= Seq::<SongView>::empty());
                }
                Selection { status: None, artist: None, album: None, song: None, songs_to_add: v }
            },
        }
    }

    /// The key cannot be taken: it would overflow the pending count or a
    /// cursor, or step to a match that is not there.
    pub open spec fn key_panics(self, key: Key) -> bool {
        let (cur, st) = match self.focused_column {
            LibraryColumn::Artists => (ListCursor { cursor: self.artist_cursor, len: self.artists@.len() as usize }, self.artist_motion),
            LibraryColumn::Albums => (ListCursor { cursor: self.album_cursor, len: self.albums@.len() as usize }, self.album_motion),
            LibraryColumn::Songs => (ListCursor { cursor: self.song_cursor, len: self.songs@.len() as usize }, self.song_motion),
        };
        !self.search.active && (count_overflows(st, key) || motion_overflows(cur, st, key) || (key.is_shifted(
            KeyCode::Char('N'),
        ) && !self.can_go_to_prev_match()))
    }

    /// Whether the key cannot be taken (see `key_panics`).
    pub fn key_would_panic(&self, key: Key) -> (r: bool)
        ensures
            r == self.key_panics(key),
    {
        if self.search.active {
            return false;
        }
        let (cursor, st) = match self.focused_column {
            LibraryColumn::Artists => (self.artist_cursor, self.artist_motion),
            LibraryColumn::Albums => (self.album_cursor, self.album_motion),
            LibraryColumn::Songs => (self.song_cursor, self.song_motion),
        };
        if count_would_overflow(st, key) {
            return true;
        }
        match rows_down(st, key) {
            Some(n) => {
                if (cursor as u128) + (n as u128) > usize::MAX as u128 {
                    return true;
                }
            },
            None => {},
        }
        key.modifiers == Modifiers::Shift && key.code == KeyCode::Char('N') && !(self.search_matches.len() == 0
            || self.search_match_idx <= self.search_matches.len())
    }

    /// Handles a key: the search bar when it is open; `h`/`l` move the
    /// focus, Enter queues the selection, `/`, `n` and `N` search the
    /// artists, and motions move the focused column's cursor (moving the
    /// artist or album reloads the columns to its right). Returns what was
    /// chosen.
    pub fn handle_key(&mut self, key: Key) -> (s: Selection)
        requires
            !old(self).key_panics(key),
        ensures
            library_key_step(*old(self), key, *final(self), s),
    {
        if self.search.active {
            let mut search = self.search.duplicate();
            handle_search_input(self, &mut search, key);
            self.search = search;
            return Selection::empty();
        }
        match (key.modifiers, key.code) {
            (Modifiers::NoModifier, KeyCode::Char('h')) => {
                self.focus_left();
                return Selection::empty();
            },
            (Modifiers::NoModifier, KeyCode::Char('l')) => {
                return self.focus_right();
            },
            (Modifiers::NoModifier, KeyCode::Enter) => {
                return self.select_current();
            },
            _ => {},
        }
        let mut search = self.search.duplicate();
        if handle_search_normal(self, &mut search, key) {
            self.search = search;
            return Selection::empty();
        }
        self.handle_column_motion(key)
    }

    /// A motion key in the focused column.
    fn handle_column_motion(&mut self, key: Key) -> (s: Selection)
        requires
            !old(self).search.active,
            !old(self).key_panics(key),
        ensures
            column_motion_step(*old(self), key, *final(self), s),
    {
        match self.focused_column {
            LibraryColumn::Artists => {
                let mut motion = self.artist_motion;
                let mut cur = ListCursor { cursor: self.artist_cursor, len: self.artists.len() };
                match handle_motion_key(&mut cur, &mut motion, key) {
                    Some(action) => {
                        self.artist_motion = motion;
                        self.artist_cursor = cur.cursor;
                        match action {
                            MotionAction::MoveDown(_) | MotionAction::MoveUp(_) | MotionAction::GoToTop
                            | MotionAction::GoToBottom | MotionAction::HalfPageUp | MotionAction::HalfPageDown => {
                                self.refresh_albums();
                                self.refresh_songs();
                                Selection::empty()
                            },
                            MotionAction::Select => {
                                let artist = if self.artist_cursor < self.artists.len() {
                                    Some(self.artists[self.artist_cursor].clone())
                                } else {
                                    None
                                };
                                Selection { status: None, artist, album: None, song: None, songs_to_add: Vec::new() }
                            },
                            _ => Selection::empty(),
                        }
                    },
                    None => Selection::empty(),
                }
            },
            LibraryColumn::Albums => {
                let mut motion = self.album_motion;
                let mut cur = ListCursor { cursor: self.album_cursor, len: self.albums.len() };
                match handle_motion_key(&mut cur, &mut motion, key) {
                    Some(action) => {
                        self.album_motion = motion;
                        self.album_cursor = cur.cursor;
                        match action {
                            MotionAction::MoveDown(_) | MotionAction::MoveUp(_) | MotionAction::GoToTop
                            | MotionAction::GoToBottom | MotionAction::HalfPageUp | MotionAction::HalfPageDown => {
                                self.refresh_songs();
                                Selection::empty()
                            },
                            MotionAction::Select => {
                                let artist = if self.artist_cursor < self.artists.len() {
                                    Some(self.artists[self.artist_cursor].clone())
                                } else {
                                    None
                                };
                                let album = if self.album_cursor < self.albums.len() {
                                    Some(self.albums[self.album_cursor].clone())
                                } else {
                                    None
                                };
                                Selection { status: None, artist, album, song: None, songs_to_add: Vec::new() }
                            },
                            _ => Selection::empty(),
                        }
                    },
                    None => Selection::empty(),
                }
            },
            LibraryColumn::Songs => {
                let mut motion = self.song_motion;
                let mut cur = ListCursor { cursor: self.song_cursor, len: self.songs.len() };
                match handle_motion_key(&mut cur, &mut motion, key) {
                    Some(action) => {
                        self.song_motion = motion;
                        self.song_cursor = cur.cursor;
                        if action == MotionAction::Select {
                            let song = if self.song_cursor < self.songs.len() {
                                Some(self.songs[self.song_cursor].duplicate())
                            } else {
                                None
                            };
                            Selection { status: None, artist: None, album: None, song, songs_to_add: Vec::new() }
                        } else {
                            Selection::empty()
                        }
                    },
                    None => Selection::empty(),
                }
            },
        }
    }
}

/// `new` is `old` with the songs `songs` loaded: the artists listed sorted,
/// once each, the first selected, with its albums and the first album's
/// songs; the focus, the motions and the search are kept.
pub open spec fn library_loaded(old: LibraryView, songs: Vec<Song>, new: LibraryView) -> bool {
    &&& new.all_songs == songs
    &&& strictly_sorted(texts(new.artists@))
    &&& texts(new.artists@).to_set() == artist_set(song_views(songs@))
    &&& new.artist_cursor == 0
    &&& new.albums_fresh()
    &&& new.songs_fresh()
    &&& new.focused_column == old.focused_column
    &&& new.artist_motion == old.artist_motion
    &&& new.album_motion == old.album_motion
    &&& new.song_motion == old.song_motion
    &&& new.search == old.search
    &&& new.same_matches(old)
}

/// `new` and `s` are the view and the selection after key `key` in `old`.
pub open spec fn library_key_step(old: LibraryView, key: Key, new: LibraryView, s: Selection) -> bool {
    &&& (old.search.active ==> {
        &&& s.is_empty()
        &&& search_input_step(old, key, new)
    })
    &&& (!old.search.active && key.is_plain(KeyCode::Char('h')) ==> {
        &&& s.is_empty()
        &&& new.focused_column == (match old.focused_column {
            LibraryColumn::Albums => LibraryColumn::Artists,
            LibraryColumn::Songs => LibraryColumn::Albums,
            LibraryColumn::Artists => LibraryColumn::Artists,
        })
        &&& new.same_but_focus(old)
    })
    &&& (!old.search.active && key.is_plain(KeyCode::Char('l')) ==> {
        &&& s.is_empty()
        &&& new.focused_column == (match old.focused_column {
            LibraryColumn::Artists => LibraryColumn::Albums,
            LibraryColumn::Albums => LibraryColumn::Songs,
            LibraryColumn::Songs => LibraryColumn::Songs,
        })
        &&& new.same_but_focus(old)
    })
    &&& (!old.search.active && key.is_plain(KeyCode::Enter) ==> {
        &&& s.status is None && s.artist is None && s.album is None && s.song is None
        &&& song_views(s.songs_to_add@) == old.selected_songs()
        &&& new == old
    })
    &&& (!old.search.active && !key.is_plain(KeyCode::Char('h')) && !key.is_plain(KeyCode::Char('l'))
        && !key.is_plain(KeyCode::Enter) ==> library_normal_step(old, key, new, s))
}

/// `l` then `h` bring the focus back to the column it was on, one level
/// deeper and back (artists to albums, albums to songs), with the lists
/// and cursors untouched.
pub proof fn lemma_right_then_left(v0: LibraryView, v1: LibraryView, v2: LibraryView, s1: Selection, s2: Selection)
    requires
        !v0.search.active,
        v0.focused_column != LibraryColumn::Songs,
        library_key_step(v0, Key { modifiers: Modifiers::NoModifier, code: KeyCode::Char('l') }, v1, s1),
        library_key_step(v1, Key { modifiers: Modifiers::NoModifier, code: KeyCode::Char('h') }, v2, s2),
    ensures
        v2.focused_column == v0.focused_column,
        v2.same_but_focus(v0),
        s1.is_empty() && s2.is_empty(),
{
}

/// `h` then `l` bring the focus back to the column it was on, one level
/// up and back, with the lists and cursors untouched.
pub proof fn lemma_left_then_right(v0: LibraryView, v1: LibraryView, v2: LibraryView, s1: Selection, s2: Selection)
    requires
        !v0.search.active,
        v0.focused_column != LibraryColumn::Artists,
        library_key_step(v0, Key { modifiers: Modifiers::NoModifier, code: KeyCode::Char('h') }, v1, s1),
        library_key_step(v1, Key { modifiers: Modifiers::NoModifier, code: KeyCode::Char('l') }, v2, s2),
    ensures
        v2.focused_column == v0.focused_column,
        v2.same_but_focus(v0),
        s1.is_empty() && s2.is_empty(),
{
}

/// Whatever key the library takes, its albums and songs columns keep
/// belonging to the artist and album under the cursors (motions of every
/// kind, `<C-u>`/`<C-d>` included, reload them).
pub proof fn lemma_lists_stay_current(v0: LibraryView, key: Key, v1: LibraryView, s: Selection)
    requires
        v0.lists_current(),
        library_key_step(v0, key, v1, s),
    ensures
        v1.lists_current(),
{
}

/// A new library, and one with songs just loaded, show current lists.
pub proof fn lemma_lists_current_at_start(v: LibraryView, old: LibraryView, songs: Vec<Song>, loaded: LibraryView)
    requires
        v.at_start(),
        library_loaded(old, songs, loaded),
    ensures
        v.lists_current(),
        loaded.lists_current(),
{
    let sv = song_views(v.all_songs@);
    assert(texts(v.albums@) =~= Seq::<Seq<char>>::empty());
    assert(album_set(sv, v.current_artist()) =~= Set::<Seq<char>>::empty());
    assert(texts(v.albums@).to_set() =~= Set::<Seq<char>>::empty());
    assert(sv =~= Seq::<SongView>::empty());
    assert(song_views(v.songs@) =~= Seq::<SongView>::empty());
    sv.filter_lemma(artist_album_filter(v.current_artist(), v.current_album()));
    assert(sv.filter(artist_album_filter(v.current_artist(), v.current_album())) =~= Seq::<SongView>::empty());
}

/// `new` is the view after key `key` in the open search bar.
pub open spec fn search_input_step(old: LibraryView, key: Key, new: LibraryView) -> bool {
    match key.code {
        KeyCode::Esc | KeyCode::Enter => {
            &&& !new.search.active
            &&& new.search.query@ == old.search.query@
            &&& new.same_lists(old) && new.same_matches(old)
            &&& new.all_songs == old.all_songs && new.artists == old.artists
        },
        KeyCode::Backspace => {
            &&& new.search.active == old.search.active
            &&& new.search.query@ == query_popped(old.search.query@)
            &&& artists_searched(old, new.search.query@, new)
        },
        KeyCode::Char(c) => {
            &&& new.search.active == old.search.active
            &&& new.search.query@ == old.search.query@.push(c)
            &&& artists_searched(old, new.search.query@, new)
        },
        _ => {
            &&& new.search.active == old.search.active
            &&& new.search.query@ == old.search.query@
            &&& new.same_lists(old) && new.same_matches(old)
            &&& new.all_songs == old.all_songs && new.artists == old.artists
        },
    }
}

/// `new` is `old` after searching the artists for `q`: the matches are the
/// artists containing it (case ignored), the first becomes current.
pub open spec fn artists_searched(old: LibraryView, q: Seq<char>, new: LibraryView) -> bool {
    &&& new.search_matches@ == artist_match_indices(texts(old.artists@), lowercase_of(q))
    &&& new.search_match_idx == 0
    &&& new.all_songs == old.all_songs
    &&& new.artists == old.artists
    &&& new.focused_column == old.focused_column
    &&& if new.search_matches@.len() > 0 {
        &&& new.artist_cursor == new.search_matches@[0]
        &&& new.albums_fresh()
        &&& new.songs_fresh()
    } else {
        new.same_lists(old)
    }
}

/// `new` is `old` after moving to match `idx`.
pub open spec fn moved_to_match(old: LibraryView, idx: usize, new: LibraryView) -> bool {
    &&& new.search_matches == old.search_matches
    &&& new.search_match_idx == idx
    &&& new.artist_cursor == old.search_matches@[idx as int]
    &&& new.albums_fresh()
    &&& new.songs_fresh()
    &&& new.all_songs == old.all_songs
    &&& new.artists == old.artists
    &&& new.focused_column == old.focused_column
}

/// `new` and `s` follow key `key` in normal mode, other than `h`, `l` and
/// Enter: the search keys, or a motion of the focused column.
pub open spec fn library_normal_step(old: LibraryView, key: Key, new: LibraryView, s: Selection) -> bool {
    if key.is_plain(KeyCode::Char('/')) {
        &&& s.is_empty()
        &&& new.search.active
        &&& new.search.query@ == Seq::<char>::empty()
        &&& new.same_lists(old) && new.same_matches(old)
        &&& new.all_songs == old.all_songs && new.artists == old.artists
    } else if key.is_plain(KeyCode::Char('n')) {
        &&& s.is_empty()
        &&& new.search.active == old.search.active
        &&& (old.search_matches@.len() == 0 ==> new.same_lists(old) && new.same_matches(old)
            && new.all_songs == old.all_songs && new.artists == old.artists)
        &&& (old.search_matches@.len() > 0 ==> moved_to_match(
            old,
            crate::ui::autocomplete::wrap_next(old.search_match_idx, old.search_matches@.len()),
            new,
        ))
    } else if key.is_shifted(KeyCode::Char('N')) {
        &&& s.is_empty()
        &&& new.search.active == old.search.active
        &&& (old.search_matches@.len() == 0 ==> new.same_lists(old) && new.same_matches(old)
            && new.all_songs == old.all_songs && new.artists == old.artists)
        &&& (old.search_matches@.len() > 0 ==> moved_to_match(
            old,
            crate::ui::autocomplete::wrap_prev(old.search_match_idx, old.search_matches@.len()),
            new,
        ))
    } else {
        column_motion_step(old, key, new, s)
    }
}

/// `new` and `s` follow a motion key in the focused column. The motion
/// state is kept only when the key did something.
pub open spec fn column_motion_step(old: LibraryView, key: Key, new: LibraryView, s: Selection) -> bool {
    &&& new.focused_column == old.focused_column
    &&& new.all_songs == old.all_songs
    &&& new.artists == old.artists
    &&& new.search == old.search
    &&& new.same_matches(old)
    &&& match old.focused_column {
        LibraryColumn::Artists => {
            exists|cur2: ListCursor, st2: MotionState, r: Option<MotionAction>|
                #![trigger motion_outcome(
                    ListCursor { cursor: old.artist_cursor, len: old.artists@.len() as usize },
                    old.artist_motion,
                    key,
                    cur2,
                    st2,
                    r,
                )]
                motion_outcome(
                    ListCursor { cursor: old.artist_cursor, len: old.artists@.len() as usize },
                    old.artist_motion,
                    key,
                    cur2,
                    st2,
                    r,
                ) && match r {
                    None => s.is_empty() && new.same_lists(old) && new.artist_motion == old.artist_motion,
                    Some(a) => {
                        &&& new.artist_motion == st2
                        &&& new.artist_cursor == cur2.cursor
                        &&& new.album_motion == old.album_motion
                        &&& new.song_motion == old.song_motion
                        &&& if a is MoveDown || a is MoveUp || a is GoToTop || a is GoToBottom || a is HalfPageUp || a is HalfPageDown {
                            s.is_empty() && new.albums_fresh() && new.songs_fresh()
                        } else if a is Select {
                            &&& s.status is None && s.album is None && s.song is None
                            &&& s.songs_to_add@.len() == 0
                            &&& opt_texts(s.artist) == (if new.artist_cursor < new.artists@.len() {
                                Some(new.artists@[new.artist_cursor as int]@)
                            } else {
                                None
                            })
                            &&& new.albums == old.albums && new.songs == old.songs
                            &&& new.album_cursor == old.album_cursor && new.song_cursor == old.song_cursor
                        } else {
                            &&& s.is_empty()
                            &&& new.albums == old.albums && new.songs == old.songs
                            &&& new.album_cursor == old.album_cursor && new.song_cursor == old.song_cursor
                        }
                    },
                }
        },
        LibraryColumn::Albums => {
            exists|cur2: ListCursor, st2: MotionState, r: Option<MotionAction>|
                #![trigger motion_outcome(
                    ListCursor { cursor: old.album_cursor, len: old.albums@.len() as usize },
                    old.album_motion,
                    key,
                    cur2,
                    st2,
                    r,
                )]
                motion_outcome(
                    ListCursor { cursor: old.album_cursor, len: old.albums@.len() as usize },
                    old.album_motion,
                    key,
                    cur2,
                    st2,
                    r,
                ) && match r {
                    None => s.is_empty() && new.same_lists(old) && new.album_motion == old.album_motion,
                    Some(a) => {
                        &&& new.album_motion == st2
                        &&& new.album_cursor == cur2.cursor
                        &&& new.artist_motion == old.artist_motion
                        &&& new.song_motion == old.song_motion
                        &&& new.artist_cursor == old.artist_cursor
                        &&& new.albums == old.albums
                        &&& if a is MoveDown || a is MoveUp || a is GoToTop || a is GoToBottom || a is HalfPageUp || a is HalfPageDown {
                            s.is_empty() && new.songs_fresh()
                        } else if a is Select {
                            &&& s.status is None && s.song is None
                            &&& s.songs_to_add@.len() == 0
                            &&& opt_texts(s.artist) == (if new.artist_cursor < new.artists@.len() {
                                Some(new.artists@[new.artist_cursor as int]@)
                            } else {
                                None
                            })
                            &&& opt_texts(s.album) == (if new.album_cursor < new.albums@.len() {
                                Some(new.albums@[new.album_cursor as int]@)
                            } else {
                                None
                            })
                            &&& new.songs == old.songs && new.song_cursor == old.song_cursor
                        } else {
                            &&& s.is_empty()
                            &&& new.songs == old.songs && new.song_cursor == old.song_cursor
                        }
                    },
                }
        },
        LibraryColumn::Songs => {
            exists|cur2: ListCursor, st2: MotionState, r: Option<MotionAction>|
                #![trigger motion_outcome(
                    ListCursor { cursor: old.song_cursor, len: old.songs@.len() as usize },
                    old.song_motion,
                    key,
                    cur2,
                    st2,
                    r,
                )]
                motion_outcome(
                    ListCursor { cursor: old.song_cursor, len: old.songs@.len() as usize },
                    old.song_motion,
                    key,
                    cur2,
                    st2,
                    r,
                ) && match r {
                    None => s.is_empty() && new.same_lists(old) && new.song_motion == old.song_motion,
                    Some(a) => {
                        &&& new.song_motion == st2
                        &&& new.song_cursor == cur2.cursor
                        &&& new.artist_motion == old.artist_motion
                        &&& new.album_motion == old.album_motion
                        &&& new.artist_cursor == old.artist_cursor
                        &&& new.album_cursor == old.album_cursor
                        &&& new.albums == old.albums
                        &&& new.songs == old.songs
                        &&& if a is Select {
                            &&& s.status is None && s.artist is None && s.album is None
                            &&& s.songs_to_add@.len() == 0
                            &&& match s.song {
                                Some(x) => new.song_cursor < new.songs@.len() && x@ == new.songs@[new.song_cursor as int]@,
                                None => new.song_cursor >= new.songs@.len(),
                            }
                        } else {
                            s.is_empty()
                        }
                    },
                }
        },
    }
}

/// The text of an optional string.
pub open spec fn opt_texts(o: Option<String>) -> Option<Seq<char>> {
    match o {
        Some(s) => Some(s@),
        None => None,
    }
}

impl VimSearchable for LibraryView {
    open spec fn searched(self, query: Seq<char>, after: Self) -> bool {
        &&& artists_searched(self, query, after)
        &&& after.search == self.search
        &&& after.artist_motion == self.artist_motion
        &&& after.album_motion == self.album_motion
        &&& after.song_motion == self.song_motion
    }

    open spec fn went_to_next_match(self, after: Self) -> bool {
        &&& after.search == self.search
        &&& after.artist_motion == self.artist_motion
        &&& after.album_motion == self.album_motion
        &&& after.song_motion == self.song_motion
        &&& (self.search_matches@.len() == 0 ==> after.same_lists(self) && after.same_matches(self) && after.all_songs == self.all_songs && after.artists == self.artists && after.focused_column == self.focused_column)
        &&& (self.search_matches@.len() > 0 ==> moved_to_match(
            self,
            crate::ui::autocomplete::wrap_next(self.search_match_idx, self.search_matches@.len()),
            after,
        ))
    }

    open spec fn went_to_prev_match(self, after: Self) -> bool {
        &&& after.search == self.search
        &&& after.artist_motion == self.artist_motion
        &&& after.album_motion == self.album_motion
        &&& after.song_motion == self.song_motion
        &&& (self.search_matches@.len() == 0 ==> after.same_lists(self) && after.same_matches(self) && after.all_songs == self.all_songs && after.artists == self.artists && after.focused_column == self.focused_column)
        &&& (self.search_matches@.len() > 0 ==> moved_to_match(
            self,
            crate::ui::autocomplete::wrap_prev(self.search_match_idx, self.search_matches@.len()),
            after,
        ))
    }

    open spec fn query_text(self) -> Seq<char> {
        self.search.query@
    }

    open spec fn matches_len(self) -> nat {
        self.search_matches@.len()
    }

    open spec fn can_go_to_prev_match(self) -> bool {
        self.search_matches@.len() == 0 || self.search_match_idx <= self.search_matches@.len()
    }

    fn search(&mut self, query: &str) {
        let q = to_lowercase(query);
        self.search_matches = match_artists(&self.artists, q.as_str());
        self.search_match_idx = 0;
        if self.search_matches.len() > 0 {
            let first = self.search_matches[0];
            self.select_artist(first);
        }
    }

    fn next_match(&mut self) {
        if self.search_matches.len() == 0 {
            return;
        }
        let n = self.search_matches.len();
        self.search_match_idx = next_index(self.search_match_idx, n);
        let target = self.search_matches[self.search_match_idx];
        self.select_artist(target);
    }

    fn prev_match(&mut self) {
        if self.search_matches.len() == 0 {
            return;
        }
        self.search_match_idx = if self.search_match_idx >= 1 {
            self.search_match_idx - 1
        } else {
            self.search_matches.len() - 1
        };
        let target = self.search_matches[self.search_match_idx];
        self.select_artist(target);
    }

    fn current_query(&self) -> &str {
        self.search.query.as_str()
    }

    fn match_count(&self) -> usize {
        self.search_matches.len()
    }
}

/// The index after `idx` among `n`, wrapping to the first.
pub fn next_index(idx: usize, n: usize) -> (r: usize)
    requires
        n > 0,
    ensures
        r == crate::ui::autocomplete::wrap_next(idx, n as nat),
        r < n,
{
    let m = idx % n;
    proof {
        vstd::arithmetic::div_mod::lemma_add_mod_noop(idx as int, 1, n as int);
        vstd::arithmetic::div_mod::lemma_mod_bound(idx as int, n as int);
        if n > 1 {
            vstd::arithmetic::div_mod::lemma_small_mod(1, n as nat);
        }
    }
    if n == 1 {
        proof {
            vstd::arithmetic::div_mod::lemma_mod_self_0(1);
            assert((idx + 1) % 1 == 0) by (nonlinear_arith);
        }
        0
    } else {
        (m + 1) % n
    }
}

/// The artists of `all`, sorted, each once.
fn collect_artists(all: &Vec<Song>) -> (r: Vec<String>)
    ensures
        strictly_sorted(texts(r@)),
        texts(r@).to_set() == artist_set(song_views(all@)),
{
    let ghost sv = song_views(all@);
    let mut r: Vec<String> = Vec::new();
    let mut i: usize = 0;
    assert(texts(r@).to_set() =~= artist_set(sv.take(0)));
    while i < all.len()
        invariant
            i <= all@.len(),
            sv == song_views(all@),
            strictly_sorted(texts(r@)),
            texts(r@).to_set() == artist_set(sv.take(i as int)),
        decreases all@.len() - i,
    {
        let ghost before = artist_set(sv.take(i as int));
        match &all[i].artist {
            Some(a) => {
                insert_sorted(&mut r, a.clone());
                assert(artist_set(sv.take(i + 1)) =~= before.insert(a@)) by {
                    assert forall|x: Seq<char>| artist_set(sv.take(i + 1)).contains(x) <==> before.insert(a@).contains(x) by {
                        if artist_set(sv.take(i + 1)).contains(x) {
                            let j = choose|j: int| 0 <= j < sv.take(i + 1).len() && (#[trigger] sv.take(i + 1)[j]).artist == Some(x);
                            if j < i {
                                assert(sv.take(i as int)[j] == sv.take(i + 1)[j]);
                            }
                        }
                        if before.contains(x) {
                            let j = choose|j: int| 0 <= j < sv.take(i as int).len() && (#[trigger] sv.take(i as int)[j]).artist == Some(x);
                            assert(sv.take(i + 1)[j] == sv.take(i as int)[j]);
                        }
                        if x == a@ {
                            assert(sv.take(i + 1)[i as int].artist == Some(x));
                        }
                    }
                }
            },
            None => {
                assert(artist_set(sv.take(i + 1)) =~= before) by {
                    assert forall|x: Seq<char>| artist_set(sv.take(i + 1)).contains(x) <==> before.contains(x) by {
                        if artist_set(sv.take(i + 1)).contains(x) {
                            let j = choose|j: int| 0 <= j < sv.take(i + 1).len() && (#[trigger] sv.take(i + 1)[j]).artist == Some(x);
                            if j < i {
                                assert(sv.take(i as int)[j] == sv.take(i + 1)[j]);
                            } else {
                                assert(sv.take(i + 1)[j].artist is None);
                            }
                        }
                        if before.contains(x) {
                            let j = choose|j: int| 0 <= j < sv.take(i as int).len() && (#[trigger] sv.take(i as int)[j]).artist == Some(x);
                            assert(sv.take(i + 1)[j] == sv.take(i as int)[j]);
                        }
                    }
                }
            },
        }
        i = i + 1;
    }
    proof {
        lemma_take_all(sv);
    }
    r
}

/// The albums of `artist`'s songs in `all`, sorted, each once.
fn collect_albums(all: &Vec<Song>, artist: &str) -> (r: Vec<String>)
    ensures
        strictly_sorted(texts(r@)),
        texts(r@).to_set() == album_set(song_views(all@), artist@),
{
    let ghost sv = song_views(all@);
    let mut r: Vec<String> = Vec::new();
    let mut i: usize = 0;
    assert(texts(r@).to_set() =~= album_set(sv.take(0), artist@));
    while i < all.len()
        invariant
            i <= all@.len(),
            sv == song_views(all@),
            strictly_sorted(texts(r@)),
            texts(r@).to_set() == album_set(sv.take(i as int), artist@),
        decreases all@.len() - i,
    {
        let ghost before = album_set(sv.take(i as int), artist@);
        let ghost tk = sv.take(i as int);
        let ghost tk1 = sv.take(i + 1);
        let same = text_eq(text_or_default(&all[i].artist, ""), artist);
        let album = if same { song_tag_owned(&all[i], "Album") } else { None };
        match album {
            Some(a) => {
                insert_sorted(&mut r, a);
                assert(album_set(tk1, artist@) =~= before.insert(a@)) by {
                    assert forall|x: Seq<char>| album_set(tk1, artist@).contains(x) <==> before.insert(a@).contains(x) by {
                        if album_set(tk1, artist@).contains(x) {
                            let j = choose|j: int| 0 <= j < tk1.len() && text_or((#[trigger] tk1[j]).artist, ""@) == artist@ && tag_lookup(tk1[j].tags, "Album"@) == Some(x);
                            if j < i {
                                assert(tk[j] == tk1[j]);
                            }
                        }
                        if before.contains(x) {
                            let j = choose|j: int| 0 <= j < tk.len() && text_or((#[trigger] tk[j]).artist, ""@) == artist@ && tag_lookup(tk[j].tags, "Album"@) == Some(x);
                            assert(tk1[j] == tk[j]);
                        }
                        if x == a@ {
                            assert(tk1[i as int] == sv[i as int]);
                        }
                    }
                }
            },
            None => {
                assert(album_set(tk1, artist@) =~= before) by {
                    assert forall|x: Seq<char>| album_set(tk1, artist@).contains(x) <==> before.contains(x) by {
                        if album_set(tk1, artist@).contains(x) {
                            let j = choose|j: int| 0 <= j < tk1.len() && text_or((#[trigger] tk1[j]).artist, ""@) == artist@ && tag_lookup(tk1[j].tags, "Album"@) == Some(x);
                            if j < i {
                                assert(tk[j] == tk1[j]);
                            } else {
                                assert(tk1[j] == sv[i as int]);
                            }
                        }
                        if before.contains(x) {
                            let j = choose|j: int| 0 <= j < tk.len() && text_or((#[trigger] tk[j]).artist, ""@) == artist@ && tag_lookup(tk[j].tags, "Album"@) == Some(x);
                            assert(tk1[j] == tk[j]);
                        }
                    }
                }
            },
        }
        i = i + 1;
    }
    proof {
        lemma_take_all(sv);
    }
    r
}

/// The songs of `all` by `artist` on `album`.
fn collect_artist_album(all: &Vec<Song>, artist: &str, album: &str) -> (r: Vec<Song>)
    ensures
        song_views(r@) == song_views(all@).filter(artist_album_filter(artist@, album@)),
{
    let ghost p = artist_album_filter(artist@, album@);
    let mut out: Vec<Song> = Vec::new();
    let mut i: usize = 0;
    while i < all.len()
        invariant
            i <= all@.len(),
            p == artist_album_filter(artist@, album@),
            song_views(out@) == song_views(all@).take(i as int).filter(p),
        decreases all@.len() - i,
    {
        let b = text_eq(text_or_default(&all[i].artist, ""), artist) && text_eq(song_tag(&all[i], "Album"), album);
        proof {
            lemma_filter_take_step(song_views(all@), i as int, p);
        }
        if b {
            let d = all[i].duplicate();
            proof {
                lemma_views_push(out@, d);
            }
            out.push(d);
        }
        i = i + 1;
    }
    proof {
        lemma_take_all(song_views(all@));
    }
    out
}

/// The songs of `all` by `artist`.
fn collect_artist(all: &Vec<Song>, artist: &str) -> (r: Vec<Song>)
    ensures
        song_views(r@) == song_views(all@).filter(artist_filter(artist@)),
{
    let ghost p = artist_filter(artist@);
    let mut out: Vec<Song> = Vec::new();
    let mut i: usize = 0;
    while i < all.len()
        invariant
            i <= all@.len(),
            p == artist_filter(artist@),
            song_views(out@) == song_views(all@).take(i as int).filter(p),
        decreases all@.len() - i,
    {
        let b = text_eq(text_or_default(&all[i].artist, ""), artist);
        proof {
            lemma_filter_take_step(song_views(all@), i as int, p);
        }
        if b {
            let d = all[i].duplicate();
            proof {
                lemma_views_push(out@, d);
            }
            out.push(d);
        }
        i = i + 1;
    }
    proof {
        lemma_take_all(song_views(all@));
    }
    out
}

/// The positions of the artists containing lower-cased `q`.
fn match_artists(artists: &Vec<String>, q: &str) -> (r: Vec<usize>)
    ensures
        r@ == artist_match_indices(texts(artists@), q@),
{
    let ghost a = texts(artists@);
    let mut r: Vec<usize> = Vec::new();
    let mut i: usize = 0;
    while i < artists.len()
        invariant
            i <= artists@.len(),
            a == texts(artists@),
            r@ == artist_match_indices(a.take(i as int), q@),
        decreases artists@.len() - i,
    {
        let low = to_lowercase(artists[i].as_str());
        let b = text_contains(low.as_str(), q);
        proof {
            assert(a.take(i + 1).drop_last() =~= a.take(i as int));
            assert(a.take(i + 1).last() == artists@[i as int]@);
        }
        if b {
            r.push(i);
        }
        i = i + 1;
    }
    proof {
        lemma_take_all(a);
    }
    r
}

} // verus!
