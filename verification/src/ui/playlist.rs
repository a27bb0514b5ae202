//! The playlist view: the play queue, edited with vim keys, with an insert
//! mode that suggests songs from the library.
use vstd::prelude::*;

use crate::keys::{Key, KeyCode, Modifiers};
use crate::song::{song_views, text_or, text_or_default, Song, SongView};
use crate::text::{lowercase_of, owned, pop_char, push_char, seq_contains, text_contains, to_lowercase};
use crate::ui::autocomplete::{
    scroll_fits, scroll_would_overflow, scrolled_to, suggestion_filter, wrap_next, wrap_prev, Autocomplete,
};
use crate::ui::library::next_index;
use crate::vim::edit::{edit_action_for, edit_action_of, edit_outcome, handle_edit_key, EditAction, EditState, VimEditable};
use crate::vim::motion::{
    clamp_down, clamp_up, count_of, count_overflows, count_would_overflow, cursor_down, cursor_up,
    handle_motion_key, is_count_digit, last_row, motion_outcome, motion_overflows, rows_down, MotionAction, MotionState,
    VimNavigable,
};
use crate::vim::search::{
    handle_search_input, handle_search_normal, query_popped, SearchState, VimSearchable,
};

verus! {

/// Where a song typed in insert mode goes.
#[derive(Debug, Clone, Copy, PartialEq, Eq, Structural)]
pub enum InsertPosition {
    Above,
    Below,
}

/// Insert mode: where the song goes, what was typed and the suggestions.
pub struct InsertState {
    pub position: InsertPosition,
    pub input: String,
    pub autocomplete: Autocomplete,
}

/// A change of the play queue that the player must make, by positions in
/// the queue as the playlist shows it.
#[derive(Debug, Clone, Copy, PartialEq, Eq, Structural)]
pub enum QueueCommand {
    /// Empty the queue.
    Clear,
    /// Play the song at this position.
    PlayAt(usize),
    /// Delete the song at this position.
    DeleteAt(usize),
    /// Delete the song at `pos`, `count` times over (the songs from `pos`
    /// on, stopping at the first failure).
    DeleteRange { pos: usize, count: usize },
    /// Swap the songs at these positions.
    Swap(usize, usize),
}

/// What a key in the playlist asks of the player.
pub enum PlaylistKeyResult {
    Nothing,
    Status(String),
    AppendAndPlay(Vec<Song>),
    Append(Vec<Song>),
    Queue(QueueCommand),
}

/// The playlist view's state.
pub struct PlaylistView {
    pub tracks: Vec<Song>,
    pub cursor: usize,
    pub motion: MotionState,
    pub edit: EditState,
    pub search: SearchState,
    pub search_matches: Vec<usize>,
    pub search_match_idx: usize,
    pub insert_state: Option<InsertState>,
    pub current_song_id: Option<u32>,
}

/// The title or artist (empty when missing) of the song, lower-cased,
/// contains `q`.
pub open spec fn track_matches(s: SongView, q: Seq<char>) -> bool {
    seq_contains(lowercase_of(text_or(s.title, ""@)), q) || seq_contains(lowercase_of(text_or(s.artist, ""@)), q)
}

/// The positions of the tracks that match lower-cased `q`.
pub open spec fn track_match_indices(tracks: Seq<SongView>, q: Seq<char>) -> Seq<usize>
    decreases tracks.len(),
{
    if tracks.len() == 0 {
        Seq::empty()
    } else {
        let r = track_match_indices(tracks.drop_last(), q);
        if track_matches(tracks.last(), q) {
            r.push((tracks.len() - 1) as usize)
        } else {
            r
        }
    }
}

/// The search finds exactly the tracks that match, in order: every index
/// it lists is a matching track, in increasing order, and every matching
/// track is listed.
pub proof fn lemma_track_matches_exact(tracks: Seq<SongView>, q: Seq<char>)
    requires
        tracks.len() <= usize::MAX,
    ensures
        forall|k: int|
            0 <= k < track_match_indices(tracks, q).len() ==> {
                let i = #[trigger] track_match_indices(tracks, q)[k];
                i < tracks.len() && track_matches(tracks[i as int], q)
            },
        forall|k1: int, k2: int|
            0 <= k1 < k2 < track_match_indices(tracks, q).len() ==> track_match_indices(tracks, q)[k1]
                < track_match_indices(tracks, q)[k2],
        forall|i: int|
            0 <= i < tracks.len() && track_matches(#[trigger] tracks[i], q) ==> track_match_indices(
                tracks,
                q,
            ).contains(i as usize),
    decreases tracks.len(),
{
    if tracks.len() > 0 {
        let init = tracks.drop_last();
        lemma_track_matches_exact(init, q);
        let r = track_match_indices(init, q);
        assert forall|i: int| 0 <= i < tracks.len() && track_matches(#[trigger] tracks[i], q) implies track_match_indices(
            tracks,
            q,
        ).contains(i as usize) by {
            if i < tracks.len() - 1 {
                assert(init[i] == tracks[i]);
                let k = choose|k: int| 0 <= k < r.len() && r[k] == i as usize;
                assert(track_match_indices(tracks, q)[k] == i as usize);
            } else {
                assert(track_match_indices(tracks, q) == r.push(i as usize));
                assert(track_match_indices(tracks, q)[r.len() as int] == i as usize);
            }
        }
    }
}

/// `s` with the items at `i` and `j` exchanged.
pub open spec fn seq_swap<A>(s: Seq<A>, i: int, j: int) -> Seq<A> {
    s.update(i, s[j]).update(j, s[i])
}

/// Exchanges the item at `i` with the one before it.
fn swap_with_previous(v: &mut Vec<Song>, i: usize)
    requires
        1 <= i < old(v)@.len(),
    ensures
        final(v)@ == seq_swap(old(v)@, i as int, i - 1),
{
    let ghost s0 = v@;
    let x = v.remove(i);
    assert(v@ =~= s0.remove(i as int));
    v.insert(i - 1, x);
    assert(v@ =~= s0.remove(i as int).insert(i - 1, s0[i as int]));
    assert forall|k: int| 0 <= k < s0.len() implies #[trigger] v@[k] == seq_swap(s0, i as int, i - 1)[k] by {
        if k < i - 1 {
            assert(v@[k] == s0[k]);
        } else if k == i - 1 {
            assert(v@[k] == s0[i as int]);
        } else if k == i {
            assert(v@[k] == s0.remove(i as int)[i - 1]);
        } else {
            assert(v@[k] == s0.remove(i as int)[k - 1]);
        }
    }
    assert(v@ =~= seq_swap(s0, i as int, i - 1));
}

impl PlaylistView {
    /// Everything but the tracks and the cursor is as in `other`.
    pub open spec fn same_but_tracks(self, other: Self) -> bool {
        &&& self.motion == other.motion
        &&& self.edit == other.edit
        &&& self.search == other.search
        &&& self.search_matches == other.search_matches
        &&& self.search_match_idx == other.search_match_idx
        &&& self.insert_state == other.insert_state
        &&& self.current_song_id == other.current_song_id
    }

    /// Everything but the search bar is as in `other`.
    pub open spec fn same_but_search(self, other: Self) -> bool {
        &&& self.tracks == other.tracks
        &&& self.cursor == other.cursor
        &&& self.motion == other.motion
        &&& self.edit == other.edit
        &&& self.search_matches == other.search_matches
        &&& self.search_match_idx == other.search_match_idx
        &&& self.insert_state == other.insert_state
        &&& self.current_song_id == other.current_song_id
    }

    /// Everything but the edit state and insert mode is as in `other`.
    pub open spec fn same_but_insert(self, other: Self) -> bool {
        &&& self.tracks == other.tracks
        &&& self.cursor == other.cursor
        &&& self.motion == other.motion
        &&& self.search == other.search
        &&& self.search_matches == other.search_matches
        &&& self.search_match_idx == other.search_match_idx
        &&& self.current_song_id == other.current_song_id
    }

    /// The state of a new playlist: empty, in normal mode.
    pub open spec fn at_start(self) -> bool {
        &&& self.tracks@.len() == 0
        &&& self.cursor == 0
        &&& self.motion.pending_count is None
        &&& !self.motion.last_was_g
        &&& !self.edit.last_was_d
        &&& !self.search.active
        &&& self.search.query@ == Seq::<char>::empty()
        &&& self.search_matches@.len() == 0
        &&& self.search_match_idx == 0
        &&& self.insert_state is None
        &&& self.current_song_id is None
    }

    /// An empty playlist in normal mode.
    pub fn new() -> (v: Self)
        ensures
            v.at_start(),
    {
        PlaylistView {
            tracks: Vec::new(),
            cursor: 0,
            motion: MotionState::new(),
            edit: EditState::new(),
            search: SearchState::new(),
            search_matches: Vec::new(),
            search_match_idx: 0,
            insert_state: None,
            current_song_id: None,
        }
    }

    /// Sets the id of the song playing.
    pub fn set_current_song_id(&mut self, id: Option<u32>)
        ensures
            final(self).current_song_id == id,
            final(self).tracks == old(self).tracks,
            final(self).cursor == old(self).cursor,
            final(self).insert_state == old(self).insert_state,
            final(self).search == old(self).search,
            final(self).search_matches == old(self).search_matches,
    {
        self.current_song_id = id;
    }

    /// Replaces the tracks; the cursor stays where it was.
    pub fn set_tracks(&mut self, tracks: Vec<Song>)
        ensures
            final(self).tracks == tracks,
            final(self).cursor == old(self).cursor,
            final(self).same_but_tracks(*old(self)),
    {
        self.tracks = tracks;
    }

    /// Whether track `i` is the song playing.
    pub fn is_playing(&self, i: usize) -> (r: bool)
        requires
            i < self.tracks@.len(),
        ensures
            r == (self.current_song_id is Some && self.tracks@[i as int].place_id == self.current_song_id),
    {
        match self.current_song_id {
            Some(id) => match self.tracks[i].place_id {
                Some(p) => p == id,
                None => false,
            },
            None => false,
        }
    }

    /// The key cannot be taken: it would overflow a count, a cursor or a
    /// queue position, or index past the tracks or the matches.
    pub open spec fn key_panics(self, key: Key) -> bool {
        match self.insert_state {
            Some(ins) => insert_key_panics(ins, key),
            None => {
                &&& !self.search.active
                &&& !key.is_plain(KeyCode::Char('c'))
                &&& {
                    ||| count_overflows(self.motion, key)
                    ||| motion_overflows(self, self.motion, key)
                    ||| (key.is_shifted(KeyCode::Char('N')) && !self.can_go_to_prev_match())
                    ||| (!motion_acts(key) && !search_normal_key(key) && match edit_action_of(self.edit, key) {
                        Some(a) => !self.can_edit(a),
                        None => false,
                    })
                }
            },
        }
    }

    /// Whether the key cannot be taken (see `key_panics`); the player tests
    /// it before handing the key over.
    pub fn key_would_panic(&self, key: Key) -> (r: bool)
        ensures
            r == self.key_panics(key),
    {
        match &self.insert_state {
            Some(ins) => {
                let a = &ins.autocomplete;
                let n = a.matches.len();
                if key.modifiers == Modifiers::NoModifier && key.code == KeyCode::Tab {
                    n > 0 && (a.selected == usize::MAX || scroll_would_overflow(
                        (a.selected + 1) % n,
                        a.scroll_offset,
                        a.visible_count,
                    ))
                } else if key.modifiers == Modifiers::Shift && key.code == KeyCode::BackTab {
                    n > 0 && scroll_would_overflow(
                        if a.selected >= 1 {
                            a.selected - 1
                        } else {
                            n - 1
                        },
                        a.scroll_offset,
                        a.visible_count,
                    )
                } else {
                    false
                }
            },
            None => {
                if self.search.active {
                    return false;
                }
                if key.modifiers == Modifiers::NoModifier && key.code == KeyCode::Char('c') {
                    return false;
                }
                if count_would_overflow(self.motion, key) {
                    return true;
                }
                match rows_down(self.motion, key) {
                    Some(n) => {
                        if (self.cursor as u128) + (n as u128) > usize::MAX as u128 {
                            return true;
                        }
                    },
                    None => {},
                }
                if key.modifiers == Modifiers::Shift && key.code == KeyCode::Char('N') {
                    if !(self.search_matches.len() == 0 || self.search_match_idx <= self.search_matches.len()) {
                        return true;
                    }
                }
                let acts = match (key.modifiers, key.code) {
                    (Modifiers::NoModifier, KeyCode::Char('j')) | (Modifiers::NoModifier, KeyCode::Char('k'))
                    | (Modifiers::Shift, KeyCode::Char('G')) | (Modifiers::NoModifier, KeyCode::Char('g'))
                    | (Modifiers::NoModifier, KeyCode::Enter) | (Modifiers::Control, KeyCode::Char('u'))
                    | (Modifiers::Control, KeyCode::Char('d')) => true,
                    _ => false,
                };
                let searching = match (key.modifiers, key.code) {
                    (Modifiers::NoModifier, KeyCode::Char('/')) | (Modifiers::NoModifier, KeyCode::Char('n'))
                    | (Modifiers::Shift, KeyCode::Char('N')) => true,
                    _ => false,
                };
                if acts || searching {
                    return false;
                }
                match edit_action_for(self.edit, key) {
                    Some(a) => !self.edit_defined(a),
                    None => false,
                }
            },
        }
    }

    fn edit_defined(&self, a: EditAction) -> (r: bool)
        ensures
            r == self.can_edit(a),
    {
        match a {
            EditAction::DeleteCurrent => self.cursor < self.tracks.len(),
            EditAction::MoveUp => self.cursor == 0 || self.cursor < self.tracks.len(),
            EditAction::MoveDown => self.cursor < usize::MAX,
            _ => true,
        }
    }

    /// Handles a key: insert mode first, then the open search bar, then `c`
    /// (clear the queue), motions (Enter plays the current track), search
    /// keys and edit keys. Returns what the player must do.
    pub fn actions(&mut self, key: Key, all_songs: &[Song]) -> (r: PlaylistKeyResult)
        requires
            !old(self).key_panics(key),
        ensures
            playlist_step(*old(self), key, song_views(all_songs@), *final(self), r),
    {
        if self.insert_state.is_some() {
            return self.insert_key(key, all_songs);
        }
        if self.search.active {
            let mut search = self.search.duplicate();
            handle_search_input(self, &mut search, key);
            self.search = search;
            return PlaylistKeyResult::Nothing;
        }
        if key.modifiers == Modifiers::NoModifier && key.code == KeyCode::Char('c') {
            self.tracks.clear();
            self.cursor = 0;
            return PlaylistKeyResult::Queue(QueueCommand::Clear);
        }
        let mut motion = self.motion;
        let ghost before_motion = *self;
        match handle_motion_key(self, &mut motion, key) {
            Some(action) => {
                let ghost t2 = *self;
                let ghost st2 = motion;
                assert(motion_outcome(before_motion, before_motion.motion, key, t2, st2, Some(action)));
                self.motion = motion;
                if action == MotionAction::Select {
                    return PlaylistKeyResult::Queue(QueueCommand::PlayAt(self.cursor));
                }
                return PlaylistKeyResult::Nothing;
            },
            None => {},
        }
        let mut search = self.search.duplicate();
        if handle_search_normal(self, &mut search, key) {
            self.search = search;
            return PlaylistKeyResult::Nothing;
        }
        let c = self.cursor;
        let n = self.tracks.len();
        let mut edit = self.edit;
        let ghost before_edit = *self;
        match handle_edit_key(self, &mut edit, key) {
            Some(action) => {
                let ghost t2 = *self;
                let ghost e2 = edit;
                assert(edit_outcome(before_edit, before_edit.edit, key, t2, e2, Some(action)));
                self.edit = edit;
                match action {
                    EditAction::InsertAbove => {
                        self.insert_state = Some(InsertState {
                            position: InsertPosition::Above,
                            input: String::new(),
                            autocomplete: Autocomplete::new(),
                        });
                        PlaylistKeyResult::Nothing
                    },
                    EditAction::InsertBelow => {
                        self.insert_state = Some(InsertState {
                            position: InsertPosition::Below,
                            input: String::new(),
                            autocomplete: Autocomplete::new(),
                        });
                        PlaylistKeyResult::Nothing
                    },
                    EditAction::DeleteCurrent => PlaylistKeyResult::Queue(QueueCommand::DeleteAt(c)),
                    EditAction::DeleteFromCursor => {
                        if c < n {
                            PlaylistKeyResult::Queue(QueueCommand::DeleteRange { pos: c, count: n - c })
                        } else {
                            PlaylistKeyResult::Nothing
                        }
                    },
                    EditAction::MoveUp => {
                        if c > 0 {
                            PlaylistKeyResult::Queue(QueueCommand::Swap(c - 1, c))
                        } else {
                            PlaylistKeyResult::Nothing
                        }
                    },
                    EditAction::MoveDown => {
                        if c + 1 < n {
                            PlaylistKeyResult::Queue(QueueCommand::Swap(c + 1, c))
                        } else {
                            PlaylistKeyResult::Nothing
                        }
                    },
                }
            },
            None => {
                self.edit = edit;
                PlaylistKeyResult::Nothing
            },
        }
    }

    /// A key in insert mode.
    fn insert_key(&mut self, key: Key, all_songs: &[Song]) -> (r: PlaylistKeyResult)
        requires
            old(self).insert_state is Some,
            !insert_key_panics(old(self).insert_state->0, key),
        ensures
            insert_key_step(old(self).insert_state->0, key, song_views(all_songs@), final(self).insert_state, r),
            final(self).tracks == old(self).tracks,
            final(self).cursor == old(self).cursor,
            final(self).motion == old(self).motion,
            final(self).edit == old(self).edit,
            final(self).search == old(self).search,
            final(self).search_matches == old(self).search_matches,
            final(self).search_match_idx == old(self).search_match_idx,
            final(self).current_song_id == old(self).current_song_id,
    {
        let mut insert = self.insert_state.take().unwrap();
        match (key.modifiers, key.code) {
            (Modifiers::NoModifier, KeyCode::Esc) => PlaylistKeyResult::Nothing,
            (Modifiers::NoModifier, KeyCode::Enter) => {
                if insert.autocomplete.has_matches() {
                    match insert.autocomplete.current() {
                        Some(song) => {
                            let d = song.duplicate();
                            let mut v: Vec<Song> = Vec::new();
                            v.push(d);
                            assert(song_views(v@) =~= seq![d@]);
                            return PlaylistKeyResult::AppendAndPlay(v);
                        },
                        None => {},
                    }
                }
                self.insert_state = Some(insert);
                PlaylistKeyResult::Status(owned("Invalid song."))
            },
            (Modifiers::NoModifier, KeyCode::Tab) => {
                insert.autocomplete.next();
                self.insert_state = Some(insert);
                PlaylistKeyResult::Nothing
            },
            (Modifiers::Shift, KeyCode::BackTab) => {
                insert.autocomplete.prev();
                self.insert_state = Some(insert);
                PlaylistKeyResult::Nothing
            },
            (Modifiers::NoModifier, KeyCode::Backspace) => {
                let _ = pop_char(&mut insert.input);
                let q = insert.input.clone();
                insert.autocomplete.update(q.as_str(), all_songs);
                self.insert_state = Some(insert);
                PlaylistKeyResult::Nothing
            },
            (Modifiers::NoModifier, KeyCode::Char(c)) => {
                push_char(&mut insert.input, c);
                let q = insert.input.clone();
                insert.autocomplete.update(q.as_str(), all_songs);
                self.insert_state = Some(insert);
                PlaylistKeyResult::Nothing
            },
            _ => {
                self.insert_state = Some(insert);
                PlaylistKeyResult::Nothing
            },
        }
    }
}

/// `handle_motion_key` takes the key: a count digit or a motion.
pub open spec fn motion_acts(key: Key) -> bool {
    ||| key.modifiers == Modifiers::NoModifier && (key.code matches KeyCode::Char(c) && is_count_digit(c))
    ||| key.is_plain(KeyCode::Char('j'))
    ||| key.is_plain(KeyCode::Char('k'))
    ||| key.is_shifted(KeyCode::Char('G'))
    ||| key.is_plain(KeyCode::Char('g'))
    ||| key.is_plain(KeyCode::Enter)
    ||| key.is_control(KeyCode::Char('u'))
    ||| key.is_control(KeyCode::Char('d'))
}

/// The key is one of the search keys of normal mode.
pub open spec fn search_normal_key(key: Key) -> bool {
    key.is_plain(KeyCode::Char('/')) || key.is_plain(KeyCode::Char('n')) || key.is_shifted(KeyCode::Char('N'))
}

/// `c` kept on the last row of a list of `n` rows.
pub open spec fn clamp_to(c: usize, n: nat) -> usize {
    if c <= last_row(n as usize) {
        c
    } else {
        last_row(n as usize)
    }
}

/// The number of tracks after edit `a`.
pub open spec fn edited_len(v: PlaylistView, a: EditAction) -> nat {
    match a {
        EditAction::DeleteCurrent => (v.tracks@.len() - 1) as nat,
        EditAction::DeleteFromCursor => if v.cursor < v.tracks@.len() {
            v.cursor as nat
        } else {
            v.tracks@.len()
        },
        _ => v.tracks@.len(),
    }
}

/// The cursor after edit `a`.
pub open spec fn edited_cursor(v: PlaylistView, a: EditAction) -> usize {
    match a {
        EditAction::DeleteCurrent | EditAction::DeleteFromCursor => clamp_to(v.cursor, edited_len(v, a)),
        EditAction::MoveUp => if v.cursor > 0 {
            (v.cursor - 1) as usize
        } else {
            v.cursor
        },
        EditAction::MoveDown => if v.cursor + 1 < v.tracks@.len() {
            (v.cursor + 1) as usize
        } else {
            v.cursor
        },
        _ => v.cursor,
    }
}

/// A key in insert mode cannot be taken: it would overflow an index of the
/// suggestions.
pub open spec fn insert_key_panics(ins: InsertState, key: Key) -> bool {
    let a = ins.autocomplete;
    ||| key.is_plain(KeyCode::Tab) && a.matches@.len() > 0 && (a.selected == usize::MAX || !scroll_fits(
        wrap_next(a.selected, a.matches@.len()),
        a.scroll_offset,
        a.visible_count,
    ))
    ||| key.is_shifted(KeyCode::BackTab) && a.matches@.len() > 0 && !scroll_fits(
        wrap_prev(a.selected, a.matches@.len()),
        a.scroll_offset,
        a.visible_count,
    )
}

/// The suggestions after typing: the query set, matches recomputed, the
/// selection and scroll at the top.
pub open spec fn suggestions_updated(old: Autocomplete, query: Seq<char>, all: Seq<SongView>, new: Autocomplete) -> bool {
    &&& new.query@ == query
    &&& song_views(new.matches@) == all.filter(suggestion_filter(lowercase_of(query)))
    &&& new.selected == 0
    &&& new.scroll_offset == 0
    &&& new.visible_count == old.visible_count
}

/// `new` and `r` follow key `key` in insert mode `ins`.
pub open spec fn insert_key_step(
    ins: InsertState,
    key: Key,
    all: Seq<SongView>,
    new: Option<InsertState>,
    r: PlaylistKeyResult,
) -> bool {
    let a = ins.autocomplete;
    if key.is_plain(KeyCode::Esc) {
        new is None && r is Nothing
    } else if key.is_plain(KeyCode::Enter) {
        if a.matches@.len() > 0 && a.selected < a.matches@.len() {
            new is None && (r matches PlaylistKeyResult::AppendAndPlay(v) && song_views(v@) == seq![
                a.matches@[a.selected as int]@,
            ])
        } else {
            new == Some(ins) && (r matches PlaylistKeyResult::Status(m) && m@ == "Invalid song."@)
        }
    } else if key.is_plain(KeyCode::Tab) {
        &&& r is Nothing
        &&& new matches Some(n) && n.position == ins.position && n.input == ins.input && n.autocomplete.query
            == a.query && n.autocomplete.matches == a.matches && n.autocomplete.visible_count == a.visible_count
        &&& (a.matches@.len() == 0 ==> new == Some(ins))
        &&& (a.matches@.len() > 0 ==> new->0.autocomplete.selected == wrap_next(a.selected, a.matches@.len())
            && new->0.autocomplete.scroll_offset == scrolled_to(
            new->0.autocomplete.selected,
            a.scroll_offset,
            a.visible_count,
        ))
    } else if key.is_shifted(KeyCode::BackTab) {
        &&& r is Nothing
        &&& new matches Some(n) && n.position == ins.position && n.input == ins.input && n.autocomplete.query
            == a.query && n.autocomplete.matches == a.matches && n.autocomplete.visible_count == a.visible_count
        &&& (a.matches@.len() == 0 ==> new == Some(ins))
        &&& (a.matches@.len() > 0 ==> new->0.autocomplete.selected == wrap_prev(a.selected, a.matches@.len())
            && new->0.autocomplete.scroll_offset == scrolled_to(
            new->0.autocomplete.selected,
            a.scroll_offset,
            a.visible_count,
        ))
    } else if key.is_plain(KeyCode::Backspace) {
        &&& r is Nothing
        &&& new matches Some(n) && n.position == ins.position && n.input@ == query_popped(ins.input@)
            && suggestions_updated(a, n.input@, all, n.autocomplete)
    } else if key.modifiers == Modifiers::NoModifier && key.code is Char {
        &&& r is Nothing
        &&& new matches Some(n) && n.position == ins.position && n.input@ == ins.input@.push(key.code->0)
            && suggestions_updated(a, n.input@, all, n.autocomplete)
    } else {
        new == Some(ins) && r is Nothing
    }
}

/// `new` and `r` follow key `key` in the playlist `old`.
pub open spec fn playlist_step(
    old: PlaylistView,
    key: Key,
    all: Seq<SongView>,
    new: PlaylistView,
    r: PlaylistKeyResult,
) -> bool {
    if old.insert_state is Some {
        &&& insert_key_step(old.insert_state->0, key, all, new.insert_state, r)
        &&& new.tracks == old.tracks && new.cursor == old.cursor
        &&& new.motion == old.motion && new.edit == old.edit && new.search == old.search
        &&& new.search_matches == old.search_matches && new.search_match_idx == old.search_match_idx
    } else if old.search.active {
        &&& r is Nothing
        &&& new.insert_state == old.insert_state
        &&& new.motion == old.motion && new.edit == old.edit
        &&& match key.code {
            KeyCode::Esc | KeyCode::Enter => {
                &&& !new.search.active && new.search.query@ == old.search.query@
                &&& new.tracks == old.tracks && new.cursor == old.cursor
                &&& new.search_matches == old.search_matches && new.search_match_idx == old.search_match_idx
            },
            KeyCode::Backspace => {
                &&& new.search.active && new.search.query@ == query_popped(old.search.query@)
                &&& tracks_searched(old, new.search.query@, new)
            },
            KeyCode::Char(c) => {
                &&& new.search.active && new.search.query@ == old.search.query@.push(c)
                &&& tracks_searched(old, new.search.query@, new)
            },
            _ => {
                &&& new.search.active && new.search.query@ == old.search.query@
                &&& new.tracks == old.tracks && new.cursor == old.cursor
                &&& new.search_matches == old.search_matches && new.search_match_idx == old.search_match_idx
            },
        }
    } else if key.is_plain(KeyCode::Char('c')) {
        &&& r matches PlaylistKeyResult::Queue(QueueCommand::Clear)
        &&& new.tracks@.len() == 0 && new.cursor == 0
        &&& new.same_but_tracks(old)
    } else if motion_acts(key) {
        exists|t2: PlaylistView, st2: MotionState, a: Option<MotionAction>|
            #![trigger motion_outcome(old, old.motion, key, t2, st2, a)]
            motion_outcome(old, old.motion, key, t2, st2, a) && a is Some && new == PlaylistView {
                motion: st2,
                ..t2
            } && if a == Some(MotionAction::Select) {
                r == PlaylistKeyResult::Queue(QueueCommand::PlayAt(t2.cursor))
            } else {
                r is Nothing
            }
    } else if search_normal_key(key) {
        &&& r is Nothing
        &&& if key.is_plain(KeyCode::Char('/')) {
            new.search.active && new.search.query@ == Seq::<char>::empty() && new.same_but_search(old)
        } else if key.is_plain(KeyCode::Char('n')) {
            old.went_to_next_match(new)
        } else {
            old.went_to_prev_match(new)
        }
    } else {
        exists|t2: PlaylistView, e2: EditState, a: Option<EditAction>|
            #![trigger edit_outcome(old, old.edit, key, t2, e2, a)]
            edit_outcome(old, old.edit, key, t2, e2, a) && match a {
                None => r is Nothing && new == PlaylistView { edit: e2, ..old },
                Some(EditAction::InsertAbove) => r is Nothing && new.edit == e2 && new.same_but_insert(old)
                    && (new.insert_state matches Some(i) && i.position == InsertPosition::Above && i.input@.len() == 0
                    && i.autocomplete.matches@.len() == 0 && i.autocomplete.selected == 0),
                Some(EditAction::InsertBelow) => r is Nothing && new.edit == e2 && new.same_but_insert(old)
                    && (new.insert_state matches Some(i) && i.position == InsertPosition::Below && i.input@.len() == 0
                    && i.autocomplete.matches@.len() == 0 && i.autocomplete.selected == 0),
                Some(x) => {
                    &&& new == PlaylistView { edit: e2, ..t2 }
                    &&& r == match queue_change_for(x, old) {
                        Some(q) => PlaylistKeyResult::Queue(q),
                        None => PlaylistKeyResult::Nothing,
                    }
                },
            }
    }
}

/// `dd` deletes the track at the cursor: the first `d` only waits for the
/// second, which removes the track from the list and asks the daemon to
/// delete that same position, once.
pub proof fn lemma_dd_deletes_current(
    v0: PlaylistView,
    v1: PlaylistView,
    v2: PlaylistView,
    all: Seq<SongView>,
    r1: PlaylistKeyResult,
    r2: PlaylistKeyResult,
)
    requires
        v0.insert_state is None,
        !v0.search.active,
        !v0.edit.last_was_d,
        v0.cursor < v0.tracks@.len() <= usize::MAX,
        playlist_step(v0, Key { modifiers: Modifiers::NoModifier, code: KeyCode::Char('d') }, all, v1, r1),
        playlist_step(v1, Key { modifiers: Modifiers::NoModifier, code: KeyCode::Char('d') }, all, v2, r2),
    ensures
        r1 is Nothing,
        v1.tracks == v0.tracks && v1.cursor == v0.cursor && v1.edit.last_was_d,
        v2.tracks@ == v0.tracks@.remove(v0.cursor as int),
        v0.cursor + 1 < v0.tracks@.len() ==> v2.cursor == v0.cursor,
        v0.cursor + 1 == v0.tracks@.len() ==> v2.cursor == (if v0.cursor > 0 {
            v0.cursor - 1
        } else {
            0
        }),
        r2 == PlaylistKeyResult::Queue(QueueCommand::DeleteAt(v0.cursor)),
        !v2.edit.last_was_d,
{
}

/// `D` drops the tracks from the cursor to the end, tells the daemon to
/// delete those same positions, and leaves the cursor on the new last
/// track (the row just above the old cursor).
pub proof fn lemma_shift_d_deletes_to_the_end(
    v0: PlaylistView,
    v1: PlaylistView,
    all: Seq<SongView>,
    r: PlaylistKeyResult,
)
    requires
        v0.insert_state is None,
        !v0.search.active,
        v0.cursor < v0.tracks@.len() <= usize::MAX,
        playlist_step(v0, Key { modifiers: Modifiers::Shift, code: KeyCode::Char('D') }, all, v1, r),
    ensures
        v1.tracks@ == v0.tracks@.take(v0.cursor as int),
        v1.cursor == (if v0.cursor > 0 {
            v0.cursor - 1
        } else {
            0
        }),
        r == PlaylistKeyResult::Queue(
            QueueCommand::DeleteRange { pos: v0.cursor, count: (v0.tracks@.len() - v0.cursor) as usize },
        ),
{
}

/// The playlist's search finds exactly the tracks whose title or artist
/// (empty when missing), lower-cased, contains the lower-cased query, and
/// puts the cursor on the first of them.
pub proof fn lemma_playlist_search_meaning(old: PlaylistView, q: Seq<char>, new: PlaylistView)
    requires
        tracks_searched(old, q, new),
        old.tracks@.len() <= usize::MAX,
    ensures
        forall|i: int|
            0 <= i < old.tracks@.len() ==> (new.search_matches@.contains(i as usize) <==> (seq_contains(
                lowercase_of(text_or((#[trigger] old.tracks@[i])@.title, ""@)),
                lowercase_of(q),
            ) || seq_contains(lowercase_of(text_or(old.tracks@[i]@.artist, ""@)), lowercase_of(q)))),
        forall|k: int| 0 <= k < new.search_matches@.len() ==> #[trigger] new.search_matches@[k] < old.tracks@.len(),
        new.search_matches@.len() > 0 ==> new.cursor == new.search_matches@[0],
{
    let tv = song_views(old.tracks@);
    lemma_track_matches_exact(tv, lowercase_of(q));
    assert forall|i: int| 0 <= i < old.tracks@.len() implies (new.search_matches@.contains(i as usize) <==> (
    seq_contains(lowercase_of(text_or((#[trigger] old.tracks@[i])@.title, ""@)), lowercase_of(q)) || seq_contains(
        lowercase_of(text_or(old.tracks@[i]@.artist, ""@)),
        lowercase_of(q),
    ))) by {
        assert(tv[i] == old.tracks@[i]@);
        if new.search_matches@.contains(i as usize) {
            let k = choose|k: int| 0 <= k < new.search_matches@.len() && new.search_matches@[k] == i as usize;
            assert(track_match_indices(tv, lowercase_of(q))[k] == i as usize);
        }
    }
}

/// The change of the daemon's queue that edit `a` makes in view `v` (the
/// view before the edit), if any: `dd` deletes the track at the cursor,
/// `D` the tracks from the cursor to the end, `K` and `J` swap the track
/// with the one above or below it; nothing where the list stays as it is.
pub open spec fn queue_change_for(a: EditAction, v: PlaylistView) -> Option<QueueCommand> {
    let c = v.cursor;
    let n = v.tracks@.len();
    match a {
        EditAction::DeleteCurrent => Some(QueueCommand::DeleteAt(c)),
        EditAction::DeleteFromCursor => if c < n {
            Some(QueueCommand::DeleteRange { pos: c, count: (n - c) as usize })
        } else {
            None
        },
        EditAction::MoveUp => if c > 0 {
            Some(QueueCommand::Swap((c - 1) as usize, c))
        } else {
            None
        },
        EditAction::MoveDown => if c + 1 < n {
            Some(QueueCommand::Swap((c + 1) as usize, c))
        } else {
            None
        },
        _ => None,
    }
}

/// `new` is `old` after searching the tracks for `q`: the matches are the
/// tracks whose title or artist contains it (case ignored), the cursor
/// goes to the first.
pub open spec fn tracks_searched(old: PlaylistView, q: Seq<char>, new: PlaylistView) -> bool {
    &&& new.search_matches@ == track_match_indices(song_views(old.tracks@), lowercase_of(q))
    &&& new.search_match_idx == 0
    &&& new.tracks == old.tracks
    &&& new.cursor == (if new.search_matches@.len() > 0 {
        new.search_matches@[0]
    } else {
        old.cursor
    })
}

impl VimNavigable for PlaylistView {
    open spec fn moved_down(self, n: nat, after: Self) -> bool {
        after == PlaylistView { cursor: clamp_down(self.cursor, n, self.tracks@.len() as usize), ..self }
    }

    open spec fn can_move_down(self, n: nat) -> bool {
        self.cursor + n <= usize::MAX
    }

    open spec fn moved_up(self, n: nat, after: Self) -> bool {
        after == PlaylistView { cursor: clamp_up(self.cursor, n), ..self }
    }

    open spec fn went_to_top(self, after: Self) -> bool {
        after == PlaylistView { cursor: 0, ..self }
    }

    open spec fn went_to_bottom(self, after: Self) -> bool {
        after == PlaylistView { cursor: last_row(self.tracks@.len() as usize), ..self }
    }

    open spec fn nav_len(self) -> nat {
        self.tracks@.len()
    }

    fn move_down(&mut self, n: usize) {
        self.cursor = cursor_down(self.cursor, n, self.tracks.len());
    }

    fn move_up(&mut self, n: usize) {
        self.cursor = cursor_up(self.cursor, n);
    }

    fn go_to_top(&mut self) {
        self.cursor = 0;
    }

    fn go_to_bottom(&mut self) {
        self.cursor = if self.tracks.len() == 0 { 0 } else { self.tracks.len() - 1 };
    }

    fn len(&self) -> usize {
        self.tracks.len()
    }
}

impl VimEditable for PlaylistView {
    open spec fn inserted_above(self, after: Self) -> bool {
        after == self
    }

    open spec fn inserted_below(self, after: Self) -> bool {
        after == self
    }

    open spec fn can_edit(self, action: EditAction) -> bool {
        match action {
            EditAction::DeleteCurrent => self.cursor < self.tracks@.len(),
            EditAction::MoveUp => self.cursor == 0 || self.cursor < self.tracks@.len(),
            EditAction::MoveDown => self.cursor < usize::MAX,
            _ => true,
        }
    }

    open spec fn deleted_current(self, after: Self) -> bool {
        &&& after.tracks@ == self.tracks@.remove(self.cursor as int)
        &&& after.cursor == edited_cursor(self, EditAction::DeleteCurrent)
        &&& after.same_but_tracks(self)
    }

    open spec fn deleted_from_cursor(self, after: Self) -> bool {
        &&& after.tracks@ == (if self.cursor < self.tracks@.len() {
            self.tracks@.take(self.cursor as int)
        } else {
            self.tracks@
        })
        &&& after.cursor == edited_cursor(self, EditAction::DeleteFromCursor)
        &&& after.same_but_tracks(self)
    }

    open spec fn moved_item_up(self, after: Self) -> bool {
        if self.cursor > 0 {
            &&& after.tracks@ == seq_swap(self.tracks@, self.cursor as int, self.cursor - 1)
            &&& after.cursor == self.cursor - 1
            &&& after.same_but_tracks(self)
        } else {
            after == self
        }
    }

    open spec fn moved_item_down(self, after: Self) -> bool {
        if self.cursor + 1 < self.tracks@.len() {
            &&& after.tracks@ == seq_swap(self.tracks@, self.cursor + 1, self.cursor as int)
            &&& after.cursor == self.cursor + 1
            &&& after.same_but_tracks(self)
        } else {
            after == self
        }
    }

    fn insert_above(&mut self) {
    }

    fn insert_below(&mut self) {
    }

    fn delete_current(&mut self) {
        self.tracks.remove(self.cursor);
        let last = if self.tracks.len() == 0 { 0 } else { self.tracks.len() - 1 };
        if self.cursor > last {
            self.cursor = last;
        }
    }

    fn delete_from_cursor(&mut self) {
        self.tracks.truncate(self.cursor);
        proof {
            if old(self).cursor < old(self).tracks@.len() {
                assert(self.tracks@ =~= old(self).tracks@.take(old(self).cursor as int));
            } else {
                assert(self.tracks@ =~= old(self).tracks@);
            }
        }
        let last = if self.tracks.len() == 0 { 0 } else { self.tracks.len() - 1 };
        if self.cursor > last {
            self.cursor = last;
        }
    }

    fn move_item_up(&mut self) {
        if self.cursor > 0 {
            swap_with_previous(&mut self.tracks, self.cursor);
            self.cursor = self.cursor - 1;
        }
    }

    fn move_item_down(&mut self) {
        if self.cursor + 1 < self.tracks.len() {
            swap_with_previous(&mut self.tracks, self.cursor + 1);
            self.cursor = self.cursor + 1;
        }
    }
}

impl VimSearchable for PlaylistView {
    open spec fn searched(self, query: Seq<char>, after: Self) -> bool {
        &&& tracks_searched(self, query, after)
        &&& after.motion == self.motion
        &&& after.edit == self.edit
        &&& after.search == self.search
        &&& after.insert_state == self.insert_state
        &&& after.current_song_id == self.current_song_id
    }

    open spec fn went_to_next_match(self, after: Self) -> bool {
        if self.search_matches@.len() == 0 {
            after == self
        } else {
            let idx = wrap_next(self.search_match_idx, self.search_matches@.len());
            after == PlaylistView { search_match_idx: idx, cursor: self.search_matches@[idx as int], ..self }
        }
    }

    open spec fn went_to_prev_match(self, after: Self) -> bool {
        if self.search_matches@.len() == 0 {
            after == self
        } else {
            let idx = wrap_prev(self.search_match_idx, self.search_matches@.len());
            after == PlaylistView { search_match_idx: idx, cursor: self.search_matches@[idx as int], ..self }
        }
    }

    open spec fn query_text(self) -> Seq<char> {
        self.search.query@
    }

    open spec fn matches_len(self) -> nat {
        self.search_matches@.len()
    }

    open spec fn can_go_to_prev_match(self) -> bool {
        self.search_matches@.len() == 0 || self.search_match_idx <= self.search_matches@.len()
    }

    fn search(&mut self, query: &str) {
        let q = to_lowercase(query);
        self.search_matches = match_tracks(&self.tracks, q.as_str());
        self.search_match_idx = 0;
        if self.search_matches.len() > 0 {
            self.cursor = self.search_matches[0];
        }
    }

    fn next_match(&mut self) {
        if self.search_matches.len() == 0 {
            return;
        }
        let n = self.search_matches.len();
        self.search_match_idx = next_index(self.search_match_idx, n);
        self.cursor = self.search_matches[self.search_match_idx];
    }

    fn prev_match(&mut self) {
        if self.search_matches.len() == 0 {
            return;
        }
        self.search_match_idx = if self.search_match_idx >= 1 {
            self.search_match_idx - 1
        } else {
            self.search_matches.len() - 1
        };
        self.cursor = self.search_matches[self.search_match_idx];
    }

    fn current_query(&self) -> &str {
        self.search.query.as_str()
    }

    fn match_count(&self) -> usize {
        self.search_matches.len()
    }
}

/// Whether a track matches lower-cased `q`.
fn track_matches_query(s: &Song, q: &str) -> (r: bool)
    ensures
        r == track_matches(s@, q@),
{
    let t = to_lowercase(text_or_default(&s.title, ""));
    if text_contains(t.as_str(), q) {
        return true;
    }
    let a = to_lowercase(text_or_default(&s.artist, ""));
    text_contains(a.as_str(), q)
}

/// The positions of the tracks that match lower-cased `q`.
fn match_tracks(tracks: &Vec<Song>, q: &str) -> (r: Vec<usize>)
    ensures
        r@ == track_match_indices(song_views(tracks@), q@),
{
    let ghost a = song_views(tracks@);
    let mut r: Vec<usize> = Vec::new();
    let mut i: usize = 0;
    while i < tracks.len()
        invariant
            i <= tracks@.len(),
            a == song_views(tracks@),
            r@ == track_match_indices(a.take(i as int), q@),
        decreases tracks@.len() - i,
    {
        let b = track_matches_query(&tracks[i], q);
        proof {
            assert(a.take(i + 1).drop_last() =~= a.take(i as int));
            assert(a.take(i + 1).last() == tracks@[i as int]@);
        }
        if b {
            r.push(i);
        }
        i = i + 1;
    }
    proof {
        crate::song::lemma_take_all(a);
    }
    r
}

} // verus!
