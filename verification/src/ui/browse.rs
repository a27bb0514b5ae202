//! The browse view: a search form over the database (one field per tag)
//! with a results list.
use vstd::prelude::*;

use crate::keys::{Key, KeyCode, Modifiers};
use crate::song::{
    lemma_filter_take_step, lemma_take_all, lemma_views_push, song_tag_or_empty, song_views, tag_or,
    text_or, text_or_default, Song, SongView,
};
use crate::text::{clear_string, lowercase_of, pop_char, push_char, seq_contains, text_contains, to_lowercase};
use crate::ui::autocomplete::{wrap_next, wrap_prev};
use crate::ui::library::next_index;
use crate::vim::motion::{
    clamp_up, count_of, count_overflows, motion_cleared, count_would_overflow, handle_motion_key, motion_outcome,
    motion_overflows, rows_down, MotionAction, MotionState, VimNavigable,
};
use crate::vim::search::{handle_search_input, handle_search_normal, query_popped, SearchState, VimSearchable};

verus! {

/// A field of the search form: the tag it filters on.
#[derive(Debug, Clone, Copy, PartialEq, Eq, Structural)]
pub enum BrowseField {
    Any,
    Artist,
    Album,
    Song,
    Genre,
    Filename,
    Date,
}

/// The label of a field.
pub open spec fn field_label(f: BrowseField) -> Seq<char> {
    match f {
        BrowseField::Any => "Any"@,
        BrowseField::Artist => "Artist"@,
        BrowseField::Album => "Album"@,
        BrowseField::Song => "Song"@,
        BrowseField::Genre => "Genre"@,
        BrowseField::Filename => "Filename"@,
        BrowseField::Date => "Date"@,
    }
}

/// The fields of the form, in order.
pub open spec fn all_fields() -> Seq<BrowseField> {
    seq![
        BrowseField::Any,
        BrowseField::Artist,
        BrowseField::Album,
        BrowseField::Song,
        BrowseField::Genre,
        BrowseField::Filename,
        BrowseField::Date,
    ]
}

impl BrowseField {
    /// The label shown above the field.
    pub fn label(&self) -> (r: &'static str)
        ensures
            r@ == field_label(*self),
    {
        match self {
            BrowseField::Any => "Any",
            BrowseField::Artist => "Artist",
            BrowseField::Album => "Album",
            BrowseField::Song => "Song",
            BrowseField::Genre => "Genre",
            BrowseField::Filename => "Filename",
            BrowseField::Date => "Date",
        }
    }

    /// All fields, in the order of the form.
    pub fn all() -> (r: Vec<BrowseField>)
        ensures
            r@ == all_fields(),
    {
        let mut v: Vec<BrowseField> = Vec::new();
        v.push(BrowseField::Any);
        v.push(BrowseField::Artist);
        v.push(BrowseField::Album);
        v.push(BrowseField::Song);
        v.push(BrowseField::Genre);
        v.push(BrowseField::Filename);
        v.push(BrowseField::Date);
        assert(v@ =~= all_fields());
        v
    }
}

/// What has the focus in the browse view.
#[derive(Debug, Clone, Copy, PartialEq, Eq, Structural)]
pub enum BrowseFocus {
    Field(usize),
    Search,
    Reset,
    Results,
}

/// Whether a field is being edited.
#[derive(Debug, Clone, Copy, PartialEq, Eq, Structural)]
pub enum BrowseEditMode {
    Normal,
    Editing,
}

/// What a key in the browse view asks of the player.
pub enum BrowseResult {
    Nothing,
    AppendAndPlay(Vec<Song>),
    Append(Vec<Song>),
}

/// The browse view's state. `selected` is the results row highlighted.
pub struct BrowseView {
    pub fields: Vec<(BrowseField, String)>,
    pub focus: BrowseFocus,
    pub edit_mode: BrowseEditMode,
    pub results: Vec<Song>,
    pub search: SearchState,
    pub search_matches: Vec<usize>,
    pub search_match_idx: usize,
    pub motion: MotionState,
    pub selected: Option<usize>,
}

/// The texts a field looks at, lower-cased, contain `v` (missing tags
/// count as empty).
pub open spec fn field_matches(f: BrowseField, s: SongView, v: Seq<char>) -> bool {
    let title = seq_contains(lowercase_of(text_or(s.title, ""@)), v);
    let artist = seq_contains(lowercase_of(text_or(s.artist, ""@)), v);
    let album = seq_contains(lowercase_of(tag_or(s, "Album"@, ""@)), v);
    let genre = seq_contains(lowercase_of(tag_or(s, "Genre"@, ""@)), v);
    let file = seq_contains(lowercase_of(s.file), v);
    let date = seq_contains(lowercase_of(tag_or(s, "Date"@, ""@)), v);
    match f {
        BrowseField::Any => title || artist || album || genre || file || date,
        BrowseField::Artist => artist,
        BrowseField::Album => album,
        BrowseField::Song => title,
        BrowseField::Genre => genre,
        BrowseField::Filename => file,
        BrowseField::Date => date,
    }
}

/// The filled fields of the form, as (field, value) pairs.
pub open spec fn form_view(fields: Seq<(BrowseField, String)>) -> Seq<(BrowseField, Seq<char>)> {
    fields.map_values(|p: (BrowseField, String)| (p.0, p.1@))
}

/// The song passes every filled field of the form.
pub open spec fn passes_form(form: Seq<(BrowseField, Seq<char>)>, s: SongView) -> bool {
    forall|i: int| 0 <= i < form.len() && (#[trigger] form[i]).1.len() > 0 ==> field_matches(form[i].0, s, lowercase_of(form[i].1))
}

/// The filter of the songs that pass the form.
pub open spec fn form_filter(form: Seq<(BrowseField, Seq<char>)>) -> spec_fn(SongView) -> bool {
    |s: SongView| passes_form(form, s)
}

/// The title or artist (empty when missing) of the song, lower-cased,
/// contains `q`.
pub open spec fn result_matches(s: SongView, q: Seq<char>) -> bool {
    seq_contains(lowercase_of(text_or(s.title, ""@)), q) || seq_contains(lowercase_of(text_or(s.artist, ""@)), q)
}

/// The positions of the results that match lower-cased `q`.
pub open spec fn result_match_indices(results: Seq<SongView>, q: Seq<char>) -> Seq<usize>
    decreases results.len(),
{
    if results.len() == 0 {
        Seq::empty()
    } else {
        let r = result_match_indices(results.drop_last(), q);
        if result_matches(results.last(), q) {
            r.push((results.len() - 1) as usize)
        } else {
            r
        }
    }
}

/// The search finds exactly the results that match, in order: every index
/// it lists is a matching result, in increasing order, and every matching
/// result is listed.
pub proof fn lemma_result_matches_exact(items: Seq<SongView>, q: Seq<char>)
    requires
        items.len() <= usize::MAX,
    ensures
        forall|k: int|
            0 <= k < result_match_indices(items, q).len() ==> {
                let i = #[trigger] result_match_indices(items, q)[k];
                i < items.len() && result_matches(items[i as int], q)
            },
        forall|k1: int, k2: int|
            0 <= k1 < k2 < result_match_indices(items, q).len() ==> result_match_indices(items, q)[k1]
                < result_match_indices(items, q)[k2],
        forall|i: int|
            0 <= i < items.len() && result_matches(#[trigger] items[i], q) ==> result_match_indices(
                items,
                q,
            ).contains(i as usize),
    decreases items.len(),
{
    if items.len() > 0 {
        let init = items.drop_last();
        lemma_result_matches_exact(init, q);
        let r = result_match_indices(init, q);
        assert forall|i: int| 0 <= i < items.len() && result_matches(#[trigger] items[i], q) implies result_match_indices(
            items,
            q,
        ).contains(i as usize) by {
            if i < items.len() - 1 {
                assert(init[i] == items[i]);
                let k = choose|k: int| 0 <= k < r.len() && r[k] == i as usize;
                assert(result_match_indices(items, q)[k] == i as usize);
            } else {
                assert(result_match_indices(items, q) == r.push(i as usize));
                assert(result_match_indices(items, q)[r.len() as int] == i as usize);
            }
        }
    }
}

/// Tab then Shift-BackTab bring the focus back to the field or button it
/// was on (with at least one field, on a field of the form or a button).
pub proof fn lemma_focus_next_then_prev(v: BrowseView)
    requires
        0 < v.fields@.len() <= usize::MAX,
        v.focus matches BrowseFocus::Field(i) ==> i < v.fields@.len(),
    ensures
        (BrowseView { focus: v.next_focus(), ..v }).prev_focus() == v.focus,
        (BrowseView { focus: v.prev_focus(), ..v }).next_focus() == v.focus,
{
    let n = BrowseView { focus: v.next_focus(), ..v };
    let p = BrowseView { focus: v.prev_focus(), ..v };
    assert(n.fields == v.fields && p.fields == v.fields);
    match v.focus {
        BrowseFocus::Field(i) => {
            if i + 1 < v.fields@.len() {
                assert(n.focus == BrowseFocus::Field((i + 1) as usize));
            } else {
                assert(n.focus == BrowseFocus::Search);
            }
            if i > 0 {
                assert(p.focus == BrowseFocus::Field((i - 1) as usize));
            } else {
                assert(p.focus == BrowseFocus::Reset);
            }
        },
        _ => {},
    }
}

/// Each field of the form looks at its own tag: a song passes the form
/// exactly when, for every filled field, the text that field names (Artist:
/// the artist, Album: the album tag, Song: the title, Genre, Filename,
/// Date; Any: any of them; a missing one counts as empty), lower-cased,
/// contains the lower-cased value typed in it.
pub proof fn lemma_form_fields_look_at_their_tags(form: Seq<(BrowseField, Seq<char>)>, s: SongView)
    ensures
        passes_form(form, s) <==> forall|i: int|
            0 <= i < form.len() && (#[trigger] form[i]).1.len() > 0 ==> {
                let v = lowercase_of(form[i].1);
                let title = seq_contains(lowercase_of(text_or(s.title, ""@)), v);
                let artist = seq_contains(lowercase_of(text_or(s.artist, ""@)), v);
                let album = seq_contains(lowercase_of(tag_or(s, "Album"@, ""@)), v);
                let genre = seq_contains(lowercase_of(tag_or(s, "Genre"@, ""@)), v);
                let file = seq_contains(lowercase_of(s.file), v);
                let date = seq_contains(lowercase_of(tag_or(s, "Date"@, ""@)), v);
                &&& form[i].0 == BrowseField::Any ==> (title || artist || album || genre || file || date)
                &&& form[i].0 == BrowseField::Artist ==> artist
                &&& form[i].0 == BrowseField::Album ==> album
                &&& form[i].0 == BrowseField::Song ==> title
                &&& form[i].0 == BrowseField::Genre ==> genre
                &&& form[i].0 == BrowseField::Filename ==> file
                &&& form[i].0 == BrowseField::Date ==> date
            },
{
}

/// Running the search fills the results with exactly the songs, in the
/// database's order, that pass every filled field of the form.
pub proof fn lemma_search_results_pass_the_form(old: BrowseView, all: Seq<Song>, new: BrowseView)
    requires
        song_views(new.results@) == song_views(all).filter(form_filter(form_view(old.fields@))),
    ensures
        forall|k: int| 0 <= k < new.results@.len() ==> passes_form(form_view(old.fields@), #[trigger] new.results@[k]@),
        forall|j: int|
            0 <= j < all.len() && passes_form(form_view(old.fields@), (#[trigger] all[j])@) ==> song_views(
                new.results@,
            ).contains(all[j]@),
{
    let p = form_filter(form_view(old.fields@));
    song_views(all).filter_lemma(p);
    assert forall|k: int| 0 <= k < new.results@.len() implies passes_form(form_view(old.fields@), #[trigger] new.results@[k]@) by {
        assert(song_views(new.results@)[k] == new.results@[k]@);
    }
    assert forall|j: int|
        0 <= j < all.len() && passes_form(form_view(old.fields@), (#[trigger] all[j])@) implies song_views(
            new.results@,
        ).contains(all[j]@) by {
        assert(song_views(all)[j] == all[j]@);
        assert(p(song_views(all)[j]));
    }
}

/// Whether a field looks at what `song` holds.
fn field_matches_song(f: BrowseField, song: &Song, v: &str) -> (r: bool)
    ensures
        r == field_matches(f, song@, v@),
{
    let title = text_contains(to_lowercase(text_or_default(&song.title, "")).as_str(), v);
    let artist = text_contains(to_lowercase(text_or_default(&song.artist, "")).as_str(), v);
    let album = text_contains(to_lowercase(song_tag_or_empty(song, "Album")).as_str(), v);
    let genre = text_contains(to_lowercase(song_tag_or_empty(song, "Genre")).as_str(), v);
    let file = text_contains(to_lowercase(song.file.as_str()).as_str(), v);
    let date = text_contains(to_lowercase(song_tag_or_empty(song, "Date")).as_str(), v);
    match f {
        BrowseField::Any => title || artist || album || genre || file || date,
        BrowseField::Artist => artist,
        BrowseField::Album => album,
        BrowseField::Song => title,
        BrowseField::Genre => genre,
        BrowseField::Filename => file,
        BrowseField::Date => date,
    }
}

impl BrowseView {
    /// The state of a new browse view: every field of the form empty, the
    /// first focused, no results, no count or `g` pending, the search bar
    /// closed and empty.
    pub open spec fn at_start(self) -> bool {
        &&& self.fields@.len() == all_fields().len()
        &&& forall|i: int| 0 <= i < self.fields@.len() ==> (#[trigger] self.fields@[i]).0 == all_fields()[i]
            && self.fields@[i].1@.len() == 0
        &&& self.focus == BrowseFocus::Field(0)
        &&& self.edit_mode == BrowseEditMode::Normal
        &&& self.results@.len() == 0
        &&& !self.search.active
        &&& self.search.query@ == Seq::<char>::empty()
        &&& self.search_matches@.len() == 0
        &&& self.search_match_idx == 0
        &&& self.motion == motion_cleared()
        &&& self.selected is None
    }

    /// All fields empty, the first focused, no results.
    pub fn new() -> (v: Self)
        ensures
            v.at_start(),
    {
        let all = BrowseField::all();
        let mut fields: Vec<(BrowseField, String)> = Vec::new();
        let mut i: usize = 0;
        while i < all.len()
            invariant
                all@ == all_fields(),
                i <= all@.len(),
                fields@.len() == i,
                forall|j: int| 0 <= j < i ==> (#[trigger] fields@[j]).0 == all_fields()[j] && fields@[j].1@.len() == 0,
            decreases all@.len() - i,
        {
            fields.push((all[i], String::new()));
            i = i + 1;
        }
        BrowseView {
            fields,
            focus: BrowseFocus::Field(0),
            edit_mode: BrowseEditMode::Normal,
            results: Vec::new(),
            search: SearchState::new(),
            search_matches: Vec::new(),
            search_match_idx: 0,
            motion: MotionState::new(),
            selected: None,
        }
    }

    /// Whether a field is being edited.
    pub fn is_editing(&self) -> (r: bool)
        ensures
            r == (self.edit_mode == BrowseEditMode::Editing),
    {
        self.edit_mode == BrowseEditMode::Editing
    }

    /// The focus after Tab: the next field, then Search, Reset, and back to
    /// the first field; the results keep it.
    pub open spec fn next_focus(self) -> BrowseFocus {
        match self.focus {
            BrowseFocus::Field(i) => if i + 1 < self.fields@.len() {
                BrowseFocus::Field((i + 1) as usize)
            } else {
                BrowseFocus::Search
            },
            BrowseFocus::Search => BrowseFocus::Reset,
            BrowseFocus::Reset => BrowseFocus::Field(0),
            BrowseFocus::Results => BrowseFocus::Results,
        }
    }

    /// The focus after shift-Tab, the other way round.
    pub open spec fn prev_focus(self) -> BrowseFocus {
        match self.focus {
            BrowseFocus::Field(i) => if i > 0 {
                BrowseFocus::Field((i - 1) as usize)
            } else {
                BrowseFocus::Reset
            },
            BrowseFocus::Search => BrowseFocus::Field((self.fields@.len() - 1) as usize),
            BrowseFocus::Reset => BrowseFocus::Search,
            BrowseFocus::Results => BrowseFocus::Results,
        }
    }

    /// Moves the focus as Tab does (see `next_focus`).
    pub fn focus_next(&mut self)
        requires
            old(self).focus matches BrowseFocus::Field(i) ==> i < usize::MAX,
        ensures
            *final(self) == (BrowseView { focus: old(self).next_focus(), ..*old(self) }),
    {
        self.focus = match self.focus {
            BrowseFocus::Field(i) => {
                if i + 1 < self.fields.len() {
                    BrowseFocus::Field(i + 1)
                } else {
                    BrowseFocus::Search
                }
            },
            BrowseFocus::Search => BrowseFocus::Reset,
            BrowseFocus::Reset => BrowseFocus::Field(0),
            BrowseFocus::Results => BrowseFocus::Results,
        };
    }

    /// Moves the focus as Shift-Tab does (see `prev_focus`).
    pub fn focus_prev(&mut self)
        requires
            old(self).focus == BrowseFocus::Search ==> old(self).fields@.len() > 0,
        ensures
            *final(self) == (BrowseView { focus: old(self).prev_focus(), ..*old(self) }),
    {
        self.focus = match self.focus {
            BrowseFocus::Field(i) => {
                if i > 0 {
                    BrowseFocus::Field(i - 1)
                } else {
                    BrowseFocus::Reset
                }
            },
            BrowseFocus::Search => BrowseFocus::Field(self.fields.len() - 1),
            BrowseFocus::Reset => BrowseFocus::Search,
            BrowseFocus::Results => BrowseFocus::Results,
        };
    }

    /// Whether `song` passes every filled field of the form.
    pub fn matches_filters(&self, song: &Song) -> (r: bool)
        ensures
            r == passes_form(form_view(self.fields@), song@),
    {
        let ghost form = form_view(self.fields@);
        let mut i: usize = 0;
        while i < self.fields.len()
            invariant
                i <= self.fields@.len(),
                form == form_view(self.fields@),
                forall|j: int| 0 <= j < i && (#[trigger] form[j]).1.len() > 0 ==> field_matches(form[j].0, song@, lowercase_of(form[j].1)),
            decreases self.fields@.len() - i,
        {
            let value = &self.fields[i].1;
            assert(form[i as int] == (self.fields@[i as int].0, value@));
            if value.unicode_len() != 0 {
                let v = to_lowercase(value.as_str());
                if !field_matches_song(self.fields[i].0, song, v.as_str()) {
                    return false;
                }
            }
            i = i + 1;
        }
        true
    }

    /// Fills the results with the songs of `all_songs` that pass the form,
    /// selects the first row and forgets the search matches.
    pub fn run_search(&mut self, all_songs: &[Song])
        ensures
            song_views(final(self).results@) == song_views(all_songs@).filter(form_filter(form_view(old(self).fields@))),
            final(self).selected == Some(0usize),
            final(self).search_matches@.len() == 0,
            final(self).fields == old(self).fields,
            final(self).focus == old(self).focus,
            final(self).edit_mode == old(self).edit_mode,
            final(self).search == old(self).search,
            final(self).search_match_idx == old(self).search_match_idx,
            final(self).motion == old(self).motion,
    {
        let ghost p = form_filter(form_view(self.fields@));
        let mut out: Vec<Song> = Vec::new();
        let mut i: usize = 0;
        while i < all_songs.len()
            invariant
                i <= all_songs@.len(),
                p == form_filter(form_view(self.fields@)),
                song_views(out@) == song_views(all_songs@).take(i as int).filter(p),
            decreases all_songs@.len() - i,
        {
            let b = self.matches_filters(&all_songs[i]);
            proof {
                lemma_filter_take_step(song_views(all_songs@), i as int, p);
            }
            if b {
                let d = all_songs[i].duplicate();
                proof {
                    lemma_views_push(out@, d);
                }
                out.push(d);
            }
            i = i + 1;
        }
        proof {
            lemma_take_all(song_views(all_songs@));
        }
        self.results = out;
        self.selected = Some(0);
        self.search_matches.clear();
    }

    /// Empties every field, the results and the search matches; no row is
    /// selected.
    pub fn reset(&mut self)
        ensures
            final(self).fields@.len() == old(self).fields@.len(),
            forall|i: int| 0 <= i < final(self).fields@.len() ==> (#[trigger] final(self).fields@[i]).0 == old(self).fields@[i].0
                && final(self).fields@[i].1@.len() == 0,
            final(self).results@.len() == 0,
            final(self).selected is None,
            final(self).search_matches@.len() == 0,
            final(self).focus == old(self).focus,
            final(self).edit_mode == old(self).edit_mode,
            final(self).search == old(self).search,
            final(self).search_match_idx == old(self).search_match_idx,
            final(self).motion == old(self).motion,
    {
        let mut fields: Vec<(BrowseField, String)> = Vec::new();
        let mut i: usize = 0;
        while i < self.fields.len()
            invariant
                i <= self.fields@.len(),
                fields@.len() == i,
                forall|j: int| 0 <= j < i ==> (#[trigger] fields@[j]).0 == self.fields@[j].0 && fields@[j].1@.len() == 0,
            decreases self.fields@.len() - i,
        {
            fields.push((self.fields[i].0, String::new()));
            i = i + 1;
        }
        self.fields = fields;
        self.results.clear();
        self.selected = None;
        self.search_matches.clear();
    }

    /// The key cannot be taken: it would overflow a count or a position,
    /// or index past the fields or the matches.
    pub open spec fn key_panics(self, key: Key) -> bool {
        if self.edit_mode == BrowseEditMode::Editing {
            self.focus matches BrowseFocus::Field(i) && (i >= self.fields@.len() && (key.is_plain(KeyCode::Backspace)
                || (key.modifiers == Modifiers::NoModifier && key.code is Char)) || (key.is_plain(KeyCode::Enter)
                && i == usize::MAX))
        } else if self.focus == BrowseFocus::Results {
            !self.search.active && !key.is_plain(KeyCode::Esc) && !(key.is_plain(KeyCode::Char('/'))
                || key.is_plain(KeyCode::Char('n'))) && (if key.is_shifted(KeyCode::Char('N')) {
                !self.can_go_to_prev_match()
            } else {
                count_overflows(self.motion, key) || motion_overflows(self, self.motion, key)
            })
        } else {
            ||| (key.is_plain(KeyCode::Tab) || key.is_plain(KeyCode::Char('l'))) && (self.focus matches BrowseFocus::Field(i) && i == usize::MAX)
            ||| (key.is_shifted(KeyCode::BackTab) || key.is_plain(KeyCode::Char('h'))) && self.focus == BrowseFocus::Search && self.fields@.len() == 0
        }
    }

    /// Whether the key cannot be taken (see `key_panics`).
    pub fn key_would_panic(&self, key: Key) -> (r: bool)
        ensures
            r == self.key_panics(key),
    {
        if self.edit_mode == BrowseEditMode::Editing {
            match self.focus {
                BrowseFocus::Field(i) => {
                    let typing = (key.modifiers == Modifiers::NoModifier && key.code == KeyCode::Backspace)
                        || (key.modifiers == Modifiers::NoModifier && match key.code {
                        KeyCode::Char(_) => true,
                        _ => false,
                    });
                    (i >= self.fields.len() && typing) || (key.modifiers == Modifiers::NoModifier && key.code
                        == KeyCode::Enter && i == usize::MAX)
                },
                _ => false,
            }
        } else if self.focus == BrowseFocus::Results {
            if self.search.active {
                return false;
            }
            if key.modifiers == Modifiers::NoModifier && (key.code == KeyCode::Esc || key.code == KeyCode::Char('/')
                || key.code == KeyCode::Char('n')) {
                return false;
            }
            if key.modifiers == Modifiers::Shift && key.code == KeyCode::Char('N') {
                return !(self.search_matches.len() == 0 || self.search_match_idx <= self.search_matches.len());
            }
            if count_would_overflow(self.motion, key) {
                return true;
            }
            match rows_down(self.motion, key) {
                Some(n) => {
                    self.results.len() != 0 && (match self.selected {
                        Some(c) => c as u128,
                        None => 0,
                    }) + (n as u128) > usize::MAX as u128
                },
                None => false,
            }
        } else {
            let forward = (key.modifiers == Modifiers::NoModifier && (key.code == KeyCode::Tab || key.code
                == KeyCode::Char('l')));
            let backward = (key.modifiers == Modifiers::Shift && key.code == KeyCode::BackTab) || (key.modifiers
                == Modifiers::NoModifier && key.code == KeyCode::Char('h'));
            (forward && self.focus == BrowseFocus::Field(usize::MAX)) || (backward && self.focus == BrowseFocus::Search
                && self.fields.len() == 0)
        }
    }

    /// Handles a key: typing in the field being edited, browsing the
    /// results (search bar, `/`, `n`, `N`, motions, Enter queues and plays
    /// the row), or moving between the fields and the buttons. Returns what
    /// the player must do.
    pub fn handle_key(&mut self, key: Key, all_songs: &[Song]) -> (r: BrowseResult)
        requires
            !old(self).key_panics(key),
        ensures
            browse_step(*old(self), key, song_views(all_songs@), *final(self), r),
    {
        if self.edit_mode == BrowseEditMode::Editing {
            match self.focus {
                BrowseFocus::Field(i) => {
                    match (key.modifiers, key.code) {
                        (Modifiers::NoModifier, KeyCode::Esc) => {
                            self.edit_mode = BrowseEditMode::Normal;
                            self.run_search(all_songs);
                        },
                        (Modifiers::NoModifier, KeyCode::Enter) => {
                            self.edit_mode = BrowseEditMode::Normal;
                            self.run_search(all_songs);
                            if i + 1 < self.fields.len() {
                                self.focus = BrowseFocus::Field(i + 1);
                            } else {
                                self.focus = BrowseFocus::Results;
                                self.selected = Some(0);
                            }
                        },
                        (Modifiers::NoModifier, KeyCode::Backspace) => {
                            self.edit_field(i, None);
                            self.run_search(all_songs);
                        },
                        (Modifiers::NoModifier, KeyCode::Char(c)) => {
                            self.edit_field(i, Some(c));
                            self.run_search(all_songs);
                        },
                        _ => {},
                    }
                },
                _ => {},
            }
            return BrowseResult::Nothing;
        }
        if self.focus == BrowseFocus::Results {
            if self.search.active {
                let mut search = self.search.duplicate();
                handle_search_input(self, &mut search, key);
                self.search = search;
                return BrowseResult::Nothing;
            }
            if key.modifiers == Modifiers::NoModifier && key.code == KeyCode::Esc {
                self.focus = BrowseFocus::Search;
                return BrowseResult::Nothing;
            }
            let mut search = self.search.duplicate();
            if handle_search_normal(self, &mut search, key) {
                self.search = search;
                return BrowseResult::Nothing;
            }
            let mut motion = self.motion;
            let ghost before = *self;
            match handle_motion_key(self, &mut motion, key) {
                Some(action) => {
                    let ghost t2 = *self;
                    assert(motion_outcome(before, before.motion, key, t2, motion, Some(action)));
                    self.motion = motion;
                    if action == MotionAction::Select {
                        let row = match self.selected {
                            Some(x) => x,
                            None => 0,
                        };
                        if row < self.results.len() {
                            let d = self.results[row].duplicate();
                            let mut v: Vec<Song> = Vec::new();
                            v.push(d);
                            assert(song_views(v@) =~= seq![d@]);
                            return BrowseResult::AppendAndPlay(v);
                        }
                    }
                },
                None => {},
            }
            return BrowseResult::Nothing;
        }
        match (key.modifiers, key.code) {
            (Modifiers::NoModifier, KeyCode::Tab) | (Modifiers::NoModifier, KeyCode::Char('l')) => self.focus_next(),
            (Modifiers::Shift, KeyCode::BackTab) | (Modifiers::NoModifier, KeyCode::Char('h')) => self.focus_prev(),
            (Modifiers::NoModifier, KeyCode::Char('i')) | (Modifiers::NoModifier, KeyCode::Char('a')) => {
                match self.focus {
                    BrowseFocus::Field(_) => {
                        self.edit_mode = BrowseEditMode::Editing;
                    },
                    _ => {},
                }
            },
            (Modifiers::NoModifier, KeyCode::Enter) => match self.focus {
                BrowseFocus::Search => {
                    self.run_search(all_songs);
                    self.focus = BrowseFocus::Results;
                    self.selected = Some(0);
                },
                BrowseFocus::Reset => {
                    self.reset();
                },
                BrowseFocus::Results => {
                    let row = match self.selected {
                        Some(x) => x,
                        None => 0,
                    };
                    if row < self.results.len() {
                        let d = self.results[row].duplicate();
                        let mut v: Vec<Song> = Vec::new();
                        v.push(d);
                        assert(song_views(v@) =~= seq![d@]);
                        return BrowseResult::AppendAndPlay(v);
                    }
                },
                BrowseFocus::Field(_) => {
                    self.edit_mode = BrowseEditMode::Editing;
                },
            },
            _ => {},
        }
        BrowseResult::Nothing
    }

    /// Types `c` into field `i`, or erases its last character.
    fn edit_field(&mut self, i: usize, c: Option<char>)
        requires
            i < old(self).fields@.len(),
        ensures
            final(self).fields@.len() == old(self).fields@.len(),
            forall|j: int| 0 <= j < final(self).fields@.len() && j != i ==> #[trigger] final(self).fields@[j] == old(self).fields@[j],
            final(self).fields@[i as int].0 == old(self).fields@[i as int].0,
            final(self).fields@[i as int].1@ == (match c {
                Some(ch) => old(self).fields@[i as int].1@.push(ch),
                None => query_popped(old(self).fields@[i as int].1@),
            }),
            final(self).focus == old(self).focus,
            final(self).edit_mode == old(self).edit_mode,
            final(self).results == old(self).results,
            final(self).search == old(self).search,
            final(self).search_matches == old(self).search_matches,
            final(self).search_match_idx == old(self).search_match_idx,
            final(self).motion == old(self).motion,
            final(self).selected == old(self).selected,
    {
        let (f, mut value) = self.fields.remove(i);
        match c {
            Some(ch) => push_char(&mut value, ch),
            None => {
                let _ = pop_char(&mut value);
            },
        }
        self.fields.insert(i, (f, value));
        assert forall|j: int| 0 <= j < self.fields@.len() && j != i implies #[trigger] self.fields@[j] == old(self).fields@[j] by {
        }
    }
}

/// `new` and `r` follow key `key` in the browse view `old`.
pub open spec fn browse_step(old: BrowseView, key: Key, all: Seq<SongView>, new: BrowseView, r: BrowseResult) -> bool {
    if old.edit_mode == BrowseEditMode::Editing {
        &&& r is Nothing
        &&& match old.focus {
            BrowseFocus::Field(i) => {
                if key.is_plain(KeyCode::Esc) {
                    &&& new.edit_mode == BrowseEditMode::Normal
                    &&& searched_form(old, old.fields, all, new)
                    &&& new.focus == old.focus
                } else if key.is_plain(KeyCode::Enter) {
                    &&& new.edit_mode == BrowseEditMode::Normal
                    &&& searched_form(old, old.fields, all, new)
                    &&& if i + 1 < old.fields@.len() {
                        new.focus == BrowseFocus::Field((i + 1) as usize)
                    } else {
                        new.focus == BrowseFocus::Results
                    }
                } else if key.is_plain(KeyCode::Backspace) || (key.modifiers == Modifiers::NoModifier && key.code is Char) {
                    &&& new.edit_mode == old.edit_mode
                    &&& new.focus == old.focus
                    &&& new.fields@.len() == old.fields@.len()
                    &&& forall|j: int| 0 <= j < new.fields@.len() && j != i ==> #[trigger] new.fields@[j] == old.fields@[j]
                    &&& new.fields@[i as int].0 == old.fields@[i as int].0
                    &&& new.fields@[i as int].1@ == (if key.is_plain(KeyCode::Backspace) {
                        query_popped(old.fields@[i as int].1@)
                    } else {
                        old.fields@[i as int].1@.push(key.code->0)
                    })
                    &&& searched_form(old, new.fields, all, new)
                } else {
                    new == old
                }
            },
            _ => new == old,
        }
    } else if old.focus == BrowseFocus::Results {
        if old.search.active {
            &&& r is Nothing
            &&& new.focus == old.focus && new.edit_mode == old.edit_mode && new.fields == old.fields
            &&& new.motion == old.motion
            &&& match key.code {
                KeyCode::Esc | KeyCode::Enter => {
                    &&& !new.search.active && new.search.query@ == old.search.query@
                    &&& new.results == old.results && new.selected == old.selected
                    &&& new.search_matches == old.search_matches && new.search_match_idx == old.search_match_idx
                },
                KeyCode::Backspace => {
                    &&& new.search.active && new.search.query@ == query_popped(old.search.query@)
                    &&& results_searched(old, new.search.query@, new)
                },
                KeyCode::Char(c) => {
                    &&& new.search.active && new.search.query@ == old.search.query@.push(c)
                    &&& results_searched(old, new.search.query@, new)
                },
                _ => {
                    &&& new.search.active && new.search.query@ == old.search.query@
                    &&& new.results == old.results && new.selected == old.selected
                    &&& new.search_matches == old.search_matches && new.search_match_idx == old.search_match_idx
                },
            }
        } else if key.is_plain(KeyCode::Esc) {
            r is Nothing && new == BrowseView { focus: BrowseFocus::Search, ..old }
        } else if key.is_plain(KeyCode::Char('/')) {
            r is Nothing && new.search.active && new.search.query@ == Seq::<char>::empty() && new == BrowseView {
                search: new.search,
                ..old
            }
        } else if key.is_plain(KeyCode::Char('n')) {
            r is Nothing && old.went_to_next_match(new)
        } else if key.is_shifted(KeyCode::Char('N')) {
            r is Nothing && old.went_to_prev_match(new)
        } else {
            exists|t2: BrowseView, st2: MotionState, a: Option<MotionAction>|
                #![trigger motion_outcome(old, old.motion, key, t2, st2, a)]
                motion_outcome(old, old.motion, key, t2, st2, a) && match a {
                    None => new == old && r is Nothing,
                    Some(x) => {
                        &&& new == BrowseView { motion: st2, ..t2 }
                        &&& if x == MotionAction::Select {
                            selected_row_result(new, r)
                        } else {
                            r is Nothing
                        }
                    },
                }
        }
    } else if key.is_plain(KeyCode::Tab) || key.is_plain(KeyCode::Char('l')) {
        r is Nothing && new == BrowseView { focus: old.next_focus(), ..old }
    } else if key.is_shifted(KeyCode::BackTab) || key.is_plain(KeyCode::Char('h')) {
        r is Nothing && new == BrowseView { focus: old.prev_focus(), ..old }
    } else if key.is_plain(KeyCode::Char('i')) || key.is_plain(KeyCode::Char('a')) {
        r is Nothing && if old.focus is Field {
            new == BrowseView { edit_mode: BrowseEditMode::Editing, ..old }
        } else {
            new == old
        }
    } else if key.is_plain(KeyCode::Enter) {
        match old.focus {
            BrowseFocus::Search => r is Nothing && searched_form(old, old.fields, all, new) && new.focus
                == BrowseFocus::Results && new.edit_mode == old.edit_mode,
            BrowseFocus::Reset => {
                &&& r is Nothing
                &&& new.fields@.len() == old.fields@.len()
                &&& forall|i: int| 0 <= i < new.fields@.len() ==> (#[trigger] new.fields@[i]).0 == old.fields@[i].0
                    && new.fields@[i].1@.len() == 0
                &&& new.results@.len() == 0 && new.selected is None && new.search_matches@.len() == 0
                &&& new.focus == old.focus && new.edit_mode == old.edit_mode && new.search == old.search
                &&& new.motion == old.motion && new.search_match_idx == old.search_match_idx
            },
            BrowseFocus::Results => new == old && selected_row_result(old, r),
            BrowseFocus::Field(_) => r is Nothing && new == BrowseView { edit_mode: BrowseEditMode::Editing, ..old },
        }
    } else {
        r is Nothing && new == old
    }
}

/// `r` queues and plays the selected results row (the first when none is
/// selected), or nothing when there is no such row.
pub open spec fn selected_row_result(v: BrowseView, r: BrowseResult) -> bool {
    let row: usize = match v.selected {
        Some(x) => x,
        None => 0,
    };
    if row < v.results@.len() {
        r matches BrowseResult::AppendAndPlay(songs) && song_views(songs@) == seq![v.results@[row as int]@]
    } else {
        r is Nothing
    }
}

/// `new` holds the results of the form `fields` over `all`, the first row
/// selected, no search matches; the rest as in `old` but for the fields,
/// the focus and the edit mode.
pub open spec fn searched_form(
    old: BrowseView,
    fields: Vec<(BrowseField, String)>,
    all: Seq<SongView>,
    new: BrowseView,
) -> bool {
    &&& new.fields == fields
    &&& song_views(new.results@) == all.filter(form_filter(form_view(fields@)))
    &&& new.selected == Some(0usize)
    &&& new.search_matches@.len() == 0
    &&& new.search == old.search
    &&& new.search_match_idx == old.search_match_idx
    &&& new.motion == old.motion
}

/// `new` is `old` after searching the results for `q`: the matches are the
/// rows whose title or artist contains it (case ignored), the first is
/// selected.
pub open spec fn results_searched(old: BrowseView, q: Seq<char>, new: BrowseView) -> bool {
    &&& new.search_matches@ == result_match_indices(song_views(old.results@), lowercase_of(q))
    &&& new.search_match_idx == 0
    &&& new.results == old.results
    &&& new.selected == (if new.search_matches@.len() > 0 {
        Some(new.search_matches@[0])
    } else {
        old.selected
    })
}

impl VimNavigable for BrowseView {
    open spec fn moved_down(self, n: nat, after: Self) -> bool {
        if self.results@.len() == 0 {
            after == self
        } else {
            let cur: usize = match self.selected {
                Some(x) => x,
                None => 0,
            };
            let last = self.results@.len() - 1;
            after == BrowseView { selected: Some((if cur + n <= last { cur + n } else { last }) as usize), ..self }
        }
    }

    open spec fn can_move_down(self, n: nat) -> bool {
        self.results@.len() == 0 || (match self.selected {
            Some(x) => x,
            None => 0usize,
        }) + n <= usize::MAX
    }

    open spec fn moved_up(self, n: nat, after: Self) -> bool {
        let cur: usize = match self.selected {
            Some(x) => x,
            None => 0,
        };
        after == BrowseView { selected: Some(clamp_up(cur, n)), ..self }
    }

    open spec fn went_to_top(self, after: Self) -> bool {
        after == BrowseView { selected: Some(0usize), ..self }
    }

    open spec fn went_to_bottom(self, after: Self) -> bool {
        after == BrowseView {
            selected: Some(if self.results@.len() == 0 { 0 } else { (self.results@.len() - 1) as usize }),
            ..self
        }
    }

    open spec fn nav_len(self) -> nat {
        self.results@.len()
    }

    fn move_down(&mut self, n: usize) {
        let len = self.results.len();
        if len == 0 {
            return;
        }
        let cur = match self.selected {
            Some(x) => x,
            None => 0,
        };
        let next = if cur + n <= len - 1 { cur + n } else { len - 1 };
        self.selected = Some(next);
    }

    fn move_up(&mut self, n: usize) {
        let cur = match self.selected {
            Some(x) => x,
            None => 0,
        };
        self.selected = Some(if cur >= n { cur - n } else { 0 });
    }

    fn go_to_top(&mut self) {
        self.selected = Some(0);
    }

    fn go_to_bottom(&mut self) {
        let len = self.results.len();
        self.selected = Some(if len == 0 { 0 } else { len - 1 });
    }

    fn len(&self) -> usize {
        self.results.len()
    }
}

impl VimSearchable for BrowseView {
    open spec fn searched(self, query: Seq<char>, after: Self) -> bool {
        &&& results_searched(self, query, after)
        &&& after.fields == self.fields
        &&& after.focus == self.focus
        &&& after.edit_mode == self.edit_mode
        &&& after.search == self.search
        &&& after.motion == self.motion
    }

    open spec fn went_to_next_match(self, after: Self) -> bool {
        if self.search_matches@.len() == 0 {
            after == self
        } else {
            let idx = wrap_next(self.search_match_idx, self.search_matches@.len());
            after == BrowseView { search_match_idx: idx, selected: Some(self.search_matches@[idx as int]), ..self }
        }
    }

    open spec fn went_to_prev_match(self, after: Self) -> bool {
        if self.search_matches@.len() == 0 {
            after == self
        } else {
            let idx = wrap_prev(self.search_match_idx, self.search_matches@.len());
            after == BrowseView { search_match_idx: idx, selected: Some(self.search_matches@[idx as int]), ..self }
        }
    }

    open spec fn query_text(self) -> Seq<char> {
        self.search.query@
    }

    open spec fn matches_len(self) -> nat {
        self.search_matches@.len()
    }

    open spec fn can_go_to_prev_match(self) -> bool {
        self.search_matches@.len() == 0 || self.search_match_idx <= self.search_matches@.len()
    }

    fn search(&mut self, query: &str) {
        let q = to_lowercase(query);
        self.search_matches = match_results(&self.results, q.as_str());
        self.search_match_idx = 0;
        if self.search_matches.len() > 0 {
            self.selected = Some(self.search_matches[0]);
        }
    }

    fn next_match(&mut self) {
        if self.search_matches.len() == 0 {
            return;
        }
        let n = self.search_matches.len();
        self.search_match_idx = next_index(self.search_match_idx, n);
        self.selected = Some(self.search_matches[self.search_match_idx]);
    }

    fn prev_match(&mut self) {
        if self.search_matches.len() == 0 {
            return;
        }
        self.search_match_idx = if self.search_match_idx >= 1 {
            self.search_match_idx - 1
        } else {
            self.search_matches.len() - 1
        };
        self.selected = Some(self.search_matches[self.search_match_idx]);
    }

    fn current_query(&self) -> &str {
        self.search.query.as_str()
    }

    fn match_count(&self) -> usize {
        self.search_matches.len()
    }
}

/// Whether a result matches lower-cased `q`.
fn result_matches_query(s: &Song, q: &str) -> (r: bool)
    ensures
        r == result_matches(s@, q@),
{
    let t = to_lowercase(text_or_default(&s.title, ""));
    if text_contains(t.as_str(), q) {
        return true;
    }
    let a = to_lowercase(text_or_default(&s.artist, ""));
    text_contains(a.as_str(), q)
}

/// The positions of the results that match lower-cased `q`.
fn match_results(results: &Vec<Song>, q: &str) -> (r: Vec<usize>)
    ensures
        r@ == result_match_indices(song_views(results@), q@),
{
    let ghost a = song_views(results@);
    let mut r: Vec<usize> = Vec::new();
    let mut i: usize = 0;
    while i < results.len()
        invariant
            i <= results@.len(),
            a == song_views(results@),
            r@ == result_match_indices(a.take(i as int), q@),
        decreases results@.len() - i,
    {
        let b = result_matches_query(&results[i], q);
        proof {
            assert(a.take(i + 1).drop_last() =~= a.take(i as int));
            assert(a.take(i + 1).last() == results@[i as int]@);
        }
        if b {
            r.push(i);
        }
        i = i + 1;
    }
    proof {
        lemma_take_all(a);
    }
    r
}

} // verus!
