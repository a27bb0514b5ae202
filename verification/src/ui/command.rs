//! The `:` command bar: `:a <query>` searches albums, `:s <query>` songs.
use vstd::prelude::*;

use crate::song::{
    album_or_unknown, artist_or_unknown, duplicate_songs, lemma_filter_take_step, lemma_take_all,
    lemma_views_push, song_tag, song_views, text_or, text_or_default, title_or_unknown, Song,
    SongView, tag_or,
};
use crate::text::{
    chars_of, clear_string, find_char, first_at, lowercase_of, owned, pop_char, push_char,
    push_str, seq_contains, string_from_chars, text_contains, text_eq, texts,
    to_lowercase,
};

verus! {

/// "artist: album", each "Unknown" when missing.
pub open spec fn album_suggestion(s: SongView) -> Seq<char> {
    artist_or_unknown(s) + ": "@ + album_or_unknown(s)
}

/// Formats an album suggestion as "artist: album".
pub fn format_album_suggestion(song: &Song) -> (r: String)
    ensures
        r@ == album_suggestion(song@),
{
    let artist = text_or_default(&song.artist, "Unknown");
    let album = song_tag(song, "Album");
    let mut r = owned(artist);
    push_str(&mut r, ": ");
    push_str(&mut r, album);
    r
}

/// A registered command: its name and a line of help.
pub struct Command {
    pub name: &'static str,
    pub description: &'static str,
}

/// All registered commands.
pub fn registered_commands() -> (v: Vec<Command>)
    ensures
        v@.len() == 2,
        v@[0].name@ == "a"@,
        v@[1].name@ == "s"@,
{
    let mut v: Vec<Command> = Vec::new();
    v.push(Command { name: "a", description: "Search albums: :a <query>" });
    v.push(Command { name: "s", description: "Search songs: :s <query>" });
    v
}

/// What the bar is searching for.
#[derive(Debug, Clone, Copy, PartialEq, Eq, Structural)]
pub enum CommandMode {
    Album,
    Song,
}

/// The command bar: its input, its matches and the last ten commands.
pub struct CommandBar {
    pub active: bool,
    pub input: String,
    pub mode: Option<CommandMode>,
    pub matches: Vec<Song>,
    pub selected: usize,
    pub history: Vec<String>,
    pub history_idx: Option<usize>,
}

/// The command typed before the first space and the query after it, if
/// the input holds a space.
pub open spec fn split_command(s: Seq<char>) -> Option<(Seq<char>, Seq<char>)> {
    if exists|k: int| first_at(s, ' ', k) {
        let k = choose|k: int| first_at(s, ' ', k);
        Some((s.take(k), s.skip(k + 1)))
    } else {
        None
    }
}

/// What album matches are told apart by: the artist (empty when missing)
/// and the album, as a pair.
pub open spec fn album_key(s: SongView) -> (Seq<char>, Seq<char>) {
    (text_or(s.artist, ""@), album_or_unknown(s))
}

/// The texts of a list of pairs of strings.
pub open spec fn pair_texts(v: Seq<(String, String)>) -> Seq<(Seq<char>, Seq<char>)> {
    v.map_values(|p: (String, String)| (p.0@, p.1@))
}

/// Whether `v` holds the pair (`a`, `b`).
fn pairs_contain(v: &Vec<(String, String)>, a: &str, b: &str) -> (r: bool)
    ensures
        r == pair_texts(v@).contains((a@, b@)),
{
    let mut i: usize = 0;
    while i < v.len()
        invariant
            i <= v@.len(),
            forall|j: int| 0 <= j < i ==> pair_texts(v@)[j] != (a@, b@),
        decreases v@.len() - i,
    {
        if text_eq(v[i].0.as_str(), a) && text_eq(v[i].1.as_str(), b) {
            assert(pair_texts(v@)[i as int] == (a@, b@));
            return true;
        }
        i = i + 1;
    }
    false
}

/// The songs of `s` whose artist and album (`album_key`) did not occur
/// before them.
pub open spec fn first_of_each_album(s: Seq<SongView>) -> Seq<SongView>
    decreases s.len(),
{
    if s.len() == 0 {
        s
    } else {
        let r = first_of_each_album(s.drop_last());
        if exists|j: int| 0 <= j < s.len() - 1 && album_key(s[j]) == album_key(s.last()) {
            r
        } else {
            r.push(s.last())
        }
    }
}

/// Songs whose album, lower-cased, contains `q`.
pub open spec fn album_filter(q: Seq<char>) -> spec_fn(SongView) -> bool {
    |s: SongView| seq_contains(lowercase_of(album_or_unknown(s)), q)
}

/// Songs whose title (empty when missing), lower-cased, contains `q`.
pub open spec fn title_filter(q: Seq<char>) -> spec_fn(SongView) -> bool {
    |s: SongView| seq_contains(lowercase_of(text_or(s.title, ""@)), q)
}

/// The album matches for lower-cased query `q`: one song per (artist,
/// album) pair, the first, among the songs whose album contains `q`.
pub open spec fn album_matches(all: Seq<SongView>, q: Seq<char>) -> Seq<SongView> {
    first_of_each_album(all.filter(album_filter(q)))
}

/// Songs of the same artist (empty when missing) and album as `s`.
pub open spec fn same_album_filter(s: SongView) -> spec_fn(SongView) -> bool {
    |x: SongView| text_or(x.artist, ""@) == text_or(s.artist, ""@) && album_or_unknown(x) == album_or_unknown(s)
}

/// The bar after `open` or `close`: input, mode, matches, selection and
/// history position cleared.
pub open spec fn bar_cleared(b: CommandBar, active: bool, old_b: CommandBar) -> bool {
    &&& b.active == active
    &&& b.input@ == Seq::<char>::empty()
    &&& b.mode is None
    &&& b.matches@.len() == 0
    &&& b.selected == 0
    &&& b.history_idx is None
    &&& texts(b.history@) == texts(old_b.history@)
}

/// The history after committing `input`: appended when not empty, the
/// oldest entry dropped beyond ten.
pub open spec fn history_after_commit(h: Seq<Seq<char>>, input: Seq<char>) -> Seq<Seq<char>> {
    if input.len() == 0 {
        h
    } else if h.len() + 1 > 10 {
        h.push(input).drop_first()
    } else {
        h.push(input)
    }
}

fn album_key_of(song: &Song) -> (r: (String, String))
    ensures
        (r.0@, r.1@) == album_key(song@),
{
    (owned(text_or_default(&song.artist, "")), owned(song_tag(song, "Album")))
}

proof fn lemma_first_of_each_push(s: Seq<SongView>, x: SongView)
    ensures
        first_of_each_album(s.push(x)) == (if exists|j: int| 0 <= j < s.len() && album_key(s[j]) == album_key(x) {
            first_of_each_album(s)
        } else {
            first_of_each_album(s).push(x)
        }),
{
    assert(s.push(x).drop_last() =~= s);
    assert forall|j: int| 0 <= j < s.len() implies s.push(x)[j] == s[j] by {}
}

/// The album matches of `all` for lower-cased query `q`.
fn collect_album_matches(all: &[Song], q: &str) -> (r: Vec<Song>)
    ensures
        song_views(r@) == album_matches(song_views(all@), q@),
{
    let ghost p = album_filter(q@);
    let ghost sv = song_views(all@);
    let mut out: Vec<Song> = Vec::new();
    let mut seen: Vec<(String, String)> = Vec::new();
    let mut i: usize = 0;
    while i < all.len()
        invariant
            i <= all@.len(),
            p == album_filter(q@),
            sv == song_views(all@),
            song_views(out@) == first_of_each_album(sv.take(i as int).filter(p)),
            forall|k: (Seq<char>, Seq<char>)| pair_texts(seen@).contains(k) <==> exists|j: int|
                0 <= j < sv.take(i as int).filter(p).len() && album_key(
                    #[trigger] sv.take(i as int).filter(p)[j],
                ) == k,
        decreases all@.len() - i,
    {
        let ghost fp = sv.take(i as int).filter(p);
        let album = to_lowercase(song_tag(&all[i], "Album"));
        let pass = text_contains(album.as_str(), q);
        proof {
            lemma_filter_take_step(sv, i as int, p);
            assert(sv[i as int] == all@[i as int]@);
        }
        if pass {
            let key = album_key_of(&all[i]);
            let known = pairs_contain(&seen, key.0.as_str(), key.1.as_str());
            proof {
                lemma_first_of_each_push(fp, sv[i as int]);
                let fp2 = fp.push(sv[i as int]);
                assert(fp2 == sv.take(i + 1).filter(p));
                assert forall|j: int| 0 <= j < fp.len() implies #[trigger] fp2[j] == fp[j] by {}
            }
            if !known {
                let d = all[i].duplicate();
                proof {
                    lemma_views_push(out@, d);
                }
                out.push(d);
                let ghost old_seen = seen@;
                seen.push(key);
                proof {
                    let fp2 = sv.take(i + 1).filter(p);
                    assert(pair_texts(seen@) =~= pair_texts(old_seen).push((key.0@, key.1@)));
                    assert forall|k: (Seq<char>, Seq<char>)| pair_texts(seen@).contains(k) <==> exists|j: int|
                        0 <= j < fp2.len() && album_key(#[trigger] fp2[j]) == k by {
                        if pair_texts(seen@).contains(k) {
                            let m = choose|m: int| 0 <= m < pair_texts(seen@).len() && pair_texts(seen@)[m] == k;
                            if m < pair_texts(old_seen).len() {
                                assert(pair_texts(old_seen).contains(k));
                                let j = choose|j: int| 0 <= j < fp.len() && album_key(#[trigger] fp[j]) == k;
                                assert(fp2[j] == fp[j]);
                            } else {
                                assert(fp2[fp.len() as int] == sv[i as int]);
                            }
                        }
                        if exists|j: int| 0 <= j < fp2.len() && album_key(#[trigger] fp2[j]) == k {
                            let j = choose|j: int| 0 <= j < fp2.len() && album_key(#[trigger] fp2[j]) == k;
                            if j < fp.len() {
                                assert(fp2[j] == fp[j]);
                                assert(pair_texts(old_seen).contains(k));
                                let m = choose|m: int| 0 <= m < pair_texts(old_seen).len() && pair_texts(old_seen)[m] == k;
                                assert(pair_texts(seen@)[m] == k);
                            } else {
                                assert(pair_texts(seen@)[pair_texts(old_seen).len() as int] == k);
                            }
                        }
                    }
                }
            } else {
                proof {
                    let fp2 = sv.take(i + 1).filter(p);
                    assert(exists|j: int| 0 <= j < fp.len() && album_key(#[trigger] fp[j]) == album_key(sv[i as int]));
                    assert forall|k: (Seq<char>, Seq<char>)| pair_texts(seen@).contains(k) <==> exists|j: int|
                        0 <= j < fp2.len() && album_key(#[trigger] fp2[j]) == k by {
                        if pair_texts(seen@).contains(k) {
                            let j = choose|j: int| 0 <= j < fp.len() && album_key(#[trigger] fp[j]) == k;
                            assert(fp2[j] == fp[j]);
                        }
                        if exists|j: int| 0 <= j < fp2.len() && album_key(#[trigger] fp2[j]) == k {
                            let j = choose|j: int| 0 <= j < fp2.len() && album_key(#[trigger] fp2[j]) == k;
                            if j < fp.len() {
                                assert(fp2[j] == fp[j]);
                            } else {
                                let j0 = choose|j0: int| 0 <= j0 < fp.len() && album_key(#[trigger] fp[j0]) == album_key(sv[i as int]);
                                assert(album_key(fp[j0]) == k);
                            }
                        }
                    }
                }
            }
        }
        i = i + 1;
    }
    proof {
        lemma_take_all(sv);
    }
    out
}

/// The songs of `all` whose title contains lower-cased `q`.
fn collect_title_matches(all: &[Song], q: &str) -> (r: Vec<Song>)
    ensures
        song_views(r@) == song_views(all@).filter(title_filter(q@)),
{
    let ghost p = title_filter(q@);
    let mut out: Vec<Song> = Vec::new();
    let mut i: usize = 0;
    while i < all.len()
        invariant
            i <= all@.len(),
            p == title_filter(q@),
            song_views(out@) == song_views(all@).take(i as int).filter(p),
        decreases all@.len() - i,
    {
        let title = to_lowercase(text_or_default(&all[i].title, ""));
        let b = text_contains(title.as_str(), q);
        proof {
            lemma_filter_take_step(song_views(all@), i as int, p);
        }
        if b {
            let d = all[i].duplicate();
            proof {
                lemma_views_push(out@, d);
            }
            out.push(d);
        }
        i = i + 1;
    }
    proof {
        lemma_take_all(song_views(all@));
    }
    out
}

/// The songs of `all` of the same artist and album as `song`.
fn collect_same_album(all: &[Song], song: &Song) -> (r: Vec<Song>)
    ensures
        song_views(r@) == song_views(all@).filter(same_album_filter(song@)),
{
    let ghost p = same_album_filter(song@);
    let artist = text_or_default(&song.artist, "");
    let album = song_tag(song, "Album");
    let mut out: Vec<Song> = Vec::new();
    let mut i: usize = 0;
    while i < all.len()
        invariant
            i <= all@.len(),
            p == same_album_filter(song@),
            artist@ == text_or(song@.artist, ""@),
            album@ == album_or_unknown(song@),
            song_views(out@) == song_views(all@).take(i as int).filter(p),
        decreases all@.len() - i,
    {
        let b = text_eq(text_or_default(&all[i].artist, ""), artist) && text_eq(
            song_tag(&all[i], "Album"),
            album,
        );
        proof {
            lemma_filter_take_step(song_views(all@), i as int, p);
        }
        if b {
            let d = all[i].duplicate();
            proof {
                lemma_views_push(out@, d);
            }
            out.push(d);
        }
        i = i + 1;
    }
    proof {
        lemma_take_all(song_views(all@));
    }
    out
}

impl CommandBar {
    /// The state of a new bar: closed, empty, with no history.
    pub open spec fn at_start(self) -> bool {
        &&& !self.active
        &&& self.input@ == Seq::<char>::empty()
        &&& self.mode is None
        &&& self.matches@.len() == 0
        &&& self.selected == 0
        &&& self.history@.len() == 0
        &&& self.history_idx is None
    }

    /// A closed, empty bar with no history.
    pub fn new() -> (b: Self)
        ensures
            b.at_start(),
    {
        CommandBar {
            active: false,
            input: String::new(),
            mode: None,
            matches: Vec::new(),
            selected: 0,
            history: Vec::new(),
            history_idx: None,
        }
    }

    /// Opens the bar, cleared.
    pub fn open(&mut self)
        ensures
            bar_cleared(*final(self), true, *old(self)),
    {
        self.active = true;
        clear_string(&mut self.input);
        self.mode = None;
        self.matches.clear();
        self.selected = 0;
        self.history_idx = None;
    }

    /// Closes the bar, cleared.
    pub fn close(&mut self)
        ensures
            bar_cleared(*final(self), false, *old(self)),
    {
        self.active = false;
        clear_string(&mut self.input);
        self.mode = None;
        self.matches.clear();
        self.selected = 0;
        self.history_idx = None;
    }

    /// Types a character; leaves history browsing.
    pub fn push(&mut self, c: char)
        ensures
            bar_after_push(*old(self), c, *final(self)),
    {
        push_char(&mut self.input, c);
        self.history_idx = None;
    }

    /// Erases the last character, if any; leaves history browsing.
    pub fn pop(&mut self)
        ensures
            bar_after_pop(*old(self), *final(self)),
    {
        let _ = pop_char(&mut self.input);
        self.history_idx = None;
    }

    /// Records the input in the history (unless it is empty), keeping the
    /// last ten entries.
    pub fn commit_history(&mut self)
        ensures
            bar_after_commit(*old(self), *final(self)),
    {
        if self.input.unicode_len() != 0 {
            let entry = self.input.clone();
            self.history.push(entry);
            let ghost pushed = texts(self.history@);
            assert(pushed =~= texts(old(self).history@).push(old(self).input@));
            if self.history.len() > 10 {
                self.history.remove(0);
                assert(texts(self.history@) =~= pushed.drop_first());
            }
        }
    }

    /// Recalls the previous history entry into the input (the last one when
    /// not browsing yet); nothing when the history is empty.
    pub fn history_prev(&mut self)
        requires
            old(self).history_idx matches Some(i) ==> (if i >= 1 { i - 1 } else { 0 }) < old(self).history@.len()
                || old(self).history@.len() == 0,
        ensures
            bar_after_history_prev(*old(self), *final(self)),
    {
        if self.history.len() == 0 {
            return;
        }
        let idx = match self.history_idx {
            None => self.history.len() - 1,
            Some(i) => if i >= 1 { i - 1 } else { 0 },
        };
        self.history_idx = Some(idx);
        self.input = self.history[idx].clone();
    }

    /// Recalls the next history entry; past the last one, leaves history
    /// browsing with an empty input. Nothing when not browsing.
    pub fn history_next(&mut self)
        requires
            old(self).history_idx matches Some(i) ==> i < usize::MAX,
        ensures
            bar_after_history_next(*old(self), *final(self)),
    {
        match self.history_idx {
            None => {},
            Some(i) => {
                if i + 1 < self.history.len() {
                    self.history_idx = Some(i + 1);
                    self.input = self.history[i + 1].clone();
                } else {
                    self.history_idx = None;
                    clear_string(&mut self.input);
                }
            },
        }
    }

    /// Parses the input and recomputes the matches from `all_songs`:
    /// `a <query>` lists one song per album whose name contains the query,
    /// `s <query>` the songs whose title contains it (both lower-cased).
    /// Without a space, or with another command, there are no matches.
    pub fn update_matches(&mut self, all_songs: &[Song])
        ensures
            bar_after_update(*old(self), song_views(all_songs@), *final(self)),
    {
        let chars = chars_of(self.input.as_str());
        let n = chars.len();
        let space = find_char(&chars, ' ');
        match space {
            None => {
                proof {
                    assert(!exists|k: int| first_at(old(self).input@, ' ', k));
                }
                self.matches.clear();
                self.mode = None;
                return;
            },
            Some(k) => {
                proof {
                    assert(first_at(old(self).input@, ' ', k as int));
                    let k2 = choose|k2: int| first_at(old(self).input@, ' ', k2);
                    assert(k2 == k) by {
                        if k2 < k {
                            assert(chars@[k2] != ' ');
                        } else if k2 > k {
                            assert(chars@[k as int] != ' ');
                        }
                    }
                }
                let cmd = string_from_chars(&chars, 0, k);
                let rest = string_from_chars(&chars, k + 1, n);
                assert(cmd@ =~= old(self).input@.take(k as int));
                assert(rest@ =~= old(self).input@.skip(k + 1));
                let query = to_lowercase(rest.as_str());
                if text_eq(cmd.as_str(), "a") {
                    self.mode = Some(CommandMode::Album);
                    self.matches = collect_album_matches(all_songs, query.as_str());
                } else if text_eq(cmd.as_str(), "s") {
                    self.mode = Some(CommandMode::Song);
                    self.matches = collect_title_matches(all_songs, query.as_str());
                } else {
                    self.matches.clear();
                    self.mode = None;
                }
                self.selected = 0;
            },
        }
    }

    /// Selects the next match, wrapping; nothing without matches.
    pub fn next_match(&mut self)
        requires
            old(self).matches@.len() == 0 || old(self).selected < usize::MAX,
        ensures
            bar_after_next_match(*old(self), *final(self)),
    {
        if self.matches.len() == 0 {
            return;
        }
        self.selected = (self.selected + 1) % self.matches.len();
    }

    /// Selects the previous match, wrapping; nothing without matches.
    pub fn prev_match(&mut self)
        ensures
            bar_after_prev_match(*old(self), *final(self)),
    {
        if self.matches.len() == 0 {
            return;
        }
        self.selected = if self.selected >= 1 { self.selected - 1 } else { self.matches.len() - 1 };
    }

    /// The selected match, if any.
    pub fn current_match(&self) -> (r: Option<&Song>)
        ensures
            self.selected < self.matches@.len() ==> r == Some(&self.matches@[self.selected as int]),
            self.selected >= self.matches@.len() ==> r is None,
    {
        if self.selected < self.matches.len() {
            Some(&self.matches[self.selected])
        } else {
            None
        }
    }

    /// The completion shown after the input: the selected album as
    /// "artist: album", or the selected song's title.
    pub fn ghost_text(&self) -> (r: Option<String>)
        ensures
            self.selected >= self.matches@.len() ==> r is None,
            self.selected < self.matches@.len() ==> {
                let s = self.matches@[self.selected as int]@;
                match self.mode {
                    Some(CommandMode::Album) => r matches Some(t) && t@ == album_suggestion(s),
                    Some(CommandMode::Song) => r matches Some(t) && t@ == title_or_unknown(s),
                    None => r is None,
                }
            },
    {
        let song = match self.current_match() {
            Some(s) => s,
            None => return None,
        };
        match self.mode {
            Some(CommandMode::Album) => Some(format_album_suggestion(song)),
            Some(CommandMode::Song) => Some(owned(text_or_default(&song.title, "Unknown"))),
            None => None,
        }
    }

    /// The songs to queue for the selection: the whole album (every song of
    /// `all_songs` with the same artist and album), or the selected song.
    pub fn songs_to_add(&self, all_songs: &[Song]) -> (r: Vec<Song>)
        ensures
            self.selected >= self.matches@.len() || self.mode is None ==> r@.len() == 0,
            self.selected < self.matches@.len() ==> {
                let s = self.matches@[self.selected as int]@;
                match self.mode {
                    Some(CommandMode::Album) => song_views(r@) == song_views(all_songs@).filter(
                        same_album_filter(s),
                    ),
                    Some(CommandMode::Song) => song_views(r@) == seq![s],
                    None => true,
                }
            },
    {
        match self.mode {
            Some(CommandMode::Album) => {
                match self.current_match() {
                    Some(song) => collect_same_album(all_songs, song),
                    None => Vec::new(),
                }
            },
            Some(CommandMode::Song) => {
                match self.current_match() {
                    Some(song) => {
                        let mut v: Vec<Song> = Vec::new();
                        let d = song.duplicate();
                        v.push(d);
                        assert(song_views(v@) =~= seq![d@]);
                        v
                    },
                    None => Vec::new(),
                }
            },
            None => Vec::new(),
        }
    }
}

/// Tab then Shift-BackTab select the match that was selected, and the
/// matches stay as they were.
pub proof fn lemma_next_then_prev_match(b0: CommandBar, b1: CommandBar, b2: CommandBar)
    requires
        b0.selected < b0.matches@.len(),
        b0.selected < usize::MAX,
        bar_after_next_match(b0, b1),
        bar_after_prev_match(b1, b2),
    ensures
        b2.selected == b0.selected,
        b2.matches == b0.matches,
        b2.input == b0.input,
{
    crate::ui::autocomplete::lemma_wrap_next_then_prev(b0.selected, b0.matches@.len());
}

/// The history keeps at most ten commands, and a command recorded is the
/// newest entry (an empty input is not recorded).
pub proof fn lemma_history_keeps_ten(h: Seq<Seq<char>>, input: Seq<char>)
    requires
        h.len() <= 10,
    ensures
        history_after_commit(h, input).len() <= 10,
        input.len() > 0 ==> history_after_commit(h, input).last() == input,
        input.len() == 0 ==> history_after_commit(h, input) == h,
{
}

/// Each song of the result of `first_of_each_album` is a song of `s`.
proof fn lemma_first_of_each_from(s: Seq<SongView>)
    ensures
        forall|k: int|
            0 <= k < first_of_each_album(s).len() ==> exists|j: int|
                0 <= j < s.len() && s[j] == #[trigger] first_of_each_album(s)[k],
    decreases s.len(),
{
    if s.len() > 0 {
        let init = s.drop_last();
        lemma_first_of_each_from(init);
        let r = first_of_each_album(init);
        assert forall|k: int| 0 <= k < first_of_each_album(s).len() implies exists|j: int|
            0 <= j < s.len() && s[j] == #[trigger] first_of_each_album(s)[k] by {
            if k < r.len() {
                let j = choose|j: int| 0 <= j < init.len() && init[j] == r[k];
                assert(s[j] == init[j]);
                assert(first_of_each_album(s)[k] == r[k]);
            } else {
                assert(first_of_each_album(s)[k] == s.last());
                assert(s[s.len() - 1] == s.last());
            }
        }
    }
}

/// Two songs have the same artist (empty when missing) and the same album
/// (the album tag, "Unknown" when missing).
pub open spec fn same_artist_and_album(a: SongView, b: SongView) -> bool {
    text_or(a.artist, ""@) == text_or(b.artist, ""@) && tag_or(a, "Album"@, "Unknown"@) == tag_or(
        b,
        "Album"@,
        "Unknown"@,
    )
}

/// Every song of `s` has an album match with the same artist and the same
/// album.
pub proof fn lemma_every_album_has_a_match(s: Seq<SongView>)
    ensures
        forall|j: int|
            0 <= j < s.len() ==> exists|k: int|
                0 <= k < first_of_each_album(s).len() && same_artist_and_album(
                    #[trigger] first_of_each_album(s)[k],
                    #[trigger] s[j],
                ),
    decreases s.len(),
{
    if s.len() > 0 {
        let init = s.drop_last();
        lemma_every_album_has_a_match(init);
        let r = first_of_each_album(init);
        let f = first_of_each_album(s);
        assert forall|j: int| 0 <= j < s.len() implies exists|k: int|
            0 <= k < f.len() && same_artist_and_album(#[trigger] f[k], #[trigger] s[j]) by {
            if exists|j0: int| 0 <= j0 < s.len() - 1 && album_key(s[j0]) == album_key(s.last()) {
                assert(f == r);
                if j < s.len() - 1 {
                    assert(init[j] == s[j]);
                    let k = choose|k: int| 0 <= k < r.len() && same_artist_and_album(#[trigger] r[k], #[trigger] init[j]);
                    assert(same_artist_and_album(f[k], s[j]));
                } else {
                    let j0 = choose|j0: int| 0 <= j0 < s.len() - 1 && album_key(s[j0]) == album_key(s.last());
                    assert(init[j0] == s[j0]);
                    let k = choose|k: int| 0 <= k < r.len() && same_artist_and_album(#[trigger] r[k], #[trigger] init[j0]);
                    assert(same_artist_and_album(f[k], s[j]));
                }
            } else {
                assert(f == r.push(s.last()));
                if j < s.len() - 1 {
                    assert(init[j] == s[j]);
                    let k = choose|k: int| 0 <= k < r.len() && same_artist_and_album(#[trigger] r[k], #[trigger] init[j]);
                    assert(f[k] == r[k]);
                    assert(same_artist_and_album(f[k], s[j]));
                } else {
                    assert(f[r.len() as int] == s[j]);
                    assert(same_artist_and_album(f[r.len() as int], s[j]));
                }
            }
        }
    }
}

/// No two album matches have both the same artist and the same album.
pub proof fn lemma_album_matches_distinct(s: Seq<SongView>)
    ensures
        forall|k1: int, k2: int|
            0 <= k1 < k2 < first_of_each_album(s).len() ==> !same_artist_and_album(
                #[trigger] first_of_each_album(s)[k1],
                #[trigger] first_of_each_album(s)[k2],
            ),
    decreases s.len(),
{
    if s.len() > 0 {
        let init = s.drop_last();
        lemma_album_matches_distinct(init);
        lemma_first_of_each_from(init);
        let r = first_of_each_album(init);
        let f = first_of_each_album(s);
        if exists|j0: int| 0 <= j0 < s.len() - 1 && album_key(s[j0]) == album_key(s.last()) {
            assert(f == r);
        } else {
            assert(f == r.push(s.last()));
            assert forall|k1: int, k2: int| 0 <= k1 < k2 < f.len() implies !same_artist_and_album(
                #[trigger] f[k1],
                #[trigger] f[k2],
            ) by {
                assert(f[k1] == r[k1]);
                if k2 < r.len() {
                    assert(f[k2] == r[k2]);
                } else {
                    assert(f[k2] == s.last());
                    let j = choose|j: int| 0 <= j < init.len() && init[j] == r[k1];
                    assert(s[j] == init[j]);
                    if same_artist_and_album(f[k1], f[k2]) {
                        assert(album_key(s[j]) == album_key(s.last()));
                    }
                }
            }
        }
    }
}

/// After `a <query>`, the matches are one per (artist, album) pair: every
/// song whose album contains the lower-cased query has a match with its
/// artist and album, and no two matches share both.
pub proof fn lemma_album_command_matches(old: CommandBar, all: Seq<SongView>, new: CommandBar, query: Seq<char>)
    requires
        split_command(old.input@) == Some(("a"@, query)),
        bar_after_update(old, all, new),
    ensures
        forall|j: int|
            0 <= j < all.len() && seq_contains(
                lowercase_of(tag_or(#[trigger] all[j], "Album"@, "Unknown"@)),
                lowercase_of(query),
            ) ==> exists|k: int|
                0 <= k < new.matches@.len() && same_artist_and_album(#[trigger] new.matches@[k]@, all[j]),
        forall|k1: int, k2: int|
            0 <= k1 < k2 < new.matches@.len() ==> !same_artist_and_album(
                (#[trigger] new.matches@[k1])@,
                (#[trigger] new.matches@[k2])@,
            ),
{
    let fs = all.filter(album_filter(lowercase_of(query)));
    lemma_every_album_has_a_match(fs);
    lemma_album_matches_distinct(fs);
    all.filter_lemma(album_filter(lowercase_of(query)));
    let m = first_of_each_album(fs);
    assert(song_views(new.matches@) == m);
    assert forall|j: int|
        0 <= j < all.len() && seq_contains(
            lowercase_of(tag_or(#[trigger] all[j], "Album"@, "Unknown"@)),
            lowercase_of(query),
        ) implies exists|k: int|
        0 <= k < new.matches@.len() && same_artist_and_album(#[trigger] new.matches@[k]@, all[j]) by {
        assert(album_filter(lowercase_of(query))(all[j]));
        assert(fs.contains(all[j]));
        let j2 = choose|j2: int| 0 <= j2 < fs.len() && fs[j2] == all[j];
        let k = choose|k: int| 0 <= k < m.len() && same_artist_and_album(#[trigger] m[k], #[trigger] fs[j2]);
        assert(song_views(new.matches@)[k] == new.matches@[k]@);
    }
    assert forall|k1: int, k2: int| 0 <= k1 < k2 < new.matches@.len() implies !same_artist_and_album(
        (#[trigger] new.matches@[k1])@,
        (#[trigger] new.matches@[k2])@,
    ) by {
        assert(song_views(new.matches@)[k1] == new.matches@[k1]@);
        assert(song_views(new.matches@)[k2] == new.matches@[k2]@);
    }
}

/// The first Up recalls the newest history entry.
pub proof fn lemma_history_up_recalls_newest(b0: CommandBar, b1: CommandBar)
    requires
        0 < b0.history@.len() <= usize::MAX,
        b0.history_idx is None,
        bar_after_history_prev(b0, b1),
    ensures
        b1.history_idx == Some((b0.history@.len() - 1) as usize),
        b1.input@ == b0.history@.last()@,
{
}

/// While browsing the history at entry `i` (not the oldest), Up recalls
/// entry `i - 1`, and Down then comes back to entry `i`.
pub proof fn lemma_history_up_then_down(b0: CommandBar, b1: CommandBar, b2: CommandBar, i: usize)
    requires
        b0.history_idx == Some(i),
        1 <= i < b0.history@.len(),
        bar_after_history_prev(b0, b1),
        bar_after_history_next(b1, b2),
    ensures
        b1.history_idx == Some((i - 1) as usize),
        b1.input@ == b0.history@[i - 1]@,
        b2.history_idx == Some(i),
        b2.input@ == b0.history@[i as int]@,
{
}

/// `new` is the bar after typing `c`.
pub open spec fn bar_after_push(old: CommandBar, c: char, new: CommandBar) -> bool {
    &&& new.input@ == old.input@.push(c)
    &&& new.history_idx is None
    &&& new.active == old.active
    &&& new.mode == old.mode
    &&& new.matches == old.matches
    &&& new.selected == old.selected
    &&& new.history == old.history
}

/// `new` is the bar after Backspace.
pub open spec fn bar_after_pop(old: CommandBar, new: CommandBar) -> bool {
    &&& new.input@ == (if old.input@.len() == 0 {
        old.input@
    } else {
        old.input@.drop_last()
    })
    &&& new.history_idx is None
    &&& new.active == old.active
    &&& new.mode == old.mode
    &&& new.matches == old.matches
    &&& new.selected == old.selected
    &&& new.history == old.history
}

/// `new` is the bar after recording its input.
pub open spec fn bar_after_commit(old: CommandBar, new: CommandBar) -> bool {
    &&& texts(new.history@) == history_after_commit(texts(old.history@), old.input@)
    &&& new.input@ == old.input@
    &&& new.active == old.active
    &&& new.mode == old.mode
    &&& new.matches == old.matches
    &&& new.selected == old.selected
    &&& new.history_idx == old.history_idx
}

/// `new` is the bar after recalling the previous entry.
pub open spec fn bar_after_history_prev(old: CommandBar, new: CommandBar) -> bool {
    &&& old.history@.len() == 0 ==> new == old
    &&& old.history@.len() > 0 ==> {
        let idx: usize = match old.history_idx {
            None => (old.history@.len() - 1) as usize,
            Some(i) => if i >= 1 { (i - 1) as usize } else { 0 },
        };
        &&& new.history_idx == Some(idx)
        &&& new.input@ == old.history@[idx as int]@
    }
    &&& new.history == old.history
    &&& new.active == old.active
    &&& new.mode == old.mode
    &&& new.matches == old.matches
    &&& new.selected == old.selected
}

/// `new` is the bar after recalling the next entry.
pub open spec fn bar_after_history_next(old: CommandBar, new: CommandBar) -> bool {
    &&& old.history_idx is None ==> new == old
    &&& old.history_idx matches Some(i) ==> {
        if i + 1 < old.history@.len() {
            &&& new.history_idx == Some((i + 1) as usize)
            &&& new.input@ == old.history@[i + 1]@
        } else {
            &&& new.history_idx is None
            &&& new.input@ == Seq::<char>::empty()
        }
    }
    &&& new.history == old.history
    &&& new.active == old.active
    &&& new.mode == old.mode
    &&& new.matches == old.matches
    &&& new.selected == old.selected
}

/// `new` is the bar with its matches recomputed from the songs `all`.
pub open spec fn bar_after_update(old: CommandBar, all: Seq<SongView>, new: CommandBar) -> bool {
    &&& new.active == old.active
    &&& new.input == old.input
    &&& new.history == old.history
    &&& new.history_idx == old.history_idx
    &&& match split_command(old.input@) {
        None => {
            &&& new.matches@.len() == 0
            &&& new.mode is None
            &&& new.selected == old.selected
        },
        Some((cmd, query)) => {
            &&& new.selected == 0
            &&& if cmd == "a"@ {
                &&& new.mode == Some(CommandMode::Album)
                &&& song_views(new.matches@) == album_matches(
                    all,
                    lowercase_of(query),
                )
            } else if cmd == "s"@ {
                &&& new.mode == Some(CommandMode::Song)
                &&& song_views(new.matches@) == all.filter(
                    title_filter(lowercase_of(query)),
                )
            } else {
                &&& new.matches@.len() == 0
                &&& new.mode is None
            }
        }
    }
}

/// `new` is the bar with the next match selected.
pub open spec fn bar_after_next_match(old: CommandBar, new: CommandBar) -> bool {
    &&& old.matches@.len() == 0 ==> new.selected == old.selected
    &&& old.matches@.len() > 0 ==> new.selected == crate::ui::autocomplete::wrap_next(
        old.selected,
        old.matches@.len()
    )
    &&& new.matches == old.matches
    &&& new.mode == old.mode
    &&& new.input == old.input
    &&& new.active == old.active
    &&& new.history == old.history
    &&& new.history_idx == old.history_idx
}

/// `new` is the bar with the previous match selected.
pub open spec fn bar_after_prev_match(old: CommandBar, new: CommandBar) -> bool {
    &&& old.matches@.len() == 0 ==> new.selected == old.selected
    &&& old.matches@.len() > 0 ==> new.selected == crate::ui::autocomplete::wrap_prev(
        old.selected,
        old.matches@.len()
    )
    &&& new.matches == old.matches
    &&& new.mode == old.mode
    &&& new.input == old.input
    &&& new.active == old.active
    &&& new.history == old.history
    &&& new.history_idx == old.history_idx
}

} // verus!
