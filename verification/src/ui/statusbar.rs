//! The status bar: what is playing, the search bar and the command bar.
use vstd::prelude::*;

use crate::song::{song_tag, tag_or, text_or, text_or_default, Song, SongView};
use crate::text::{
    chars_of, decimal, decimal2, decimal2_string, decimal_string, empty_string, find_char,
    first_at, lowercase_of, owned, push_str, string_from_chars, to_lowercase,
};
use crate::ui::command::CommandBar;
use crate::vim::search::SearchState;

verus! {

/// The song playing, how far it got and how long it is (in milliseconds),
/// and the last message.
pub struct StatusBar {
    pub now_playing: Option<Song>,
    pub elapsed: Option<u64>,
    pub total: Option<u64>,
    pub message: Result<String, String>,
}

/// What the status line shows.
pub enum StatusLine {
    /// The command bar: ":" and the input, then the part of the completion
    /// not typed yet, dimmed.
    Command { input: String, completion: Option<String> },
    /// The search bar and its number of matches.
    Search { text: String },
    /// The song playing.
    Playing { text: String },
    /// Nothing playing: "No track playing.".
    Idle,
}

/// "Playing: artist | album year | title", each "Unknown" when missing.
pub open spec fn now_playing_text(s: SongView) -> Seq<char> {
    "Playing: "@ + text_or(s.artist, "Unknown"@) + " | "@ + tag_or(s, "Album"@, "Unknown"@) + " "@ + tag_or(
        s,
        "Date"@,
        "Unknown"@,
    ) + " | "@ + text_or(s.title, "Unknown"@)
}

/// Formats the song playing.
pub fn format_now_playing(song: &Song) -> (r: String)
    ensures
        r@ == now_playing_text(song@),
{
    let artist = text_or_default(&song.artist, "Unknown");
    let title = text_or_default(&song.title, "Unknown");
    let album = song_tag(song, "Album");
    let year = song_tag(song, "Date");
    let mut r = owned("Playing: ");
    push_str(&mut r, artist);
    push_str(&mut r, " | ");
    push_str(&mut r, album);
    push_str(&mut r, " ");
    push_str(&mut r, year);
    push_str(&mut r, " | ");
    push_str(&mut r, title);
    r
}

/// "minutes:seconds" of whole seconds, seconds on two digits.
pub open spec fn duration_text(millis: u64) -> Seq<char> {
    let secs = millis / 1000;
    decimal(secs / 60) + ":"@ + decimal2(secs % 60)
}

/// Formats a duration given in milliseconds as "m:ss".
pub fn format_duration(millis: u64) -> (r: String)
    ensures
        r@ == duration_text(millis),
{
    let secs = millis / 1000;
    let mut r = decimal_string(secs / 60);
    push_str(&mut r, ":");
    let s = decimal2_string(secs % 60);
    push_str(&mut r, s.as_str());
    r
}

/// "[elapsed/total]" as the progress line ends (elapsed 0:00 and total
/// 0:01 when unknown).
pub open spec fn progress_label_text(elapsed: Option<u64>, total: Option<u64>) -> Seq<char> {
    let e = match elapsed {
        Some(x) => x,
        None => 0,
    };
    let t = match total {
        Some(x) => x,
        None => 1000,
    };
    "["@ + duration_text(e) + "/"@ + duration_text(t) + "]"@
}

/// "/query_ (n match)" or "(n matches)".
pub open spec fn search_text(query: Seq<char>, count: usize) -> Seq<char> {
    "/"@ + query + "_ ("@ + decimal(count as u64) + " match"@ + (if count == 1 {
        ""@
    } else {
        "es"@
    }) + ")"@
}

/// The query typed after the command, empty when there is none.
pub open spec fn typed_query(input: Seq<char>) -> Seq<char> {
    if exists|k: int| first_at(input, ' ', k) {
        let k = choose|k: int| first_at(input, ' ', k);
        input.skip(k + 1)
    } else {
        Seq::empty()
    }
}

/// The lower-cased completion starts with the lower-cased typed query.
pub open spec fn ghost_starts_with_typed(ghost: Seq<char>, typed: Seq<char>) -> bool {
    lowercase_of(typed).len() <= lowercase_of(ghost).len() && lowercase_of(ghost).take(
        lowercase_of(typed).len() as int,
    ) == lowercase_of(typed)
}

/// Cutting the completion at the typed query's byte length would fall
/// inside a character, where a text cannot be cut.
pub open spec fn ghost_cut_invalid(ghost: Seq<char>, typed: Seq<char>) -> bool {
    ghost_starts_with_typed(ghost, typed) && !vstd::utf8::is_char_boundary(
        vstd::utf8::encode_utf8(ghost),
        vstd::utf8::encode_utf8(typed).len() as int,
    )
}

/// `r` is what remains of completion `ghost` after the typed query: when
/// the completion starts with the query (case ignored), the completion
/// without its first bytes, as many as the query has; otherwise the whole
/// completion.
pub open spec fn ghost_remainder_of(ghost: Seq<char>, typed: Seq<char>, r: Seq<char>) -> bool {
    if ghost_starts_with_typed(ghost, typed) {
        vstd::utf8::encode_utf8(r) == vstd::utf8::encode_utf8(ghost).skip(
            vstd::utf8::encode_utf8(typed).len() as int,
        )
    } else {
        r == ghost
    }
}

fn starts_with_chars(a: &Vec<char>, b: &Vec<char>) -> (r: bool)
    ensures
        r == (b@.len() <= a@.len() && a@.take(b@.len() as int) == b@),
{
    if b.len() > a.len() {
        return false;
    }
    let mut i: usize = 0;
    while i < b.len()
        invariant
            b@.len() <= a@.len(),
            i <= b@.len(),
            forall|j: int| 0 <= j < i ==> a@[j] == b@[j],
        decreases b@.len() - i,
    {
        if a[i] != b[i] {
            assert(a@.take(b@.len() as int)[i as int] != b@[i as int]);
            return false;
        }
        i = i + 1;
    }
    assert(a@.take(b@.len() as int) =~= b@);
    true
}

/// The part of the completion not typed yet, or `None` when the cut would
/// fall inside a character.
fn ghost_remainder(ghost: &str, typed: &str) -> (r: Option<String>)
    ensures
        r is None <==> ghost_cut_invalid(ghost@, typed@),
        r matches Some(x) ==> ghost_remainder_of(ghost@, typed@, x@),
{
    let lg = chars_of(to_lowercase(ghost).as_str());
    let lt = chars_of(to_lowercase(typed).as_str());
    if starts_with_chars(&lg, &lt) {
        assert(ghost_starts_with_typed(ghost@, typed@));
        let n = typed.as_bytes().len();
        assert(n as int == vstd::utf8::encode_utf8(typed@).len());
        if !ghost.is_char_boundary(n) {
            assert(!vstd::utf8::is_char_boundary(vstd::utf8::encode_utf8(ghost@), n as int));
            return None;
        }
        let (_, rest) = ghost.split_at(n);
        let r = owned(rest);
        assert(vstd::utf8::encode_utf8(r@) =~= vstd::utf8::encode_utf8(ghost@).skip(n as int));
        Some(r)
    } else {
        assert(!ghost_starts_with_typed(ghost@, typed@));
        Some(owned(ghost))
    }
}

/// The completion the command bar shows, if any.
pub open spec fn command_ghost(cmd: &CommandBar) -> Option<Seq<char>> {
    if cmd.selected < cmd.matches@.len() {
        match cmd.mode {
            Some(crate::ui::command::CommandMode::Album) => Some(
                crate::ui::command::album_suggestion(cmd.matches@[cmd.selected as int]@),
            ),
            Some(crate::ui::command::CommandMode::Song) => Some(
                crate::song::title_or_unknown(cmd.matches@[cmd.selected as int]@),
            ),
            None => None,
        }
    } else {
        None
    }
}

/// Showing the command bar would cut its completion inside a character.
pub open spec fn command_line_invalid(cmd: &CommandBar) -> bool {
    command_ghost(cmd) matches Some(g) && ghost_cut_invalid(g, typed_query(cmd.input@))
}

/// The command bar's line: its input and the rest of its completion.
pub open spec fn command_line_of(cmd: &CommandBar, r: StatusLine) -> bool {
    r matches StatusLine::Command { input, completion } && input@ == cmd.input@ && match command_ghost(cmd) {
        None => completion is None,
        Some(g) => completion matches Some(x) && ghost_remainder_of(g, typed_query(cmd.input@), x@),
    }
}

fn command_line(cmd: &CommandBar) -> (r: Option<StatusLine>)
    ensures
        r is None <==> command_line_invalid(cmd),
        r matches Some(l) ==> command_line_of(cmd, l),
{
    let input = cmd.input.clone();
    match cmd.ghost_text() {
        Some(g) => {
            let typed = typed_query_of(cmd.input.as_str());
            match ghost_remainder(g.as_str(), typed.as_str()) {
                Some(x) => Some(StatusLine::Command { input, completion: Some(x) }),
                None => None,
            }
        },
        None => Some(StatusLine::Command { input, completion: None }),
    }
}

impl StatusBar {
    /// Nothing playing, no times, an empty message.
    pub fn new() -> (s: Self)
        ensures
            s.now_playing is None,
            s.elapsed is None,
            s.total is None,
            s.message matches Ok(m) && m@ == Seq::<char>::empty(),
    {
        StatusBar { now_playing: None, elapsed: None, total: None, message: Ok(empty_string()) }
    }

    /// Sets the song playing and how far it got.
    pub fn set_now_playing(&mut self, song: Option<Song>, elapsed: Option<u64>)
        ensures
            final(self).now_playing == song,
            final(self).elapsed == elapsed,
            final(self).total == old(self).total,
            final(self).message == old(self).message,
    {
        self.now_playing = song;
        self.elapsed = elapsed;
    }

    /// Sets the message: `Ok` for information, `Err` for an error.
    pub fn set_message(&mut self, msg: Result<String, String>)
        ensures
            final(self).message == msg,
            final(self).now_playing == old(self).now_playing,
            final(self).elapsed == old(self).elapsed,
            final(self).total == old(self).total,
    {
        self.message = msg;
    }

    /// The "[elapsed/total]" label of the progress line.
    pub fn progress_label(&self) -> (r: String)
        ensures
            r@ == progress_label_text(self.elapsed, self.total),
    {
        let e = match self.elapsed {
            Some(x) => x,
            None => 0,
        };
        let t = match self.total {
            Some(x) => x,
            None => 1000,
        };
        let mut r = owned("[");
        let a = format_duration(e);
        push_str(&mut r, a.as_str());
        push_str(&mut r, "/");
        let b = format_duration(t);
        push_str(&mut r, b.as_str());
        push_str(&mut r, "]");
        r
    }

    /// The line shown when neither bar is open: the song playing, or idle.
    /// (The message is not shown.)
    pub fn normal_content(&self) -> (r: StatusLine)
        ensures
            match self.now_playing {
                Some(s) => r matches StatusLine::Playing { text } && text@ == now_playing_text(s@),
                None => r is Idle,
            },
    {
        match &self.now_playing {
            Some(song) => StatusLine::Playing { text: format_now_playing(song) },
            None => StatusLine::Idle,
        }
    }

    /// What the status line shows, given the view's search bar and match
    /// count, and the command bar when it is open.
    pub fn status_line(&self, search_state: Option<(&SearchState, usize)>, command_bar: Option<&CommandBar>) -> (r:
        StatusLine)
        requires
            command_bar matches Some(cmd) ==> !command_line_invalid(cmd),
        ensures
            self.status_line_of(search_state, command_bar, r),
    {
        match self.try_status_line(search_state, command_bar) {
            Some(l) => l,
            None => StatusLine::Idle,
        }
    }

    /// `r` is what the status line shows.
    pub open spec fn status_line_of(
        &self,
        search_state: Option<(&SearchState, usize)>,
        command_bar: Option<&CommandBar>,
        r: StatusLine,
    ) -> bool {
        match command_bar {
            Some(cmd) => command_line_of(cmd, r),
            None => match search_state {
                Some((s, n)) => if s.active {
                    r matches StatusLine::Search { text } && text@ == search_text(s.query@, n)
                } else {
                    self.normal_line_of(r)
                },
                None => self.normal_line_of(r),
            },
        }
    }

    /// `r` shows the song playing, or idle.
    pub open spec fn normal_line_of(&self, r: StatusLine) -> bool {
        match self.now_playing {
            Some(song) => r matches StatusLine::Playing { text } && text@ == now_playing_text(song@),
            None => r is Idle,
        }
    }

    /// What the status line shows, or `None` when the command bar's
    /// completion would be cut inside a character.
    pub fn try_status_line(
        &self,
        search_state: Option<(&SearchState, usize)>,
        command_bar: Option<&CommandBar>,
    ) -> (r: Option<StatusLine>)
        ensures
            r is None <==> (command_bar matches Some(cmd) && command_line_invalid(cmd)),
            r matches Some(l) ==> self.status_line_of(search_state, command_bar, l),
    {
        match command_bar {
            Some(cmd) => command_line(cmd),
            None => match search_state {
                Some((s, n)) => {
                    if s.active {
                        Some(StatusLine::Search { text: format_search_text(s.query.as_str(), n) })
                    } else {
                        Some(self.normal_content())
                    }
                },
                None => Some(self.normal_content()),
            },
        }
    }
}

/// The query typed after the command.
pub fn typed_query_of(input: &str) -> (r: String)
    ensures
        r@ == typed_query(input@),
{
    let chars = chars_of(input);
    let n = chars.len();
    match find_char(&chars, ' ') {
        Some(k) => {
            proof {
                let k2 = choose|k2: int| first_at(input@, ' ', k2);
                assert(k2 == k) by {
                    if k2 < k {
                        assert(chars@[k2] != ' ');
                    } else if k2 > k {
                        assert(chars@[k as int] != ' ');
                    }
                }
            }
            let r = string_from_chars(&chars, k + 1, n);
            assert(r@ =~= input@.skip(k + 1));
            r
        },
        None => {
            proof {
                assert(!exists|k: int| first_at(input@, ' ', k));
            }
            empty_string()
        },
    }
}

/// Formats the search bar's line.
pub fn format_search_text(query: &str, count: usize) -> (r: String)
    ensures
        r@ == search_text(query@, count),
{
    let mut r = owned("/");
    push_str(&mut r, query);
    push_str(&mut r, "_ (");
    let d = decimal_string(count as u64);
    push_str(&mut r, d.as_str());
    push_str(&mut r, " match");
    if count == 1 {
        push_str(&mut r, "");
    } else {
        push_str(&mut r, "es");
    }
    push_str(&mut r, ")");
    r
}

} // verus!
