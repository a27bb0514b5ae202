//! The application state: the views, the bars and the rules by which the
//! player's replies and the user's keys change them. The player itself is
//! reached by the caller, which hands each reply back here.
use vstd::prelude::*;

use crate::config::Config;
use crate::keys::{Key, KeyCode, Modifiers};
use crate::song::{song_views, Song, SongView};
use crate::text::{concat2, owned};
use crate::ui::browse::{BrowseEditMode, BrowseView};
use crate::ui::browse::BrowseResult;
use crate::ui::command::{
    bar_after_history_next, bar_after_history_prev, bar_after_next_match, bar_after_pop,
    bar_after_prev_match, bar_after_push, bar_after_update, bar_cleared, history_after_commit,
    same_album_filter, CommandBar, CommandMode,
};
use crate::text::texts;
use crate::ui::browse::browse_step;
use crate::ui::library::{library_key_step, library_loaded, LibraryView, Selection};
use crate::ui::playlist::{playlist_step, PlaylistKeyResult, PlaylistView, QueueCommand};
use crate::ui::statusbar::{command_line_invalid, StatusBar, StatusLine};

verus! {

/// The view on screen.
#[derive(Debug, Clone, Copy, PartialEq, Eq, Structural)]
pub enum ActiveView {
    Playlist,
    Library,
    Browse,
}

/// Whether keys go to a bar or field being typed in (`Input`) or may be
/// global commands (`Normal`).
#[derive(Debug, Clone, Copy, PartialEq, Eq, Structural)]
pub enum Mode {
    Normal,
    Input,
}

/// A link to the music daemon that the application holds.
pub trait Connection {}

/// No link yet.
pub struct NoConnection;

impl Connection for NoConnection {}

/// What the daemon reported of its state: how far the song got and how
/// long it is (milliseconds), whether the database is being updated, and
/// the queue id of the song playing.
#[derive(Debug, Clone, Copy, PartialEq, Eq, Structural)]
pub struct PlayerStatus {
    pub elapsed: Option<u64>,
    pub duration: Option<u64>,
    pub updating_db: bool,
    pub song_id: Option<u32>,
}

/// What a tick asks of the daemon next: the whole song list (the database
/// update finished) and the song playing (it changed).
#[derive(Debug, Clone, Copy, PartialEq, Eq, Structural)]
pub struct TickRequests {
    pub reload_library: bool,
    pub fetch_current_song: bool,
}

/// The application: settings, the daemon link, the views and the bars.
pub struct App<Mpd: Connection> {
    pub config: Config,
    pub mpd: Mpd,
    pub active_view: ActiveView,
    pub playlist: PlaylistView,
    pub library: LibraryView,
    pub browse: BrowseView,
    pub status_bar: StatusBar,
    pub command_bar: CommandBar,
    pub db_updating: bool,
    pub current_song_id: Option<u32>,
    pub mode: Mode,
}

/// The text of a message, `Ok` for information and `Err` for an error.
pub open spec fn message_text(m: Result<String, String>) -> Result<Seq<char>, Seq<char>> {
    match m {
        Ok(s) => Ok(s@),
        Err(s) => Err(s@),
    }
}

/// `new` is `old` showing the message `m`.
pub open spec fn shows_message(old: StatusBar, new: StatusBar, m: Result<Seq<char>, Seq<char>>) -> bool {
    &&& message_text(new.message) == m
    &&& new.now_playing == old.now_playing
    &&& new.elapsed == old.elapsed
    &&& new.total == old.total
}

/// What a key asks of the daemon: append songs (then refresh the
/// playlist), append songs and play the first of them, or change the queue.
pub enum AppCommand {
    Nothing,
    Append(Vec<Song>),
    AppendAndPlay(Vec<Song>),
    Queue(QueueCommand),
}

/// What a key does before the views see it: in normal mode some keys are
/// global commands; every other key, and every key while typing, goes to
/// the application's `handle_key`.
#[derive(Debug, Clone, Copy, PartialEq, Eq, Structural)]
pub enum GlobalAction {
    Quit,
    UpdateDatabase,
    TogglePause,
    Next,
    Prev,
    ShowView(ActiveView),
    SeekForward,
    SeekBackward,
    PassToView,
}

/// The global command of a key in mode `mode`.
pub open spec fn global_action_of(mode: Mode, key: Key) -> GlobalAction {
    if mode == Mode::Input {
        GlobalAction::PassToView
    } else if key.is_plain(KeyCode::Char('q')) {
        GlobalAction::Quit
    } else if key.is_control(KeyCode::Enter) {
        GlobalAction::UpdateDatabase
    } else if key.is_plain(KeyCode::Char('p')) {
        GlobalAction::TogglePause
    } else if key.is_plain(KeyCode::Char('>')) {
        GlobalAction::Next
    } else if key.is_plain(KeyCode::Char('<')) {
        GlobalAction::Prev
    } else if key.is_plain(KeyCode::Char('1')) {
        GlobalAction::ShowView(ActiveView::Playlist)
    } else if key.is_plain(KeyCode::Char('3')) {
        GlobalAction::ShowView(ActiveView::Browse)
    } else if key.is_plain(KeyCode::Char('4')) {
        GlobalAction::ShowView(ActiveView::Library)
    } else if key.is_plain(KeyCode::Right) {
        GlobalAction::SeekForward
    } else if key.is_plain(KeyCode::Left) {
        GlobalAction::SeekBackward
    } else {
        GlobalAction::PassToView
    }
}

/// The global command of a key: in normal mode `q` quits, Ctrl-Enter
/// updates the database, `p` pauses, `>`/`<` skip, `1`, `3` and `4` show
/// the playlist, browse and library views, Right/Left seek; anything else
/// goes to the views.
pub fn global_key_action(mode: Mode, key: Key) -> (a: GlobalAction)
    ensures
        a == global_action_of(mode, key),
{
    if mode == Mode::Input {
        return GlobalAction::PassToView;
    }
    match (key.modifiers, key.code) {
        (Modifiers::NoModifier, KeyCode::Char('q')) => GlobalAction::Quit,
        (Modifiers::Control, KeyCode::Enter) => GlobalAction::UpdateDatabase,
        (Modifiers::NoModifier, KeyCode::Char('p')) => GlobalAction::TogglePause,
        (Modifiers::NoModifier, KeyCode::Char('>')) => GlobalAction::Next,
        (Modifiers::NoModifier, KeyCode::Char('<')) => GlobalAction::Prev,
        (Modifiers::NoModifier, KeyCode::Char('1')) => GlobalAction::ShowView(ActiveView::Playlist),
        (Modifiers::NoModifier, KeyCode::Char('3')) => GlobalAction::ShowView(ActiveView::Browse),
        (Modifiers::NoModifier, KeyCode::Char('4')) => GlobalAction::ShowView(ActiveView::Library),
        (Modifiers::NoModifier, KeyCode::Right) => GlobalAction::SeekForward,
        (Modifiers::NoModifier, KeyCode::Left) => GlobalAction::SeekBackward,
        _ => GlobalAction::PassToView,
    }
}

/// The songs that Enter in the command bar queues: the selected match's
/// whole album (same artist and album among `all`), or the selected song.
pub open spec fn bar_songs(b: CommandBar, all: Seq<SongView>) -> Seq<SongView> {
    if b.selected < b.matches@.len() {
        let s = b.matches@[b.selected as int]@;
        match b.mode {
            Some(CommandMode::Album) => all.filter(same_album_filter(s)),
            Some(CommandMode::Song) => seq![s],
            None => Seq::empty(),
        }
    } else {
        Seq::empty()
    }
}

/// The key would overflow or index past the history or the matches in the
/// command bar: a key the bar cannot take.
pub open spec fn command_key_panics(b: CommandBar, key: Key) -> bool {
    ||| key.is_plain(KeyCode::Up) && b.history@.len() > 0 && (b.history_idx matches Some(i) && (if i >= 1 {
        i - 1
    } else {
        0
    }) >= b.history@.len())
    ||| key.is_plain(KeyCode::Down) && b.history_idx == Some(usize::MAX)
    ||| key.is_plain(KeyCode::Tab) && b.matches@.len() > 0 && b.selected == usize::MAX
}

/// The bar and the status bar after key `key` in the open command bar, with
/// the songs `all` to search, and what the key asks of the daemon.
pub open spec fn command_key_step(
    old: CommandBar,
    key: Key,
    all: Seq<SongView>,
    old_sb: StatusBar,
    new: CommandBar,
    new_sb: StatusBar,
    r: AppCommand,
) -> bool {
    if key.is_plain(KeyCode::Esc) {
        bar_cleared(new, false, old) && new_sb == old_sb && r is Nothing
    } else if key.is_plain(KeyCode::Enter) {
        if bar_songs(old, all).len() == 0 {
            &&& new == old
            &&& shows_message(old_sb, new_sb, Ok("Invalid song."@))
            &&& r is Nothing
        } else {
            &&& !new.active
            &&& new.input@ == Seq::<char>::empty()
            &&& new.mode is None
            &&& new.matches@.len() == 0
            &&& new.selected == 0
            &&& new.history_idx is None
            &&& texts(new.history@) == history_after_commit(texts(old.history@), old.input@)
            &&& new_sb == old_sb
            &&& r matches AppCommand::AppendAndPlay(v) && song_views(v@) == bar_songs(old, all)
        }
    } else if key.is_plain(KeyCode::Tab) {
        bar_after_next_match(old, new) && new_sb == old_sb && r is Nothing
    } else if key.is_shifted(KeyCode::BackTab) {
        bar_after_prev_match(old, new) && new_sb == old_sb && r is Nothing
    } else if key.is_plain(KeyCode::Up) {
        &&& exists|mid: CommandBar| #[trigger] bar_after_history_prev(old, mid) && bar_after_update(mid, all, new)
        &&& new_sb == old_sb && r is Nothing
    } else if key.is_plain(KeyCode::Down) {
        &&& exists|mid: CommandBar| #[trigger] bar_after_history_next(old, mid) && bar_after_update(mid, all, new)
        &&& new_sb == old_sb && r is Nothing
    } else if key.is_plain(KeyCode::Backspace) {
        &&& exists|mid: CommandBar| #[trigger] bar_after_pop(old, mid) && bar_after_update(mid, all, new)
        &&& new_sb == old_sb && r is Nothing
    } else if key.modifiers == Modifiers::NoModifier && key.code is Char {
        &&& exists|mid: CommandBar| #[trigger] bar_after_push(old, key.code->0, mid) && bar_after_update(mid, all, new)
        &&& new_sb == old_sb && r is Nothing
    } else {
        new == old && new_sb == old_sb && r is Nothing
    }
}

/// The status bar and the command after the playlist answered `pr`: a
/// message is shown as information; songs to play are dropped when there
/// are none.
pub open spec fn playlist_outcome(pr: PlaylistKeyResult, old_sb: StatusBar, new_sb: StatusBar, r: AppCommand) -> bool {
    match pr {
        PlaylistKeyResult::Nothing => new_sb == old_sb && r is Nothing,
        PlaylistKeyResult::Status(m) => shows_message(old_sb, new_sb, Ok(m@)) && r is Nothing,
        PlaylistKeyResult::Append(v) => new_sb == old_sb && r == AppCommand::Append(v),
        PlaylistKeyResult::AppendAndPlay(v) => new_sb == old_sb && if v@.len() == 0 {
            r is Nothing
        } else {
            r == AppCommand::AppendAndPlay(v)
        },
        PlaylistKeyResult::Queue(c) => new_sb == old_sb && r == AppCommand::Queue(c),
    }
}

/// The status bar and the command after the library chose `s`: its
/// message is shown as information, its songs (if any) appended and
/// played.
pub open spec fn selection_outcome(s: Selection, old_sb: StatusBar, new_sb: StatusBar, r: AppCommand) -> bool {
    &&& match s.status {
        Some(m) => shows_message(old_sb, new_sb, Ok(m@)),
        None => new_sb == old_sb,
    }
    &&& if s.songs_to_add@.len() == 0 {
        r is Nothing
    } else {
        r == AppCommand::AppendAndPlay(s.songs_to_add)
    }
}

/// The command after the browse view answered `br`.
pub open spec fn browse_outcome(br: BrowseResult, r: AppCommand) -> bool {
    match br {
        BrowseResult::Nothing => r is Nothing,
        BrowseResult::Append(v) => r == AppCommand::Append(v),
        BrowseResult::AppendAndPlay(v) => if v@.len() == 0 {
            r is Nothing
        } else {
            r == AppCommand::AppendAndPlay(v)
        },
    }
}

/// A time, zero when missing.
pub open spec fn time_or_zero(t: Option<u64>) -> int {
    match t {
        Some(x) => x as int,
        None => 0,
    }
}

/// The smaller of two integers.
pub open spec fn min_int(a: int, b: int) -> int {
    if a < b {
        a
    } else {
        b
    }
}

/// The larger of two integers.
pub open spec fn max_int(a: int, b: int) -> int {
    if a < b {
        b
    } else {
        a
    }
}

impl<C: Connection> App<C> {
    /// A bar or a field is being typed in.
    pub open spec fn typing(self) -> bool {
        ||| self.command_bar.active
        ||| self.playlist.insert_state is Some
        ||| self.library.search.active
        ||| self.playlist.search.active
        ||| self.browse.edit_mode == BrowseEditMode::Editing
        ||| self.browse.search.active
    }

    /// The mode that the state calls for.
    pub open spec fn mode_for(self) -> Mode {
        if self.typing() {
            Mode::Input
        } else {
            Mode::Normal
        }
    }

    /// `new` differs from `old` at most in the status bar, the database
    /// flag and the song id.
    pub open spec fn same_views(self, new: Self) -> bool {
        &&& new.config == self.config
        &&& new.mpd == self.mpd
        &&& new.active_view == self.active_view
        &&& new.playlist == self.playlist
        &&& new.library == self.library
        &&& new.browse == self.browse
        &&& new.command_bar == self.command_bar
        &&& new.mode == self.mode
    }

    /// `new` is `self` showing the message `m`, nothing else changed.
    pub open spec fn with_message(self, new: Self, m: Result<Seq<char>, Seq<char>>) -> bool {
        &&& self.same_views(new)
        &&& shows_message(self.status_bar, new.status_bar, m)
        &&& new.db_updating == self.db_updating
        &&& new.current_song_id == self.current_song_id
    }

    /// `new` is `self` with only the library changed.
    pub open spec fn with_library(self, new: Self) -> bool {
        &&& new.config == self.config
        &&& new.mpd == self.mpd
        &&& new.active_view == self.active_view
        &&& new.playlist == self.playlist
        &&& new.browse == self.browse
        &&& new.command_bar == self.command_bar
        &&& new.mode == self.mode
        &&& new.db_updating == self.db_updating
        &&& new.current_song_id == self.current_song_id
    }

    /// `new` is `self` once the daemon answered a database update request
    /// with `outcome`.
    pub open spec fn database_update_step(self, outcome: Result<(), String>, new: Self) -> bool {
        match outcome {
            Ok(_) => {
                &&& self.same_views(new)
                &&& new.db_updating
                &&& new.current_song_id == self.current_song_id
                &&& shows_message(self.status_bar, new.status_bar, Ok("Updating database..."@))
            },
            Err(e) => self.with_message(new, Err("Update error: "@ + e@)),
        }
    }

    /// `new` and `t` are `self` and the requests after the status report
    /// `status`.
    pub open spec fn tick_step(self, status: Result<PlayerStatus, String>, new: Self, t: TickRequests) -> bool {
        match status {
            Ok(st) => {
                &&& self.same_views(new)
                &&& t.reload_library == (self.db_updating && !st.updating_db)
                &&& new.db_updating == (self.db_updating && st.updating_db)
                &&& new.status_bar.elapsed == st.elapsed
                &&& new.status_bar.total == st.duration
                &&& new.status_bar.now_playing == self.status_bar.now_playing
                &&& new.status_bar.message == self.status_bar.message
                &&& t.fetch_current_song == (st.song_id != self.current_song_id)
                &&& new.current_song_id == st.song_id
            },
            Err(e) => {
                &&& self.with_message(new, Err("Status error: "@ + e@))
                &&& !t.reload_library
                &&& !t.fetch_current_song
            },
        }
    }

    /// Sets the mode from the state: `Input` while the command bar, a
    /// search bar, insert mode or a browse field is being typed in.
    pub fn update_mode(&mut self)
        ensures
            final(self).mode == old(self).mode_for(),
            final(self).config == old(self).config,
            final(self).mpd == old(self).mpd,
            final(self).active_view == old(self).active_view,
            final(self).playlist == old(self).playlist,
            final(self).library == old(self).library,
            final(self).browse == old(self).browse,
            final(self).status_bar == old(self).status_bar,
            final(self).command_bar == old(self).command_bar,
            final(self).db_updating == old(self).db_updating,
            final(self).current_song_id == old(self).current_song_id,
    {
        self.mode = if self.command_bar.active || self.playlist.insert_state.is_some()
            || self.library.search.active || self.playlist.search.active || self.browse.is_editing()
            || self.browse.search.active {
            Mode::Input
        } else {
            Mode::Normal
        };
    }

    /// The daemon answered a request to update its database: on success
    /// the update is under way ("Updating database..."), else the error is
    /// shown ("Update error: ...").
    pub fn trigger_database_update(&mut self, outcome: Result<(), String>)
        ensures
            old(self).database_update_step(outcome, *final(self)),
    {
        match outcome {
            Ok(_) => {
                self.db_updating = true;
                self.status_bar.set_message(Ok(owned("Updating database...")));
            },
            Err(e) => {
                self.status_bar.set_message(Err(concat2("Update error: ", e.as_str())));
            },
        }
    }

    /// The daemon sent the song list (or an error): the library is loaded
    /// from it, or "Library load error: ..." shown.
    pub fn load_library(&mut self, outcome: Result<Vec<Song>, String>)
        ensures
            match outcome {
                Ok(songs) => {
                    &&& old(self).with_library(*final(self))
                    &&& final(self).status_bar == old(self).status_bar
                    &&& library_loaded(old(self).library, songs, final(self).library)
                },
                Err(e) => old(self).with_message(*final(self), Err("Library load error: "@ + e@)),
            },
    {
        match outcome {
            Ok(songs) => self.library.load_all_songs(songs),
            Err(e) => self.status_bar.set_message(Err(concat2("Library load error: ", e.as_str()))),
        }
    }

    /// The key cannot be taken: its arithmetic would overflow or its index
    /// fall outside a list, in the command bar or in the view on screen
    /// (see each view's `key_panics`).
    pub open spec fn key_panics(self, key: Key) -> bool {
        if self.command_bar.active {
            command_key_panics(self.command_bar, key)
        } else if key.is_plain(KeyCode::Char(':')) {
            false
        } else {
            match self.active_view {
                ActiveView::Playlist => self.playlist.key_panics(key),
                ActiveView::Library => self.library.key_panics(key),
                ActiveView::Browse => self.browse.key_panics(key),
            }
        }
    }

    /// Whether the key cannot be taken (see `key_panics`); the caller
    /// tests it before handing the key over.
    pub fn key_would_panic(&self, key: Key) -> (r: bool)
        ensures
            r == self.key_panics(key),
    {
        if self.command_bar.active {
            let b = &self.command_bar;
            let n = b.history.len();
            let up = key.modifiers == Modifiers::NoModifier && key.code == KeyCode::Up && n > 0 && match b.history_idx {
                Some(i) => (if i >= 1 { i - 1 } else { 0 }) >= n,
                None => false,
            };
            let down = key.modifiers == Modifiers::NoModifier && key.code == KeyCode::Down && b.history_idx
                == Some(usize::MAX);
            let tab = key.modifiers == Modifiers::NoModifier && key.code == KeyCode::Tab && b.matches.len() > 0
                && b.selected == usize::MAX;
            return up || down || tab;
        }
        if key.modifiers == Modifiers::NoModifier && key.code == KeyCode::Char(':') {
            return false;
        }
        match self.active_view {
            ActiveView::Playlist => self.playlist.key_would_panic(key),
            ActiveView::Library => self.library.key_would_panic(key),
            ActiveView::Browse => self.browse.key_would_panic(key),
        }
    }

    /// `new` and `r` are the application and the command after key `key`
    /// in `self` (the mode set from the new state at the end).
    pub open spec fn key_step(self, key: Key, new: Self, r: AppCommand) -> bool {
        let all = song_views(self.library.all_songs@);
        &&& new.config == self.config
        &&& new.mpd == self.mpd
        &&& new.active_view == self.active_view
        &&& new.db_updating == self.db_updating
        &&& new.current_song_id == self.current_song_id
        &&& new.mode == new.mode_for()
        &&& if self.command_bar.active {
            &&& new.playlist == self.playlist
            &&& new.library == self.library
            &&& new.browse == self.browse
            &&& command_key_step(self.command_bar, key, all, self.status_bar, new.command_bar, new.status_bar, r)
        } else if key.is_plain(KeyCode::Char(':')) {
            &&& bar_cleared(new.command_bar, true, self.command_bar)
            &&& new.playlist == self.playlist
            &&& new.library == self.library
            &&& new.browse == self.browse
            &&& new.status_bar == self.status_bar
            &&& r is Nothing
        } else {
            &&& new.command_bar == self.command_bar
            &&& match self.active_view {
                ActiveView::Playlist => {
                    &&& new.library == self.library
                    &&& new.browse == self.browse
                    &&& exists|pr: PlaylistKeyResult| #[trigger] playlist_step(self.playlist, key, all, new.playlist, pr)
                        && playlist_outcome(pr, self.status_bar, new.status_bar, r)
                },
                ActiveView::Library => {
                    &&& new.playlist == self.playlist
                    &&& new.browse == self.browse
                    &&& exists|s: Selection| #[trigger] library_key_step(self.library, key, new.library, s)
                        && selection_outcome(s, self.status_bar, new.status_bar, r)
                },
                ActiveView::Browse => {
                    &&& new.playlist == self.playlist
                    &&& new.library == self.library
                    &&& new.status_bar == self.status_bar
                    &&& exists|br: BrowseResult| #[trigger] browse_step(self.browse, key, all, new.browse, br)
                        && browse_outcome(br, r)
                },
            }
        }
    }

    /// Handles a key that is not a global command: the open command bar
    /// takes it; else `:` opens the command bar; else the view on screen
    /// takes it. Then the mode is set from the new state. Returns what the
    /// daemon must do.
    pub fn handle_key(&mut self, key: Key) -> (r: AppCommand)
        requires
            !old(self).key_panics(key),
        ensures
            old(self).key_step(key, *final(self), r),
    {
        let r = if self.command_bar.active {
            self.command_key(key)
        } else if key.modifiers == Modifiers::NoModifier && key.code == KeyCode::Char(':') {
            self.command_bar.open();
            AppCommand::Nothing
        } else {
            match self.active_view {
                ActiveView::Playlist => {
                    let pr = self.playlist.actions(key, self.library.all_songs.as_slice());
                    let ghost pr0 = pr;
                    let r = match pr {
                        PlaylistKeyResult::Nothing => AppCommand::Nothing,
                        PlaylistKeyResult::Status(m) => {
                            self.status_bar.set_message(Ok(m));
                            AppCommand::Nothing
                        },
                        PlaylistKeyResult::Append(v) => AppCommand::Append(v),
                        PlaylistKeyResult::AppendAndPlay(v) => {
                            if v.len() == 0 {
                                AppCommand::Nothing
                            } else {
                                AppCommand::AppendAndPlay(v)
                            }
                        },
                        PlaylistKeyResult::Queue(c) => AppCommand::Queue(c),
                    };
                    assert(playlist_outcome(pr0, old(self).status_bar, self.status_bar, r));
                    r
                },
                ActiveView::Library => {
                    let sel = self.library.handle_key(key);
                    let ghost s0 = sel;
                    match sel.status {
                        Some(m) => self.status_bar.set_message(Ok(m)),
                        None => {},
                    }
                    let r = if sel.songs_to_add.len() == 0 {
                        AppCommand::Nothing
                    } else {
                        AppCommand::AppendAndPlay(sel.songs_to_add)
                    };
                    assert(selection_outcome(s0, old(self).status_bar, self.status_bar, r));
                    r
                },
                ActiveView::Browse => {
                    let br = self.browse.handle_key(key, self.library.all_songs.as_slice());
                    let ghost br0 = br;
                    let r = match br {
                        BrowseResult::Nothing => AppCommand::Nothing,
                        BrowseResult::Append(v) => AppCommand::Append(v),
                        BrowseResult::AppendAndPlay(v) => {
                            if v.len() == 0 {
                                AppCommand::Nothing
                            } else {
                                AppCommand::AppendAndPlay(v)
                            }
                        },
                    };
                    assert(browse_outcome(br0, r));
                    r
                },
            }
        };
        self.update_mode();
        r
    }

    /// A key in the open command bar: Esc closes it; Enter queues and plays
    /// the songs of the selection (recording the input in the history and
    /// closing the bar), or shows "Invalid song." when there are none; Tab
    /// and Shift-BackTab select the next and previous match; Up and Down
    /// recall history entries; Backspace and characters edit the input.
    /// After an edit the matches are recomputed.
    fn command_key(&mut self, key: Key) -> (r: AppCommand)
        requires
            !command_key_panics(old(self).command_bar, key),
        ensures
            command_key_step(
                old(self).command_bar,
                key,
                song_views(old(self).library.all_songs@),
                old(self).status_bar,
                final(self).command_bar,
                final(self).status_bar,
                r,
            ),
            final(self).config == old(self).config,
            final(self).mpd == old(self).mpd,
            final(self).active_view == old(self).active_view,
            final(self).playlist == old(self).playlist,
            final(self).library == old(self).library,
            final(self).browse == old(self).browse,
            final(self).db_updating == old(self).db_updating,
            final(self).current_song_id == old(self).current_song_id,
            final(self).mode == old(self).mode,
    {
        let ghost all = song_views(self.library.all_songs@);
        match (key.modifiers, key.code) {
            (Modifiers::NoModifier, KeyCode::Esc) => {
                self.command_bar.close();
                AppCommand::Nothing
            },
            (Modifiers::NoModifier, KeyCode::Enter) => {
                let songs = self.command_bar.songs_to_add(self.library.all_songs.as_slice());
                if songs.len() == 0 {
                    self.status_bar.set_message(Ok(owned("Invalid song.")));
                    AppCommand::Nothing
                } else {
                    self.command_bar.commit_history();
                    self.command_bar.close();
                    AppCommand::AppendAndPlay(songs)
                }
            },
            (Modifiers::NoModifier, KeyCode::Tab) => {
                self.command_bar.next_match();
                AppCommand::Nothing
            },
            (Modifiers::Shift, KeyCode::BackTab) => {
                self.command_bar.prev_match();
                AppCommand::Nothing
            },
            (Modifiers::NoModifier, KeyCode::Up) => {
                self.command_bar.history_prev();
                let ghost mid = self.command_bar;
                self.command_bar.update_matches(self.library.all_songs.as_slice());
                assert(bar_after_history_prev(old(self).command_bar, mid) && bar_after_update(mid, all, self.command_bar));
                AppCommand::Nothing
            },
            (Modifiers::NoModifier, KeyCode::Down) => {
                self.command_bar.history_next();
                let ghost mid = self.command_bar;
                self.command_bar.update_matches(self.library.all_songs.as_slice());
                assert(bar_after_history_next(old(self).command_bar, mid) && bar_after_update(mid, all, self.command_bar));
                AppCommand::Nothing
            },
            (Modifiers::NoModifier, KeyCode::Backspace) => {
                self.command_bar.pop();
                let ghost mid = self.command_bar;
                self.command_bar.update_matches(self.library.all_songs.as_slice());
                assert(bar_after_pop(old(self).command_bar, mid) && bar_after_update(mid, all, self.command_bar));
                AppCommand::Nothing
            },
            (Modifiers::NoModifier, KeyCode::Char(c)) => {
                self.command_bar.push(c);
                let ghost mid = self.command_bar;
                self.command_bar.update_matches(self.library.all_songs.as_slice());
                assert(bar_after_push(old(self).command_bar, c, mid) && bar_after_update(mid, all, self.command_bar));
                AppCommand::Nothing
            },
            _ => AppCommand::Nothing,
        }
    }

    /// The command bar, when it is open.
    pub open spec fn open_command_bar(&self) -> Option<&CommandBar> {
        if self.command_bar.active {
            Some(&self.command_bar)
        } else {
            None
        }
    }

    /// What the status line shows: the open command bar, else the search
    /// bar of the view on screen with its number of matches, else the song
    /// playing. `None` when the command bar's completion would be cut
    /// inside a character.
    pub fn status_line(&self) -> (r: Option<StatusLine>)
        ensures
            r is None <==> (self.command_bar.active && command_line_invalid(&self.command_bar)),
            r matches Some(l) ==> match self.active_view {
                ActiveView::Playlist => self.status_bar.status_line_of(
                    Some((&self.playlist.search, self.playlist.search_matches@.len() as usize)),
                    self.open_command_bar(),
                    l,
                ),
                ActiveView::Library => self.status_bar.status_line_of(
                    Some((&self.library.search, self.library.search_matches@.len() as usize)),
                    self.open_command_bar(),
                    l,
                ),
                ActiveView::Browse => self.status_bar.status_line_of(
                    Some((&self.browse.search, self.browse.search_matches@.len() as usize)),
                    self.open_command_bar(),
                    l,
                ),
            },
    {
        let cmd = if self.command_bar.active {
            Some(&self.command_bar)
        } else {
            None
        };
        match self.active_view {
            ActiveView::Playlist => self.status_bar.try_status_line(
                Some((&self.playlist.search, self.playlist.search_matches.len())),
                cmd,
            ),
            ActiveView::Library => self.status_bar.try_status_line(
                Some((&self.library.search, self.library.search_matches.len())),
                cmd,
            ),
            ActiveView::Browse => self.status_bar.try_status_line(
                Some((&self.browse.search, self.browse.search_matches.len())),
                cmd,
            ),
        }
    }

    /// A status report of the daemon (or an error, shown as "Status error:
    /// ..."). The times are taken over; the end of a database update clears
    /// the flag and asks for the song list; a new song id is recorded and
    /// asks for the song playing.
    pub fn tick(&mut self, status: Result<PlayerStatus, String>) -> (t: TickRequests)
        ensures
            old(self).tick_step(status, *final(self), t),
    {
        match status {
            Ok(st) => {
                let reload = self.db_updating && !st.updating_db;
                if reload {
                    self.db_updating = false;
                }
                self.status_bar.elapsed = st.elapsed;
                self.status_bar.total = st.duration;
                let fetch = st.song_id != self.current_song_id;
                if fetch {
                    self.current_song_id = st.song_id;
                }
                TickRequests { reload_library: reload, fetch_current_song: fetch }
            },
            Err(e) => {
                self.status_bar.set_message(Err(concat2("Status error: ", e.as_str())));
                TickRequests { reload_library: false, fetch_current_song: false }
            },
        }
    }

    /// The song list after a database update: the library is reloaded
    /// ("Database updated."), or "Reload error: ..." shown.
    pub fn on_library_reloaded(&mut self, outcome: Result<Vec<Song>, String>)
        ensures
            match outcome {
                Ok(songs) => {
                    &&& old(self).with_library(*final(self))
                    &&& library_loaded(old(self).library, songs, final(self).library)
                    &&& shows_message(old(self).status_bar, final(self).status_bar, Ok("Database updated."@))
                },
                Err(e) => old(self).with_message(*final(self), Err("Reload error: "@ + e@)),
            },
    {
        match outcome {
            Ok(songs) => {
                self.library.load_all_songs(songs);
                self.status_bar.set_message(Ok(owned("Database updated.")));
            },
            Err(e) => self.status_bar.set_message(Err(concat2("Reload error: ", e.as_str()))),
        }
    }

    /// The song playing (or an error, shown as "Error: ..."), with how far
    /// it got according to the status it was asked for after.
    pub fn on_current_song(&mut self, outcome: Result<Option<Song>, String>, elapsed: Option<u64>)
        ensures
            match outcome {
                Ok(song) => {
                    &&& old(self).same_views(*final(self))
                    &&& final(self).db_updating == old(self).db_updating
                    &&& final(self).current_song_id == old(self).current_song_id
                    &&& final(self).status_bar.now_playing == song
                    &&& final(self).status_bar.elapsed == elapsed
                    &&& final(self).status_bar.total == old(self).status_bar.total
                    &&& final(self).status_bar.message == old(self).status_bar.message
                },
                Err(e) => old(self).with_message(*final(self), Err("Error: "@ + e@)),
            },
    {
        match outcome {
            Ok(song) => self.status_bar.set_now_playing(song, elapsed),
            Err(e) => self.status_bar.set_message(Err(concat2("Error: ", e.as_str()))),
        }
    }

    /// Shows another view (the caller then refreshes the playlist).
    pub fn set_view(&mut self, view: ActiveView)
        ensures
            final(self).active_view == view,
            final(self).config == old(self).config,
            final(self).mpd == old(self).mpd,
            final(self).playlist == old(self).playlist,
            final(self).library == old(self).library,
            final(self).browse == old(self).browse,
            final(self).status_bar == old(self).status_bar,
            final(self).command_bar == old(self).command_bar,
            final(self).db_updating == old(self).db_updating,
            final(self).current_song_id == old(self).current_song_id,
            final(self).mode == old(self).mode,
    {
        self.active_view = view;
    }

    /// The play queue (or an error, shown as "Error: ..."): the playlist
    /// shows its tracks, the cursor where it was.
    pub fn refresh_playlist(&mut self, outcome: Result<Vec<Song>, String>)
        ensures
            match outcome {
                Ok(tracks) => {
                    &&& final(self).playlist.tracks == tracks
                    &&& final(self).playlist.cursor == old(self).playlist.cursor
                    &&& final(self).playlist.same_but_tracks(old(self).playlist)
                    &&& final(self).config == old(self).config
                    &&& final(self).mpd == old(self).mpd
                    &&& final(self).active_view == old(self).active_view
                    &&& final(self).library == old(self).library
                    &&& final(self).browse == old(self).browse
                    &&& final(self).status_bar == old(self).status_bar
                    &&& final(self).command_bar == old(self).command_bar
                    &&& final(self).db_updating == old(self).db_updating
                    &&& final(self).current_song_id == old(self).current_song_id
                    &&& final(self).mode == old(self).mode
                },
                Err(e) => old(self).with_message(*final(self), Err("Error: "@ + e@)),
            },
    {
        match outcome {
            Ok(tracks) => self.playlist.set_tracks(tracks),
            Err(e) => self.status_bar.set_message(Err(concat2("Error: ", e.as_str()))),
        }
    }

    /// Where a seek forward goes: ten seconds on, but not past the end
    /// (missing times count as zero).
    pub fn seek_forward_target(&self) -> (p: u64)
        ensures
            p == min_int(
                time_or_zero(self.status_bar.elapsed) + 10000,
                time_or_zero(self.status_bar.total),
            ),
    {
        let e = match self.status_bar.elapsed {
            Some(x) => x,
            None => 0,
        };
        let t = match self.status_bar.total {
            Some(x) => x,
            None => 0,
        };
        let ahead = e.saturating_add(10000);
        if ahead < t {
            ahead
        } else {
            t
        }
    }

    /// Where a seek backward goes: ten seconds back, but not before the
    /// start (a missing time counts as zero).
    pub fn seek_backward_target(&self) -> (p: u64)
        ensures
            p == max_int(time_or_zero(self.status_bar.elapsed) - 10000, 0),
    {
        let e = match self.status_bar.elapsed {
            Some(x) => x,
            None => 0,
        };
        e.saturating_sub(10000)
    }

    /// The daemon answered a seek to `pos`: the elapsed time becomes
    /// `pos`, or "Seek error: ..." is shown.
    pub fn on_seek(&mut self, pos: u64, outcome: Result<(), String>)
        ensures
            match outcome {
                Ok(_) => {
                    &&& old(self).same_views(*final(self))
                    &&& final(self).db_updating == old(self).db_updating
                    &&& final(self).current_song_id == old(self).current_song_id
                    &&& final(self).status_bar.elapsed == Some(pos)
                    &&& final(self).status_bar.total == old(self).status_bar.total
                    &&& final(self).status_bar.now_playing == old(self).status_bar.now_playing
                    &&& final(self).status_bar.message == old(self).status_bar.message
                },
                Err(e) => old(self).with_message(*final(self), Err("Seek error: "@ + e@)),
            },
    {
        match outcome {
            Ok(_) => self.status_bar.elapsed = Some(pos),
            Err(e) => self.status_bar.set_message(Err(concat2("Seek error: ", e.as_str()))),
        }
    }

    /// The daemon answered a command (pause, next, previous, append): an
    /// error is shown as "Error: ...".
    pub fn on_player_result(&mut self, outcome: Result<(), String>)
        ensures
            match outcome {
                Ok(_) => *final(self) == *old(self),
                Err(e) => old(self).with_message(*final(self), Err("Error: "@ + e@)),
            },
    {
        match outcome {
            Ok(_) => {},
            Err(e) => self.status_bar.set_message(Err(concat2("Error: ", e.as_str()))),
        }
    }

    /// The daemon answered a change of the queue asked for from the
    /// playlist: an error is reported as the playlist reports it, as the
    /// information "Error: ...".
    pub fn on_queue_command_result(&mut self, outcome: Result<(), String>)
        ensures
            match outcome {
                Ok(_) => *final(self) == *old(self),
                Err(e) => old(self).with_message(*final(self), Ok("Error: "@ + e@)),
            },
    {
        match outcome {
            Ok(_) => {},
            Err(e) => self.status_bar.set_message(Ok(concat2("Error: ", e.as_str()))),
        }
    }

    /// The length of the queue, asked for before appending songs to play
    /// them: its value is where the first of them will stand, the position
    /// to play once they are appended. An error is shown as "Error: ...",
    /// and nothing is appended.
    pub fn append_and_play(&mut self, queue_len: Result<u32, String>) -> (play_at: Option<u32>)
        ensures
            match queue_len {
                Ok(n) => play_at == Some(n) && *final(self) == *old(self),
                Err(e) => play_at is None && old(self).with_message(*final(self), Err("Error: "@ + e@)),
            },
    {
        match queue_len {
            Ok(n) => Some(n),
            Err(e) => {
                self.status_bar.set_message(Err(concat2("Error: ", e.as_str())));
                None
            },
        }
    }
}

/// After any key, the mode is Input exactly while something is being
/// typed: the command bar, a search bar, the playlist's insert mode or a
/// browse field.
pub proof fn lemma_mode_follows_typing<C: Connection>(a0: App<C>, key: Key, a1: App<C>, r: AppCommand)
    requires
        a0.key_step(key, a1, r),
    ensures
        (a1.mode == Mode::Input) == (a1.command_bar.active || a1.playlist.insert_state is Some
            || a1.library.search.active || a1.playlist.search.active || a1.browse.edit_mode
            == BrowseEditMode::Editing || a1.browse.search.active),
{
}

/// A database update that the daemon accepted makes the song list be asked
/// for exactly once: at the first status report that shows no update
/// running, and not at the next one.
pub proof fn lemma_update_reloads_once<C: Connection>(
    a0: App<C>,
    a1: App<C>,
    a2: App<C>,
    a3: App<C>,
    s1: PlayerStatus,
    s2: PlayerStatus,
    t1: TickRequests,
    t2: TickRequests,
)
    requires
        a0.database_update_step(Ok(()), a1),
        !s1.updating_db,
        a1.tick_step(Ok(s1), a2, t1),
        a2.tick_step(Ok(s2), a3, t2),
    ensures
        t1.reload_library,
        !a2.db_updating,
        !t2.reload_library,
{
}

/// While the daemon reports the same song, it is asked for at most once:
/// a second report with the same song id asks for nothing.
pub proof fn lemma_same_song_fetched_once<C: Connection>(
    a0: App<C>,
    a1: App<C>,
    a2: App<C>,
    s1: PlayerStatus,
    s2: PlayerStatus,
    t1: TickRequests,
    t2: TickRequests,
)
    requires
        a0.tick_step(Ok(s1), a1, t1),
        a1.tick_step(Ok(s2), a2, t2),
        s2.song_id == s1.song_id,
    ensures
        !t2.fetch_current_song,
        a2.current_song_id == s1.song_id,
{
}

/// `:` then Esc: the command bar opens and closes again, empty, with its
/// history kept; the views, the status bar and the mode are as they would
/// be without it, and nothing is asked of the daemon.
pub proof fn lemma_open_then_close_command_bar<C: Connection>(
    a0: App<C>,
    a1: App<C>,
    a2: App<C>,
    r1: AppCommand,
    r2: AppCommand,
)
    requires
        !a0.command_bar.active,
        a0.key_step(Key { modifiers: Modifiers::NoModifier, code: KeyCode::Char(':') }, a1, r1),
        a1.key_step(Key { modifiers: Modifiers::NoModifier, code: KeyCode::Esc }, a2, r2),
    ensures
        a1.command_bar.active,
        a1.mode == Mode::Input,
        !a2.command_bar.active,
        a2.command_bar.input@ == Seq::<char>::empty(),
        texts(a2.command_bar.history@) == texts(a0.command_bar.history@),
        a2.playlist == a0.playlist,
        a2.library == a0.library,
        a2.browse == a0.browse,
        a2.status_bar == a0.status_bar,
        a2.mode == a0.mode_for(),
        r1 is Nothing && r2 is Nothing,
{
}

impl App<NoConnection> {
    /// The application at start: the playlist on screen, every view and bar
    /// as its own `new` makes it, nothing playing, no link to the daemon yet.
    pub fn new(config: Config) -> (a: Self)
        ensures
            a.config == config,
            a.active_view == ActiveView::Playlist,
            a.status_bar.now_playing is None,
            a.status_bar.elapsed is None,
            a.status_bar.total is None,
            a.status_bar.message matches Ok(m) && m@ == Seq::<char>::empty(),
            a.playlist.at_start(),
            a.library.at_start(),
            a.browse.at_start(),
            a.command_bar.at_start(),
            !a.db_updating,
            a.current_song_id is None,
            a.mode == Mode::Normal,
            a.mode == a.mode_for(),
    {
        App {
            config,
            mpd: NoConnection,
            active_view: ActiveView::Playlist,
            playlist: PlaylistView::new(),
            library: LibraryView::new(),
            browse: BrowseView::new(),
            status_bar: StatusBar::new(),
            command_bar: CommandBar::new(),
            db_updating: false,
            current_song_id: None,
            mode: Mode::Normal,
        }
    }

    /// The same application, now holding the link `mpd`.
    pub fn connect<C: Connection>(self, mpd: C) -> (a: App<C>)
        ensures
            a.mpd == mpd,
            a.config == self.config,
            a.active_view == self.active_view,
            a.playlist == self.playlist,
            a.library == self.library,
            a.browse == self.browse,
            a.status_bar == self.status_bar,
            a.command_bar == self.command_bar,
            a.db_updating == self.db_updating,
            a.current_song_id == self.current_song_id,
            a.mode == self.mode,
    {
        App {
            config: self.config,
            mpd,
            active_view: self.active_view,
            playlist: self.playlist,
            library: self.library,
            browse: self.browse,
            status_bar: self.status_bar,
            command_bar: self.command_bar,
            db_updating: self.db_updating,
            current_song_id: self.current_song_id,
            mode: self.mode,
        }
    }
}

} // verus!
