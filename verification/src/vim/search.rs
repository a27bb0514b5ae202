//! Vim search: the `/` bar and `n`/`N` between matches.
use vstd::prelude::*;

use crate::keys::{Key, KeyCode, Modifiers};
use crate::text::{clear_string, pop_char, push_char};

verus! {

/// A list that can be searched, with a current match.
pub trait VimSearchable: Sized {
    /// `after` is the value once `query` was searched for.
    spec fn searched(self, query: Seq<char>, after: Self) -> bool;

    /// `after` is the value once the next match became current.
    spec fn went_to_next_match(self, after: Self) -> bool;

    /// `after` is the value once the previous match became current.
    spec fn went_to_prev_match(self, after: Self) -> bool;

    /// The query last typed.
    spec fn query_text(self) -> Seq<char>;

    /// The number of matches.
    spec fn matches_len(self) -> nat;

    /// Moving to the previous match is defined (the current match index
    /// is a valid one).
    spec fn can_go_to_prev_match(self) -> bool;

    fn search(&mut self, query: &str)
        ensures
            old(self).searched(query@, *final(self)),
    ;

    fn next_match(&mut self)
        ensures
            old(self).went_to_next_match(*final(self)),
    ;

    fn prev_match(&mut self)
        requires
            old(self).can_go_to_prev_match(),
        ensures
            old(self).went_to_prev_match(*final(self)),
    ;

    fn current_query(&self) -> (r: &str)
        ensures
            r@ == self.query_text(),
    ;

    fn match_count(&self) -> (r: usize)
        ensures
            r == self.matches_len(),
    ;
}

/// Whether the search bar is open, and the query typed in it.
pub struct SearchState {
    pub active: bool,
    pub query: String,
}

impl SearchState {
    /// A closed bar with an empty query.
    pub fn new() -> (s: Self)
        ensures
            !s.active,
            s.query@ == Seq::<char>::empty(),
    {
        SearchState { active: false, query: String::new() }
    }

    /// A copy of the state.
    pub fn duplicate(&self) -> (s: Self)
        ensures
            s == *self,
    {
        SearchState { active: self.active, query: self.query.clone() }
    }

    /// Opens the bar with an empty query.
    pub fn open(&mut self)
        ensures
            final(self).active,
            final(self).query@ == Seq::<char>::empty(),
    {
        self.active = true;
        clear_string(&mut self.query);
    }

    /// Closes the bar; the query stays.
    pub fn close(&mut self)
        ensures
            !final(self).active,
            final(self).query@ == old(self).query@,
    {
        self.active = false;
    }

    /// Types a character.
    pub fn push(&mut self, c: char)
        ensures
            final(self).active == old(self).active,
            final(self).query@ == old(self).query@.push(c),
    {
        push_char(&mut self.query, c);
    }

    /// Erases the last character, if any.
    pub fn pop(&mut self)
        ensures
            final(self).active == old(self).active,
            final(self).query@ == (if old(self).query@.len() == 0 {
                old(self).query@
            } else {
                old(self).query@.drop_last()
            }),
    {
        let _ = pop_char(&mut self.query);
    }
}

/// The query after erasing its last character, if any.
pub open spec fn query_popped(q: Seq<char>) -> Seq<char> {
    if q.len() == 0 {
        q
    } else {
        q.drop_last()
    }
}

/// Handles a key while the search bar is open: Esc or Enter close it,
/// Backspace and characters edit the query and search again. Returns
/// whether the key was consumed.
pub fn handle_search_input<T: VimSearchable>(target: &mut T, state: &mut SearchState, key: Key) -> (r:
    bool)
    ensures
        match key.code {
            KeyCode::Esc | KeyCode::Enter => {
                &&& r
                &&& !final(state).active
                &&& final(state).query@ == old(state).query@
                &&& *final(target) == *old(target)
            },
            KeyCode::Backspace => {
                &&& r
                &&& final(state).active == old(state).active
                &&& final(state).query@ == query_popped(old(state).query@)
                &&& old(target).searched(final(state).query@, *final(target))
            },
            KeyCode::Char(c) => {
                &&& r
                &&& final(state).active == old(state).active
                &&& final(state).query@ == old(state).query@.push(c)
                &&& old(target).searched(final(state).query@, *final(target))
            },
            _ => {
                &&& !r
                &&& final(state).active == old(state).active
                &&& final(state).query@ == old(state).query@
                &&& *final(target) == *old(target)
            },
        },
{
    match key.code {
        KeyCode::Esc | KeyCode::Enter => {
            state.close();
            true
        },
        KeyCode::Backspace => {
            state.pop();
            let q = state.query.clone();
            target.search(q.as_str());
            true
        },
        KeyCode::Char(c) => {
            state.push(c);
            let q = state.query.clone();
            target.search(q.as_str());
            true
        },
        _ => false,
    }
}

/// Handles `/` (open the bar), `n` (next match) and `N` (previous match)
/// in normal mode. Returns whether the key was consumed.
pub fn handle_search_normal<T: VimSearchable>(target: &mut T, state: &mut SearchState, key: Key) -> (r:
    bool)
    requires
        key.is_shifted(KeyCode::Char('N')) ==> old(target).can_go_to_prev_match(),
    ensures
        key.is_plain(KeyCode::Char('/')) ==> {
            &&& r
            &&& final(state).active
            &&& final(state).query@ == Seq::<char>::empty()
            &&& *final(target) == *old(target)
        },
        key.is_plain(KeyCode::Char('n')) ==> {
            &&& r
            &&& old(target).went_to_next_match(*final(target))
        },
        key.is_shifted(KeyCode::Char('N')) ==> {
            &&& r
            &&& old(target).went_to_prev_match(*final(target))
        },
        !key.is_plain(KeyCode::Char('/')) ==> *final(state) == *old(state),
        !(key.is_plain(KeyCode::Char('/')) || key.is_plain(KeyCode::Char('n')) || key.is_shifted(
            KeyCode::Char('N'),
        )) ==> !r && *final(target) == *old(target),
{
    match (key.modifiers, key.code) {
        (Modifiers::NoModifier, KeyCode::Char('/')) => {
            state.open();
            true
        },
        (Modifiers::NoModifier, KeyCode::Char('n')) => {
            target.next_match();
            true
        },
        (Modifiers::Shift, KeyCode::Char('N')) => {
            target.prev_match();
            true
        },
        _ => false,
    }
}

} // verus!
