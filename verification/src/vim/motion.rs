//! Vim motions: counts, `j`/`k`, `gg`/`G`, half pages and selection.
use vstd::prelude::*;

use crate::keys::{Key, KeyCode, Modifiers};

verus! {

/// A list with a cursor that vim motions move.
pub trait VimNavigable: Sized {
    /// `after` is the value once the cursor moved down `n` rows.
    spec fn moved_down(self, n: nat, after: Self) -> bool;

    /// Moving down `n` rows is defined (its arithmetic does not overflow).
    spec fn can_move_down(self, n: nat) -> bool;

    /// `after` is the value once the cursor moved up `n` rows.
    spec fn moved_up(self, n: nat, after: Self) -> bool;

    /// `after` is the value once the cursor went to the first row.
    spec fn went_to_top(self, after: Self) -> bool;

    /// `after` is the value once the cursor went to the last row.
    spec fn went_to_bottom(self, after: Self) -> bool;

    /// The number of rows.
    spec fn nav_len(self) -> nat;

    fn move_down(&mut self, n: usize)
        requires
            old(self).can_move_down(n as nat),
        ensures
            old(self).moved_down(n as nat, *final(self)),
    ;

    fn move_up(&mut self, n: usize)
        ensures
            old(self).moved_up(n as nat, *final(self)),
    ;

    fn go_to_top(&mut self)
        ensures
            old(self).went_to_top(*final(self)),
    ;

    fn go_to_bottom(&mut self)
        ensures
            old(self).went_to_bottom(*final(self)),
    ;

    fn len(&self) -> (r: usize)
        ensures
            r == self.nav_len(),
    ;

    fn is_empty(&self) -> (r: bool)
        ensures
            r == (self.nav_len() == 0),
    {
        self.len() == 0
    }
}

/// What a motion key did.
#[derive(Debug, Clone, Copy, PartialEq, Eq, Structural)]
pub enum MotionAction {
    MoveDown(usize),
    MoveUp(usize),
    GoToTop,
    HalfPageUp,
    HalfPageDown,
    GoToBottom,
    Select,
    PendingG,
    PendingCount,
}

/// The count typed so far and whether the last key was a `g`.
#[derive(Debug, Clone, Copy, PartialEq, Eq, Structural)]
pub struct MotionState {
    pub pending_count: Option<usize>,
    pub last_was_g: bool,
}

/// `c` is a count digit: `1` to `9` start or extend a count.
pub open spec fn is_count_digit(c: char) -> bool {
    '1' <= c && c <= '9'
}

/// The value of a decimal digit character.
pub open spec fn digit_value(c: char) -> nat {
    ((c as int) - 48) as nat
}

/// The count after typing digit `c`.
pub open spec fn count_after_digit(pending: Option<usize>, c: char) -> int {
    match pending {
        Some(n) => n * 10 + digit_value(c),
        None => digit_value(c) as int,
    }
}

/// The count a motion uses: the typed one, or 1.
pub open spec fn count_of(pending: Option<usize>) -> usize {
    match pending {
        Some(n) => n,
        None => 1,
    }
}

/// The state with no count and no pending `g`.
pub open spec fn motion_cleared() -> MotionState {
    MotionState { pending_count: None, last_was_g: false }
}

impl MotionState {
    /// No count typed, no pending `g`.
    pub fn new() -> (s: Self)
        ensures
            s == motion_cleared(),
    {
        MotionState { pending_count: None, last_was_g: false }
    }

    /// Appends a decimal digit to the pending count.
    pub fn push_digit(&mut self, c: char)
        requires
            '0' <= c <= '9',
            count_after_digit(old(self).pending_count, c) <= usize::MAX,
        ensures
            final(self).pending_count == Some(count_after_digit(old(self).pending_count, c) as usize),
            final(self).last_was_g == old(self).last_was_g,
    {
        let digit: usize = ((c as u32) - 48) as usize;
        let base: usize = match self.pending_count {
            Some(n) => n,
            None => 0,
        };
        assert(base * 10 + digit == count_after_digit(old(self).pending_count, c));
        self.pending_count = Some(base * 10 + digit);
    }

    /// The pending count (1 when none was typed); clears it.
    pub fn take_count(&mut self) -> (n: usize)
        ensures
            n == count_of(old(self).pending_count),
            final(self).pending_count is None,
            final(self).last_was_g == old(self).last_was_g,
    {
        match self.pending_count.take() {
            Some(n) => n,
            None => 1,
        }
    }

    /// Clears the count and the pending `g`.
    pub fn reset(&mut self)
        ensures
            *final(self) == motion_cleared(),
    {
        self.pending_count = None;
        self.last_was_g = false;
    }
}

/// The key would extend the count beyond what a `usize` holds.
pub open spec fn count_overflows(state: MotionState, key: Key) -> bool {
    &&& key.modifiers == Modifiers::NoModifier
    &&& key.code is Char
    &&& is_count_digit(key.code->0)
    &&& count_after_digit(state.pending_count, key.code->0) > usize::MAX
}

/// The key would move the cursor down by more than its arithmetic allows.
pub open spec fn motion_overflows<T: VimNavigable>(target: T, state: MotionState, key: Key) -> bool {
    ||| key.is_plain(KeyCode::Char('j')) && !target.can_move_down(count_of(state.pending_count) as nat)
    ||| key.is_control(KeyCode::Char('d')) && !target.can_move_down(10)
}

/// What a motion key does: `target2`, `state2` and `r` are the list, the
/// state and the action after it.
pub open spec fn motion_outcome<T: VimNavigable>(
    target: T,
    state: MotionState,
    key: Key,
    target2: T,
    state2: MotionState,
    r: Option<MotionAction>,
) -> bool {
    if key.modifiers == Modifiers::NoModifier && (key.code matches KeyCode::Char(c) && is_count_digit(c)) {
        let c = key.code->0;
        &&& target2 == target
        &&& state2 == MotionState { pending_count: Some(count_after_digit(state.pending_count, c) as usize), ..state }
        &&& r == Some(MotionAction::PendingCount)
    } else if key.is_plain(KeyCode::Char('j')) {
        let n = count_of(state.pending_count);
        target.moved_down(n as nat, target2) && state2 == motion_cleared() && r == Some(MotionAction::MoveDown(n))
    } else if key.is_plain(KeyCode::Char('k')) {
        let n = count_of(state.pending_count);
        target.moved_up(n as nat, target2) && state2 == motion_cleared() && r == Some(MotionAction::MoveUp(n))
    } else if key.is_shifted(KeyCode::Char('G')) {
        target.went_to_bottom(target2) && state2 == motion_cleared() && r == Some(MotionAction::GoToBottom)
    } else if key.is_plain(KeyCode::Char('g')) {
        if state.last_was_g {
            target.went_to_top(target2) && state2 == motion_cleared() && r == Some(MotionAction::GoToTop)
        } else {
            target2 == target && state2 == MotionState { last_was_g: true, ..state } && r == Some(MotionAction::PendingG)
        }
    } else if key.is_plain(KeyCode::Enter) {
        target2 == target && state2 == motion_cleared() && r == Some(MotionAction::Select)
    } else if key.is_control(KeyCode::Char('u')) {
        target.moved_up(10, target2) && state2 == motion_cleared() && r == Some(MotionAction::HalfPageUp)
    } else if key.is_control(KeyCode::Char('d')) {
        target.moved_down(10, target2) && state2 == motion_cleared() && r == Some(MotionAction::HalfPageDown)
    } else {
        target2 == target && state2 == MotionState { last_was_g: false, ..state } && r is None
    }
}

/// Handles a motion key. Returns the action when one was completed, or
/// that a `g` or a count is pending; `None` when the key is not a motion
/// key.
pub fn handle_motion_key<T: VimNavigable>(target: &mut T, state: &mut MotionState, key: Key) -> (r:
    Option<MotionAction>)
    requires
        !count_overflows(*old(state), key),
        !motion_overflows(*old(target), *old(state), key),
    ensures
        motion_outcome(*old(target), *old(state), key, *final(target), *final(state), r),
{
    match (key.modifiers, key.code) {
        (Modifiers::NoModifier, KeyCode::Char(c)) if '1' <= c && c <= '9' => {
            state.push_digit(c);
            Some(MotionAction::PendingCount)
        },
        (Modifiers::NoModifier, KeyCode::Char('j')) => {
            let n = state.take_count();
            target.move_down(n);
            state.last_was_g = false;
            Some(MotionAction::MoveDown(n))
        },
        (Modifiers::NoModifier, KeyCode::Char('k')) => {
            let n = state.take_count();
            target.move_up(n);
            state.last_was_g = false;
            Some(MotionAction::MoveUp(n))
        },
        (Modifiers::Shift, KeyCode::Char('G')) => {
            state.reset();
            target.go_to_bottom();
            Some(MotionAction::GoToBottom)
        },
        (Modifiers::NoModifier, KeyCode::Char('g')) => {
            if state.last_was_g {
                state.reset();
                target.go_to_top();
                Some(MotionAction::GoToTop)
            } else {
                state.last_was_g = true;
                Some(MotionAction::PendingG)
            }
        },
        (Modifiers::NoModifier, KeyCode::Enter) => {
            state.reset();
            Some(MotionAction::Select)
        },
        (Modifiers::Control, KeyCode::Char('u')) => {
            state.reset();
            target.move_up(10);
            Some(MotionAction::HalfPageUp)
        },
        (Modifiers::Control, KeyCode::Char('d')) => {
            state.reset();
            target.move_down(10);
            Some(MotionAction::HalfPageDown)
        },
        _ => {
            state.last_was_g = false;
            None
        },
    }
}

/// A cursor over a list of `len` rows, moved as the library's columns and
/// the playlist move theirs: down and up stop at the ends.
#[derive(Debug, Clone, Copy, PartialEq, Eq, Structural)]
pub struct ListCursor {
    pub cursor: usize,
    pub len: usize,
}

/// The index of the last row of a list of `len` rows, or 0 when empty.
pub open spec fn last_row(len: usize) -> usize {
    if len == 0 {
        0
    } else {
        (len - 1) as usize
    }
}

/// `cursor + n`, stopped at the last row.
pub open spec fn clamp_down(cursor: usize, n: nat, len: usize) -> usize {
    if cursor + n <= last_row(len) {
        (cursor + n) as usize
    } else {
        last_row(len)
    }
}

/// `cursor - n`, stopped at the first row.
pub open spec fn clamp_up(cursor: usize, n: nat) -> usize {
    if cursor >= n {
        (cursor - n) as usize
    } else {
        0
    }
}

/// `cursor + n` stopped at the last row, computed without overflow.
pub fn cursor_down(cursor: usize, n: usize, len: usize) -> (r: usize)
    ensures
        r == clamp_down(cursor, n as nat, len),
{
    let last: usize = if len == 0 { 0 } else { len - 1 };
    if cursor <= last && n <= last - cursor {
        cursor + n
    } else {
        last
    }
}

/// `cursor - n` stopped at the first row.
pub fn cursor_up(cursor: usize, n: usize) -> (r: usize)
    ensures
        r == clamp_up(cursor, n as nat),
{
    if cursor >= n {
        cursor - n
    } else {
        0
    }
}

impl VimNavigable for ListCursor {
    open spec fn moved_down(self, n: nat, after: Self) -> bool {
        after == ListCursor { cursor: clamp_down(self.cursor, n, self.len), len: self.len }
    }

    open spec fn can_move_down(self, n: nat) -> bool {
        self.cursor + n <= usize::MAX
    }

    open spec fn moved_up(self, n: nat, after: Self) -> bool {
        after == ListCursor { cursor: clamp_up(self.cursor, n), len: self.len }
    }

    open spec fn went_to_top(self, after: Self) -> bool {
        after == ListCursor { cursor: 0, len: self.len }
    }

    open spec fn went_to_bottom(self, after: Self) -> bool {
        after == ListCursor { cursor: last_row(self.len), len: self.len }
    }

    open spec fn nav_len(self) -> nat {
        self.len as nat
    }

    fn move_down(&mut self, n: usize) {
        self.cursor = cursor_down(self.cursor, n, self.len);
    }

    fn move_up(&mut self, n: usize) {
        self.cursor = cursor_up(self.cursor, n);
    }

    fn go_to_top(&mut self) {
        self.cursor = 0;
    }

    fn go_to_bottom(&mut self) {
        self.cursor = if self.len == 0 { 0 } else { self.len - 1 };
    }

    fn len(&self) -> usize {
        self.len
    }
}

/// Moving down `n` rows and back up `n` rows returns to the row one
/// started from, when the move down did not stop at the last row.
pub proof fn lemma_down_then_up(cursor: usize, n: nat, len: usize)
    requires
        cursor + n <= last_row(len),
    ensures
        clamp_up(clamp_down(cursor, n, len), n) == cursor,
{
}

/// Moving up `n` rows and back down `n` rows returns to the row one
/// started from, when the move up did not stop at the first row.
pub proof fn lemma_up_then_down(cursor: usize, n: nat, len: usize)
    requires
        n <= cursor <= last_row(len),
    ensures
        clamp_down(clamp_up(cursor, n), n, len) == cursor,
{
}

/// A motion key keeps a cursor that is on a row of its list on a row of
/// that list (on the first row when the list is empty).
pub proof fn lemma_motion_keeps_cursor_in_list(
    cur: ListCursor,
    state: MotionState,
    key: Key,
    cur2: ListCursor,
    state2: MotionState,
    r: Option<MotionAction>,
)
    requires
        cur.cursor <= last_row(cur.len),
        motion_outcome(cur, state, key, cur2, state2, r),
    ensures
        cur2.len == cur.len,
        cur2.cursor <= last_row(cur2.len),
{
}

/// A completed motion clears the count and the pending `g`: the next
/// motion moves one row unless a new count is typed.
pub proof fn lemma_motion_clears_count<T: VimNavigable>(
    target: T,
    state: MotionState,
    key: Key,
    target2: T,
    state2: MotionState,
    r: Option<MotionAction>,
)
    requires
        motion_outcome(target, state, key, target2, state2, r),
        r matches Some(a) && a != MotionAction::PendingG && a != MotionAction::PendingCount,
    ensures
        state2 == motion_cleared(),
        count_of(state2.pending_count) == 1,
{
}

/// Whether a digit key would extend the count beyond what a `usize` holds.
pub fn count_would_overflow(state: MotionState, key: Key) -> (r: bool)
    ensures
        r == count_overflows(state, key),
{
    match (key.modifiers, key.code) {
        (Modifiers::NoModifier, KeyCode::Char(c)) => {
            if '1' <= c && c <= '9' {
                let d: u128 = ((c as u32) - 48) as u128;
                let base: u128 = match state.pending_count {
                    Some(n) => n as u128,
                    None => 0,
                };
                base * 10 + d > usize::MAX as u128
            } else {
                false
            }
        },
        _ => false,
    }
}

/// How many rows the key moves the cursor down, for `j` and control-d.
pub fn rows_down(state: MotionState, key: Key) -> (r: Option<usize>)
    ensures
        key.is_plain(KeyCode::Char('j')) ==> r == Some(count_of(state.pending_count)),
        key.is_control(KeyCode::Char('d')) ==> r == Some(10usize),
        !key.is_plain(KeyCode::Char('j')) && !key.is_control(KeyCode::Char('d')) ==> r is None,
{
    match (key.modifiers, key.code) {
        (Modifiers::NoModifier, KeyCode::Char('j')) => Some(
            match state.pending_count {
                Some(n) => n,
                None => 1,
            },
        ),
        (Modifiers::Control, KeyCode::Char('d')) => Some(10),
        _ => None,
    }
}

} // verus!
