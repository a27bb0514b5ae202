//! Vim edit keys: insert, delete and move items of a list.
use vstd::prelude::*;

use crate::keys::{Key, KeyCode, Modifiers};

verus! {

/// A list whose items vim edit keys insert, delete and move.
pub trait VimEditable: Sized {
    /// `after` is the value once an insertion above the cursor began.
    spec fn inserted_above(self, after: Self) -> bool;

    /// `after` is the value once an insertion below the cursor began.
    spec fn inserted_below(self, after: Self) -> bool;

    /// Whether the edit is defined on this value (its indices and
    /// arithmetic stay in range).
    spec fn can_edit(self, action: EditAction) -> bool;

    /// `after` is the value once the current item was deleted.
    spec fn deleted_current(self, after: Self) -> bool;

    /// `after` is the value once the items from the cursor on were deleted.
    spec fn deleted_from_cursor(self, after: Self) -> bool;

    /// `after` is the value once the current item moved up a row.
    spec fn moved_item_up(self, after: Self) -> bool;

    /// `after` is the value once the current item moved down a row.
    spec fn moved_item_down(self, after: Self) -> bool;

    fn insert_above(&mut self)
        requires
            old(self).can_edit(EditAction::InsertAbove),
        ensures
            old(self).inserted_above(*final(self)),
    ;

    fn insert_below(&mut self)
        requires
            old(self).can_edit(EditAction::InsertBelow),
        ensures
            old(self).inserted_below(*final(self)),
    ;

    fn delete_current(&mut self)
        requires
            old(self).can_edit(EditAction::DeleteCurrent),
        ensures
            old(self).deleted_current(*final(self)),
    ;

    fn delete_from_cursor(&mut self)
        requires
            old(self).can_edit(EditAction::DeleteFromCursor),
        ensures
            old(self).deleted_from_cursor(*final(self)),
    ;

    fn move_item_up(&mut self)
        requires
            old(self).can_edit(EditAction::MoveUp),
        ensures
            old(self).moved_item_up(*final(self)),
    ;

    fn move_item_down(&mut self)
        requires
            old(self).can_edit(EditAction::MoveDown),
        ensures
            old(self).moved_item_down(*final(self)),
    ;
}

/// What an edit key did.
#[derive(Debug, Clone, Copy, PartialEq, Eq, Structural)]
pub enum EditAction {
    InsertAbove,
    InsertBelow,
    DeleteCurrent,
    DeleteFromCursor,
    MoveUp,
    MoveDown,
}

/// Whether the last key was a `d` (the first half of `dd`).
#[derive(Debug, Clone, Copy, PartialEq, Eq, Structural)]
pub struct EditState {
    pub last_was_d: bool,
}

impl EditState {
    /// No pending `d`.
    pub fn new() -> (s: Self)
        ensures
            !s.last_was_d,
    {
        EditState { last_was_d: false }
    }

    /// Forgets a pending `d`.
    pub fn reset(&mut self)
        ensures
            !final(self).last_was_d,
    {
        self.last_was_d = false;
    }
}

/// The edit that key `key` performs in state `state`, if any.
pub open spec fn edit_action_of(state: EditState, key: Key) -> Option<EditAction> {
    if key.is_plain(KeyCode::Char('i')) || key.is_shifted(KeyCode::Char('O')) {
        Some(EditAction::InsertAbove)
    } else if key.is_plain(KeyCode::Char('a')) || key.is_plain(KeyCode::Char('o')) {
        Some(EditAction::InsertBelow)
    } else if key.is_plain(KeyCode::Char('d')) && state.last_was_d {
        Some(EditAction::DeleteCurrent)
    } else if key.is_shifted(KeyCode::Char('D')) {
        Some(EditAction::DeleteFromCursor)
    } else if key.is_shifted(KeyCode::Char('J')) {
        Some(EditAction::MoveDown)
    } else if key.is_shifted(KeyCode::Char('K')) {
        Some(EditAction::MoveUp)
    } else {
        None
    }
}

/// What an edit key does: `target2`, `state2` and `r` are the list, the
/// state and the action after it.
pub open spec fn edit_outcome<T: VimEditable>(
    target: T,
    state: EditState,
    key: Key,
    target2: T,
    state2: EditState,
    r: Option<EditAction>,
) -> bool {
    let cleared = EditState { last_was_d: false };
    if key.is_plain(KeyCode::Char('i')) || key.is_shifted(KeyCode::Char('O')) {
        target.inserted_above(target2) && state2 == cleared && r == Some(EditAction::InsertAbove)
    } else if key.is_plain(KeyCode::Char('a')) || key.is_plain(KeyCode::Char('o')) {
        target.inserted_below(target2) && state2 == cleared && r == Some(EditAction::InsertBelow)
    } else if key.is_plain(KeyCode::Char('d')) {
        if state.last_was_d {
            target.deleted_current(target2) && state2 == cleared && r == Some(EditAction::DeleteCurrent)
        } else {
            target2 == target && state2 == EditState { last_was_d: true } && r is None
        }
    } else if key.is_shifted(KeyCode::Char('D')) {
        target.deleted_from_cursor(target2) && state2 == cleared && r == Some(EditAction::DeleteFromCursor)
    } else if key.is_shifted(KeyCode::Char('J')) {
        target.moved_item_down(target2) && state2 == cleared && r == Some(EditAction::MoveDown)
    } else if key.is_shifted(KeyCode::Char('K')) {
        target.moved_item_up(target2) && state2 == cleared && r == Some(EditAction::MoveUp)
    } else {
        target2 == target && state2 == cleared && r is None
    }
}

/// Handles an edit key. Returns the action when one was completed, `None`
/// when the key is not an edit key or is the first `d` of `dd`.
pub fn handle_edit_key<T: VimEditable>(target: &mut T, state: &mut EditState, key: Key) -> (r: Option<
    EditAction,
>)
    requires
        edit_action_of(*old(state), key) matches Some(a) ==> old(target).can_edit(a),
    ensures
        edit_outcome(*old(target), *old(state), key, *final(target), *final(state), r),
{
    match (key.modifiers, key.code) {
        (Modifiers::NoModifier, KeyCode::Char('i')) => {
            state.reset();
            target.insert_above();
            Some(EditAction::InsertAbove)
        },
        (Modifiers::NoModifier, KeyCode::Char('a')) => {
            state.reset();
            target.insert_below();
            Some(EditAction::InsertBelow)
        },
        (Modifiers::NoModifier, KeyCode::Char('o')) => {
            state.reset();
            target.insert_below();
            Some(EditAction::InsertBelow)
        },
        (Modifiers::Shift, KeyCode::Char('O')) => {
            state.reset();
            target.insert_above();
            Some(EditAction::InsertAbove)
        },
        (Modifiers::NoModifier, KeyCode::Char('d')) => {
            if state.last_was_d {
                state.reset();
                target.delete_current();
                Some(EditAction::DeleteCurrent)
            } else {
                state.last_was_d = true;
                None
            }
        },
        (Modifiers::Shift, KeyCode::Char('D')) => {
            state.reset();
            target.delete_from_cursor();
            Some(EditAction::DeleteFromCursor)
        },
        (Modifiers::Shift, KeyCode::Char('J')) => {
            state.reset();
            target.move_item_down();
            Some(EditAction::MoveDown)
        },
        (Modifiers::Shift, KeyCode::Char('K')) => {
            state.reset();
            target.move_item_up();
            Some(EditAction::MoveUp)
        },
        _ => {
            state.last_was_d = false;
            None
        },
    }
}

/// The edit that key `key` performs in state `state`, if any.
pub fn edit_action_for(state: EditState, key: Key) -> (r: Option<EditAction>)
    ensures
        r == edit_action_of(state, key),
{
    match (key.modifiers, key.code) {
        (Modifiers::NoModifier, KeyCode::Char('i')) | (Modifiers::Shift, KeyCode::Char('O')) => Some(EditAction::InsertAbove),
        (Modifiers::NoModifier, KeyCode::Char('a')) | (Modifiers::NoModifier, KeyCode::Char('o')) => Some(EditAction::InsertBelow),
        (Modifiers::NoModifier, KeyCode::Char('d')) => if state.last_was_d {
            Some(EditAction::DeleteCurrent)
        } else {
            None
        },
        (Modifiers::Shift, KeyCode::Char('D')) => Some(EditAction::DeleteFromCursor),
        (Modifiers::Shift, KeyCode::Char('J')) => Some(EditAction::MoveDown),
        (Modifiers::Shift, KeyCode::Char('K')) => Some(EditAction::MoveUp),
        _ => None,
    }
}

} // verus!
