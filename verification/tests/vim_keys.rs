use music_player::keys::{Key, KeyCode, Modifiers};
use music_player::vim::edit::{edit_action_for, EditAction, EditState};
use music_player::vim::history::History;
use music_player::vim::motion::{
    count_would_overflow, cursor_down, cursor_up, handle_motion_key, rows_down, ListCursor, MotionAction,
    MotionState,
};

fn plain(c: char) -> Key {
    Key::new(Modifiers::NoModifier, KeyCode::Char(c))
}

fn shifted(c: char) -> Key {
    Key::new(Modifiers::Shift, KeyCode::Char(c))
}

fn ctrl(c: char) -> Key {
    Key::new(Modifiers::Control, KeyCode::Char(c))
}

#[test]
fn j_and_k_move_down_and_up() {
    let mut cur = ListCursor { cursor: 0, len: 5 };
    let mut st = MotionState::new();
    assert_eq!(handle_motion_key(&mut cur, &mut st, plain('j')), Some(MotionAction::MoveDown(1)));
    assert_eq!(cur.cursor, 1);
    assert_eq!(handle_motion_key(&mut cur, &mut st, plain('k')), Some(MotionAction::MoveUp(1)));
    assert_eq!(cur.cursor, 0);
    assert_eq!(handle_motion_key(&mut cur, &mut st, plain('k')), Some(MotionAction::MoveUp(1)));
    assert_eq!(cur.cursor, 0);
}

#[test]
fn a_count_multiplies_the_motion() {
    let mut cur = ListCursor { cursor: 0, len: 50 };
    let mut st = MotionState::new();
    assert_eq!(handle_motion_key(&mut cur, &mut st, plain('1')), Some(MotionAction::PendingCount));
    assert_eq!(handle_motion_key(&mut cur, &mut st, plain('2')), Some(MotionAction::PendingCount));
    assert_eq!(st.pending_count, Some(12));
    assert_eq!(handle_motion_key(&mut cur, &mut st, plain('j')), Some(MotionAction::MoveDown(12)));
    assert_eq!(cur.cursor, 12);
    assert_eq!(st.pending_count, None);
    assert_eq!(handle_motion_key(&mut cur, &mut st, plain('j')), Some(MotionAction::MoveDown(1)));
    assert_eq!(cur.cursor, 13);
}

#[test]
fn control_d_and_u_move_ten_rows() {
    let mut cur = ListCursor { cursor: 3, len: 30 };
    let mut st = MotionState::new();
    assert_eq!(handle_motion_key(&mut cur, &mut st, ctrl('d')), Some(MotionAction::HalfPageDown));
    assert_eq!(cur.cursor, 13);
    assert_eq!(handle_motion_key(&mut cur, &mut st, ctrl('u')), Some(MotionAction::HalfPageUp));
    assert_eq!(cur.cursor, 3);
    assert_eq!(handle_motion_key(&mut cur, &mut st, ctrl('u')), Some(MotionAction::HalfPageUp));
    assert_eq!(cur.cursor, 0);
    let mut short = ListCursor { cursor: 2, len: 6 };
    handle_motion_key(&mut short, &mut st, ctrl('d'));
    assert_eq!(short.cursor, 5);
}

#[test]
fn gg_and_shift_g_go_to_the_ends() {
    let mut cur = ListCursor { cursor: 4, len: 9 };
    let mut st = MotionState::new();
    assert_eq!(handle_motion_key(&mut cur, &mut st, shifted('G')), Some(MotionAction::GoToBottom));
    assert_eq!(cur.cursor, 8);
    assert_eq!(handle_motion_key(&mut cur, &mut st, plain('g')), Some(MotionAction::PendingG));
    assert_eq!(cur.cursor, 8);
    assert_eq!(handle_motion_key(&mut cur, &mut st, plain('g')), Some(MotionAction::GoToTop));
    assert_eq!(cur.cursor, 0);
    // A key between the two g's cancels the pending g.
    handle_motion_key(&mut cur, &mut st, shifted('G'));
    handle_motion_key(&mut cur, &mut st, plain('g'));
    assert_eq!(handle_motion_key(&mut cur, &mut st, plain('x')), None);
    assert_eq!(handle_motion_key(&mut cur, &mut st, plain('g')), Some(MotionAction::PendingG));
    assert_eq!(cur.cursor, 8);
}

#[test]
fn enter_selects_and_empty_lists_stay_at_zero() {
    let mut cur = ListCursor { cursor: 0, len: 0 };
    let mut st = MotionState::new();
    assert_eq!(handle_motion_key(&mut cur, &mut st, Key::new(Modifiers::NoModifier, KeyCode::Enter)), Some(MotionAction::Select));
    handle_motion_key(&mut cur, &mut st, plain('j'));
    assert_eq!(cur.cursor, 0);
    handle_motion_key(&mut cur, &mut st, shifted('G'));
    assert_eq!(cur.cursor, 0);
}

#[test]
fn cursor_arithmetic_clamps() {
    assert_eq!(cursor_down(2, 3, 10), 5);
    assert_eq!(cursor_down(8, 3, 10), 9);
    assert_eq!(cursor_down(usize::MAX - 1, usize::MAX, usize::MAX), usize::MAX - 1);
    assert_eq!(cursor_down(0, 1, 0), 0);
    assert_eq!(cursor_up(5, 2), 3);
    assert_eq!(cursor_up(1, 4), 0);
    // Down then up by the same count comes back when nothing was clamped.
    assert_eq!(cursor_up(cursor_down(4, 3, 20), 3), 4);
}

#[test]
fn counts_that_overflow_are_detected() {
    let st = MotionState { pending_count: Some(usize::MAX / 10), last_was_g: false };
    assert!(count_would_overflow(st, plain('9')));
    assert!(!count_would_overflow(MotionState::new(), plain('9')));
    assert!(!count_would_overflow(st, plain('j')));
    assert_eq!(rows_down(MotionState { pending_count: Some(7), last_was_g: false }, plain('j')), Some(7));
    assert_eq!(rows_down(MotionState::new(), ctrl('d')), Some(10));
    assert_eq!(rows_down(MotionState::new(), plain('k')), None);
}

#[test]
fn edit_keys() {
    let idle = EditState::new();
    assert_eq!(edit_action_for(idle, plain('i')), Some(EditAction::InsertAbove));
    assert_eq!(edit_action_for(idle, shifted('O')), Some(EditAction::InsertAbove));
    assert_eq!(edit_action_for(idle, plain('a')), Some(EditAction::InsertBelow));
    assert_eq!(edit_action_for(idle, plain('o')), Some(EditAction::InsertBelow));
    assert_eq!(edit_action_for(idle, plain('d')), None);
    assert_eq!(edit_action_for(EditState { last_was_d: true }, plain('d')), Some(EditAction::DeleteCurrent));
    assert_eq!(edit_action_for(idle, shifted('D')), Some(EditAction::DeleteFromCursor));
    assert_eq!(edit_action_for(idle, shifted('J')), Some(EditAction::MoveDown));
    assert_eq!(edit_action_for(idle, shifted('K')), Some(EditAction::MoveUp));
    assert_eq!(edit_action_for(idle, plain('x')), None);
}

#[test]
fn undo_gives_back_the_last_snapshot_and_redo_restores() {
    let mut h: History<u32> = History::new(3);
    assert!(!h.can_undo());
    assert_eq!(h.undo(9), None);
    h.push(1);
    h.push(2);
    assert_eq!(h.undo(3), Some(2));
    assert!(h.can_redo());
    assert_eq!(h.redo(2), Some(3));
    assert_eq!(h.undo(3), Some(2));
    // A new snapshot clears the redo stack.
    h.push(5);
    assert!(!h.can_redo());
    assert_eq!(h.redo(7), None);
}

#[test]
fn history_drops_the_oldest_beyond_its_bound() {
    let mut h: History<u32> = History::new(2);
    h.push(1);
    h.push(2);
    h.push(3);
    assert_eq!(h.undo(0), Some(3));
    assert_eq!(h.undo(0), Some(2));
    assert_eq!(h.undo(0), None);
}
