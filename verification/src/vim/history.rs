//! Bounded undo/redo history of snapshots.
use vstd::prelude::*;
use std::collections::VecDeque;

verus! {

/// A single undoable snapshot of settings state, taken after every
/// confirmed action.
#[derive(Debug, Clone)]
pub struct Snapshot<T: Clone> {
    pub state: T,
}

/// Undo and redo stacks of snapshots, each holding at most `cap` entries
/// (the oldest entry is dropped to make room).
pub struct History<T: Clone> {
    /// Past states: undo pops from here.
    undo_stack: VecDeque<T>,
    /// Future states: redo pops from here.
    redo_stack: VecDeque<T>,
    cap: usize,
}

/// The stacks of a [`History`], oldest entry first, and its bound.
pub struct HistoryView<T> {
    pub undo: Seq<T>,
    pub redo: Seq<T>,
    pub cap: nat,
}

impl<T: Clone> View for History<T> {
    type V = HistoryView<T>;

    closed spec fn view(&self) -> HistoryView<T> {
        HistoryView { undo: self.undo_stack@, redo: self.redo_stack@, cap: self.cap as nat }
    }
}

/// `s` with `x` pushed on top; when `s` already holds `cap` entries, its
/// oldest entry is dropped first.
pub open spec fn bounded_push<T>(s: Seq<T>, x: T, cap: nat) -> Seq<T> {
    if s.len() == cap && s.len() > 0 {
        s.drop_first().push(x)
    } else {
        s.push(x)
    }
}

/// The history after recording a new snapshot.
pub open spec fn history_after_push<T>(h: HistoryView<T>, state: T) -> HistoryView<T> {
    HistoryView { undo: bounded_push(h.undo, state, h.cap), redo: Seq::empty(), cap: h.cap }
}

/// The history after an undo from state `current`, and the state returned.
pub open spec fn history_after_undo<T>(h: HistoryView<T>, current: T) -> (HistoryView<T>, Option<T>) {
    if h.undo.len() == 0 {
        (h, None)
    } else {
        (
            HistoryView { undo: h.undo.drop_last(), redo: bounded_push(h.redo, current, h.cap), cap: h.cap },
            Some(h.undo.last()),
        )
    }
}

/// The history after a redo from state `current`, and the state returned.
pub open spec fn history_after_redo<T>(h: HistoryView<T>, current: T) -> (HistoryView<T>, Option<T>) {
    if h.redo.len() == 0 {
        (h, None)
    } else {
        (
            HistoryView { undo: bounded_push(h.undo, current, h.cap), redo: h.redo.drop_last(), cap: h.cap },
            Some(h.redo.last()),
        )
    }
}

/// Neither stack holds more than `cap` entries.
pub open spec fn history_bounded<T>(h: HistoryView<T>) -> bool {
    h.undo.len() <= h.cap && h.redo.len() <= h.cap
}

fn push_bounded<T>(s: &mut VecDeque<T>, x: T, cap: usize)
    ensures
        final(s)@ == bounded_push(old(s)@, x, cap as nat),
{
    if s.len() == cap {
        let _ = s.pop_front();
    }
    s.push_back(x);
    proof {
        if old(s)@.len() == cap && old(s)@.len() > 0 {
            assert(final(s)@ =~= old(s)@.drop_first().push(x));
        }
    }
}

impl<T: Clone> History<T> {
    /// An empty history bounded by `cap`.
    pub fn new(cap: usize) -> (h: Self)
        ensures
            h@.undo == Seq::<T>::empty(),
            h@.redo == Seq::<T>::empty(),
            h@.cap == cap,
    {
        History { undo_stack: VecDeque::with_capacity(cap), redo_stack: VecDeque::with_capacity(cap), cap }
    }

    /// Pushes a snapshot onto the undo stack. Clears the redo stack: a new
    /// action invalidates redo history.
    pub fn push(&mut self, state: T)
        ensures
            final(self)@ == history_after_push(old(self)@, state),
    {
        push_bounded(&mut self.undo_stack, state, self.cap);
        self.redo_stack.clear();
        assert(self.redo_stack@ =~= Seq::<T>::empty());
    }

    /// Pops the last snapshot for undo, pushing `current` onto the redo
    /// stack; `None` and no change when there is nothing to undo.
    pub fn undo(&mut self, current: T) -> (r: Option<T>)
        ensures
            (final(self)@, r) == history_after_undo(old(self)@, current),
    {
        match self.undo_stack.pop_back() {
            None => None,
            Some(past) => {
                push_bounded(&mut self.redo_stack, current, self.cap);
                assert(self.undo_stack@ =~= old(self)@.undo.drop_last());
                Some(past)
            },
        }
    }

    /// Pops the last snapshot for redo, pushing `current` onto the undo
    /// stack; `None` and no change when there is nothing to redo.
    pub fn redo(&mut self, current: T) -> (r: Option<T>)
        ensures
            (final(self)@, r) == history_after_redo(old(self)@, current),
    {
        match self.redo_stack.pop_back() {
            None => None,
            Some(future) => {
                push_bounded(&mut self.undo_stack, current, self.cap);
                assert(self.redo_stack@ =~= old(self)@.redo.drop_last());
                Some(future)
            },
        }
    }

    /// Whether there is a snapshot to undo to.
    pub fn can_undo(&self) -> (r: bool)
        ensures
            r == (self@.undo.len() > 0),
    {
        self.undo_stack.len() != 0
    }

    /// Whether there is a snapshot to redo to.
    pub fn can_redo(&self) -> (r: bool)
        ensures
            r == (self@.redo.len() > 0),
    {
        self.redo_stack.len() != 0
    }
}

/// Undo right after recording a snapshot gives that snapshot back.
pub proof fn lemma_undo_after_push<T>(h: HistoryView<T>, state: T, current: T)
    ensures
        history_after_undo(history_after_push(h, state), current).1 == Some(state),
{
}

/// Undo then redo is a round trip: redo gives back the state that was
/// current at the undo, and both stacks are as before, unless the redo
/// stack was full (then its oldest entry is gone).
pub proof fn lemma_undo_then_redo<T>(h: HistoryView<T>, current: T)
    requires
        h.undo.len() > 0,
        history_bounded(h),
    ensures
        ({
            let (h1, past) = history_after_undo(h, current);
            let (h2, back) = history_after_redo(h1, past.unwrap());
            &&& back == Some(current)
            &&& h2.undo == h.undo
            &&& h.redo.len() < h.cap ==> h2.redo == h.redo
            &&& h2.cap == h.cap
        }),
{
    let (h1, past) = history_after_undo(h, current);
    assert(h1.undo.push(h.undo.last()) =~= h.undo);
    if h.redo.len() < h.cap {
        assert(h1.redo.drop_last() =~= h.redo);
    }
}

/// Redo then undo is a round trip in the same way.
pub proof fn lemma_redo_then_undo<T>(h: HistoryView<T>, current: T)
    requires
        h.redo.len() > 0,
        history_bounded(h),
    ensures
        ({
            let (h1, future) = history_after_redo(h, current);
            let (h2, back) = history_after_undo(h1, future.unwrap());
            &&& back == Some(current)
            &&& h2.redo == h.redo
            &&& h.undo.len() < h.cap ==> h2.undo == h.undo
            &&& h2.cap == h.cap
        }),
{
    let (h1, future) = history_after_redo(h, current);
    assert(h1.redo.push(h.redo.last()) =~= h.redo);
    if h.undo.len() < h.cap {
        assert(h1.undo.drop_last() =~= h.undo);
    }
}

/// A new snapshot leaves nothing to redo.
pub proof fn lemma_push_clears_redo<T>(h: HistoryView<T>, state: T)
    ensures
        history_after_push(h, state).redo.len() == 0,
        history_after_push(h, state).undo.len() > 0,
{
}

/// With a bound of at least one, no operation lets a stack outgrow it.
pub proof fn lemma_bound_kept<T>(h: HistoryView<T>, x: T)
    requires
        history_bounded(h),
        h.cap >= 1,
    ensures
        history_bounded(history_after_push(h, x)),
        history_bounded(history_after_undo(h, x).0),
        history_bounded(history_after_redo(h, x).0),
{
}

} // verus!
