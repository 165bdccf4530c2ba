//! Circular selection cursor over a list.
//!
//! One `SelectionState` instance exists per visible list (full station
//! list and search-result list), so moving one cursor never disturbs the
//! other. The cursor either selects no entry or one index into the list;
//! `advance` and `retreat` wrap around at both ends and leave the
//! selection unset on an empty list.

use vstd::prelude::*;

verus! {

/// What `advance` does to a selection over a list of length `n`:
/// nothing selected becomes index 0, the last index wraps to 0, and an
/// empty list leaves the selection unset.
pub open spec fn spec_advance(cur: Option<int>, n: int) -> Option<int> {
    if n <= 0 {
        None
    } else {
        match cur {
            None => Some(0int),
            Some(i) => Some(if i + 1 >= n { 0int } else { i + 1 }),
        }
    }
}

/// What `retreat` does to a selection over a list of length `n`:
/// nothing selected becomes index 0, index 0 wraps to the last index,
/// and an empty list leaves the selection unset.
pub open spec fn spec_retreat(cur: Option<int>, n: int) -> Option<int> {
    if n <= 0 {
        None
    } else {
        match cur {
            None => Some(0int),
            Some(i) => Some(if i == 0 { n - 1 } else { i - 1 }),
        }
    }
}

/// A selection stays inside `[0, n)` whenever it selects anything.
pub open spec fn selection_in_bounds(cur: Option<int>, n: int) -> bool {
    match cur {
        Some(i) => 0 <= i < n,
        None => true,
    }
}

/// The highlighted position in one list: either none, or an index into
/// the list the instance belongs to.
pub struct SelectionState {
    pub selected: Option<usize>,
}

impl View for SelectionState {
    type V = Option<int>;

    open spec fn view(&self) -> Option<int> {
        match self.selected {
            Some(i) => Some(i as int),
            None => None,
        }
    }
}

impl SelectionState {
    /// A fresh cursor selects nothing.
    pub fn new() -> (s: Self)
        ensures
            s@ == None::<int>,
    {
        SelectionState { selected: None }
    }

    /// The currently highlighted index, if any.
    pub fn selected(&self) -> (r: Option<usize>)
        ensures
            r == self.selected,
    {
        self.selected
    }

    /// Move the highlight one entry down a list of length `n`, wrapping
    /// from the last entry to the first; on an empty list the selection
    /// is left unset.
    pub fn advance(&mut self, n: usize)
        ensures
            final(self)@ == spec_advance(old(self)@, n as int),
    {
        if n == 0 {
            self.selected = None;
        } else {
            let i: usize = match self.selected {
                Some(i) => {
                    if i >= n - 1 {
                        0
                    } else {
                        i + 1
                    }
                },
                None => 0,
            };
            self.selected = Some(i);
        }
    }

    /// Move the highlight one entry up a list of length `n`, wrapping
    /// from the first entry to the last; on an empty list the selection
    /// is left unset.
    pub fn retreat(&mut self, n: usize)
        ensures
            final(self)@ == spec_retreat(old(self)@, n as int),
    {
        if n == 0 {
            self.selected = None;
        } else {
            let i: usize = match self.selected {
                Some(i) => {
                    if i == 0 {
                        n - 1
                    } else {
                        i - 1
                    }
                },
                None => 0,
            };
            self.selected = Some(i);
        }
    }
}

impl Default for SelectionState {
    /// The default cursor selects nothing.
    fn default() -> (s: Self)
        ensures
            s@ == None::<int>,
    {
        SelectionState { selected: None }
    }
}

/// Law: however a selection came about, one `advance` or `retreat` over a
/// list of length `n` keeps the selected index (if any) inside `[0, n)`.
/// Together with `SelectionState::new`, which selects nothing, this gives
/// the bound for every sequence of moves by induction.
pub proof fn lemma_selection_in_bounds(cur: Option<int>, n: int)
    requires
        n >= 0,
        selection_in_bounds(cur, n),
    ensures
        selection_in_bounds(spec_advance(cur, n), n),
        selection_in_bounds(spec_retreat(cur, n), n),
        spec_advance(cur, n) is None ==> n == 0,
        spec_retreat(cur, n) is None ==> n == 0,
{
}

/// The selection left behind by a whole sequence of moves over a list
/// of length `n`: `true` stands for one `advance`, `false` for one
/// `retreat`.
pub open spec fn apply_moves(cur: Option<int>, moves: Seq<bool>, n: int) -> Option<int>
    decreases moves.len(),
{
    if moves.len() == 0 {
        cur
    } else {
        let next = if moves[0] {
            spec_advance(cur, n)
        } else {
            spec_retreat(cur, n)
        };
        apply_moves(next, moves.skip(1), n)
    }
}

/// Law: starting from any in-bounds selection — the fresh unset one in
/// particular — every sequence of `advance` and `retreat` moves over a
/// list of length `n` keeps the selected index, if any, inside
/// `[0, n)`.
pub proof fn lemma_move_sequence_in_bounds(cur: Option<int>, moves: Seq<bool>, n: int)
    requires
        n >= 0,
        selection_in_bounds(cur, n),
    ensures
        selection_in_bounds(apply_moves(cur, moves, n), n),
    decreases moves.len(),
{
    if moves.len() > 0 {
        lemma_selection_in_bounds(cur, n);
        let next = if moves[0] {
            spec_advance(cur, n)
        } else {
            spec_retreat(cur, n)
        };
        lemma_move_sequence_in_bounds(next, moves.skip(1), n);
    }
}

/// Law: wraparound is exact at both ends. On a list of length `n >= 1`,
/// advancing from the last index lands on 0 and retreating from 0 lands
/// on the last index.
pub proof fn lemma_selection_wraparound(n: int)
    requires
        n >= 1,
    ensures
        spec_advance(Some(n - 1), n) == Some(0int),
        spec_retreat(Some(0int), n) == Some(n - 1),
{
}

} // verus!
