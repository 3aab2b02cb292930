//! Cyclic movement of a cursor over a list.
use vstd::prelude::*;

verus! {

/// The index after `i` in a list of `n` items, wrapping to the first.
pub open spec fn next_index(i: int, n: int) -> int {
    if i + 1 >= n {
        0
    } else {
        i + 1
    }
}

/// The index before `i` in a list of `n` items, wrapping to the last.
pub open spec fn prev_index(i: int, n: int) -> int {
    if i <= 0 {
        n - 1
    } else {
        i - 1
    }
}

/// The index reached from `i` by `k` moves to the next item.
pub open spec fn next_steps(i: int, n: int, k: nat) -> int
    decreases k,
{
    if k == 0 {
        i
    } else {
        next_index(next_steps(i, n, (k - 1) as nat), n)
    }
}

proof fn lemma_next_steps_add(i: int, n: int, a: nat, b: nat)
    ensures
        next_steps(i, n, a + b) == next_steps(next_steps(i, n, a), n, b),
    decreases b,
{
    if b > 0 {
        lemma_next_steps_add(i, n, a, (b - 1) as nat);
        assert((a + b - 1) as nat == a + (b - 1) as nat);
    }
}

proof fn lemma_next_steps_climb(i: int, n: int, k: nat)
    requires
        0 <= i,
        i + k < n,
    ensures
        next_steps(i, n, k) == i + k,
    decreases k,
{
    if k > 0 {
        lemma_next_steps_climb(i, n, (k - 1) as nat);
    }
}

/// Moving to the next item as many times as there are items comes back to where
/// it started; moving back from the first item reaches the last.
pub proof fn lemma_cyclic_navigation(i: int, n: int)
    requires
        0 <= i < n,
    ensures
        next_steps(i, n, n as nat) == i,
        prev_index(0, n) == n - 1,
{
    let up = (n - 1 - i) as nat;
    lemma_next_steps_add(i, n, up, (i + 1) as nat);
    lemma_next_steps_climb(i, n, up);
    lemma_next_steps_add(n - 1, n, 1, i as nat);
    assert(next_steps(n - 1, n, 1) == 0) by {
        assert(next_steps(n - 1, n, 0) == n - 1);
    }
    lemma_next_steps_climb(0, n, i as nat);
    assert(up + (i + 1) as nat == n as nat);
}

/// The cursor after moving forward over `n` items; stays put when there are none.
pub fn step_next(i: usize, n: usize) -> (r: usize)
    ensures
        n == 0 ==> r == i,
        n > 0 ==> r == next_index(i as int, n as int),
{
    if n == 0 {
        i
    } else if i >= n - 1 {
        0
    } else {
        i + 1
    }
}

/// The cursor after moving back over `n` items; stays put when there are none.
pub fn step_previous(i: usize, n: usize) -> (r: usize)
    ensures
        n == 0 ==> r == i,
        n > 0 ==> r == prev_index(i as int, n as int),
{
    if n == 0 {
        i
    } else if i == 0 {
        n - 1
    } else {
        i - 1
    }
}

/// The selection and scroll position of a list on screen.
#[derive(Clone, Copy, Debug, Default, PartialEq, Eq, Structural)]
pub struct ListCursor {
    /// Index of the selected row, if any.
    pub selected: Option<usize>,
    /// Index of the first row shown.
    pub offset: usize,
}

impl ListCursor {
    pub open spec fn new_spec() -> ListCursor {
        ListCursor { selected: None, offset: 0 }
    }

    /// No row selected, scrolled to the top.
    pub fn new() -> (r: ListCursor)
        ensures
            r == ListCursor::new_spec(),
    {
        ListCursor { selected: None, offset: 0 }
    }

    /// The selected row.
    pub fn selected(&self) -> (r: Option<usize>)
        ensures
            r == self.selected,
    {
        self.selected
    }

    /// The first row shown.
    pub fn offset(&self) -> (r: usize)
        ensures
            r == self.offset,
    {
        self.offset
    }

    /// Selects a row; clearing the selection also scrolls back to the top.
    pub fn select(&mut self, index: Option<usize>)
        ensures
            final(self).selected == index,
            final(self).offset == if index is None {
                0
            } else {
                old(self).offset
            },
    {
        self.selected = index;
        if index.is_none() {
            self.offset = 0;
        }
    }
}

} // verus!
