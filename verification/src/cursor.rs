//! The selection cursor: the highlighted index into the task list, with
//! wraparound movement bounded by the current record count.

use vstd::prelude::*;
use vstd::arithmetic::div_mod::{
    lemma_add_mod_noop, lemma_mod_self_0, lemma_small_mod,
};

verus! {

/// The highlighted position in the task list, or `None` while the list is
/// empty.
#[derive(Clone, Copy, Debug)]
pub struct SelectionCursor {
    pub selected: Option<usize>,
}

impl SelectionCursor {
    /// The cursor is well formed for a list of `len` records when it is
    /// `None` exactly on the empty list and otherwise points inside the list.
    pub open spec fn wf(self, len: nat) -> bool {
        match self.selected {
            Option::None => len == 0,
            Option::Some(i) => (i as nat) < len,
        }
    }

    /// A cursor for a freshly read list: the first record, if any.
    pub fn new(len: usize) -> (r: SelectionCursor)
        ensures
            r == initial_cursor_spec(len as nat),
            r.wf(len as nat),
    {
        if len == 0 {
            SelectionCursor { selected: None }
        } else {
            SelectionCursor { selected: Some(0) }
        }
    }

    /// The highlighted index, if any.
    pub fn selected(&self) -> (r: Option<usize>)
        ensures
            r == self.selected,
    {
        self.selected
    }

    /// Whether this cursor is well formed for a list of `len` records.
    pub fn in_bounds(&self, len: usize) -> (r: bool)
        ensures
            r == self.wf(len as nat),
    {
        match self.selected {
            None => len == 0,
            Some(i) => i < len,
        }
    }

    /// Move the highlight one record forward, wrapping from the last record
    /// to the first; a no-op on an empty list.
    pub fn advance(&mut self, len: usize)
        requires
            old(self).wf(len as nat),
        ensures
            *final(self) == advance_spec(*old(self), len as nat),
            final(self).wf(len as nat),
    {
        match self.selected {
            None => {},
            Some(i) => {
                if i + 1 < len {
                    self.selected = Some(i + 1);
                } else {
                    self.selected = Some(0);
                }
            },
        }
    }

    /// Move the highlight one record backward, wrapping from the first record
    /// to the last; a no-op on an empty list.
    pub fn retreat(&mut self, len: usize)
        requires
            old(self).wf(len as nat),
        ensures
            *final(self) == retreat_spec(*old(self), len as nat),
            final(self).wf(len as nat),
    {
        match self.selected {
            None => {},
            Some(i) => {
                if i > 0 {
                    self.selected = Some(i - 1);
                } else {
                    self.selected = Some(len - 1);
                }
            },
        }
    }
}

/// The cursor a freshly read list starts with.
pub open spec fn initial_cursor_spec(len: nat) -> SelectionCursor {
    if len == 0 {
        SelectionCursor { selected: Option::None }
    } else {
        SelectionCursor { selected: Option::Some(0usize) }
    }
}

/// One forward step with wraparound over a list of `len` records.
pub open spec fn advance_spec(c: SelectionCursor, len: nat) -> SelectionCursor {
    match c.selected {
        Option::None => c,
        Option::Some(i) => if i + 1 < len {
            SelectionCursor { selected: Option::Some((i + 1) as usize) }
        } else {
            SelectionCursor { selected: Option::Some(0usize) }
        },
    }
}

/// One backward step with wraparound over a list of `len` records.
pub open spec fn retreat_spec(c: SelectionCursor, len: nat) -> SelectionCursor {
    match c.selected {
        Option::None => c,
        Option::Some(i) => if i > 0 {
            SelectionCursor { selected: Option::Some((i - 1) as usize) }
        } else {
            SelectionCursor { selected: Option::Some((len - 1) as usize) }
        },
    }
}

/// `n` forward steps with wraparound over a list of `len` records.
pub open spec fn advance_n_spec(c: SelectionCursor, len: nat, n: nat) -> SelectionCursor
    decreases n,
{
    if n == 0 {
        c
    } else {
        advance_spec(advance_n_spec(c, len, (n - 1) as nat), len)
    }
}

/// After `n` forward steps from index `i`, the cursor sits at `(i + n) % len`.
proof fn lemma_advance_n_mod(i: usize, len: usize, n: nat)
    requires
        (i as nat) < (len as nat),
    ensures
        advance_n_spec(SelectionCursor { selected: Option::Some(i) }, len as nat, n).selected
            == Option::Some((((i + n) % (len as int)) as usize)),
    decreases n,
{
    if n == 0 {
        lemma_small_mod(i as nat, len as nat);
    } else {
        lemma_advance_n_mod(i, len, (n - 1) as nat);
        let p = (i + n - 1) % (len as int);
        lemma_add_mod_noop(i + n - 1, 1, len as int);
        if len == 1 {
            lemma_mod_self_0(1int);
            lemma_small_mod(0nat, 1nat);
        } else {
            lemma_small_mod(1nat, len as nat);
            if p + 1 < len {
                lemma_small_mod((p + 1) as nat, len as nat);
            } else {
                lemma_mod_self_0(len as int);
            }
        }
    }
}

/// Full-cycle wraparound: on a non-empty list, advancing the cursor once per
/// record brings it back to where it started.
pub proof fn lemma_advance_full_cycle(c: SelectionCursor, len: usize)
    requires
        len > 0,
        c.wf(len as nat),
    ensures
        advance_n_spec(c, len as nat, len as nat) == c,
{
    let i = c.selected.unwrap();
    lemma_advance_n_mod(i, len, len as nat);
    lemma_add_mod_noop(i as int, len as int, len as int);
    lemma_mod_self_0(len as int);
    lemma_small_mod(i as nat, len as nat);
}

} // verus!
