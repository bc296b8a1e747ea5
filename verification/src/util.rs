//! A selectable list: an ordered sequence of items paired with a single
//! optional selected index. Moving forward wraps from the last item to the
//! first; moving backward stops at the first item (deliberately asymmetric).
//! On an empty list both movements leave the selection unset.

use vstd::prelude::*;

verus! {

/// An ordered list of items together with the index currently selected, if
/// any. The selection is only ever set by the movement operations below, so
/// an out-of-range selection is structurally impossible.
pub struct StatefulList<T> {
    pub list: Vec<T>,
    pub selected: Option<usize>,
}

/// Where the selection lands after one forward step on a list of length
/// `len`: unset stays unset on an empty list, becomes the first index
/// otherwise; a set selection advances by one and wraps from the last index
/// to the first.
pub open spec fn spec_advance(len: nat, sel: Option<usize>) -> Option<usize> {
    if len == 0 {
        sel
    } else {
        match sel {
            Option::None => Option::Some(0usize),
            Option::Some(i) => if i + 1 < len {
                Option::Some((i + 1) as usize)
            } else {
                Option::Some(0usize)
            },
        }
    }
}

/// Where the selection lands after one backward step: unset stays unset on
/// an empty list, becomes the first index otherwise; a set selection moves
/// back by one but stays at the first index instead of wrapping.
pub open spec fn spec_retreat(len: nat, sel: Option<usize>) -> Option<usize> {
    if len == 0 {
        sel
    } else {
        match sel {
            Option::None => Option::Some(0usize),
            Option::Some(i) => if i == 0 {
                Option::Some(0usize)
            } else {
                Option::Some((i - 1) as usize)
            },
        }
    }
}

/// Where the selection lands after `n` forward steps on a list of length
/// `len`.
pub open spec fn spec_advance_n(len: nat, sel: Option<usize>, n: nat) -> Option<usize>
    decreases n,
{
    if n == 0 {
        sel
    } else {
        spec_advance(len, spec_advance_n(len, sel, (n - 1) as nat))
    }
}

proof fn lemma_advance_no_wrap(len: nat, i: usize, k: nat)
    requires
        i + k < len <= usize::MAX,
    ensures
        spec_advance_n(len, Option::Some(i), k) == Option::Some((i + k) as usize),
    decreases k,
{
    if k > 0 {
        lemma_advance_no_wrap(len, i, (k - 1) as nat);
    }
}

proof fn lemma_advance_n_add(len: nat, sel: Option<usize>, a: nat, b: nat)
    ensures
        spec_advance_n(len, sel, a + b) == spec_advance_n(len, spec_advance_n(len, sel, a), b),
    decreases b,
{
    if b > 0 {
        lemma_advance_n_add(len, sel, a, (b - 1) as nat);
        assert(a + b - 1 == a + (b - 1) as nat);
    }
}

/// Law: on a non-empty list, advancing the selection exactly `len` times is
/// one full cycle; it returns the selection to the index it started at.
pub proof fn lemma_advance_full_cycle(len: nat, i: usize)
    requires
        i < len <= usize::MAX,
    ensures
        spec_advance_n(len, Option::Some(i), len) == Option::Some(i),
{
    let to_last: nat = (len - 1 - i) as nat;
    lemma_advance_no_wrap(len, i, to_last);
    assert(spec_advance_n(len, Option::Some(i), to_last + 1) == Option::Some(0usize));
    lemma_advance_no_wrap(len, 0usize, i as nat);
    lemma_advance_n_add(len, Option::Some(i), to_last + 1, i as nat);
    assert(to_last + 1 + i as nat == len);
}

/// Law: a backward step with the first item selected leaves the first item
/// selected; the selection neither underflows nor wraps to the end.
pub proof fn lemma_retreat_at_first(len: nat)
    requires
        0 < len,
    ensures
        spec_retreat(len, Option::Some(0usize)) == Option::Some(0usize),
{
}

impl<T> StatefulList<T> {
    /// A selection, when set, is a valid index; an empty list never has one.
    pub open spec fn wf(self) -> bool {
        &&& (self.selected is Some ==> self.selected->0 < self.list@.len())
        &&& (self.list@.len() == 0 ==> self.selected is None)
    }

    /// An empty list with no selection.
    pub fn new() -> (r: StatefulList<T>)
        ensures
            r.list@ == Seq::<T>::empty(),
            r.selected is None,
            r.wf(),
    {
        StatefulList { list: Vec::new(), selected: Option::None }
    }

    /// A list holding the given items, selection unset.
    pub fn with_items(items: Vec<T>) -> (r: StatefulList<T>)
        ensures
            r.list == items,
            r.selected is None,
            r.wf(),
    {
        StatefulList { list: items, selected: Option::None }
    }

    /// Selects the first item if there is one; leaves an empty list's
    /// selection unset.
    pub fn select_first(&mut self)
        ensures
            final(self).list == old(self).list,
            final(self).selected == (if old(self).list@.len() > 0 {
                Option::Some(0usize)
            } else {
                Option::<usize>::None
            }),
            final(self).wf(),
    {
        if self.list.len() > 0 {
            self.selected = Option::Some(0);
        } else {
            self.selected = Option::None;
        }
    }

    /// Moves the selection one item forward, wrapping from the last item to
    /// the first; sets it to the first item when it was unset. A no-op on an
    /// empty list.
    pub fn next(&mut self)
        requires
            old(self).wf(),
        ensures
            final(self).list == old(self).list,
            final(self).selected == spec_advance(old(self).list@.len(), old(self).selected),
            final(self).wf(),
    {
        if self.list.len() == 0 {
            return;
        }
        let i: usize = match self.selected {
            Option::Some(i) => if i >= self.list.len() - 1 {
                0
            } else {
                i + 1
            },
            Option::None => 0,
        };
        self.selected = Option::Some(i);
    }

    /// Moves the selection one item backward, stopping at the first item
    /// (no wrap); sets it to the first item when it was unset. A no-op on an
    /// empty list.
    pub fn prev(&mut self)
        requires
            old(self).wf(),
        ensures
            final(self).list == old(self).list,
            final(self).selected == spec_retreat(old(self).list@.len(), old(self).selected),
            final(self).wf(),
    {
        if self.list.len() == 0 {
            return;
        }
        let i: usize = match self.selected {
            Option::Some(i) => if i != 0 {
                i - 1
            } else {
                0
            },
            Option::None => 0,
        };
        self.selected = Option::Some(i);
    }
}

} // verus!
