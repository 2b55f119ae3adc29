use vstd::prelude::*;
use crate::diff::{DiffList, DiffOp, apply_ops};

verus! {

/// The position `next` moves to in a list of `len` values (`len > 0`): one
/// further, or back to the first after the last.
pub open spec fn next_index(len: nat, prev: Option<usize>) -> nat {
    match prev {
        None => 0,
        Some(i) => if i + 1 >= len { 0 } else { (i + 1) as nat },
    }
}

/// The position `previous` moves to in a list of `len` values (`len > 0`):
/// one back, or to the last from the first (or from past the end).
pub open spec fn previous_index(len: nat, prev: Option<usize>) -> nat {
    match prev {
        None => 0,
        Some(i) => if i == 0 || i >= len { (len - 1) as nat } else { (i - 1) as nat },
    }
}

/// The position that an explicit `index` or else the cursor names.
pub open spec fn target_index(index: Option<usize>, cursor: Option<usize>) -> Option<usize> {
    match index {
        Some(i) => Some(i),
        None => cursor,
    }
}

/// A diff-fed sequence with one optional selection cursor.
pub struct SelectableList<T> {
    list: DiffList<T>,
    selected: Option<usize>,
}

impl<T> SelectableList<T> {
    /// The values, in order.
    pub closed spec fn items(&self) -> Seq<T> {
        self.list@
    }

    /// The selected position, if any.
    pub closed spec fn cursor(&self) -> Option<usize> {
        self.selected
    }

    /// An empty list with nothing selected.
    pub fn new() -> (r: Self)
        ensures
            r.items() == Seq::<T>::empty(),
            r.cursor() == None::<usize>,
    {
        SelectableList { list: DiffList::new(), selected: None }
    }

    pub fn len(&self) -> (r: usize)
        ensures
            r == self.items().len(),
    {
        self.list.len()
    }

    /// The values, in order.
    pub fn as_slice(&self) -> (r: &[T])
        ensures
            r@ == self.items(),
    {
        self.list.as_slice()
    }

    /// The selected position, if any.
    pub fn selected(&self) -> (r: Option<usize>)
        ensures
            r == self.cursor(),
    {
        self.selected
    }

    /// Applies a diff batch to the values; the cursor stays where it is.
    pub fn apply_batch(&mut self, batch: Vec<DiffOp<T>>)
        ensures
            final(self).items() == apply_ops(old(self).items(), batch@),
            final(self).cursor() == old(self).cursor(),
    {
        self.list.apply_batch(batch);
    }

    /// Selects `index` where it is a position of the list, and nothing
    /// otherwise.
    pub fn select(&mut self, index: Option<usize>)
        ensures
            final(self).items() == old(self).items(),
            final(self).cursor() == (match index {
                Some(i) => if i < old(self).items().len() { Some(i) } else { None },
                None => None,
            }),
    {
        self.selected = match index {
            Some(i) => if i < self.list.len() { Some(i) } else { None },
            None => None,
        };
    }

    /// The value at `index`, or at the cursor where `index` is `None`.
    pub fn target(&self, index: Option<usize>) -> (r: Option<&T>)
        ensures
            r == (match target_index(index, self.cursor()) {
                Some(i) => if i < self.items().len() { Some(&self.items()[i as int]) } else { None },
                None => None,
            }),
    {
        let at = match index {
            Some(i) => Some(i),
            None => self.selected,
        };
        match at {
            Some(i) => self.list.get(i),
            None => None,
        }
    }

    /// Moves the cursor one value on, from the last back to the first.
    ///
    /// On an empty list the cursor is cleared. The new position is returned
    /// only where it differs from the old one.
    pub fn next(&mut self) -> (r: Option<usize>)
        ensures
            final(self).items() == old(self).items(),
            old(self).items().len() == 0 ==> final(self).cursor() == None::<usize> && r
                == None::<usize>,
            old(self).items().len() > 0 ==> {
                let n = next_index(old(self).items().len(), old(self).cursor());
                &&& final(self).cursor() == Some(n as usize)
                &&& r == if old(self).cursor() == Some(n as usize) {
                    None::<usize>
                } else {
                    Some(n as usize)
                }
            },
    {
        let len = self.list.len();
        if len == 0 {
            self.selected = None;
            return None;
        }
        let prev = self.selected;
        let new: usize = match prev {
            None => 0,
            Some(i) => if i >= len - 1 { 0 } else { i + 1 },
        };
        self.selected = Some(new);
        if prev != Some(new) {
            Some(new)
        } else {
            None
        }
    }

    /// Moves the cursor one value back, from the first to the last.
    ///
    /// On an empty list the cursor is cleared. The new position is returned
    /// only where it differs from the old one.
    pub fn previous(&mut self) -> (r: Option<usize>)
        ensures
            final(self).items() == old(self).items(),
            old(self).items().len() == 0 ==> final(self).cursor() == None::<usize> && r
                == None::<usize>,
            old(self).items().len() > 0 ==> {
                let n = previous_index(old(self).items().len(), old(self).cursor());
                &&& final(self).cursor() == Some(n as usize)
                &&& r == if old(self).cursor() == Some(n as usize) {
                    None::<usize>
                } else {
                    Some(n as usize)
                }
            },
    {
        let len = self.list.len();
        if len == 0 {
            self.selected = None;
            return None;
        }
        let prev = self.selected;
        let new: usize = match prev {
            None => 0,
            Some(i) => if i == 0 || i >= len { len - 1 } else { i - 1 },
        };
        self.selected = Some(new);
        if prev != Some(new) {
            Some(new)
        } else {
            None
        }
    }
}

/// Navigation keeps the cursor on a position of a non-empty list: `next` from
/// the last position goes to the first, `previous` from the first goes to the
/// last, and on a list of one value both stay on it.
pub proof fn lemma_navigation_wraps(len: nat, i: usize)
    requires
        len > 0,
        i < len,
    ensures
        next_index(len, Some(i)) < len,
        previous_index(len, Some(i)) < len,
        i == len - 1 ==> next_index(len, Some(i)) == 0,
        i == 0 ==> previous_index(len, Some(i)) == len - 1,
        len == 1 ==> next_index(len, Some(i)) == i && previous_index(len, Some(i)) == i,
{
}

} // verus!
