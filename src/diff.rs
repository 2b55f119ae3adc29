use vstd::prelude::*;

verus! {

/// One structural change to an ordered sequence.
///
/// An operation whose position lies outside the sequence it is applied to
/// leaves that sequence as it is.
pub enum DiffOp<T> {
    /// Adds all the given values at the end.
    Append(Vec<T>),
    /// Removes every value.
    Clear,
    /// Adds a value at the front.
    PushFront(T),
    /// Adds a value at the end.
    PushBack(T),
    /// Removes the first value, if any.
    PopFront,
    /// Removes the last value, if any.
    PopBack,
    /// Inserts a value at a position (at most the length).
    Insert { index: usize, value: T },
    /// Replaces the value at a position.
    Replace { index: usize, value: T },
    /// Removes the value at a position.
    Remove { index: usize },
    /// Takes the value at `from` out and puts it back at `to`.
    Move { from: usize, to: usize },
    /// Keeps only the first `length` values.
    Truncate { length: usize },
    /// Replaces the whole sequence.
    Reset(Vec<T>),
}

/// The sequence that `op` turns `s` into.
pub open spec fn apply_op<T>(s: Seq<T>, op: DiffOp<T>) -> Seq<T> {
    match op {
        DiffOp::Append(v) => s + v@,
        DiffOp::Clear => Seq::empty(),
        DiffOp::PushFront(x) => seq![x] + s,
        DiffOp::PushBack(x) => s.push(x),
        DiffOp::PopFront => if s.len() == 0 { s } else { s.drop_first() },
        DiffOp::PopBack => if s.len() == 0 { s } else { s.drop_last() },
        DiffOp::Insert { index, value } => if index <= s.len() {
            s.insert(index as int, value)
        } else {
            s
        },
        DiffOp::Replace { index, value } => if index < s.len() {
            s.update(index as int, value)
        } else {
            s
        },
        DiffOp::Remove { index } => if index < s.len() {
            s.remove(index as int)
        } else {
            s
        },
        DiffOp::Move { from, to } => if from < s.len() && to < s.len() {
            s.remove(from as int).insert(to as int, s[from as int])
        } else {
            s
        },
        DiffOp::Truncate { length } => if length < s.len() {
            s.take(length as int)
        } else {
            s
        },
        DiffOp::Reset(v) => v@,
    }
}

/// The sequence that a batch turns `s` into: its operations one after the
/// other, first to last.
pub open spec fn apply_ops<T>(s: Seq<T>, ops: Seq<DiffOp<T>>) -> Seq<T>
    decreases ops.len(),
{
    if ops.len() == 0 {
        s
    } else {
        apply_ops(apply_op(s, ops[0]), ops.drop_first())
    }
}

/// Applying two batches one after the other is applying their concatenation.
pub proof fn lemma_batches_concatenate<T>(s: Seq<T>, a: Seq<DiffOp<T>>, b: Seq<DiffOp<T>>)
    ensures
        apply_ops(apply_ops(s, a), b) == apply_ops(s, a + b),
    decreases a.len(),
{
    if a.len() == 0 {
        assert(a + b =~= b);
    } else {
        assert((a + b).drop_first() =~= a.drop_first() + b);
        lemma_batches_concatenate(apply_op(s, a[0]), a.drop_first(), b);
    }
}

/// An ordered sequence that changes only by diff batches.
pub struct DiffList<T> {
    items: Vec<T>,
}

impl<T> View for DiffList<T> {
    type V = Seq<T>;

    closed spec fn view(&self) -> Seq<T> {
        self.items@
    }
}

impl<T> DiffList<T> {
    /// An empty sequence.
    pub fn new() -> (r: Self)
        ensures
            r@ == Seq::<T>::empty(),
    {
        DiffList { items: Vec::new() }
    }

    /// A sequence holding `items`, in their order.
    pub fn from_vec(items: Vec<T>) -> (r: Self)
        ensures
            r@ == items@,
    {
        DiffList { items }
    }

    pub fn len(&self) -> (r: usize)
        ensures
            r == self@.len(),
    {
        self.items.len()
    }

    pub fn is_empty(&self) -> (r: bool)
        ensures
            r == (self@.len() == 0),
    {
        self.items.len() == 0
    }

    /// The value at `index`, if the sequence is that long.
    pub fn get(&self, index: usize) -> (r: Option<&T>)
        ensures
            index < self@.len() ==> r == Some(&self@[index as int]),
            index >= self@.len() ==> r.is_none(),
    {
        if index < self.items.len() {
            Some(&self.items[index])
        } else {
            None
        }
    }

    /// The values, in order.
    pub fn as_slice(&self) -> (r: &[T])
        ensures
            r@ == self@,
    {
        self.items.as_slice()
    }

    /// Applies one operation.
    pub fn apply(&mut self, op: DiffOp<T>)
        ensures
            final(self)@ == apply_op(old(self)@, op),
    {
        let len = self.items.len();
        match op {
            DiffOp::Append(v) => {
                let mut v = v;
                self.items.append(&mut v);
            },
            DiffOp::Clear => {
                self.items.clear();
            },
            DiffOp::PushFront(x) => {
                self.items.insert(0, x);
                assert(self.items@ =~= seq![x] + old(self)@);
            },
            DiffOp::PushBack(x) => {
                self.items.push(x);
            },
            DiffOp::PopFront => {
                if len > 0 {
                    self.items.remove(0);
                    assert(self.items@ =~= old(self)@.drop_first());
                }
            },
            DiffOp::PopBack => {
                if len > 0 {
                    self.items.pop();
                    assert(self.items@ =~= old(self)@.drop_last());
                }
            },
            DiffOp::Insert { index, value } => {
                if index <= len {
                    self.items.insert(index, value);
                }
            },
            DiffOp::Replace { index, value } => {
                if index < len {
                    self.items.remove(index);
                    self.items.insert(index, value);
                    assert(self.items@ =~= old(self)@.update(index as int, value));
                }
            },
            DiffOp::Remove { index } => {
                if index < len {
                    self.items.remove(index);
                }
            },
            DiffOp::Move { from, to } => {
                if from < len && to < len {
                    let x = self.items.remove(from);
                    self.items.insert(to, x);
                }
            },
            DiffOp::Truncate { length } => {
                if length < len {
                    self.items.truncate(length);
                    assert(self.items@ =~= old(self)@.take(length as int));
                }
            },
            DiffOp::Reset(v) => {
                self.items = v;
            },
        }
    }

    /// Applies a batch, its operations in the order received.
    pub fn apply_batch(&mut self, batch: Vec<DiffOp<T>>)
        ensures
            final(self)@ == apply_ops(old(self)@, batch@),
    {
        let mut ops = batch;
        while ops.len() > 0
            invariant
                apply_ops(self@, ops@) == apply_ops(old(self)@, batch@),
            decreases ops.len(),
        {
            let ghost before = ops@;
            let op = ops.remove(0);
            assert(ops@ =~= before.drop_first());
            self.apply(op);
        }
    }
}

} // verus!
