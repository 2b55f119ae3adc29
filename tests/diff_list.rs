use multiverse::diff::{DiffList, DiffOp};

fn list(v: &[u32]) -> DiffList<u32> {
    DiffList::from_vec(v.to_vec())
}

#[test]
fn append_and_push() {
    let mut l = list(&[1]);
    l.apply_batch(vec![DiffOp::Append(vec![2, 3]), DiffOp::PushFront(0), DiffOp::PushBack(4)]);
    assert_eq!(l.as_slice(), &[0, 1, 2, 3, 4]);
}

#[test]
fn insert_replace_remove() {
    let mut l = list(&[1, 2, 3]);
    l.apply_batch(vec![
        DiffOp::Insert { index: 1, value: 9 },
        DiffOp::Replace { index: 0, value: 7 },
        DiffOp::Remove { index: 3 },
    ]);
    assert_eq!(l.as_slice(), &[7, 9, 2]);
}

#[test]
fn pops_and_truncate() {
    let mut l = list(&[1, 2, 3, 4, 5]);
    l.apply_batch(vec![DiffOp::PopFront, DiffOp::PopBack, DiffOp::Truncate { length: 2 }]);
    assert_eq!(l.as_slice(), &[2, 3]);
}

#[test]
fn pops_on_empty_leave_it_empty() {
    let mut l = list(&[]);
    l.apply_batch(vec![DiffOp::PopFront, DiffOp::PopBack]);
    assert!(l.is_empty());
}

#[test]
fn move_takes_and_puts_back() {
    let mut l = list(&[1, 2, 3, 4]);
    l.apply(DiffOp::Move { from: 0, to: 2 });
    assert_eq!(l.as_slice(), &[2, 3, 1, 4]);
    l.apply(DiffOp::Move { from: 3, to: 0 });
    assert_eq!(l.as_slice(), &[4, 2, 3, 1]);
}

#[test]
fn clear_and_reset() {
    let mut l = list(&[1, 2]);
    l.apply(DiffOp::Clear);
    assert_eq!(l.len(), 0);
    l.apply(DiffOp::Reset(vec![5, 6, 7]));
    assert_eq!(l.as_slice(), &[5, 6, 7]);
    assert_eq!(l.get(2), Some(&7));
    assert_eq!(l.get(3), None);
}

#[test]
fn out_of_range_positions_change_nothing() {
    let mut l = list(&[1, 2]);
    l.apply_batch(vec![
        DiffOp::Insert { index: 3, value: 0 },
        DiffOp::Replace { index: 2, value: 0 },
        DiffOp::Remove { index: 2 },
        DiffOp::Move { from: 0, to: 2 },
        DiffOp::Truncate { length: 5 },
    ]);
    assert_eq!(l.as_slice(), &[1, 2]);
}

fn batches() -> (Vec<DiffOp<u32>>, Vec<DiffOp<u32>>) {
    (
        vec![DiffOp::PushBack(1), DiffOp::Insert { index: 0, value: 2 }, DiffOp::Append(vec![3, 4])],
        vec![DiffOp::Remove { index: 1 }, DiffOp::Move { from: 0, to: 2 }, DiffOp::Replace { index: 0, value: 8 }],
    )
}

#[test]
fn batches_one_at_a_time_equal_their_concatenation() {
    let (a, b) = batches();
    let mut one = list(&[10]);
    one.apply_batch(a);
    one.apply_batch(b);

    let (a, b) = batches();
    let mut joined: Vec<DiffOp<u32>> = a;
    joined.extend(b);
    let mut both = list(&[10]);
    both.apply_batch(joined);

    assert_eq!(one.as_slice(), both.as_slice());
    assert_eq!(one.as_slice(), &[8, 3, 2, 4]);
}
