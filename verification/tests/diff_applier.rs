use matrix_core::diffs::{apply_batch, apply_diff, DiffError, VectorDiff};

fn batch(ops: Vec<VectorDiff<u64>>) -> Vec<VectorDiff<u64>> {
    ops
}

#[test]
fn apply_each_operation_exactly() {
    let mut v: Vec<u64> = vec![10, 20, 30];
    assert_eq!(apply_diff(&mut v, VectorDiff::PushBack(40)), Ok(()));
    assert_eq!(v, vec![10, 20, 30, 40]);
    assert_eq!(apply_diff(&mut v, VectorDiff::PushFront(5)), Ok(()));
    assert_eq!(v, vec![5, 10, 20, 30, 40]);
    assert_eq!(apply_diff(&mut v, VectorDiff::Insert(1, 7)), Ok(()));
    assert_eq!(v, vec![5, 7, 10, 20, 30, 40]);
    assert_eq!(apply_diff(&mut v, VectorDiff::Replace(2, 11)), Ok(()));
    assert_eq!(v, vec![5, 7, 11, 20, 30, 40]);
    assert_eq!(apply_diff(&mut v, VectorDiff::Remove(3)), Ok(()));
    assert_eq!(v, vec![5, 7, 11, 30, 40]);
    assert_eq!(apply_diff(&mut v, VectorDiff::PopFront), Ok(()));
    assert_eq!(v, vec![7, 11, 30, 40]);
    assert_eq!(apply_diff(&mut v, VectorDiff::PopBack), Ok(()));
    assert_eq!(v, vec![7, 11, 30]);
    assert_eq!(apply_diff(&mut v, VectorDiff::Truncate(1)), Ok(()));
    assert_eq!(v, vec![7]);
    assert_eq!(apply_diff(&mut v, VectorDiff::Append(vec![8, 9])), Ok(()));
    assert_eq!(v, vec![7, 8, 9]);
    assert_eq!(apply_diff(&mut v, VectorDiff::Clear), Ok(()));
    assert_eq!(v, Vec::<u64>::new());
}

#[test]
fn reset_overrides_any_prior_state() {
    // Resetting yields exactly the given contents, whatever was there.
    let mut a: Vec<u64> = vec![];
    let mut b: Vec<u64> = vec![1];
    let mut c: Vec<u64> = vec![9, 8, 7, 6];
    for v in [&mut a, &mut b, &mut c] {
        assert_eq!(apply_diff(v, VectorDiff::Reset(vec![4, 5])), Ok(()));
        assert_eq!(*v, vec![4, 5]);
    }
}

#[test]
fn append_then_truncate_is_a_no_op() {
    let mut v: Vec<u64> = vec![1, 2, 3];
    let original_length = v.len();
    assert_eq!(apply_diff(&mut v, VectorDiff::Append(vec![4, 5, 6])), Ok(()));
    assert_eq!(apply_diff(&mut v, VectorDiff::Truncate(original_length)), Ok(()));
    assert_eq!(v, vec![1, 2, 3]);

    let mut empty: Vec<u64> = vec![];
    assert_eq!(apply_diff(&mut empty, VectorDiff::Append(vec![4])), Ok(()));
    assert_eq!(apply_diff(&mut empty, VectorDiff::Truncate(0)), Ok(()));
    assert_eq!(empty, Vec::<u64>::new());
}

#[test]
fn batches_match_the_reference_model() {
    // The same edits applied batch by batch end in the same state as one
    // combined batch: the reference ordered-collection model.
    let first = batch(vec![
        VectorDiff::Append(vec![1, 2, 3]),
        VectorDiff::PushFront(0),
        VectorDiff::Remove(2),
    ]);
    let second = batch(vec![VectorDiff::Replace(0, 9), VectorDiff::PushBack(4)]);

    let mut stepwise: Vec<u64> = vec![];
    assert_eq!(apply_batch(&mut stepwise, first), Ok(()));
    assert_eq!(stepwise, vec![0, 1, 3]);
    assert_eq!(apply_batch(&mut stepwise, second), Ok(()));
    assert_eq!(stepwise, vec![9, 1, 3, 4]);

    let combined = batch(vec![
        VectorDiff::Append(vec![1, 2, 3]),
        VectorDiff::PushFront(0),
        VectorDiff::Remove(2),
        VectorDiff::Replace(0, 9),
        VectorDiff::PushBack(4),
    ]);
    let mut whole: Vec<u64> = vec![];
    assert_eq!(apply_batch(&mut whole, combined), Ok(()));
    assert_eq!(whole, stepwise);
}

#[test]
fn out_of_range_indices_fail_loudly() {
    let mut v: Vec<u64> = vec![1, 2];
    assert_eq!(
        apply_diff(&mut v, VectorDiff::Insert(2, 9)),
        Err(DiffError::IndexOutOfRange)
    );
    assert_eq!(
        apply_diff(&mut v, VectorDiff::Replace(2, 9)),
        Err(DiffError::IndexOutOfRange)
    );
    assert_eq!(
        apply_diff(&mut v, VectorDiff::Remove(5)),
        Err(DiffError::IndexOutOfRange)
    );
    assert_eq!(
        apply_diff(&mut v, VectorDiff::Truncate(3)),
        Err(DiffError::IndexOutOfRange)
    );
    // The collection is left untouched by the rejected edit.
    assert_eq!(v, vec![1, 2]);

    let mut empty: Vec<u64> = vec![];
    assert_eq!(apply_diff(&mut empty, VectorDiff::PopFront), Err(DiffError::IndexOutOfRange));
    assert_eq!(apply_diff(&mut empty, VectorDiff::PopBack), Err(DiffError::IndexOutOfRange));
}

#[test]
fn a_bad_edit_is_fatal_for_the_rest_of_its_batch() {
    let mut v: Vec<u64> = vec![1];
    let b = batch(vec![
        VectorDiff::PushBack(2),
        VectorDiff::Remove(7),
        VectorDiff::PushBack(3),
    ]);
    assert_eq!(apply_batch(&mut v, b), Err(DiffError::IndexOutOfRange));
    // The edits before the offending one stay applied; the rest never ran.
    assert_eq!(v, vec![1, 2]);
}

#[test]
fn empty_batch_changes_nothing() {
    let mut v: Vec<u64> = vec![1, 2, 3];
    assert_eq!(apply_batch(&mut v, batch(vec![])), Ok(()));
    assert_eq!(v, vec![1, 2, 3]);
}
