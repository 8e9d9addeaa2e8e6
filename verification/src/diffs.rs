//! Ordered application of incremental edits to an in-memory collection.
//!
//! The protocol engine describes changes to an ordered collection (the room
//! list, or one room's timeline) as batches of edits. A batch is applied
//! strictly in the order received, each edit referring to the collection
//! state left by the edits before it. An edit whose index is out of range is
//! a protocol-contract violation: it fails loudly and is fatal for the rest
//! of its batch, never silently wrapped or clamped.

use vstd::prelude::*;

verus! {

/// One incremental edit of an ordered collection.
#[derive(Debug)]
pub enum VectorDiff<T> {
    /// Add the given items at the back, in order.
    Append(Vec<T>),
    /// Remove every item.
    Clear,
    /// Add one item at the front.
    PushFront(T),
    /// Add one item at the back.
    PushBack(T),
    /// Remove the first item.
    PopFront,
    /// Remove the last item.
    PopBack,
    /// Add one item before the item at the given index.
    Insert(usize, T),
    /// Replace the item at the given index.
    Replace(usize, T),
    /// Remove the item at the given index.
    Remove(usize),
    /// Keep only the first `length` items.
    Truncate(usize),
    /// Replace the whole contents with the given items.
    Reset(Vec<T>),
}

/// Failure of a single edit: it referenced an index that is not valid for
/// the current collection state.
#[derive(Debug, Clone, Copy, PartialEq, Eq, Structural)]
pub enum DiffError {
    IndexOutOfRange,
}

/// Whether an edit references only currently-valid indices.
pub open spec fn diff_valid<T>(s: Seq<T>, d: VectorDiff<T>) -> bool {
    match d {
        VectorDiff::Append(_) => true,
        VectorDiff::Clear => true,
        VectorDiff::PushFront(_) => true,
        VectorDiff::PushBack(_) => true,
        VectorDiff::PopFront => s.len() > 0,
        VectorDiff::PopBack => s.len() > 0,
        VectorDiff::Insert(i, _) => i < s.len(),
        VectorDiff::Replace(i, _) => i < s.len(),
        VectorDiff::Remove(i) => i < s.len(),
        VectorDiff::Truncate(n) => n <= s.len(),
        VectorDiff::Reset(_) => true,
    }
}

/// The collection state a valid edit leaves behind.
pub open spec fn diff_result<T>(s: Seq<T>, d: VectorDiff<T>) -> Seq<T> {
    match d {
        VectorDiff::Append(items) => s + items@,
        VectorDiff::Clear => Seq::empty(),
        VectorDiff::PushFront(x) => s.insert(0, x),
        VectorDiff::PushBack(x) => s.push(x),
        VectorDiff::PopFront => s.remove(0),
        VectorDiff::PopBack => s.drop_last(),
        VectorDiff::Insert(i, x) => s.insert(i as int, x),
        VectorDiff::Replace(i, x) => s.update(i as int, x),
        VectorDiff::Remove(i) => s.remove(i as int),
        VectorDiff::Truncate(n) => s.take(n as int),
        VectorDiff::Reset(items) => items@,
    }
}

/// Whether every edit of a batch references valid indices when the batch is
/// applied in order.
pub open spec fn batch_valid<T>(s: Seq<T>, ds: Seq<VectorDiff<T>>) -> bool
    decreases ds.len(),
{
    ds.len() == 0 || (diff_valid(s, ds[0]) && batch_valid(
        diff_result(s, ds[0]),
        ds.drop_first(),
    ))
}

/// The collection state a valid batch leaves behind: the reference model of
/// ordered diff application.
pub open spec fn batch_result<T>(s: Seq<T>, ds: Seq<VectorDiff<T>>) -> Seq<T>
    decreases ds.len(),
{
    if ds.len() == 0 {
        s
    } else {
        batch_result(diff_result(s, ds[0]), ds.drop_first())
    }
}

/// Apply one edit. Returns an error, and leaves the collection unchanged,
/// exactly when the edit references an out-of-range index.
pub fn apply_diff<T>(v: &mut Vec<T>, d: VectorDiff<T>) -> (r: Result<(), DiffError>)
    ensures
        r is Ok <==> diff_valid(old(v)@, d),
        r is Ok ==> final(v)@ == diff_result(old(v)@, d),
        r is Err ==> final(v)@ == old(v)@ && r == Err::<(), DiffError>(DiffError::IndexOutOfRange),
{
    match d {
        VectorDiff::Append(mut items) => {
            v.append(&mut items);
            Ok(())
        },
        VectorDiff::Clear => {
            v.clear();
            Ok(())
        },
        VectorDiff::PushFront(x) => {
            v.insert(0, x);
            Ok(())
        },
        VectorDiff::PushBack(x) => {
            v.push(x);
            Ok(())
        },
        VectorDiff::PopFront => {
            if v.len() > 0 {
                v.remove(0);
                Ok(())
            } else {
                Err(DiffError::IndexOutOfRange)
            }
        },
        VectorDiff::PopBack => {
            if v.len() > 0 {
                v.pop();
                proof {
                    assert(v@ =~= old(v)@.drop_last());
                }
                Ok(())
            } else {
                Err(DiffError::IndexOutOfRange)
            }
        },
        VectorDiff::Insert(i, x) => {
            if i < v.len() {
                v.insert(i, x);
                Ok(())
            } else {
                Err(DiffError::IndexOutOfRange)
            }
        },
        VectorDiff::Replace(i, x) => {
            if i < v.len() {
                v.set(i, x);
                Ok(())
            } else {
                Err(DiffError::IndexOutOfRange)
            }
        },
        VectorDiff::Remove(i) => {
            if i < v.len() {
                v.remove(i);
                Ok(())
            } else {
                Err(DiffError::IndexOutOfRange)
            }
        },
        VectorDiff::Truncate(n) => {
            if n <= v.len() {
                v.truncate(n);
                proof {
                    assert(v@ =~= old(v)@.take(n as int));
                }
                Ok(())
            } else {
                Err(DiffError::IndexOutOfRange)
            }
        },
        VectorDiff::Reset(items) => {
            *v = items;
            Ok(())
        },
    }
}

/// Extending a batch by one edit at its end: validity and result decompose
/// into the batch followed by the single edit.
pub proof fn lemma_batch_snoc<T>(s: Seq<T>, ds: Seq<VectorDiff<T>>, d: VectorDiff<T>)
    ensures
        batch_valid(s, ds.push(d)) <==> (batch_valid(s, ds) && diff_valid(batch_result(s, ds), d)),
        batch_valid(s, ds) ==> batch_result(s, ds.push(d)) == diff_result(batch_result(s, ds), d),
    decreases ds.len(),
{
    if ds.len() == 0 {
        assert(ds.push(d)[0] == d);
        assert(ds.push(d).drop_first() =~= Seq::<VectorDiff<T>>::empty());
        assert(batch_valid(s, ds.push(d)) == (diff_valid(s, d) && batch_valid(
            diff_result(s, d),
            ds.push(d).drop_first(),
        )));
        assert(batch_result(s, ds.push(d)) == batch_result(
            diff_result(s, d),
            ds.push(d).drop_first(),
        ));
    } else {
        assert(ds.push(d)[0] == ds[0]);
        assert(ds.push(d).drop_first() =~= ds.drop_first().push(d));
        lemma_batch_snoc(diff_result(s, ds[0]), ds.drop_first(), d);
    }
}

/// Batches compose: applying two batches in order is applying their
/// concatenation. Together with the contracts of the registry operations,
/// this says that the state after any sequence of batches equals the
/// reference model applied to the whole sequence.
pub proof fn lemma_batch_compose<T>(s: Seq<T>, ds1: Seq<VectorDiff<T>>, ds2: Seq<VectorDiff<T>>)
    ensures
        batch_valid(s, ds1 + ds2) <==> (batch_valid(s, ds1) && (batch_valid(s, ds1)
            ==> batch_valid(batch_result(s, ds1), ds2))),
        batch_valid(s, ds1) ==> batch_result(s, ds1 + ds2) == batch_result(
            batch_result(s, ds1),
            ds2,
        ),
    decreases ds1.len(),
{
    if ds1.len() == 0 {
        assert(ds1 + ds2 =~= ds2);
    } else {
        assert((ds1 + ds2).drop_first() =~= ds1.drop_first() + ds2);
        lemma_batch_compose(diff_result(s, ds1[0]), ds1.drop_first(), ds2);
    }
}

/// Resetting overrides any prior state: applying `Reset(items)` is always
/// valid and yields exactly `items`.
pub proof fn lemma_reset_overrides<T>(s: Seq<T>, items: Vec<T>)
    ensures
        diff_valid(s, VectorDiff::Reset(items)),
        diff_result(s, VectorDiff::Reset(items)) == items@,
{
}

/// Appending items and then truncating back to the original length leaves
/// the collection's contents unchanged.
pub proof fn lemma_append_then_truncate<T>(s: Seq<T>, items: Vec<T>, n: usize)
    requires
        n == s.len(),
    ensures
        diff_valid(s, VectorDiff::Append(items)),
        diff_valid(diff_result(s, VectorDiff::Append(items)), VectorDiff::<T>::Truncate(n)),
        diff_result(diff_result(s, VectorDiff::Append(items)), VectorDiff::<T>::Truncate(n)) == s,
{
    assert((s + items@).take(n as int) =~= s);
}

/// Apply a batch of edits in order. On success the collection holds exactly
/// the reference model's result. On failure the edits before the offending
/// one remain applied: a bad index is fatal for the rest of the batch.
pub fn apply_batch<T>(v: &mut Vec<T>, batch: Vec<VectorDiff<T>>) -> (r: Result<(), DiffError>)
    ensures
        r is Ok <==> batch_valid(old(v)@, batch@),
        r is Ok ==> final(v)@ == batch_result(old(v)@, batch@),
        r is Err ==> exists|k: int|
            0 <= k < batch@.len() && #[trigger] batch_valid(old(v)@, batch@.take(k)) && !diff_valid(
                batch_result(old(v)@, batch@.take(k)),
                batch@[k],
            ) && final(v)@ == batch_result(old(v)@, batch@.take(k)),
{
    let ghost all = batch@;
    let n = batch.len();
    let mut rest = batch;
    let mut k: usize = 0;
    loop
        invariant
            all == batch@,
            all.len() == n,
            k + rest@.len() == all.len(),
            rest@ =~= all.subrange(k as int, all.len() as int),
            batch_valid(old(v)@, all.take(k as int)),
            v@ == batch_result(old(v)@, all.take(k as int)),
        decreases rest@.len(),
    {
        if rest.len() == 0 {
            proof {
                assert(all.take(k as int) =~= all);
            }
            return Ok(());
        }
        let d = rest.remove(0);
        proof {
            assert(all[k as int] == d);
            assert(rest@ =~= all.subrange(k as int + 1, all.len() as int));
        }
        let ghost before = v@;
        match apply_diff(v, d) {
            Ok(()) => {
                proof {
                    lemma_batch_snoc(old(v)@, all.take(k as int), d);
                    assert(all.take(k as int).push(d) =~= all.take(k as int + 1));
                }
                k = k + 1;
            },
            Err(e) => {
                proof {
                    lemma_batch_snoc(old(v)@, all.take(k as int), d);
                    assert(batch_valid(old(v)@, all.take(k as int)) && !diff_valid(
                        batch_result(old(v)@, all.take(k as int)),
                        all[k as int],
                    ) && v@ == batch_result(old(v)@, all.take(k as int)));
                    assert(!batch_valid(old(v)@, all)) by {
                        if batch_valid(old(v)@, all) {
                            lemma_batch_valid_prefix(old(v)@, all, k as int + 1);
                            assert(all.take(k as int).push(d) =~= all.take(k as int + 1));
                            lemma_batch_snoc(old(v)@, all.take(k as int), d);
                        }
                    }
                }
                return Err(e);
            },
        }
    }
}

/// A valid batch has every prefix valid.
pub proof fn lemma_batch_valid_prefix<T>(s: Seq<T>, ds: Seq<VectorDiff<T>>, n: int)
    requires
        batch_valid(s, ds),
        0 <= n <= ds.len(),
    ensures
        batch_valid(s, ds.take(n)),
    decreases ds.len(),
{
    if n > 0 && ds.len() > 0 {
        assert(ds.take(n).drop_first() =~= ds.drop_first().take(n - 1));
        lemma_batch_valid_prefix(diff_result(s, ds[0]), ds.drop_first(), n - 1);
    } else {
        assert(ds.take(n) =~= Seq::<VectorDiff<T>>::empty());
    }
}

} // verus!
