//! What is kept of the answers that a cursor of the store hands out.

use crate::error::StoreError;
use vstd::prelude::*;

verus! {

/// The values among `items`, in their order.
pub open spec fn present<T>(items: Seq<Option<T>>) -> Seq<T>
    decreases items.len(),
{
    if items.len() == 0 {
        Seq::empty()
    } else {
        match items.last() {
            Some(value) => present(items.drop_last()).push(value),
            None => present(items.drop_last()),
        }
    }
}

/// Keeps the values among `items`, in their order.
pub fn keep_present<T>(items: Vec<Option<T>>) -> (kept: Vec<T>)
    ensures
        kept@ == present(items@),
{
    let ghost all = items@;
    let mut kept: Vec<T> = Vec::new();
    for item in it: items
        invariant
            it.seq() == all,
            kept@ == present(all.take(it.index() as int)),
    {
        proof {
            let next = all.take(it.index() + 1);
            assert(next.drop_last() =~= all.take(it.index() as int));
            assert(next.last() == item);
        }
        match item {
            Some(value) => {
                kept.push(value);
            },
            None => {},
        }
    }
    assert(all.take(all.len() as int) =~= all);
    kept
}

/// The values among `items` that were read, in their order.
pub open spec fn read<T>(items: Seq<Result<T, StoreError>>) -> Seq<T>
    decreases items.len(),
{
    if items.len() == 0 {
        Seq::empty()
    } else {
        match items.last() {
            Ok(value) => read(items.drop_last()).push(value),
            Err(_) => read(items.drop_last()),
        }
    }
}

/// Whether every one of `items` was read.
pub open spec fn all_read<T>(items: Seq<Result<T, StoreError>>) -> bool {
    forall|i: int| 0 <= i < items.len() ==> (#[trigger] items[i]) is Ok
}

/// Keeps the values among `items` that were read, in their order.
pub fn keep_read<T>(items: Vec<Result<T, StoreError>>) -> (kept: Vec<T>)
    ensures
        kept@ == read(items@),
{
    let ghost all = items@;
    let mut kept: Vec<T> = Vec::new();
    for item in it: items
        invariant
            it.seq() == all,
            kept@ == read(all.take(it.index() as int)),
    {
        proof {
            let next = all.take(it.index() + 1);
            assert(next.drop_last() =~= all.take(it.index() as int));
            assert(next.last() == item);
        }
        match item {
            Ok(value) => {
                kept.push(value);
            },
            Err(_) => {},
        }
    }
    assert(all.take(all.len() as int) =~= all);
    kept
}

/// The values of `items` where every one of them was read, and `None` where
/// one was not.
pub fn read_all<T>(items: Vec<Result<T, StoreError>>) -> (res: Option<Vec<T>>)
    ensures
        res is Some <==> all_read(items@),
        res matches Some(values) ==> values@ == read(items@),
{
    let ghost all = items@;
    let mut kept: Vec<T> = Vec::new();
    let mut failed: bool = false;
    for item in it: items
        invariant
            it.seq() == all,
            kept@ == read(all.take(it.index() as int)),
            !failed <==> all_read(all.take(it.index() as int)),
    {
        proof {
            let before = all.take(it.index() as int);
            let next = all.take(it.index() + 1);
            assert(next.drop_last() =~= before);
            assert(next.last() == item);
            assert(next[next.len() - 1] == item);
            if all_read(next) {
                assert forall|i: int| 0 <= i < before.len() implies (#[trigger] before[i]) is Ok by {
                    assert(next[i] is Ok);
                }
            }
            if all_read(before) && item is Ok {
                assert forall|i: int| 0 <= i < next.len() implies (#[trigger] next[i]) is Ok by {
                    if i < before.len() {
                        assert(before[i] is Ok);
                    }
                }
            }
        }
        match item {
            Ok(value) => {
                kept.push(value);
            },
            Err(_) => {
                failed = true;
            },
        }
    }
    assert(all.take(all.len() as int) =~= all);
    if failed {
        None
    } else {
        Some(kept)
    }
}

} // verus!
