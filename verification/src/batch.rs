//! Splitting a list of attachments into the batches that go out one message
//! each.

use crate::tiklydown::texts;
use vstd::prelude::*;

verus! {

/// `items` cut into consecutive batches of `size`, the last one holding what
/// is left; no batch for an empty list.
pub open spec fn spec_partition<T>(items: Seq<T>, size: nat) -> Seq<Seq<T>>
    decreases items.len(),
{
    if size == 0 || items.len() == 0 {
        Seq::empty()
    } else if items.len() <= size {
        seq![items]
    } else {
        seq![items.take(size as int)] + spec_partition(items.skip(size as int), size)
    }
}

/// The character sequences of a list of batches.
pub open spec fn batch_texts(batches: Seq<Vec<String>>) -> Seq<Seq<Seq<char>>> {
    batches.map_values(|batch: Vec<String>| texts(batch@))
}

/// The batches, put end to end in their order, are the list itself.
pub proof fn lemma_partition_keeps_order<T>(items: Seq<T>, size: nat)
    requires
        size > 0,
    ensures
        spec_partition(items, size).flatten() == items,
    decreases items.len(),
{
    let batches = spec_partition(items, size);
    if items.len() == 0 {
        assert(batches.flatten() =~= items);
    } else if items.len() <= size {
        batches.lemma_flatten_one_element();
    } else {
        let head = seq![items.take(size as int)];
        let rest = spec_partition(items.skip(size as int), size);
        lemma_partition_keeps_order(items.skip(size as int), size);
        vstd::seq_lib::lemma_flatten_concat(head, rest);
        head.lemma_flatten_one_element();
        assert(items.take(size as int) + items.skip(size as int) =~= items);
    }
}

/// Every batch but the last is full, and the last holds between one item and
/// `size` of them.
pub proof fn lemma_partition_sizes<T>(items: Seq<T>, size: nat, k: int)
    requires
        size > 0,
        0 <= k < spec_partition(items, size).len(),
    ensures
        0 < spec_partition(items, size)[k].len() <= size,
        k < spec_partition(items, size).len() - 1 ==> spec_partition(items, size)[k].len() == size,
    decreases items.len(),
{
    if items.len() > size {
        if k > 0 {
            lemma_partition_sizes(items.skip(size as int), size, k - 1);
        } else {
            lemma_partition_count(items.skip(size as int), size);
        }
    }
}

/// There is a batch exactly when there is an item, and never more batches
/// than items.
pub proof fn lemma_partition_count<T>(items: Seq<T>, size: nat)
    requires
        size > 0,
    ensures
        spec_partition(items, size).len() <= items.len(),
        items.len() > 0 ==> spec_partition(items, size).len() > 0,
    decreases items.len(),
{
    if items.len() > size {
        lemma_partition_count(items.skip(size as int), size);
    }
}

/// Copies `items[from..to]`.
pub(crate) fn copy_range(items: &Vec<String>, from: usize, to: usize) -> (batch: Vec<String>)
    requires
        from <= to <= items.len(),
    ensures
        texts(batch@) == texts(items@).subrange(from as int, to as int),
{
    let mut batch: Vec<String> = Vec::new();
    let mut i: usize = from;
    while i < to
        invariant
            from <= i <= to <= items.len(),
            batch@.len() == i - from,
            forall|j: int| 0 <= j < i - from ==> (#[trigger] batch@[j])@ == items@[from + j]@,
        decreases to - i,
    {
        batch.push(items[i].clone());
        i += 1;
    }
    assert(texts(batch@) =~= texts(items@).subrange(from as int, to as int));
    batch
}

/// Cuts `items` into batches of `size`, keeping their order.
pub fn partition(items: &Vec<String>, size: usize) -> (batches: Vec<Vec<String>>)
    requires
        size > 0,
    ensures
        batch_texts(batches@) == spec_partition(texts(items@), size as nat),
{
    let ghost all = texts(items@);
    let mut batches: Vec<Vec<String>> = Vec::new();
    let mut start: usize = 0;
    assert(all.skip(0) =~= all);
    while start < items.len()
        invariant
            size > 0,
            start <= items.len(),
            all == texts(items@),
            spec_partition(all, size as nat) == batch_texts(batches@) + spec_partition(
                all.skip(start as int),
                size as nat,
            ),
        decreases items.len() - start,
    {
        let end: usize = if items.len() - start <= size {
            items.len()
        } else {
            start + size
        };
        let batch = copy_range(items, start, end);
        proof {
            let rest = all.skip(start as int);
            let before = batch_texts(batches@);
            let after = batch_texts(batches@.push(batch));
            assert(after =~= before.push(texts(batch@)));
            if rest.len() <= size {
                assert(texts(batch@) =~= rest);
                assert(all.skip(end as int).len() == 0);
                assert(spec_partition(all.skip(end as int), size as nat) =~= Seq::empty());
                assert(before + spec_partition(rest, size as nat) =~= after + spec_partition(
                    all.skip(end as int),
                    size as nat,
                ));
            } else {
                assert(texts(batch@) =~= rest.take(size as int));
                assert(rest.skip(size as int) =~= all.skip(end as int));
                assert(before + spec_partition(rest, size as nat) =~= after + spec_partition(
                    all.skip(end as int),
                    size as nat,
                ));
            }
        }
        batches.push(batch);
        start = end;
    }
    assert(spec_partition(all.skip(start as int), size as nat) =~= Seq::empty());
    assert(batch_texts(batches@) + Seq::<Seq<Seq<char>>>::empty() =~= batch_texts(batches@));
    batches
}

} // verus!
