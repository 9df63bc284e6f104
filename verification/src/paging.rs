//! Pages: a result set cut into runs of a fixed size, counted from one.

use crate::models::Record;
use vstd::prelude::*;

verus! {

/// The number of pages that `total` items fill at `size` items a page: the
/// full pages, and one more for what is left over.
pub open spec fn page_count(total: nat, size: nat) -> nat {
    if size == 0 {
        0
    } else if total % size != 0 {
        total / size + 1
    } else {
        total / size
    }
}

/// The page with the given index, counted from one: the items from
/// `(index - 1) * size` up to, and without, `index * size`, as far as there
/// are items. There is no page 0 and none behind the last.
pub open spec fn page_of<T>(items: Seq<T>, size: nat, index: nat) -> Option<Seq<T>> {
    if 1 <= index <= page_count(items.len(), size) {
        let end: int = if index * size <= items.len() {
            (index * size) as int
        } else {
            items.len() as int
        };
        Some(items.subrange((index - 1) * size, end))
    } else {
        None
    }
}

/// Every page within the count begins inside the items.
pub proof fn lemma_page_begins(total: nat, size: nat, index: nat)
    requires
        size > 0,
        1 <= index <= page_count(total, size),
    ensures
        0 <= (index - 1) * size < total,
{
    let q = total / size;
    let r = total % size;
    assert(total == q * size + r && 0 <= r < size) by (nonlinear_arith)
        requires
            q == total / size,
            r == total % size,
            size > 0,
    ;
    assert(0 <= (index - 1) * size < total) by (nonlinear_arith)
        requires
            total == q * size + r,
            0 <= r < size,
            index >= 1,
            r != 0 ==> index <= q + 1,
            r == 0 ==> index <= q,
    ;
}

/// The sizes of the pages. Every page before the last is full; the last one
/// holds what the full pages before it leave, which is at least one item;
/// and an index of 0 or beyond the count names no page.
pub proof fn lemma_page_sizes<T>(items: Seq<T>, size: nat, index: nat)
    requires
        size > 0,
    ensures
        1 <= index < page_count(items.len(), size) ==> page_of(items, size, index) is Some
            && page_of(items, size, index)->0.len() == size,
        index >= 1 && index == page_count(items.len(), size) ==> page_of(items, size, index) is Some
            && page_of(items, size, index)->0.len() == items.len() - (index - 1) * size
            && 1 <= page_of(items, size, index)->0.len() <= size,
        index == 0 || index > page_count(items.len(), size) ==> page_of(items, size, index) is None,
{
    let total = items.len();
    let pages = page_count(total, size);
    if 1 <= index <= pages {
        lemma_page_begins(total, size, index);
        let q = total / size;
        let r = total % size;
        assert(total == q * size + r && 0 <= r < size) by (nonlinear_arith)
            requires
                q == total / size,
                r == total % size,
                size > 0,
        ;
        if index < pages {
            assert(index * size <= total) by (nonlinear_arith)
                requires
                    total == q * size + r,
                    0 <= r,
                    index <= q,
                    size > 0,
            ;
            assert(index * size - (index - 1) * size == size) by (nonlinear_arith);
        } else {
            assert(index * size >= total) by (nonlinear_arith)
                requires
                    total == q * size + r,
                    0 <= r < size,
                    r != 0 ==> index == q + 1,
                    r == 0 ==> index == q,
            ;
            assert(index * size - (index - 1) * size == size) by (nonlinear_arith);
        }
    }
}

/// The number of pages.
pub fn count_pages(total: usize, page_size: usize) -> (pages: usize)
    requires
        page_size > 0,
    ensures
        pages == page_count(total as nat, page_size as nat),
{
    if total % page_size != 0 {
        assert(total / page_size < total) by (nonlinear_arith)
            requires
                page_size > 0,
                total % page_size != 0,
        ;
        total / page_size + 1
    } else {
        total / page_size
    }
}

/// Cuts one page out of a result set.
pub fn paginate(items: &Vec<Record>, page_size: usize, page_index: usize) -> (page: Option<
    Vec<Record>,
>)
    requires
        page_size > 0,
    ensures
        page.deep_view() == page_of(items.deep_view(), page_size as nat, page_index as nat),
{
    let total = items.len();
    let pages = count_pages(total, page_size);
    if page_index == 0 || page_index > pages {
        return None;
    }
    proof {
        lemma_page_begins(total as nat, page_size as nat, page_index as nat);
        assert(page_index * page_size == (page_index - 1) * page_size + page_size)
            by (nonlinear_arith);
    }
    let start = (page_index - 1) * page_size;
    let end = if total - start < page_size {
        total
    } else {
        start + page_size
    };
    let mut page: Vec<Record> = Vec::new();
    let mut i: usize = start;
    while i < end
        invariant
            start <= i <= end <= items@.len(),
            page@.len() == i - start,
            forall|j: int| 0 <= j < i - start ==> (#[trigger] page@[j])@ == items@[start + j]@,
        decreases end - i,
    {
        page.push(items[i].clone());
        i = i + 1;
    }
    assert(page.deep_view() =~= items.deep_view().subrange(start as int, end as int));
    Some(page)
}

} // verus!
