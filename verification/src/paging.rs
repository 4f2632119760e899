//! Offset/limit pages of a list.

use vstd::prelude::*;

verus! {

/// The items at positions `offset .. offset + limit` that exist.
pub open spec fn spec_page<T>(items: Seq<T>, offset: int, limit: int) -> Seq<T> {
    if offset >= items.len() {
        Seq::empty()
    } else if offset + limit >= items.len() {
        items.subrange(offset, items.len() as int)
    } else {
        items.subrange(offset, offset + limit)
    }
}

/// Copies out the page of `items` starting at `offset` of at most `limit` items.
pub fn page<T: Copy>(items: &Vec<T>, offset: u32, limit: u32) -> (p: Vec<T>)
    ensures
        p@ == spec_page(items@, offset as int, limit as int),
{
    let n = items.len();
    let mut p: Vec<T> = Vec::new();
    if offset as usize >= n {
        return p;
    }
    let start = offset as usize;
    let end: usize = if (limit as usize) >= n - start {
        n
    } else {
        start + limit as usize
    };
    let mut i = start;
    while i < end
        invariant
            n == items@.len(),
            start <= i <= end <= n,
            p@ == items@.subrange(start as int, i as int),
        decreases end - i,
    {
        p.push(items[i]);
        i += 1;
        assert(p@ =~= items@.subrange(start as int, i as int));
    }
    p
}

} // verus!
