//! Paging through listed items.

use vstd::prelude::*;

verus! {

/// Pagination parameters for list operations.
#[derive(Debug, Clone)]
pub struct Pagination {
    /// Number of items to skip (0-based offset).
    pub offset: usize,
    /// Maximum number of items to return (`None` = unlimited).
    pub limit: Option<usize>,
}

impl Default for Pagination {
    fn default() -> (p: Pagination)
        ensures
            p.offset == 0,
            p.limit is None,
    {
        Pagination { offset: 0, limit: None }
    }
}

/// A page of results with metadata about the full collection.
#[derive(Debug, Clone)]
pub struct PaginatedResult<T> {
    /// The items in this page.
    pub items: Vec<T>,
    /// Total count of items before pagination was applied.
    pub total: usize,
    /// Whether more items exist beyond the returned page.
    pub has_more: bool,
}

/// Where a page over `total` items starts.
pub open spec fn page_start(total: nat, p: Pagination) -> nat {
    if p.offset < total {
        p.offset as nat
    } else {
        total
    }
}

/// Where a page over `total` items ends (exclusive).
pub open spec fn page_end(total: nat, p: Pagination) -> nat {
    let start = page_start(total, p);
    match p.limit {
        Some(l) => if start + l < total {
            (start + l) as nat
        } else {
            total
        },
        None => total,
    }
}

/// Apply pagination to a collected `Vec<T>`.
pub fn paginate<T>(all: Vec<T>, pagination: &Pagination) -> (r: PaginatedResult<T>)
    ensures
        r.total == all@.len(),
        r.items@ == all@.subrange(
            page_start(all@.len(), *pagination) as int,
            page_end(all@.len(), *pagination) as int,
        ),
        r.has_more == (page_end(all@.len(), *pagination) < all@.len()),
{
    let total = all.len();
    let offset = if pagination.offset < total { pagination.offset } else { total };
    let mut all = all;
    let mut items = all.split_off(offset);
    match pagination.limit {
        Some(limit) => {
            items.truncate(limit);
        },
        None => {},
    }
    let has_more = offset + items.len() < total;
    PaginatedResult { items, total, has_more }
}

/// A page never reaches past the end, and more items remain after it exactly
/// when it ends before the last item.
pub proof fn law_page_bounds(total: nat, p: Pagination)
    ensures
        page_start(total, p) <= page_end(total, p) <= total,
        p.limit matches Some(l) ==> page_end(total, p) - page_start(total, p) <= l,
        p.limit is None ==> page_end(total, p) == total,
{
}

/// Successive pages of one size tile the list: the page at `offset` of at
/// most `limit` items, followed by everything from `offset + limit` on, is
/// everything from `offset` on.
pub proof fn law_pages_tile<T>(all: Seq<T>, offset: usize, limit: usize)
    requires
        offset + limit <= usize::MAX,
    ensures
        ({
            let first = Pagination { offset, limit: Some(limit) };
            let rest = Pagination { offset: (offset + limit) as usize, limit: None };
            let from = Pagination { offset, limit: None };
            all.subrange(page_start(all.len(), first) as int, page_end(all.len(), first) as int)
                + all.subrange(page_start(all.len(), rest) as int, page_end(all.len(), rest) as int)
                == all.subrange(page_start(all.len(), from) as int, page_end(all.len(), from) as int)
        }),
{
    let first = Pagination { offset, limit: Some(limit) };
    let rest = Pagination { offset: (offset + limit) as usize, limit: None };
    let from = Pagination { offset, limit: None };
    assert(page_end(all.len(), first) == page_start(all.len(), rest));
    assert(all.subrange(page_start(all.len(), first) as int, page_end(all.len(), first) as int)
        + all.subrange(page_start(all.len(), rest) as int, page_end(all.len(), rest) as int)
        =~= all.subrange(page_start(all.len(), from) as int, page_end(all.len(), from) as int));
}

} // verus!
