//! The pagination engine's state machine. A search whose descriptor pins no
//! page walks the result page by page: each response's items are appended to
//! an accumulator, and the walk goes on exactly while the pages fetched so
//! far cannot have carried the whole result. It stops once the returned page
//! index times the returned page size reaches the returned total count —
//! right after the last, possibly partial, page, never a fetch later. A
//! descriptor with a pinned page takes exactly one fetch.

use vstd::prelude::*;

verus! {

/// The stop condition of the unbounded walk, over the values the remote
/// returned: stop once `page * page_size` reaches `total_count`, that is,
/// once the page index reaches the number of pages the result spans, the
/// final partial page counted as one. A malformed, nonpositive page size
/// stops the walk at once rather than walking forever.
pub open spec fn spec_stop(page: int, page_size: int, total_count: int) -> bool {
    page_size <= 0 || page * page_size >= total_count
}

/// The items of a possibly-absent page payload: an absent `data` field
/// counts as zero items.
pub open spec fn spec_data_seq<T>(data: Option<Vec<T>>) -> Seq<T> {
    match data {
        Option::None => Seq::empty(),
        Option::Some(v) => v@,
    }
}

/// The page parameter of a request, with an unset field standing for the
/// remote's default first page.
pub open spec fn spec_page_or_one(page: Option<u32>) -> int {
    match page {
        Option::None => 1,
        Option::Some(v) => v as int,
    }
}

/// The page parameter the walk advances to: an unset field becomes 2 (one
/// beyond the implicit first page), a set one is incremented.
pub open spec fn spec_next_page(page: Option<u32>) -> int {
    spec_page_or_one(page) + 1
}

/// The state of one search execution: the accumulated items, the page
/// parameter of the next request, and whether the caller pinned a page.
pub struct Paginator<T> {
    /// The items accumulated so far, in the order the remote returned them.
    pub items: Vec<T>,
    /// The page parameter of the next request; unset on the first request
    /// of an unbounded walk.
    pub page: Option<u32>,
    /// Whether the caller pinned a page, which limits the walk to a single
    /// fetch.
    pub pinned: bool,
    /// Whether the walk has stopped.
    pub finished: bool,
}

impl<T> Paginator<T> {
    /// Starts a walk for a descriptor whose page field is `page`: a set
    /// page pins the walk to that single fetch.
    pub fn begin(page: Option<u32>) -> (r: Paginator<T>)
        ensures
            r.items@ == Seq::<T>::empty(),
            r.page == page,
            r.pinned == (page is Some),
            !r.finished,
    {
        Paginator { items: Vec::new(), page, pinned: page.is_some(), finished: false }
    }

    /// The page parameter to send with the next request.
    pub fn next_page(&self) -> (r: Option<u32>)
        ensures
            r == self.page,
    {
        self.page
    }

    /// Whether `absorb` may be called: the page counter of an unbounded
    /// walk must still have room to advance.
    pub fn can_advance(&self) -> (r: bool)
        ensures
            r == (self.pinned || spec_page_or_one(self.page) < u32::MAX),
    {
        match self.page {
            Option::None => true,
            Option::Some(v) => self.pinned || v < u32::MAX,
        }
    }

    /// Takes one response in: appends its items to the accumulator and
    /// decides whether another page must be fetched. When the walk goes on,
    /// the page parameter advances to one beyond the implicit first page,
    /// or to the next page after the last explicit one.
    pub fn absorb(
        &mut self,
        data: Option<Vec<T>>,
        page: i32,
        page_size: i32,
        total_count: i32,
    ) -> (more: bool)
        requires
            !old(self).finished,
            old(self).pinned || spec_page_or_one(old(self).page) < u32::MAX,
        ensures
            final(self).items@ == old(self).items@ + spec_data_seq(data),
            more == (!old(self).pinned && !spec_stop(
                page as int,
                page_size as int,
                total_count as int,
            )),
            final(self).pinned == old(self).pinned,
            final(self).finished == !more,
            more ==> (final(self).page matches Some(p) && p as int == spec_next_page(old(self).page)),
            !more ==> final(self).page == old(self).page,
    {
        match data {
            Option::Some(mut v) => {
                self.items.append(&mut v);
            },
            Option::None => {},
        }
        proof {
            assert((page as int) * (page_size as int) <= 0x8000_0000 * 0x8000_0000 && (
            page as int) * (page_size as int) >= -(0x8000_0000 * 0x8000_0000))
                by (nonlinear_arith)
                requires
                    -0x8000_0000 <= page as int <= 0x7fff_ffff,
                    -0x8000_0000 <= page_size as int <= 0x7fff_ffff,
            ;
        }
        let stop = page_size <= 0 || (page as i64) * (page_size as i64) >= (total_count as i64);
        let more = !self.pinned && !stop;
        if more {
            let next: u32 = match self.page {
                Option::None => 2,
                Option::Some(v) => v + 1,
            };
            self.page = Some(next);
        } else {
            self.finished = true;
        }
        more
    }

    /// The final result of the walk: the accumulated items, or absence when
    /// nothing at all was accumulated — callers tell "found nothing" from
    /// "found some" by this alone.
    pub fn finish(self) -> (r: Option<Vec<T>>)
        ensures
            self.items@.len() == 0 ==> r is None,
            self.items@.len() > 0 ==> (r matches Some(v) && v@ == self.items@),
    {
        if self.items.len() > 0 {
            Some(self.items)
        } else {
            None
        }
    }
}

} // verus!
