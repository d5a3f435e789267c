use vstd::prelude::*;

use crate::error::ExtractError;
use crate::models::{Chapter, Page};

verus! {

/// A lazy, resumable iterator over the pages of one chapter.
///
/// The iterator owns the chapter for the duration of the iteration — it is
/// the only mutator of the chapter's page list in that window — and hands it
/// back through [`ChapterPages::into_chapter`]. Positions are 1-based with
/// pre-increment semantics. `total` is signed: `0` means an empty sequence,
/// a positive value a fixed known bound, and a negative value an unknown
/// bound, continued until the fetch callback yields nothing. Pages already
/// cached are returned without calling the callback, so re-iteration costs
/// no fetches. A failed fetch occupies its slot as an `Err` element; the
/// iterator itself keeps going.
pub struct ChapterPages<F> where F: Fn(usize) -> Result<Vec<Page>, ExtractError> {
    pub chapter: Chapter,
    pub current_page: usize,
    pub fetch: F,
    pub total: i32,
}

/// The iterator has nothing further to produce at the position after `s.current_page`.
pub open spec fn exhausted<F: Fn(usize) -> Result<Vec<Page>, ExtractError>>(
    s: ChapterPages<F>,
) -> bool {
    s.total == 0 || (s.total > 0 && s.current_page + 1 > s.total)
}

/// One fetch call was made at position `pos`: some result `res` that the
/// callback's own contract admits explains the new cache and the produced
/// element. Returned pages were appended to the cache, with the first new
/// one produced; zero pages ended the sequence; an error was produced as the
/// element in this slot and left the cache unchanged.
pub open spec fn fetch_outcome<F: Fn(usize) -> Result<Vec<Page>, ExtractError>>(
    pre: ChapterPages<F>,
    post: ChapterPages<F>,
    pos: usize,
    r: Option<Result<Page, ExtractError>>,
    res: Result<Vec<Page>, ExtractError>,
) -> bool {
    &&& call_ensures(pre.fetch_fn(), (pos,), res)
    &&& match res {
        Ok(v) => {
            &&& post.chapter.pages@ == pre.chapter.pages@ + v@
            &&& (v@.len() > 0 ==> r == Some(Result::<Page, ExtractError>::Ok(v@[0])))
            &&& (v@.len() == 0 ==> r is None)
        },
        Err(e) => {
            &&& post.chapter.pages == pre.chapter.pages
            &&& r == Some(Result::<Page, ExtractError>::Err(e))
        },
    }
}

pub open spec fn fetch_step<F: Fn(usize) -> Result<Vec<Page>, ExtractError>>(
    pre: ChapterPages<F>,
    post: ChapterPages<F>,
    pos: usize,
    r: Option<Result<Page, ExtractError>>,
) -> bool {
    exists|res: Result<Vec<Page>, ExtractError>| #[trigger] fetch_outcome(pre, post, pos, r, res)
}

/// A drain ended only where the iterator had nothing further to produce:
/// the bound is zero or passed, the position saturated, or the callback
/// answered the current position with zero pages.
pub open spec fn drain_done<F: Fn(usize) -> Result<Vec<Page>, ExtractError>>(
    s: ChapterPages<F>,
) -> bool {
    ||| s.total == 0
    ||| s.total > 0 && s.current_page > s.total
    ||| s.current_page == usize::MAX
    ||| exists|res: Result<Vec<Page>, ExtractError>|
        #[trigger] call_ensures(s.fetch_fn(), (s.current_page,), res) && (res matches Ok(v)
            && v@.len() == 0)
}

/// Position `p` was served without an error: it lies within the cache, or
/// the callback answered it with pages.
pub open spec fn served_ok<F: Fn(usize) -> Result<Vec<Page>, ExtractError>>(
    s: ChapterPages<F>,
    p: usize,
) -> bool {
    ||| p <= s.chapter.pages@.len()
    ||| exists|res: Result<Vec<Page>, ExtractError>|
        #[trigger] call_ensures(s.fetch_fn(), (p,), res) && res is Ok
}

/// Every position after `start` and before `stop` was served without an
/// error: a drain that stopped at `stop` stopped at the first failure.
pub open spec fn served_before<F: Fn(usize) -> Result<Vec<Page>, ExtractError>>(
    s: ChapterPages<F>,
    start: usize,
    stop: usize,
) -> bool {
    forall|p: usize| start < p < stop ==> #[trigger] served_ok(s, p)
}

/// What `next` leaves behind when it produces nothing: the iterator was
/// saturated or exhausted, or the callback answered the next position with
/// zero pages — so the drain is done.
proof fn lemma_none_means_done<F: Fn(usize) -> Result<Vec<Page>, ExtractError>>(
    pre: ChapterPages<F>,
    post: ChapterPages<F>,
)
    requires
        post.total == pre.total,
        post.fetch_fn() == pre.fetch_fn(),
        pre.current_page == usize::MAX ==> post == pre,
        pre.current_page < usize::MAX ==> post.current_page == pre.current_page + 1,
        pre.current_page < usize::MAX && !exhausted(pre) && pre.current_page + 1
            <= pre.chapter.pages@.len() ==> false,
        pre.current_page < usize::MAX && !exhausted(pre) && pre.current_page + 1
            > pre.chapter.pages@.len() ==> fetch_step(
            pre,
            post,
            (pre.current_page + 1) as usize,
            None,
        ),
    ensures
        drain_done(post),
{
    if pre.current_page < usize::MAX && !exhausted(pre) {
        let pos = (pre.current_page + 1) as usize;
        let res = choose|res: Result<Vec<Page>, ExtractError>|
            fetch_outcome(pre, post, pos, None, res);
        assert(res matches Ok(v) && v@.len() == 0);
        assert(call_ensures(post.fetch_fn(), (post.current_page,), res));
    }
}

/// Positions served before a step stay served after it: the cache only
/// grows and the callback is unchanged.
proof fn lemma_served_carries<F: Fn(usize) -> Result<Vec<Page>, ExtractError>>(
    pre: ChapterPages<F>,
    post: ChapterPages<F>,
    start: usize,
)
    requires
        post.fetch_fn() == pre.fetch_fn(),
        pre.chapter.pages@.is_prefix_of(post.chapter.pages@),
        forall|p: usize| start < p <= pre.current_page ==> #[trigger] served_ok(pre, p),
    ensures
        forall|p: usize| start < p <= pre.current_page ==> #[trigger] served_ok(post, p),
{
    assert forall|p: usize| start < p <= pre.current_page implies #[trigger] served_ok(
        post,
        p,
    ) by {
        assert(served_ok(pre, p));
        if p <= pre.chapter.pages@.len() {
            assert(p <= post.chapter.pages@.len());
        } else {
            let res_p = choose|res: Result<Vec<Page>, ExtractError>|
                call_ensures(pre.fetch_fn(), (p,), res) && res is Ok;
            assert(call_ensures(post.fetch_fn(), (p,), res_p));
        }
    }
}

/// The bulk, already-fully-known construction path: the page list is the
/// given address list, the bound equals its length, and the callback is
/// the always-empty function, so iteration degenerates to the cache-only
/// path.
pub fn full_pages(chapter: Chapter, addresses: Vec<String>) -> (r: ChapterPages<
    impl Fn(usize) -> Result<Vec<Page>, ExtractError>,
>)
    requires
        addresses@.len() <= i32::MAX,
    ensures
        r.same_meta(chapter),
        r.chapter.pages@.len() == chapter.pages@.len() + addresses@.len(),
        forall|k: int|
            0 <= k < chapter.pages@.len() ==> r.chapter.pages@[k] == chapter.pages@[k],
        forall|k: int|
            0 <= k < addresses@.len() ==> {
                &&& (#[trigger] r.chapter.pages@[chapter.pages@.len() + k]).n == k + 1
                &&& r.chapter.pages@[chapter.pages@.len() + k].address@ == addresses@[k]@
            },
        r.current_page == 0,
        r.total == addresses@.len(),
        forall|i: usize| #[trigger] call_requires(r.fetch_fn(), (i,)),
        forall|i: usize, ret: Result<Vec<Page>, ExtractError>|
            #[trigger] call_ensures(r.fetch_fn(), (i,), ret) ==> (ret matches Ok(v)
                && v@.len() == 0),
{
    let total = addresses.len() as i32;
    let no_fetch = |_position: usize| -> (ret: Result<Vec<Page>, ExtractError>)
        ensures
            ret matches Ok(v) && v@.len() == 0,
        { Ok(Vec::new()) };
    ChapterPages::new(chapter, total, addresses, no_fetch)
}

impl<F> ChapterPages<F> where F: Fn(usize) -> Result<Vec<Page>, ExtractError> {
    /// The fetch callback, for contracts about its calls.
    pub open spec fn fetch_fn(&self) -> F {
        self.fetch
    }

    /// All chapter attributes but the page list are those of `c`.
    pub open spec fn same_meta(&self, c: Chapter) -> bool {
        &&& self.chapter.title == c.title
        &&& self.chapter.url == c.url
        &&& self.chapter.which == c.which
        &&& self.chapter.page_headers == c.page_headers
    }

    /// Build an iterator over `chapter`, seeding its cache with the given
    /// addresses, numbered 1-based in order, after any pages already there.
    pub fn new(chapter: Chapter, total: i32, init_addresses: Vec<String>, fetch: F) -> (r: Self)
        requires
            init_addresses@.len() < usize::MAX,
        ensures
            r.same_meta(chapter),
            r.chapter.pages@.len() == chapter.pages@.len() + init_addresses@.len(),
            forall|k: int|
                0 <= k < chapter.pages@.len() ==> r.chapter.pages@[k] == chapter.pages@[k],
            forall|k: int|
                0 <= k < init_addresses@.len() ==> {
                    &&& (#[trigger] r.chapter.pages@[chapter.pages@.len() + k]).n == k + 1
                    &&& r.chapter.pages@[chapter.pages@.len() + k].address@
                        == init_addresses@[k]@
                },
            r.current_page == 0,
            r.total == total,
            r.fetch_fn() == fetch,
    {
        let ghost orig = chapter.pages@;
        let ghost meta = chapter;
        let mut chapter = chapter;
        let n = init_addresses.len();
        let mut i: usize = 0;
        while i < n
            invariant
                n == init_addresses@.len() < usize::MAX,
                0 <= i <= n,
                chapter.pages@.len() == orig.len() + i,
                forall|k: int| 0 <= k < orig.len() ==> chapter.pages@[k] == orig[k],
                forall|k: int|
                    0 <= k < i ==> {
                        &&& (#[trigger] chapter.pages@[orig.len() + k]).n == k + 1
                        &&& chapter.pages@[orig.len() + k].address@ == init_addresses@[k]@
                    },
                chapter.title == meta.title,
                chapter.url == meta.url,
                chapter.which == meta.which,
                chapter.page_headers == meta.page_headers,
            decreases n - i,
        {
            let page = Page::new(i + 1, init_addresses[i].as_str());
            chapter.pages.push(page);
            i += 1;
        }
        ChapterPages { chapter, current_page: 0, fetch, total }
    }


    /// A copy of the owned chapter's title.
    pub fn chapter_title_clone(&self) -> (r: String)
        ensures
            r@ == self.chapter.title@,
    {
        self.chapter.title.clone()
    }

    /// Release the exclusive handle, handing the chapter and its page cache
    /// back to the caller.
    pub fn into_chapter(self) -> (c: Chapter)
        ensures
            c == self.chapter,
    {
        self.chapter
    }

    /// Drain the remaining positions, discarding error elements: the
    /// tolerant consumption strategy, for callers that only need the side
    /// effects already captured in the chapter's page cache. On return the
    /// iterator is done ([`drain_done`]); when the cache already covers a
    /// positive bound the pages stay untouched and the position stops one
    /// past the bound. A known non-negative bound is required so that the
    /// drain provably terminates; an unbounded iterator is driven by
    /// [`ChapterPages::fetch_pages_up_to`] or by calling
    /// [`ChapterPages::next`] directly.
    pub fn fetch_pages(&mut self)
        requires
            old(self).total >= 0,
            forall|i: usize| #[trigger] call_requires(old(self).fetch_fn(), (i,)),
        ensures
            final(self).total == old(self).total,
            final(self).fetch_fn() == old(self).fetch_fn(),
            final(self).same_meta(old(self).chapter),
            old(self).chapter.pages@.is_prefix_of(final(self).chapter.pages@),
            drain_done(*final(self)),
            old(self).total == 0 ==> final(self).chapter.pages == old(self).chapter.pages,
            old(self).total > 0 && old(self).chapter.pages@.len() >= old(self).total && old(
                self,
            ).current_page <= old(self).total ==> final(self).chapter.pages == old(
                self,
            ).chapter.pages && final(self).current_page == old(self).total + 1,
    {
        let ghost covered = old(self).total > 0 && old(self).chapter.pages@.len() >= old(
            self,
        ).total && old(self).current_page <= old(self).total;
        loop
            invariant_except_break
                covered ==> self.current_page <= self.total,
            invariant
                self.total == old(self).total,
                self.total >= 0,
                self.fetch_fn() == old(self).fetch_fn(),
                self.same_meta(old(self).chapter),
                old(self).chapter.pages@.is_prefix_of(self.chapter.pages@),
                forall|i: usize| #[trigger] call_requires(self.fetch_fn(), (i,)),
                covered == (old(self).total > 0 && old(self).chapter.pages@.len() >= old(
                    self,
                ).total && old(self).current_page <= old(self).total),
                self.total == 0 ==> self.chapter.pages == old(self).chapter.pages,
                covered ==> self.chapter.pages == old(self).chapter.pages,
            ensures
                drain_done(*self),
                covered ==> self.current_page == self.total + 1,
            decreases (if self.total - self.current_page >= 0 {
                self.total - self.current_page
            } else {
                0
            }),
        {
            let ghost pre_it = *self;
            let r = self.next();
            if r.is_none() {
                proof {
                    lemma_none_means_done(pre_it, *self);
                    if covered {
                        assert(exhausted(pre_it));
                        assert(self.current_page == self.total + 1);
                    }
                }
                break;
            }
        }
    }

    /// Drive at most `fuel` further positions, discarding error elements:
    /// the driver for an unknown bound, which no full drain can provably
    /// exhaust. Either the iterator is done on return, or the fuel ran out
    /// with the position advanced by exactly `fuel`.
    pub fn fetch_pages_up_to(&mut self, fuel: usize)
        requires
            forall|i: usize| #[trigger] call_requires(old(self).fetch_fn(), (i,)),
        ensures
            final(self).total == old(self).total,
            final(self).fetch_fn() == old(self).fetch_fn(),
            final(self).same_meta(old(self).chapter),
            old(self).chapter.pages@.is_prefix_of(final(self).chapter.pages@),
            drain_done(*final(self)) || final(self).current_page == old(self).current_page
                + fuel,
    {
        let mut left = fuel;
        loop
            invariant_except_break
                self.current_page == old(self).current_page + fuel - left,
            invariant
                self.total == old(self).total,
                self.fetch_fn() == old(self).fetch_fn(),
                self.same_meta(old(self).chapter),
                old(self).chapter.pages@.is_prefix_of(self.chapter.pages@),
                forall|i: usize| #[trigger] call_requires(self.fetch_fn(), (i,)),
                left <= fuel,
            ensures
                drain_done(*self) || self.current_page == old(self).current_page + fuel,
            decreases left,
        {
            if left == 0 {
                break;
            }
            let ghost pre_it = *self;
            let r = self.next();
            if r.is_none() {
                proof {
                    lemma_none_means_done(pre_it, *self);
                }
                break;
            }
            left -= 1;
        }
    }

    /// Drain until the first error element and return it at once: the strict
    /// consumption strategy, a convenience over the `Result`-yielding
    /// sequence for callers that want to abort on any failed fetch. On `Ok`
    /// the iterator is done ([`drain_done`]); a returned error is what the
    /// callback produced at the position the iterator stopped on, and every
    /// earlier position of this drain was served without an error
    /// ([`served_before`]): the abort is at the first failure.
    pub fn fetch_pages_unsafe(&mut self) -> (r: Result<(), ExtractError>)
        requires
            old(self).total >= 0,
            forall|i: usize| #[trigger] call_requires(old(self).fetch_fn(), (i,)),
        ensures
            final(self).total == old(self).total,
            final(self).fetch_fn() == old(self).fetch_fn(),
            final(self).same_meta(old(self).chapter),
            old(self).chapter.pages@.is_prefix_of(final(self).chapter.pages@),
            r is Ok ==> drain_done(*final(self)),
            r matches Err(e) ==> exists|res: Result<Vec<Page>, ExtractError>|
                #[trigger] call_ensures(final(self).fetch_fn(), (final(self).current_page,), res)
                    && res == Result::<Vec<Page>, ExtractError>::Err(e),
            served_before(*final(self), old(self).current_page, final(self).current_page),
            old(self).total == 0 ==> r is Ok && final(self).chapter.pages == old(
                self,
            ).chapter.pages,
            old(self).total > 0 && old(self).chapter.pages@.len() >= old(self).total && old(
                self,
            ).current_page <= old(self).total ==> r is Ok && final(self).chapter.pages == old(
                self,
            ).chapter.pages && final(self).current_page == old(self).total + 1,
    {
        let ghost covered = old(self).total > 0 && old(self).chapter.pages@.len() >= old(
            self,
        ).total && old(self).current_page <= old(self).total;
        loop
            invariant
                self.total == old(self).total,
                self.total >= 0,
                self.fetch_fn() == old(self).fetch_fn(),
                self.same_meta(old(self).chapter),
                old(self).chapter.pages@.is_prefix_of(self.chapter.pages@),
                forall|i: usize| #[trigger] call_requires(self.fetch_fn(), (i,)),
                covered == (old(self).total > 0 && old(self).chapter.pages@.len() >= old(
                    self,
                ).total && old(self).current_page <= old(self).total),
                self.total == 0 ==> self.chapter.pages == old(self).chapter.pages,
                covered ==> self.chapter.pages == old(self).chapter.pages && self.current_page
                    <= self.total,
                forall|p: usize|
                    old(self).current_page < p <= self.current_page ==> #[trigger] served_ok(
                        *self,
                        p,
                    ),
            decreases (if self.total - self.current_page >= 0 {
                self.total - self.current_page
            } else {
                0
            }),
        {
            let ghost pre_it = *self;
            match self.next() {
                None => {
                    proof {
                        lemma_none_means_done(pre_it, *self);
                        if covered {
                            assert(exhausted(pre_it));
                            assert(self.current_page == self.total + 1);
                        }
                        lemma_served_carries(pre_it, *self, old(self).current_page);
                    }
                    return Ok(());
                },
                Some(Ok(page)) => {
                    let ghost pg = page;
                    proof {
                        lemma_served_carries(pre_it, *self, old(self).current_page);
                        if pre_it.current_page + 1 <= pre_it.chapter.pages@.len() {
                            assert(served_ok(*self, self.current_page));
                        } else {
                            let pos2 = (pre_it.current_page + 1) as usize;
                            let res = choose|res: Result<Vec<Page>, ExtractError>|
                                fetch_outcome(
                                    pre_it,
                                    *self,
                                    pos2,
                                    Some(Result::<Page, ExtractError>::Ok(pg)),
                                    res,
                                );
                            assert(res is Ok);
                            assert(call_ensures(self.fetch_fn(), (pos2,), res));
                            assert(served_ok(*self, self.current_page));
                        }
                    }
                },
                Some(Err(e)) => {
                    proof {
                        let pos2 = (pre_it.current_page + 1) as usize;
                        let res = choose|res: Result<Vec<Page>, ExtractError>|
                            fetch_outcome(
                                pre_it,
                                *self,
                                pos2,
                                Some(Result::<Page, ExtractError>::Err(e)),
                                res,
                            );
                        assert(self.current_page == pos2);
                        assert(call_ensures(self.fetch_fn(), (pos2,), res));
                        assert(res == Result::<Vec<Page>, ExtractError>::Err(e));
                        if self.total == 0 || covered {
                            assert(false);
                        }
                        lemma_served_carries(pre_it, *self, old(self).current_page);
                    }
                    return Err(e);
                },
            }
        }
    }

    /// Advance to the next position and produce what occupies it.
    ///
    /// The position is incremented first. A zero bound, or a known bound
    /// already passed, ends the sequence. A cached page at the position is
    /// returned as a copy, with no fetch call. Otherwise the callback is
    /// invoked with the position: returned pages are appended to the cache
    /// and the first newly appended one is produced; zero returned pages end
    /// an unbounded sequence; a fetch error is produced as the element in
    /// that slot, leaving the cache unchanged.
    pub fn next(&mut self) -> (r: Option<Result<Page, ExtractError>>)
        requires
            forall|i: usize| #[trigger] call_requires(old(self).fetch_fn(), (i,)),
        ensures
            final(self).total == old(self).total,
            final(self).fetch_fn() == old(self).fetch_fn(),
            final(self).same_meta(old(self).chapter),
            old(self).chapter.pages@.is_prefix_of(final(self).chapter.pages@),
            old(self).current_page == usize::MAX ==> r is None && *final(self) == *old(self),
            old(self).current_page < usize::MAX ==> final(self).current_page == old(self).current_page + 1,
            old(self).current_page < usize::MAX && exhausted(*old(self))
                ==> r is None && final(self).chapter.pages == old(self).chapter.pages,
            old(self).current_page < usize::MAX && !exhausted(*old(self))
                && old(self).current_page + 1 <= old(self).chapter.pages@.len()
                ==> r == Some(
                    Result::<Page, ExtractError>::Ok(
                        old(self).chapter.pages@[old(self).current_page as int],
                    ),
                )
                    && final(self).chapter.pages == old(self).chapter.pages,
            old(self).current_page < usize::MAX && !exhausted(*old(self))
                && old(self).current_page + 1 > old(self).chapter.pages@.len()
                ==> fetch_step(*old(self), *final(self), (old(self).current_page + 1) as usize, r),
    {
        if self.current_page == usize::MAX {
            return None;
        }
        self.current_page = self.current_page + 1;
        if self.total == 0 || (self.total > 0 && self.current_page > (self.total as usize)) {
            return None;
        }
        let idx = self.current_page - 1;
        if idx < self.chapter.pages.len() {
            return Some(Ok(self.chapter.pages[idx].clone()));
        }
        let ghost pre = *self;
        let ghost pos = self.current_page;
        proof {
            assert(call_requires(old(self).fetch_fn(), (pos,)));
        }
        let result = (self.fetch)(self.current_page);
        let ghost res_g = result;
        proof {
            assert(call_ensures(old(self).fetch_fn(), (pos,), res_g));
        }
        match result {
            Ok(mut pages) => {
                let count = pages.len();
                let ghost fetched = pages@;
                self.chapter.pages.append(&mut pages);
                if count > 0 {
                    let current_len = self.chapter.pages.len();
                    let first_new = self.chapter.pages[current_len - count].clone();
                    proof {
                        assert(first_new == fetched[0]);
                        assert(fetch_outcome(
                            *old(self),
                            *self,
                            pos,
                            Some(Result::<Page, ExtractError>::Ok(first_new)),
                            res_g,
                        ));
                    }
                    Some(Ok(first_new))
                } else {
                    proof {
                        assert(self.chapter.pages@ =~= pre.chapter.pages@ + fetched);
                        assert(fetch_outcome(*old(self), *self, pos, None, res_g));
                    }
                    None
                }
            },
            Err(e) => {
                proof {
                    assert(fetch_outcome(
                        *old(self),
                        *self,
                        pos,
                        Some(Result::<Page, ExtractError>::Err(e)),
                        res_g,
                    ));
                }
                Some(Err(e))
            },
        }
    }
}

} // verus!
