//! The pagination helper: a paged list endpoint is called with offsets
//! 0, 50, 100, … and every page is accumulated into one ordered sequence;
//! the first page shorter than the page size is the last. When the true end
//! falls on a page boundary the next call returns an empty page, which is
//! tolerated as a zero-length terminal page.
//!
//! The walk itself is a state machine here; whoever performs the network
//! round trips asks [`Paginator::next_offset`] for the offset to request
//! while one is due, and hands each page back through [`Paginator::absorb`].

use vstd::prelude::*;

verus! {

/// The page size every listing uses.
pub open spec fn spec_page_size() -> int {
    50
}

/// The state of one walk over a paged listing: the offset of the next
/// request, whether the walk has seen its terminal page, the aggregate in
/// arrival order, and the history of absorbed pages.
pub struct Paginator<T> {
    pub offset: u32,
    pub finished: bool,
    pub items: Vec<T>,
    pub pages: Ghost<Seq<Seq<T>>>,
}

impl<T> Paginator<T> {
    /// Every state the walk can reach: the aggregate is exactly the
    /// flattening of the absorbed pages in order, the offset advanced by
    /// one page size per page, the walk is finished exactly when the last
    /// page was short, and every earlier page was full.
    pub open spec fn wf(self) -> bool {
        &&& self.items@ == self.pages@.flatten()
        &&& self.offset == spec_page_size() * self.pages@.len()
        &&& (self.finished <==> (self.pages@.len() > 0 && self.pages@.last().len()
            < spec_page_size()))
        &&& (forall|i: int|
            0 <= i < self.pages@.len() - 1 ==> (#[trigger] self.pages@[i]).len()
                >= spec_page_size())
    }

    /// A fresh walk: nothing absorbed, the first request at offset zero.
    pub fn new() -> (r: Self)
        ensures
            r.wf(),
            r.offset == 0,
            !r.finished,
            r.items@ == Seq::<T>::empty(),
            r.pages@ == Seq::<Seq<T>>::empty(),
    {
        let r = Paginator {
            offset: 0,
            finished: false,
            items: Vec::new(),
            pages: Ghost(Seq::empty()),
        };
        proof {
            assert(r.pages@.flatten() =~= Seq::<T>::empty());
        }
        r
    }

    /// The offset to request next, or nothing once the walk is finished.
    pub fn next_offset(&self) -> (r: Option<u32>)
        ensures
            r == (if self.finished {
                Option::<u32>::None
            } else {
                Some(self.offset)
            }),
    {
        if self.finished {
            None
        } else {
            Some(self.offset)
        }
    }

    /// Takes one returned page into the aggregate: the items are appended
    /// in order, the offset advances by one page size, and the walk is
    /// finished exactly when the page was short. The offset bound is a
    /// machine limit on how many pages one walk can address.
    pub fn absorb(&mut self, page: Vec<T>)
        requires
            old(self).wf(),
            !old(self).finished,
            old(self).offset + 50 <= u32::MAX,
        ensures
            final(self).wf(),
            final(self).pages@ == old(self).pages@.push(page@),
            final(self).items@ == old(self).items@ + page@,
            final(self).offset == old(self).offset + 50,
            final(self).finished <==> page@.len() < spec_page_size(),
    {
        let ghost pv = page@;
        let short = page.len() < 50;
        let ghost old_pages = self.pages@;
        let mut page = page;
        self.items.append(&mut page);
        self.offset = self.offset + 50;
        self.finished = short;
        self.pages = Ghost(old_pages.push(pv));
        proof {
            old_pages.lemma_flatten_push(pv);
            assert(self.pages@.last() == pv);
            assert forall|i: int|
                0 <= i < self.pages@.len() - 1 implies (#[trigger] self.pages@[i]).len()
                >= spec_page_size() by {
                if i < old_pages.len() - 1 {
                    assert(self.pages@[i] == old_pages[i]);
                } else {
                    assert(self.pages@[i] == old_pages.last());
                }
            }
        }
    }

    /// How many pages, and so how many list calls, the walk has absorbed.
    pub fn pages_absorbed(&self) -> (r: u32)
        requires
            self.wf(),
        ensures
            r == self.pages@.len(),
    {
        self.offset / 50
    }
}

/// The aggregate preserves the inter-page ordering: the items of page `i`
/// stand in the aggregate as one contiguous block, after exactly the items
/// of the pages before it.
pub proof fn lemma_paginator_order<T>(p: Paginator<T>, i: int)
    requires
        p.wf(),
        0 <= i < p.pages@.len(),
    ensures
        p.pages@.subrange(0, i).flatten().len() + p.pages@[i].len() <= p.items@.len(),
        forall|k: int|
            0 <= k < p.pages@[i].len() ==> p.items@[p.pages@.subrange(0, i).flatten().len()
                + k] == p.pages@[i][k],
    decreases p.pages@.len(),
{
    lemma_flatten_prefix(p.pages@, i);
}

/// Flattening reads each page at its block offset: the law the ordering
/// rests on.
proof fn lemma_flatten_prefix<T>(pages: Seq<Seq<T>>, i: int)
    requires
        0 <= i < pages.len(),
    ensures
        pages.subrange(0, i).flatten().len() + pages[i].len() <= pages.flatten().len(),
        forall|k: int|
            0 <= k < pages[i].len() ==> pages.flatten()[pages.subrange(0, i).flatten().len()
                + k] == pages[i][k],
    decreases pages.len(),
{
    if pages.len() > 0 {
        let rest = pages.drop_first();
        if i == 0 {
            assert(pages.subrange(0, 0) =~= Seq::<Seq<T>>::empty());
            assert(Seq::<Seq<T>>::empty().flatten() =~= Seq::<T>::empty());
            assert(pages.flatten() == pages.first() + rest.flatten());
        } else {
            lemma_flatten_prefix(rest, i - 1);
            assert(pages.flatten() == pages.first() + rest.flatten());
            assert(rest.subrange(0, i - 1) =~= pages.subrange(1, i));
            lemma_flatten_cons_prefix(pages, i);
            assert forall|k: int|
                0 <= k < pages[i].len() implies pages.flatten()[pages.subrange(
                0,
                i,
            ).flatten().len() + k] == pages[i][k] by {
                assert(rest[i - 1] == pages[i]);
                assert(rest.flatten()[rest.subrange(0, i - 1).flatten().len() + k]
                    == rest[i - 1][k]);
                assert(pages.flatten()[pages.first().len() + rest.subrange(
                    0,
                    i - 1,
                ).flatten().len() + k] == rest.flatten()[rest.subrange(
                    0,
                    i - 1,
                ).flatten().len() + k]);
            }
        }
    }
}

/// A non-empty prefix flattens to the first page followed by the rest of
/// the prefix.
proof fn lemma_flatten_cons_prefix<T>(pages: Seq<Seq<T>>, i: int)
    requires
        0 < i <= pages.len(),
    ensures
        pages.subrange(0, i).flatten().len() == pages.first().len() + pages.drop_first()
            .subrange(0, i - 1).flatten().len(),
{
    assert(pages.subrange(0, i).first() == pages.first());
    assert(pages.subrange(0, i).drop_first() =~= pages.drop_first().subrange(0, i - 1));
    assert(pages.subrange(0, i).flatten() == pages.subrange(0, i).first() + pages.subrange(
        0,
        i,
    ).drop_first().flatten());
}

} // verus!
