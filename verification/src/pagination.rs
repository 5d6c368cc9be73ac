//! Cursor-based pagination: which page to ask for next, when to stop, and
//! what the pages add up to.

use vstd::prelude::*;
use crate::responses::{Connection, PageInfo};
use crate::text::opt_text;

verus! {

/// The most records that a single bounded fetch may ask for.
pub const MAX_LIMIT: u32 = 250;

/// The size of each page when everything is fetched.
pub const PAGE_SIZE: u32 = 100;

/// One fetch: how many records, and after which cursor.
pub struct PageRequest {
    pub first: u32,
    pub after: Option<String>,
}

/// A limit, cut to the ceiling.
pub open spec fn capped(limit: u32) -> u32 {
    if limit > MAX_LIMIT {
        MAX_LIMIT
    } else {
        limit
    }
}

/// Whether another page is fetched after one with this page info: only when
/// everything was asked for, the service reports more, and it gave a cursor
/// to go on from.
pub open spec fn continues(unbounded: bool, info: PageInfo) -> bool {
    unbounded && info.has_next_page && info.end_cursor is Some
}

/// The records that accumulation yields when the service answers with these
/// pages in turn: those of each page in order, up to and with the first page
/// after which no other is fetched.
pub open spec fn collected<T>(pages: Seq<Connection<T>>, unbounded: bool) -> Seq<T>
    decreases pages.len(),
{
    if pages.len() == 0 {
        Seq::empty()
    } else if continues(unbounded, pages[0].page_info) {
        pages[0].nodes@ + collected(pages.drop_first(), unbounded)
    } else {
        pages[0].nodes@
    }
}

/// How many of the pages accumulation fetches.
pub open spec fn fetched<T>(pages: Seq<Connection<T>>, unbounded: bool) -> nat
    decreases pages.len(),
{
    if pages.len() == 0 {
        0
    } else if continues(unbounded, pages[0].page_info) {
        1 + fetched(pages.drop_first(), unbounded)
    } else {
        1
    }
}

/// The records of the first `n` pages, in order.
pub open spec fn concatenated<T>(pages: Seq<Connection<T>>, n: nat) -> Seq<T>
    decreases n,
{
    if n == 0 || pages.len() == 0 {
        Seq::empty()
    } else {
        pages[0].nodes@ + concatenated(pages.drop_first(), (n - 1) as nat)
    }
}

/// The first fetch: one page of the internal size where everything is asked
/// for, else a single page of the limit, cut to the ceiling.
pub fn first_request(limit: u32, unbounded: bool) -> (r: PageRequest)
    ensures
        r.after is None,
        r.first == (if unbounded {
            PAGE_SIZE
        } else {
            capped(limit)
        }),
{
    let first = if unbounded {
        PAGE_SIZE
    } else if limit > MAX_LIMIT {
        MAX_LIMIT
    } else {
        limit
    };
    PageRequest { first, after: None }
}

/// The fetch that follows a page, or none where accumulation ends.
pub fn next_request(unbounded: bool, info: &PageInfo) -> (r: Option<PageRequest>)
    ensures
        continues(unbounded, *info) ==> (r matches Some(req) && req.first == PAGE_SIZE && opt_text(
            req.after,
        ) == opt_text(info.end_cursor)),
        !continues(unbounded, *info) ==> r is None,
{
    if unbounded && info.has_next_page {
        match &info.end_cursor {
            Some(cursor) => Some(PageRequest { first: PAGE_SIZE, after: Some(cursor.clone()) }),
            None => None,
        }
    } else {
        None
    }
}

/// The records gathered so far.
pub struct Accumulator<T> {
    items: Vec<T>,
    unbounded: bool,
}

impl<T> Accumulator<T> {
    /// The records gathered so far, in the order in which they came.
    pub closed spec fn gathered(&self) -> Seq<T> {
        self.items@
    }

    /// Whether everything is asked for.
    pub closed spec fn is_unbounded(&self) -> bool {
        self.unbounded
    }

    /// An accumulator with nothing gathered, and the first fetch to make.
    pub fn start(limit: u32, unbounded: bool) -> (r: (Accumulator<T>, PageRequest))
        ensures
            r.0.gathered() == Seq::<T>::empty(),
            r.0.is_unbounded() == unbounded,
            r.1.after is None,
            r.1.first == (if unbounded {
                PAGE_SIZE
            } else {
                capped(limit)
            }),
    {
        (Accumulator { items: Vec::new(), unbounded }, first_request(limit, unbounded))
    }

    /// Takes a page in: its records go behind those gathered before, in the
    /// page's order, and the result is the next fetch, or none at the end.
    pub fn absorb(&mut self, page: Connection<T>) -> (next: Option<PageRequest>)
        ensures
            final(self).gathered() == old(self).gathered() + page.nodes@,
            final(self).is_unbounded() == old(self).is_unbounded(),
            continues(old(self).is_unbounded(), page.page_info) ==> (next matches Some(req)
                && req.first == PAGE_SIZE && opt_text(req.after) == opt_text(
                page.page_info.end_cursor,
            )),
            !continues(old(self).is_unbounded(), page.page_info) ==> next is None,
    {
        let mut page = page;
        let next = next_request(self.unbounded, &page.page_info);
        self.items.append(&mut page.nodes);
        next
    }

    /// The records gathered, in the order in which they came.
    pub fn finish(self) -> (items: Vec<T>)
        ensures
            items@ == self.gathered(),
    {
        self.items
    }
}

/// What accumulation yields when the service answers with `pages` in turn:
/// the pages are taken in until one ends the accumulation; what follows it is
/// never fetched. Nothing is sorted and nothing is dropped.
pub fn collect<T>(pages: Vec<Connection<T>>, unbounded: bool) -> (items: Vec<T>)
    ensures
        items@ == collected(pages@, unbounded),
{
    let mut pages = pages;
    let ghost all = pages@;
    let (mut acc, _first) = Accumulator::<T>::start(0, unbounded);
    let mut rest: Vec<Connection<T>> = Vec::new();
    // The pages are taken from the back of a reversed list, so that none is copied.
    while pages.len() > 0
        invariant
            rest@.len() + pages@.len() == all.len(),
            forall|j: int| 0 <= j < pages@.len() ==> pages@[j] == all[j],
            forall|j: int| 0 <= j < rest@.len() ==> rest@[j] == all[all.len() - 1 - j],
        decreases pages@.len(),
    {
        let p = pages.pop().unwrap();
        rest.push(p);
    }
    let mut more = true;
    proof {
        assert(all.skip(0) =~= all);
        assert(acc.gathered() + collected(all, unbounded) =~= collected(all, unbounded));
    }
    while more && rest.len() > 0
        invariant
            acc.is_unbounded() == unbounded,
            rest@.len() <= all.len(),
            forall|j: int| 0 <= j < rest@.len() ==> rest@[j] == all[all.len() - 1 - j],
            more ==> acc.gathered() + collected(all.skip(all.len() - rest@.len()), unbounded)
                == collected(all, unbounded),
            !more ==> acc.gathered() == collected(all, unbounded),
        decreases rest@.len(),
    {
        let ghost tail = all.skip(all.len() - rest@.len());
        let ghost before = acc.gathered();
        let page = rest.pop().unwrap();
        proof {
            assert(tail[0] == page);
            assert(tail.drop_first() =~= all.skip(all.len() - rest@.len()));
        }
        let next = acc.absorb(page);
        proof {
            if continues(unbounded, page.page_info) {
                assert(before + (page.nodes@ + collected(tail.drop_first(), unbounded)) =~= (before
                    + page.nodes@) + collected(tail.drop_first(), unbounded));
            }
        }
        more = next.is_some();
    }
    proof {
        if more {
            assert(all.skip(all.len() as int).len() == 0);
            assert(acc.gathered() + Seq::<T>::empty() =~= acc.gathered());
        }
    }
    acc.finish()
}

/// What accumulation yields is the concatenation, in the order of arrival,
/// of the pages that it fetches.
pub proof fn lemma_collected_is_concatenation<T>(pages: Seq<Connection<T>>, unbounded: bool)
    ensures
        collected(pages, unbounded) == concatenated(pages, fetched(pages, unbounded)),
        fetched(pages, unbounded) <= pages.len(),
    decreases pages.len(),
{
    if pages.len() == 0 {
    } else if continues(unbounded, pages[0].page_info) {
        lemma_collected_is_concatenation(pages.drop_first(), unbounded);
    } else {
        assert(concatenated(pages.drop_first(), 0) =~= Seq::<T>::empty());
        assert(pages[0].nodes@ + Seq::<T>::empty() =~= pages[0].nodes@);
    }
}

/// A bounded accumulation fetches one page and no more, whatever the
/// service reports; an unbounded one stops at the first page that reports no
/// further page or gives no cursor.
pub proof fn lemma_fetch_count<T>(pages: Seq<Connection<T>>, unbounded: bool)
    requires
        pages.len() > 0,
    ensures
        !unbounded ==> fetched(pages, unbounded) == 1,
        !continues(unbounded, pages[0].page_info) ==> fetched(pages, unbounded) == 1,
        1 <= fetched(pages, unbounded) <= pages.len(),
        forall|j: int|
            0 <= j < fetched(pages, unbounded) - 1 ==> continues(
                unbounded,
                #[trigger] pages[j].page_info,
            ),
        fetched(pages, unbounded) < pages.len() ==> !continues(
            unbounded,
            pages[fetched(pages, unbounded) - 1].page_info,
        ),
    decreases pages.len(),
{
    if continues(unbounded, pages[0].page_info) && pages.len() > 1 {
        let rest = pages.drop_first();
        lemma_fetch_count(rest, unbounded);
        assert(fetched(pages, unbounded) == 1 + fetched(rest, unbounded));
        assert forall|j: int| 0 <= j < fetched(pages, unbounded) - 1 implies continues(
            unbounded,
            #[trigger] pages[j].page_info,
        ) by {
            if j > 0 {
                assert(rest[j - 1] == pages[j]);
            }
        }
        assert(rest[fetched(rest, unbounded) - 1] == pages[fetched(pages, unbounded) - 1]);
    } else if continues(unbounded, pages[0].page_info) {
        assert(pages.drop_first().len() == 0);
        assert(fetched(pages.drop_first(), unbounded) == 0);
    }
}

} // verus!
