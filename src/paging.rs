use vstd::prelude::*;
use vstd::string::{StrSliceExecFns, StringExecFns};

verus! {

/// How many items a paginated listing gathers.
#[derive(Debug, Clone, Copy, PartialEq, Eq, Structural)]
pub enum PageLimit {
    /// Every item, across all pages.
    All,
    /// At most this many items; the page that passes the count is cut.
    Count(usize),
    /// The items of the first page only.
    SinglePage,
}

/// The order an endpoint lists its items in, passed through unchanged.
#[derive(Debug, Clone, Copy, PartialEq, Eq, Structural)]
pub enum SortOrder {
    Asc,
    Desc,
}

pub open spec fn sort_order_name(s: SortOrder) -> Seq<char> {
    match s {
        SortOrder::Asc => "Asc"@,
        SortOrder::Desc => "Desc"@,
    }
}

impl SortOrder {
    /// The value of the `sortOrder` query parameter.
    pub fn get_sort_order_string(&self) -> (r: &'static str)
        ensures
            r@ == sort_order_name(*self),
    {
        match self {
            SortOrder::Asc => "Asc",
            SortOrder::Desc => "Desc",
        }
    }
}

/// Where a listing starts, how much of it to gather, and in which order.
pub struct PageRequest {
    pub cursor: Option<String>,
    pub limit: PageLimit,
    pub sort_order: Option<SortOrder>,
}

/// One page of a listing, as an endpoint adapter hands it over.
pub struct Page<T> {
    pub items: Vec<T>,
    pub next_cursor: Option<String>,
}

/// What the paginator asks for next.
pub enum PageStep {
    /// Request the page at this cursor (`None`: the first page).
    Fetch(Option<String>),
    /// The listing is complete.
    Finished,
}

/// Walks a listing page by page: the caller requests each page a step asks
/// for and hands it to [`Paginator::on_page`], one page at a time.
pub struct Paginator<T> {
    pub limit: PageLimit,
    /// The items gathered so far, in the order the pages gave them.
    pub items: Vec<T>,
    /// Pages handed over so far.
    pub pages: usize,
    pub finished: bool,
}

/// How many of a page's items are kept, given how many are already held.
pub open spec fn kept(limit: PageLimit, held: nat, page_len: nat) -> nat {
    match limit {
        PageLimit::Count(n) => if held >= n {
            0
        } else if page_len <= n - held {
            page_len
        } else {
            (n - held) as nat
        },
        _ => page_len,
    }
}

/// Whether the listing ends after a page: one page was asked for, the page
/// was empty, it named no next page, or the count has been reached.
pub open spec fn ends_after(limit: PageLimit, held_after: nat, page_len: nat, next: Option<String>) -> bool {
    limit == PageLimit::SinglePage || page_len == 0 || next is None || match limit {
        PageLimit::Count(n) => held_after >= n,
        _ => false,
    }
}

impl<T> Paginator<T> {
    /// Starts a listing. A count of zero needs no page at all; otherwise the
    /// first page is requested at the request's cursor.
    pub fn start(request: PageRequest) -> (r: (Paginator<T>, PageStep))
        ensures
            r.0.limit == request.limit,
            r.0.items@.len() == 0,
            r.0.pages == 0,
            request.limit == PageLimit::Count(0) ==> r.1 is Finished && r.0.finished,
            request.limit != PageLimit::Count(0) ==> r.1 == PageStep::Fetch(request.cursor)
                && !r.0.finished,
    {
        let done = match request.limit {
            PageLimit::Count(n) => n == 0,
            _ => false,
        };
        let p = Paginator { limit: request.limit, items: Vec::new(), pages: 0, finished: done };
        if done {
            (p, PageStep::Finished)
        } else {
            (p, PageStep::Fetch(request.cursor))
        }
    }

    /// Takes the next page: its items are appended (cut to the count), and
    /// the listing either ends or asks for the page at the next cursor. A
    /// page without a next cursor always ends it.
    pub fn on_page(&mut self, page: Page<T>) -> (r: PageStep)
        requires
            !old(self).finished,
            old(self).pages < usize::MAX,
        ensures
            final(self).limit == old(self).limit,
            final(self).pages == old(self).pages + 1,
            final(self).items@ == old(self).items@ + page.items@.take(
                kept(old(self).limit, old(self).items@.len(), page.items@.len()) as int,
            ),
            final(self).finished == (r is Finished),
            r is Finished <==> ends_after(
                old(self).limit,
                final(self).items@.len(),
                page.items@.len(),
                page.next_cursor,
            ),
            r is Fetch ==> r == PageStep::Fetch(page.next_cursor),
            page.next_cursor is None ==> r is Finished,
    {
        let Page { items, next_cursor } = page;
        let mut items = items;
        let page_len = items.len();
        let held = self.items.len();
        let take: usize = match self.limit {
            PageLimit::Count(n) => if held >= n {
                0
            } else if page_len <= n - held {
                page_len
            } else {
                n - held
            },
            _ => page_len,
        };
        items.truncate(take);
        self.items.append(&mut items);
        self.pages = self.pages + 1;
        let count_reached = match self.limit {
            PageLimit::Count(n) => self.items.len() >= n,
            _ => false,
        };
        let single = match self.limit {
            PageLimit::SinglePage => true,
            _ => false,
        };
        let ends = single || page_len == 0 || next_cursor.is_none() || count_reached;
        self.finished = ends;
        if ends {
            PageStep::Finished
        } else {
            PageStep::Fetch(next_cursor)
        }
    }

    /// The items gathered, in order.
    pub fn into_items(self) -> (r: Vec<T>)
        ensures
            r@ == self.items@,
    {
        self.items
    }
}

/// Items asked for per page.
pub const PAGE_SIZE: &'static str = "100";

/// The separator that adds a query parameter to `base`.
pub open spec fn query_separator(base: Seq<char>) -> Seq<char> {
    if base.contains('?') {
        "&"@
    } else {
        "?"@
    }
}

/// The address of one page of a cursor-paged listing at `base`.
pub open spec fn page_address(base: Seq<char>, cursor: Option<String>) -> Seq<char> {
    base + query_separator(base) + "limit=100"@ + match cursor {
        Some(c) => "&cursor="@ + c@,
        None => Seq::empty(),
    }
}

/// Whether `s` holds a `?`.
fn has_query(s: &str) -> (r: bool)
    ensures
        r == s@.contains('?'),
{
    let n = s.unicode_len();
    let mut i: usize = 0;
    while i < n
        invariant
            n == s@.len(),
            0 <= i <= n,
            forall|j: int| 0 <= j < i ==> s@[j] != '?',
        decreases n - i,
    {
        if s.get_char(i) == '?' {
            return true;
        }
        i = i + 1;
    }
    false
}

/// The address of the page at `cursor` (the first page without one) of
/// the listing at `base`, a hundred items per page.
pub fn page_url(base: &str, cursor: &Option<String>) -> (r: String)
    ensures
        r@ == page_address(base@, *cursor),
{
    let mut s = String::from_str(base);
    if has_query(base) {
        s.append("&");
    } else {
        s.append("?");
    }
    s.append("limit=");
    s.append(PAGE_SIZE);
    match cursor {
        Some(c) => {
            s.append("&cursor=");
            s.append(c.as_str());
        },
        None => {},
    }
    proof {
        reveal_strlit("100");
        reveal_strlit("limit=");
        reveal_strlit("limit=100");
    }
    assert(s@ =~= page_address(base@, *cursor));
    s
}

/// Under a count, the paginator never holds more items than the count.
pub proof fn lemma_count_bound(limit: PageLimit, held: nat, page_len: nat)
    requires
        limit is Count ==> held <= limit->Count_0,
    ensures
        limit is Count ==> held + kept(limit, held, page_len) <= limit->Count_0,
        kept(limit, held, page_len) <= page_len,
{
}

/// The items of `pages`, one page after the other.
pub open spec fn flat<T>(pages: Seq<Page<T>>) -> Seq<T>
    decreases pages.len(),
{
    if pages.len() == 0 {
        Seq::empty()
    } else {
        pages[0].items@ + flat(pages.drop_first())
    }
}

/// What a paginator holding `held` ends with when `pages` are handed to
/// it one by one, as [`Paginator::on_page`] states: the pages it took and
/// the items it holds after the last of them.
pub open spec fn page_run<T>(limit: PageLimit, held: Seq<T>, pages: Seq<Page<T>>) -> (nat, Seq<T>)
    decreases pages.len(),
{
    if pages.len() == 0 {
        (0, held)
    } else {
        let p = pages[0];
        let h = held + p.items@.take(kept(limit, held.len(), p.items@.len()) as int);
        if ends_after(limit, h.len(), p.items@.len(), p.next_cursor) {
            (1, h)
        } else {
            let (used, items) = page_run(limit, h, pages.drop_first());
            (used + 1, items)
        }
    }
}

proof fn lemma_count_run<T>(n: usize, held: Seq<T>, pages: Seq<Page<T>>)
    requires
        held.len() <= n,
        held.len() + flat(pages).len() >= n,
        forall|i: int|
            0 <= i < pages.len() ==> (#[trigger] pages[i]).items@.len() > 0 && pages[i].next_cursor is Some,
    ensures
        page_run(PageLimit::Count(n), held, pages).1 == (held + flat(pages)).take(n as int),
    decreases pages.len(),
{
    let limit = PageLimit::Count(n);
    if pages.len() == 0 {
        assert((held + flat(pages)).take(n as int) =~= held);
    } else {
        let p = pages[0];
        let rest = pages.drop_first();
        let h = held + p.items@.take(kept(limit, held.len(), p.items@.len()) as int);
        assert(held + flat(pages) =~= held + p.items@ + flat(rest));
        if held.len() + p.items@.len() >= n {
            assert(h =~= (held + flat(pages)).take(n as int));
        } else {
            assert(h =~= held + p.items@);
            assert forall|i: int| 0 <= i < rest.len() implies (#[trigger] rest[i]).items@.len() > 0
                && rest[i].next_cursor is Some by {
                assert(rest[i] == pages[i + 1]);
            }
            lemma_count_run(n, h, rest);
            assert(h + flat(rest) =~= held + flat(pages));
        }
    }
}

/// Under `Count(n)`, over pages that each hold items and name a next page
/// and that hold at least `n` items together, the listing is exactly the
/// first `n` items of the pages, in the order the pages gave them.
pub proof fn lemma_count_listing<T>(n: usize, pages: Seq<Page<T>>)
    requires
        flat(pages).len() >= n,
        forall|i: int|
            0 <= i < pages.len() ==> (#[trigger] pages[i]).items@.len() > 0 && pages[i].next_cursor is Some,
    ensures
        page_run(PageLimit::Count(n), Seq::empty(), pages).1 == flat(pages).take(n as int),
{
    lemma_count_run(n, Seq::<T>::empty(), pages);
    assert(Seq::<T>::empty() + flat(pages) =~= flat(pages));
}

/// A page that names no next page ends the listing, however few items have
/// been gathered: no page after it is requested.
pub proof fn lemma_stops_without_cursor<T>(limit: PageLimit, held: Seq<T>, pages: Seq<Page<T>>)
    requires
        pages.len() > 0,
        pages[0].next_cursor is None,
    ensures
        page_run(limit, held, pages) == (
            1nat,
            held + pages[0].items@.take(kept(limit, held.len(), pages[0].items@.len()) as int),
        ),
{
}

} // verus!
