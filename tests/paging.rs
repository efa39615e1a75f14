use roblox_groups::paging::{page_url, Page, PageLimit, PageRequest, PageStep, Paginator, SortOrder};

fn request(limit: PageLimit) -> PageRequest {
    PageRequest { cursor: None, limit, sort_order: None }
}

fn page(items: Vec<u32>, next: Option<&str>) -> Page<u32> {
    Page { items, next_cursor: next.map(|c| c.to_string()) }
}

/// Feeds `pages` to a paginator and returns the items and the pages used.
fn run(limit: PageLimit, pages: Vec<Page<u32>>) -> (Vec<u32>, usize) {
    let (mut p, mut step) = Paginator::start(request(limit));
    let mut pages = pages.into_iter();
    let mut calls = 0;
    while let PageStep::Fetch(_) = step {
        calls += 1;
        step = p.on_page(pages.next().expect("the paginator asked for one page too many"));
    }
    assert_eq!(calls, p.pages);
    (p.into_items(), calls)
}

#[test]
fn count_five_over_pages_of_three() {
    let pages = vec![
        page(vec![1, 2, 3], Some("c1")),
        page(vec![4, 5, 6], Some("c2")),
        page(vec![7, 8, 9], Some("c3")),
    ];
    let (items, calls) = run(PageLimit::Count(5), pages);
    assert_eq!(items, vec![1, 2, 3, 4, 5]);
    assert_eq!(calls, 2);
}

#[test]
fn missing_next_cursor_stops_below_limit() {
    let pages = vec![page(vec![1, 2], Some("c1")), page(vec![3], None), page(vec![4], None)];
    let (items, calls) = run(PageLimit::Count(10), pages);
    assert_eq!(items, vec![1, 2, 3]);
    assert_eq!(calls, 2);
}

#[test]
fn empty_page_stops_the_listing() {
    let pages = vec![page(vec![1], Some("c1")), page(vec![], Some("c2")), page(vec![9], None)];
    let (items, calls) = run(PageLimit::All, pages);
    assert_eq!(items, vec![1]);
    assert_eq!(calls, 2);
}

#[test]
fn single_page_makes_one_call() {
    let pages = vec![page(vec![1, 2], Some("c1")), page(vec![3], None)];
    let (items, calls) = run(PageLimit::SinglePage, pages);
    assert_eq!(items, vec![1, 2]);
    assert_eq!(calls, 1);
}

#[test]
fn all_follows_cursors_to_the_end() {
    let (mut p, step) = Paginator::start(PageRequest {
        cursor: Some("start".to_string()),
        limit: PageLimit::All,
        sort_order: Some(SortOrder::Desc),
    });
    assert!(matches!(step, PageStep::Fetch(Some(ref c)) if c == "start"));
    let step = p.on_page(page(vec![1], Some("c1")));
    assert!(matches!(step, PageStep::Fetch(Some(ref c)) if c == "c1"));
    let step = p.on_page(page(vec![2, 3], None));
    assert!(matches!(step, PageStep::Finished));
    assert!(p.finished);
    assert_eq!(p.into_items(), vec![1, 2, 3]);
}

#[test]
fn count_zero_needs_no_page() {
    let (items, calls) = run(PageLimit::Count(0), vec![]);
    assert!(items.is_empty());
    assert_eq!(calls, 0);
}

#[test]
fn count_equal_to_page_size_stops_exactly() {
    let pages = vec![page(vec![1, 2, 3], Some("c1")), page(vec![4], None)];
    let (items, calls) = run(PageLimit::Count(3), pages);
    assert_eq!(items, vec![1, 2, 3]);
    assert_eq!(calls, 1);
}

#[test]
fn sort_order_strings() {
    assert_eq!(SortOrder::Asc.get_sort_order_string(), "Asc");
    assert_eq!(SortOrder::Desc.get_sort_order_string(), "Desc");
}

#[test]
fn page_addresses() {
    assert_eq!(
        page_url("https://groups.roblox.com/v1/groups/4/join-requests", &None),
        "https://groups.roblox.com/v1/groups/4/join-requests?limit=100"
    );
    assert_eq!(
        page_url("https://x.test/users?sortOrder=Asc", &Some("abc".to_string())),
        "https://x.test/users?sortOrder=Asc&limit=100&cursor=abc"
    );
}
