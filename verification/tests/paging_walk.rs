use domo::paging::Paginator;

fn page_of(start: u64, n: usize) -> Vec<u64> {
    let mut v = Vec::new();
    for k in 0..n {
        v.push(start + k as u64);
    }
    v
}

#[test]
fn pagination_three_pages() {
    // Pages of sizes [50, 50, 23]: the aggregate has length 123, keeps the
    // inter-page order, and exactly 3 calls are made.
    let pages = vec![page_of(0, 50), page_of(50, 50), page_of(100, 23)];
    let mut walk: Paginator<u64> = Paginator::new();
    let mut calls = 0usize;
    let mut served = pages.into_iter();
    while let Some(offset) = walk.next_offset() {
        assert_eq!(offset as usize, calls * 50);
        let page = served.next().expect("no page requested beyond the data");
        calls += 1;
        walk.absorb(page);
    }
    assert_eq!(calls, 3);
    assert_eq!(walk.pages_absorbed(), 3);
    assert_eq!(walk.items.len(), 123);
    for (i, v) in walk.items.iter().enumerate() {
        assert_eq!(*v, i as u64);
    }
}

#[test]
fn pagination_boundary_empty_terminal_page() {
    // Pages of sizes [50, 50] with the true end on the boundary: a 3rd call
    // returns an empty page, the aggregate has length 100, 3 calls in all.
    let pages = vec![page_of(0, 50), page_of(50, 50), page_of(100, 0)];
    let mut walk: Paginator<u64> = Paginator::new();
    let mut calls = 0usize;
    let mut served = pages.into_iter();
    while let Some(_offset) = walk.next_offset() {
        let page = served.next().expect("no page requested beyond the data");
        calls += 1;
        walk.absorb(page);
    }
    assert_eq!(calls, 3);
    assert_eq!(walk.items.len(), 100);
    for (i, v) in walk.items.iter().enumerate() {
        assert_eq!(*v, i as u64);
    }
}

#[test]
fn pagination_short_first_page() {
    let pages = vec![page_of(0, 7)];
    let mut walk: Paginator<u64> = Paginator::new();
    let mut calls = 0usize;
    let mut served = pages.into_iter();
    while let Some(_offset) = walk.next_offset() {
        walk.absorb(served.next().unwrap());
        calls += 1;
    }
    assert_eq!(calls, 1);
    assert_eq!(walk.items.len(), 7);
}
