use napewno::feed::{Feed, ScanReport};
use napewno::post::Post;

fn post(id: u64, author_id: u64, created_at: i64) -> Post {
    Post { id, author_id, created_at, text: String::new(), in_reply_to: None }
}

// `total` posts, one a second, newest first, the newest written at `newest`,
// by `authors` accounts in turn.
fn stream(total: usize, newest: i64, authors: u64) -> Feed {
    let mut posts = Vec::new();
    for i in 0..total {
        posts.push(post(i as u64, i as u64 % authors, newest - i as i64));
    }
    Feed::new(posts).unwrap()
}

#[test]
fn feed_takes_posts_in_order_only() {
    assert!(Feed::new(Vec::new()).is_some());
    assert!(Feed::new(vec![post(1, 1, 5)]).is_some());
    assert!(Feed::new(vec![post(2, 1, 6), post(1, 1, 5)]).is_some());
    assert!(Feed::new(vec![post(1, 1, 5), post(2, 1, 6)]).is_none());
    assert!(Feed::new(vec![post(2, 1, 5), post(1, 1, 5)]).is_none());
    assert!(Feed::new(vec![post(3, 1, 7), post(2, 1, 5), post(1, 1, 6)]).is_none());
    assert_eq!(Feed::new(vec![post(2, 1, 6), post(1, 1, 5)]).unwrap().len(), 2);
}

#[test]
fn search_gives_the_newest_posts_of_the_window() {
    let feed = stream(10, 109, 3);
    let page = feed.search(103, 107, 100);
    let times: Vec<i64> = page.iter().map(|p| p.created_at).collect();
    assert_eq!(times, vec![106, 105, 104, 103]);
    let page = feed.search(103, 107, 3);
    let times: Vec<i64> = page.iter().map(|p| p.created_at).collect();
    assert_eq!(times, vec![106, 105, 104]);
    assert_eq!(feed.search(103, 107, 0).len(), 0);
    assert_eq!(feed.search(107, 103, 100).len(), 0);
    assert_eq!(feed.search(105, 105, 100).len(), 0);
    assert_eq!(feed.search(0, 100, 100).len(), 0);
    assert_eq!(feed.search(110, 500, 100).len(), 0);
    assert_eq!(feed.search(i64::MIN, i64::MAX, usize::MAX).len(), 10);
}

#[test]
fn walk_needs_as_many_pages_as_hold_the_posts() {
    let feed = stream(250, 1000, 40);
    assert_eq!(
        feed.walk(0, 2000, 100),
        Some(ScanReport { count: 40, pages: 3, empty_pages: 1 })
    );
    let feed = stream(200, 1000, 40);
    assert_eq!(
        feed.walk(0, 2000, 100),
        Some(ScanReport { count: 40, pages: 2, empty_pages: 1 })
    );
    let feed = stream(201, 1000, 40);
    assert_eq!(feed.walk(0, 2000, 100).unwrap().pages, 3);
    let feed = stream(1, 1000, 40);
    assert_eq!(
        feed.walk(0, 2000, 100),
        Some(ScanReport { count: 1, pages: 1, empty_pages: 1 })
    );
}

#[test]
fn walk_takes_no_more_than_the_pages_needed_and_one() {
    for total in 0usize..40 {
        for size in 1usize..12 {
            let feed = stream(total, 1000, 7);
            let report = feed.walk(0, 2000, size).unwrap();
            assert_eq!(report.pages, (total + size - 1) / size);
            assert!(report.empty_pages <= 1);
            assert_eq!(report.count, total.min(7));
        }
    }
}

#[test]
fn walk_counts_the_same_whatever_the_page_size() {
    let feed = stream(97, 1000, 13);
    for size in 1usize..120 {
        assert_eq!(feed.walk(950, 990, size).unwrap().count, 13);
        assert_eq!(feed.walk(995, 1000, size).unwrap().count, 5);
    }
}

#[test]
fn walk_counts_the_window_only() {
    let feed = Feed::new(vec![
        post(6, 60, 300),
        post(5, 50, 200),
        post(4, 40, 199),
        post(3, 40, 150),
        post(2, 20, 100),
        post(1, 10, 99),
    ])
    .unwrap();
    assert_eq!(feed.walk(100, 200, 100), Some(ScanReport { count: 2, pages: 1, empty_pages: 0 }));
    assert_eq!(feed.walk(100, 201, 2), Some(ScanReport { count: 3, pages: 2, empty_pages: 0 }));
    assert_eq!(feed.walk(101, 200, 2), Some(ScanReport { count: 1, pages: 1, empty_pages: 1 }));
    assert_eq!(feed.walk(301, 400, 2), Some(ScanReport { count: 0, pages: 0, empty_pages: 1 }));
}

#[test]
fn walk_of_an_empty_window_asks_nothing() {
    let feed = stream(10, 1000, 3);
    assert_eq!(feed.walk(995, 995, 5), Some(ScanReport { count: 0, pages: 0, empty_pages: 0 }));
    assert_eq!(feed.walk(999, 995, 5), Some(ScanReport { count: 0, pages: 0, empty_pages: 0 }));
}

#[test]
fn walk_of_an_empty_feed_asks_once() {
    let feed = Feed::new(Vec::new()).unwrap();
    assert_eq!(feed.walk(0, 10, 5), Some(ScanReport { count: 0, pages: 0, empty_pages: 1 }));
}

#[test]
fn walk_needs_pages_that_hold_something() {
    let feed = stream(10, 1000, 3);
    assert_eq!(feed.walk(0, 2000, 0), None);
}
