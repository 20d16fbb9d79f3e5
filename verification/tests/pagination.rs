use nextory::catalogue::{Book, Group, Groups, Search};
use nextory::client::Client;
use nextory::common::{DateTime, Sort};
use nextory::downloader::Downloader;
use nextory::library::{Inactive, InactiveBook};
use nextory::walk::{CategoryWalk, InactiveWalk, NewWalk};

fn session() -> Client {
    Client::from_token("tok".to_string())
}

fn store() -> Downloader {
    Downloader::new("/books".to_string(), false)
}

fn inactive_page(size: usize) -> Inactive {
    Inactive { books: (0..size).map(|i| InactiveBook { id: i as u32, isupcoming: 0 }).collect() }
}

fn listed(id: u32) -> Book {
    Book {
        id,
        title: "T".to_string(),
        imageurl: "i".to_string(),
        authors: vec!["A".to_string()],
        pubdate: DateTime { secs: 0, nanos: 0 },
        esalesticket: "e".to_string(),
        isupcoming: None,
        libstatus: "NOTINLIB".to_string(),
    }
}

fn search_page(size: usize, pagetoken: Option<&str>) -> Search {
    Search {
        books: (0..size).map(|i| listed(i as u32)).collect(),
        bookcount: 100,
        pagetoken: pagetoken.map(|t| t.to_string()),
    }
}

fn query_value(request: &nextory::request::Request, name: &str) -> Option<String> {
    request.query.iter().find(|(k, _)| k == name).map(|(_, v)| v.clone())
}

#[test]
fn inactive_walk_over_12_12_5_sends_three_requests() {
    let client = session();
    let sizes = [12usize, 12, 5];
    let mut pages = sizes.iter();
    let mut walk = store().download_inactive();
    let mut asked: Vec<String> = Vec::new();
    while let Some(request) = walk.request(&client) {
        asked.push(query_value(&request, "pagenumber").unwrap());
        let size = *pages.next().expect("the walk asked for more pages than there are");
        walk = walk.advance(&inactive_page(size));
    }
    assert_eq!(asked.len(), 3);
    assert_eq!(asked, vec!["0", "1", "2"]);
    assert_eq!(walk, InactiveWalk { page: 2, finished: true });
    assert!(pages.next().is_none());
}

#[test]
fn inactive_walk_stops_after_the_first_short_page() {
    let client = session();
    let walk = store().download_inactive().advance(&inactive_page(11));
    assert!(walk.finished);
    assert!(walk.request(&client).is_none());
    let empty = store().download_inactive().advance(&inactive_page(0));
    assert!(empty.finished);
}

#[test]
fn inactive_walk_goes_on_after_a_full_page() {
    let client = session();
    let walk = store().download_inactive().advance(&inactive_page(12));
    assert_eq!(walk, InactiveWalk { page: 1, finished: false });
    assert!(walk.request(&client).is_some());
    let more = walk.advance(&inactive_page(13));
    assert_eq!(more, InactiveWalk { page: 2, finished: false });
}

#[test]
fn inactive_walk_ends_when_the_page_numbers_are_used_up() {
    let walk = InactiveWalk { page: u32::MAX, finished: false }.advance(&inactive_page(12));
    assert_eq!(walk, InactiveWalk { page: u32::MAX, finished: true });
}

#[test]
fn a_finished_inactive_walk_stays_finished() {
    let walk = InactiveWalk { page: 4, finished: true }.advance(&inactive_page(12));
    assert_eq!(walk, InactiveWalk { page: 4, finished: true });
}

#[test]
fn new_releases_walk_counts_pages_until_an_empty_one() {
    let client = session();
    let sizes = [12usize, 3, 12, 0, 12];
    let mut walk = store().download_new();
    let mut asked: Vec<String> = Vec::new();
    let mut next = 0;
    while let Some(request) = walk.request(&client) {
        asked.push(query_value(&request, "pagenumber").unwrap());
        walk = walk.advance(&search_page(sizes[next], None));
        next += 1;
    }
    assert_eq!(asked, vec!["0", "1", "2", "3"]);
    assert_eq!(walk, NewWalk { page: 3, finished: true });
}

#[test]
fn new_releases_walk_ends_when_the_page_numbers_are_used_up() {
    let walk = NewWalk { page: u32::MAX, finished: false }.advance(&search_page(12, None));
    assert_eq!(walk, NewWalk { page: u32::MAX, finished: true });
    let near = NewWalk { page: u32::MAX - 1, finished: false }.advance(&search_page(12, None));
    assert_eq!(near, NewWalk { page: u32::MAX, finished: false });
}

#[test]
fn category_walk_first_request_has_no_token() {
    let client = session();
    let walk = store().download_category("grp", Sort::Relevance);
    let request = walk.request(&client).unwrap();
    assert_eq!(query_value(&request, "bookgroupid"), Some("grp".to_string()));
    assert_eq!(query_value(&request, "sort"), Some("relevance".to_string()));
    assert_eq!(query_value(&request, "pagetoken"), Some(String::new()));
    assert_eq!(query_value(&request, "pagenumber"), Some("0".to_string()));
}

#[test]
fn category_walk_echoes_the_token_of_the_page_before() {
    let client = session();
    let walk = store().download_category("grp", Sort::Title);
    let walk = walk.advance(&search_page(12, Some("tOkEn+/= 1")));
    let second = walk.request(&client).unwrap();
    assert_eq!(query_value(&second, "pagetoken"), Some("tOkEn+/= 1".to_string()));
    assert_eq!(query_value(&second, "pagenumber"), Some("1".to_string()));
    let walk = walk.advance(&search_page(4, Some("next")));
    let third = walk.request(&client).unwrap();
    assert_eq!(query_value(&third, "pagetoken"), Some("next".to_string()));
    assert_eq!(query_value(&third, "pagenumber"), Some("2".to_string()));
}

#[test]
fn category_walk_drops_the_token_when_a_page_brings_none() {
    let client = session();
    let walk = store().download_category("grp", Sort::Title);
    let walk = walk.advance(&search_page(12, Some("one")));
    let walk = walk.advance(&search_page(12, None));
    let request = walk.request(&client).unwrap();
    assert_eq!(query_value(&request, "pagetoken"), Some(String::new()));
    assert_eq!(query_value(&request, "pagenumber"), Some("2".to_string()));
}

#[test]
fn category_walk_ends_on_an_empty_page() {
    let client = session();
    let walk = store().download_category("grp", Sort::Title);
    let walk = walk.advance(&search_page(12, Some("one")));
    let walk = walk.advance(&search_page(0, Some("ignored")));
    assert!(walk.finished);
    assert!(walk.request(&client).is_none());
    assert_eq!(
        walk,
        CategoryWalk {
            category: "grp".to_string(),
            sort: Sort::Title,
            pagetoken: Some("one".to_string()),
            page: 1,
            finished: true,
        }
    );
    let later = walk.advance(&search_page(12, Some("late")));
    assert!(later.finished);
    assert_eq!(later.pagetoken, Some("one".to_string()));
}

#[test]
fn groups_walk_counts_pages_until_an_empty_one() {
    let client = session();
    let mut walk = store().download_groups(Some("series"), Sort::Relevance);
    let sizes = [2usize, 1, 0];
    let mut asked: Vec<String> = Vec::new();
    let mut next = 0;
    while let Some(request) = walk.request(&client) {
        assert_eq!(query_value(&request, "view"), Some("series".to_string()));
        asked.push(query_value(&request, "pagenumber").unwrap());
        let page = Groups {
            bookgroups: (0..sizes[next]).map(|i| Group { id: format!("g{}", i) }).collect(),
            bookgroupcount: 3,
        };
        walk = walk.advance(&page);
        next += 1;
    }
    assert_eq!(asked, vec!["0", "1", "2"]);
    assert!(walk.finished);
    assert_eq!(walk.sort, Sort::Relevance);
}

#[test]
fn groups_walk_without_a_view_sends_none() {
    let client = session();
    let walk = store().download_groups(None, Sort::Rating);
    let request = walk.request(&client).unwrap();
    assert_eq!(query_value(&request, "view"), None);
    assert_eq!(walk.view, None);
}

#[test]
fn groups_page_gives_one_category_walk_for_each_group() {
    let client = session();
    let walk = store().download_groups(None, Sort::Authors);
    let page = Groups {
        bookgroups: vec![Group { id: "g1".to_string() }, Group { id: "g2".to_string() }],
        bookgroupcount: 2,
    };
    let walks = walk.categories(&page);
    assert_eq!(
        walks,
        vec![
            CategoryWalk {
                category: "g1".to_string(),
                sort: Sort::Authors,
                pagetoken: None,
                page: 0,
                finished: false,
            },
            CategoryWalk {
                category: "g2".to_string(),
                sort: Sort::Authors,
                pagetoken: None,
                page: 0,
                finished: false,
            },
        ]
    );
    let request = walks[1].request(&client).unwrap();
    assert_eq!(query_value(&request, "bookgroupid"), Some("g2".to_string()));
    assert_eq!(query_value(&request, "sort"), Some("authors".to_string()));
    let none = walk.categories(&Groups { bookgroups: Vec::new(), bookgroupcount: 0 });
    assert!(none.is_empty());
}
