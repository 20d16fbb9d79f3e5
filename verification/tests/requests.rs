use nextory::catalogue::{booksforbookgroup, groups, new, Book};
use nextory::client::{Client, Transport};
use nextory::common::{DateTime, Sort};
use nextory::library::{
    add_completed, completed_on, directctbookactivation, directctbookdeletion, list_active,
    list_inactive, File,
};
use nextory::request::{Method, Request};

fn pairs(items: &[(&str, &str)]) -> Vec<(String, String)> {
    items.iter().map(|(k, v)| (k.to_string(), v.to_string())).collect()
}

fn session() -> Client {
    Client::from_token("tok".to_string())
}

#[test]
fn request_builders_append_in_order() {
    let request = Request::get("http://x").query("a", "1").header("h", "2").query("b", "3");
    assert_eq!(request.method, Method::Get);
    assert_eq!(request.url, "http://x");
    assert_eq!(request.query, pairs(&[("a", "1"), ("b", "3")]));
    assert_eq!(request.headers, pairs(&[("h", "2")]));
    assert!(request.form.is_empty());
    let posted = Request::post("http://y").text("f", "v");
    assert_eq!(posted.method, Method::Post);
    assert_eq!(posted.form, pairs(&[("f", "v")]));
    assert!(posted.query.is_empty());
    assert!(posted.headers.is_empty());
}

#[test]
fn transport_settings() {
    let transport: Transport = Client::inner();
    assert_eq!(transport.user_agent, "okhttp/4.9.3");
    assert_eq!(transport.keepalive_secs, 15 * 60);
    assert_eq!(
        transport.headers,
        pairs(&[
            ("canary", ""),
            ("appid", "200"),
            ("model", "OnePlus+ONEPLUS+A5000"),
            ("locale", "en_GB"),
            ("version", "4.34.6"),
            ("deviceid", "eSsnwXyvS4qK4vMzu79tGh"),
            ("osinfo", "Android 10"),
        ])
    );
}

#[test]
fn from_token_keeps_the_token_verbatim() {
    let client = Client::from_token("  some opaque\ttoken ".to_string());
    assert_eq!(client.token, "  some opaque\ttoken ");
    let renewed = client.update_token("other".to_string());
    assert_eq!(renewed.token, "other");
}

#[test]
fn salt_request_is_a_bare_get() {
    let request = Client::salt();
    assert_eq!(request.method, Method::Get);
    assert_eq!(request.url, "https://api.nextory.se/api/app/catalogue/7.5/salt");
    assert!(request.query.is_empty());
    assert!(request.headers.is_empty());
    assert!(request.form.is_empty());
}

#[test]
fn user_login_request_is_a_form_post() {
    let request = Client::user_login("a", "c", "b");
    assert_eq!(request.method, Method::Post);
    assert_eq!(request.url, "https://api.nextory.se/api/app/user/7.5/login");
    assert!(request.query.is_empty());
    assert!(request.headers.is_empty());
    assert_eq!(
        request.form,
        pairs(&[
            ("username", "a"),
            ("password", "c"),
            ("checksum", "900150983CD24FB0D6963F7D28E17F72"),
        ])
    );
}

#[test]
fn authorized_requests_carry_the_token_last() {
    let client = session();
    let request = client.request_with_auth(Request::get("http://x").header("first", "1"));
    assert_eq!(request.headers, pairs(&[("first", "1"), ("token", "tok")]));
    let plain = client.get_with_auth("http://y");
    assert_eq!(plain.method, Method::Get);
    assert_eq!(plain.url, "http://y");
    assert_eq!(plain.headers, pairs(&[("token", "tok")]));
    assert!(plain.query.is_empty());
}

#[test]
fn accounts_list_request() {
    let request = session().user_accounts_list();
    assert_eq!(request.method, Method::Get);
    assert_eq!(request.url, "https://api.nextory.se/api/app/user/7.5/accounts/list");
    assert_eq!(request.headers, pairs(&[("token", "tok")]));
}

#[test]
fn subaccount_login_puts_key_and_checksum_into_the_address() {
    let request = session().user_login_subaccount("key1", "salty");
    assert_eq!(request.method, Method::Get);
    assert_eq!(
        request.url,
        "https://api.nextory.se/api/app/user/7.5/login?loginkey=key1&checksum=1ED448F45FB081445627628A896C6F0F"
    );
    assert!(request.query.is_empty());
    assert_eq!(request.headers, pairs(&[("token", "tok")]));
}

#[test]
fn download_request_carries_the_three_headers() {
    let file = File {
        url: "https://cdn.example/file.mp3".to_string(),
        formatid: 0x016,
        duration: "01:00".to_string(),
        sizeinbytes: 10,
    };
    let request = session().start_download(&file);
    assert_eq!(request.method, Method::Get);
    assert_eq!(request.url, "https://cdn.example/file.mp3");
    assert!(request.query.is_empty());
    assert_eq!(
        request.headers,
        pairs(&[
            ("token", "tok"),
            (
                "User-Agent",
                "Dalvik/2.1.0 (Linux; U; Android 10; ONEPLUS A5000 Build/QKQ1.191014.012)"
            ),
            ("apiver", "7.5"),
        ])
    );
}

#[test]
fn groups_request_without_view() {
    let request = groups(&session(), 3, None);
    assert_eq!(request.method, Method::Get);
    assert_eq!(request.url, "https://api.nextory.se/api/app/catalogue/7.5/groups");
    assert_eq!(
        request.query,
        pairs(&[
            ("languages", "de,en"),
            ("formattype", "0"),
            ("pagesize", "12"),
            ("pagenumber", "3"),
        ])
    );
    assert_eq!(request.headers, pairs(&[("token", "tok")]));
    assert!(request.form.is_empty());
}

#[test]
fn groups_request_with_view() {
    let request = groups(&session(), 0, Some("series"));
    assert_eq!(
        request.query,
        pairs(&[
            ("languages", "de,en"),
            ("formattype", "0"),
            ("pagesize", "12"),
            ("pagenumber", "0"),
            ("view", "series"),
        ])
    );
}

#[test]
fn books_request_for_the_first_page_has_an_empty_token() {
    let request = booksforbookgroup(&session(), "grp", Sort::Relevance, None, Some(0));
    assert_eq!(request.method, Method::Get);
    assert_eq!(request.url, "https://api.nextory.se/api/app/catalogue/7.5/booksforbookgroup");
    assert_eq!(
        request.query,
        pairs(&[
            ("bookgroupid", "grp"),
            ("sort", "relevance"),
            ("type", "0"),
            ("languages", "de,en"),
            ("pagetoken", ""),
            ("segment", "5"),
            ("rows", "12"),
            ("includenotallowedbooks", "true"),
            ("pagenumber", "0"),
        ])
    );
    assert_eq!(request.headers, pairs(&[("token", "tok")]));
}

#[test]
fn books_request_echoes_the_token_and_may_omit_the_number() {
    let request =
        booksforbookgroup(&session(), "grp", Sort::PublishedDate, Some("AbC+/=="), None);
    assert_eq!(
        request.query,
        pairs(&[
            ("bookgroupid", "grp"),
            ("sort", "published_date"),
            ("type", "0"),
            ("languages", "de,en"),
            ("pagetoken", "AbC+/=="),
            ("segment", "5"),
            ("rows", "12"),
            ("includenotallowedbooks", "true"),
        ])
    );
}

#[test]
fn new_releases_request() {
    let request = new(&session(), 42);
    assert_eq!(request.method, Method::Get);
    assert_eq!(request.url, "https://api.nextory.se/api/app/catalogue/7.5/booksforbookgroup");
    assert_eq!(
        request.query,
        pairs(&[
            ("bookgroupid", "tttl_dynamic_1544$$ver_179"),
            ("sort", "NEST"),
            ("includenotallowedbooks", "true"),
            ("pagenumber", "42"),
            ("type", "0"),
            ("languages", "de,en"),
            ("rows", "12"),
            ("segment", "1"),
            ("pagetoken", ""),
        ])
    );
    assert_eq!(request.headers, pairs(&[("token", "tok")]));
}

#[test]
fn active_listing_request() {
    let request = list_active(&session());
    assert_eq!(request.method, Method::Get);
    assert_eq!(request.url, "https://api.nextory.se/api/app/library/7.5/active");
    assert!(request.query.is_empty());
    assert_eq!(request.headers, pairs(&[("token", "tok")]));
}

#[test]
fn inactive_listing_request() {
    let request = list_inactive(&session(), 0);
    assert_eq!(request.method, Method::Get);
    assert_eq!(request.url, "https://api.nextory.se/api/app/library/7.5/inactive");
    assert_eq!(
        request.query,
        pairs(&[("type", "0"), ("sort", "dateModified"), ("rows", "12"), ("pagenumber", "0")])
    );
    assert_eq!(request.headers, pairs(&[("token", "tok")]));
    assert_eq!(list_inactive(&session(), u32::MAX).query[3].1, "4294967295");
}

#[test]
fn activation_request() {
    let request = directctbookactivation(&session(), 1234, "ticket", "trace");
    assert_eq!(request.method, Method::Post);
    assert_eq!(
        request.url,
        "https://api.nextory.se/api/app/library/7.5/directctbookactivation"
    );
    assert_eq!(
        request.query,
        pairs(&[("bookid", "1234"), ("esalesticket", "ticket"), ("traceid", "trace")])
    );
    assert_eq!(request.headers, pairs(&[("token", "tok")]));
    assert!(request.form.is_empty());
}

#[test]
fn activation_request_with_empty_ticket_and_trace() {
    let request = directctbookactivation(&session(), 0, "", "");
    assert_eq!(request.query, pairs(&[("bookid", "0"), ("esalesticket", ""), ("traceid", "")]));
}

#[test]
fn deletion_request() {
    let request = directctbookdeletion(&session(), 77);
    assert_eq!(request.method, Method::Post);
    assert_eq!(request.url, "https://api.nextory.se/api/app/library/7.5/directctbookdeletion");
    assert_eq!(request.query, pairs(&[("bookid", "77"), ("esalesticket", "")]));
    assert_eq!(request.headers, pairs(&[("token", "tok")]));
}

#[test]
fn completion_request_with_a_written_date() {
    let request = completed_on(&session(), 5, "2023-11-14 22:13:20 +0000");
    assert_eq!(request.method, Method::Post);
    assert_eq!(request.url, "https://api.nextory.se/api/app/library/7.5/completed/add");
    assert_eq!(
        request.query,
        pairs(&[
            ("bookid", "5"),
            ("visibility", "PUBLIC"),
            ("completeddate", "2023-11-14 22:13:20 +0000"),
        ])
    );
    assert_eq!(request.headers, pairs(&[("token", "tok")]));
}

#[test]
fn completion_request_formats_the_instant() {
    let at = DateTime { secs: 1700000000, nanos: 0 };
    let request = add_completed(&session(), 5, &at).unwrap();
    assert_eq!(
        request.query,
        pairs(&[
            ("bookid", "5"),
            ("visibility", "PUBLIC"),
            ("completeddate", "2023-11-14 22:13:20 +0000"),
        ])
    );
    let epoch = add_completed(&session(), 5, &DateTime { secs: 0, nanos: 999_999_999 }).unwrap();
    assert_eq!(epoch.query[2].1, "1970-01-01 00:00:00 +0000");
    let before = add_completed(&session(), 5, &DateTime { secs: -1, nanos: 0 }).unwrap();
    assert_eq!(before.query[2].1, "1969-12-31 23:59:59 +0000");
}

#[test]
fn completion_request_beyond_the_calendar_is_none() {
    assert!(add_completed(&session(), 5, &DateTime { secs: i64::MAX, nanos: 0 }).is_none());
    assert!(add_completed(&session(), 5, &DateTime { secs: i64::MIN, nanos: 0 }).is_none());
    assert!(add_completed(&session(), 5, &DateTime { secs: 0, nanos: u32::MAX }).is_none());
}

#[test]
fn date_time_year_and_text() {
    assert_eq!(DateTime { secs: 1431648000, nanos: 0 }.year(), Some(2015));
    assert_eq!(DateTime { secs: -1, nanos: 0 }.year(), Some(1969));
    assert_eq!(DateTime { secs: i64::MAX, nanos: 0 }.year(), None);
    assert_eq!(
        DateTime { secs: 1431648000, nanos: 0 }.completed_text(),
        Some("2015-05-15 00:00:00 +0000".to_string())
    );
    assert_eq!(DateTime { secs: i64::MAX, nanos: 0 }.completed_text(), None);
}

fn listed(authors: &[&str], secs: i64) -> Book {
    Book {
        id: 4711,
        title: "A Title".to_string(),
        imageurl: "https://img.example/c.jpg".to_string(),
        authors: authors.iter().map(|a| a.to_string()).collect(),
        pubdate: DateTime { secs, nanos: 0 },
        esalesticket: "ticket".to_string(),
        isupcoming: None,
        libstatus: "NOTINLIB".to_string(),
    }
}

#[test]
fn book_line_shows_id_title_year_and_authors() {
    let book = listed(&["Ann Author", "Bo Writer"], 1431648000);
    assert_eq!(book.to_text(), Some("4711 A Title(2015) by Ann Author, Bo Writer".to_string()));
    assert_eq!(book.describe(-5), "4711 A Title(-5) by Ann Author, Bo Writer");
}

#[test]
fn book_line_without_authors_or_calendar() {
    assert_eq!(listed(&[], 0).to_text(), Some("4711 A Title(1970) by ".to_string()));
    assert_eq!(listed(&["Solo"], i64::MAX).to_text(), None);
}

#[test]
fn upcoming_flag_of_a_listed_book() {
    let mut book = listed(&["A"], 0);
    assert!(!book.is_upcoming());
    book.isupcoming = Some(0);
    assert!(!book.is_upcoming());
    book.isupcoming = Some(1);
    assert!(book.is_upcoming());
    book.isupcoming = Some(2);
    assert!(!book.is_upcoming());
}
