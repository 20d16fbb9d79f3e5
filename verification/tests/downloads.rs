use nextory::api::Error;
use nextory::client::Client;
use nextory::common::DateTime;
use nextory::downloader::{
    content_size, sanitize, Destination, Downloader, FileAction, TagPlan,
};
use nextory::library::{Book, File, FileFormat};
use nextory::request::Method;

fn book(formatid: u32, title: &str, authors: &[&str]) -> Book {
    Book {
        id: 9,
        isbn: "978".to_string(),
        isupcoming: 0,
        _type: 1,
        title: title.to_string(),
        imageurl: "https://img.example/cover.jpg".to_string(),
        authors: authors.iter().map(|a| a.to_string()).collect(),
        file: File {
            url: "https://cdn.example/f".to_string(),
            formatid,
            duration: "".to_string(),
            sizeinbytes: 1000,
        },
        pubdate: DateTime { secs: 0, nanos: 0 },
    }
}

fn store() -> Downloader {
    Downloader::new("/books".to_string(), false)
}

#[test]
fn downloader_keeps_its_settings() {
    let downloader = Downloader::new("out".to_string(), true);
    assert_eq!(downloader.path, "out");
    assert!(downloader.mark_completed);
}

#[test]
fn sanitize_replaces_path_separators() {
    assert_eq!(sanitize("AC/DC"), "AC_DC");
    assert_eq!(sanitize("a/b/c.mp3"), "a_b_c.mp3");
    assert_eq!(sanitize("no separators"), "no separators");
    assert_eq!(sanitize("back\\slash"), "back\\slash");
}

#[test]
fn destination_is_root_folder_file() {
    let destination = store().destination("AC/DC", "Back/Black.mp3");
    assert_eq!(
        destination,
        Destination {
            root: "/books".to_string(),
            folder: "AC_DC".to_string(),
            file: "Back_Black.mp3".to_string(),
        }
    );
}

#[test]
fn plan_for_an_audio_book() {
    let plan = store().download_book(&book(0x016, "Title", &["Ann", "Bo"])).unwrap();
    assert_eq!(plan.format, FileFormat::Mp3);
    assert_eq!(plan.destination.root, "/books");
    assert_eq!(plan.destination.folder, "Ann & Bo");
    assert_eq!(plan.destination.file, "Title.mp3");
    assert_eq!(plan.file.url, "https://cdn.example/f");
    assert_eq!(plan.file.sizeinbytes, 1000);
    assert_eq!(
        plan.tag,
        Some(TagPlan {
            title: "Title".to_string(),
            artist: Some("Ann".to_string()),
            cover_url: "https://img.example/cover.jpg".to_string(),
        })
    );
}

#[test]
fn plan_for_an_audio_book_without_authors_has_no_artist() {
    let plan = store().download_book(&book(0x016, "Title", &[])).unwrap();
    assert_eq!(plan.destination.folder, "");
    assert_eq!(plan.tag.unwrap().artist, None);
}

#[test]
fn plans_for_ebooks_have_no_tag() {
    let epub = store().download_book(&book(0x009, "E", &["A"])).unwrap();
    assert_eq!(epub.destination.file, "E.epub");
    assert_eq!(epub.format, FileFormat::EPub);
    assert_eq!(epub.tag, None);
    let drm = store().download_book(&book(0x00A, "P", &["A"])).unwrap();
    assert_eq!(drm.destination.file, "P.pdf");
    assert_eq!(drm.tag, None);
    let marked = store().download_book(&book(0x00B, "W", &["A"])).unwrap();
    assert_eq!(marked.destination.file, "W.pdf");
    assert_eq!(marked.format, FileFormat::PdfWatermark);
}

#[test]
fn plans_for_streams_and_unknown_formats_fail() {
    assert_eq!(store().download_book(&book(0x130, "S", &["A"])), Err(Error::UnsupportedFormat));
    assert_eq!(store().download_book(&book(0x999, "U", &["A"])), Err(Error::UnsupportedFormat));
}

#[test]
fn folder_takes_five_authors_at_most() {
    let plan = store()
        .download_book(&book(0x009, "T", &["a", "b", "c", "d", "e", "f", "g"]))
        .unwrap();
    assert_eq!(plan.destination.folder, "a & b & c & d & e");
    let five = store().download_book(&book(0x009, "T", &["a", "b", "c", "d", "e"])).unwrap();
    assert_eq!(five.destination.folder, "a & b & c & d & e");
    let one = store().download_book(&book(0x009, "T", &["a"])).unwrap();
    assert_eq!(one.destination.folder, "a");
}

#[test]
fn file_name_takes_200_characters_of_the_title_at_most() {
    let long: String = "ä".repeat(250);
    let plan = store().download_book(&book(0x009, &long, &["a"])).unwrap();
    assert_eq!(plan.destination.file, format!("{}.epub", "ä".repeat(200)));
    let exact: String = "x".repeat(200);
    let kept = store().download_book(&book(0x009, &exact, &["a"])).unwrap();
    assert_eq!(kept.destination.file, format!("{}.epub", exact));
}

#[test]
fn separators_in_title_and_authors_are_replaced() {
    let plan = store().download_book(&book(0x016, "Either/Or", &["A/B", "C"])).unwrap();
    assert_eq!(plan.destination.folder, "A_B & C");
    assert_eq!(plan.destination.file, "Either_Or.mp3");
    assert_eq!(plan.tag.unwrap().title, "Either/Or");
}

#[test]
fn existing_file_is_not_fetched() {
    let client = Client::from_token("tok".to_string());
    let file = book(0x016, "T", &["a"]).file;
    let action = store().download_file(&client, "fo/lder", &file, "na/me.mp3", true);
    assert_eq!(
        action,
        FileAction::Skip(Destination {
            root: "/books".to_string(),
            folder: "fo_lder".to_string(),
            file: "na_me.mp3".to_string(),
        })
    );
}

#[test]
fn materialize_twice_requests_nothing_the_second_time() {
    let client = Client::from_token("tok".to_string());
    let file = book(0x016, "T", &["a"]).file;
    let first = store().download_file(&client, "folder", &file, "name.mp3", false);
    let fetched = match first {
        FileAction::Fetch { destination, request } => {
            assert_eq!(request.method, Method::Get);
            assert_eq!(request.url, "https://cdn.example/f");
            assert_eq!(request.headers.len(), 3);
            assert_eq!(request.headers[0], ("token".to_string(), "tok".to_string()));
            destination
        }
        FileAction::Skip(_) => panic!("a missing file has to be fetched"),
    };
    let second = store().download_file(&client, "folder", &file, "name.mp3", true);
    match second {
        FileAction::Skip(destination) => assert_eq!(destination, fetched),
        FileAction::Fetch { .. } => panic!("an existing file must not be fetched"),
    }
}

#[test]
fn content_size_prefers_the_announced_length() {
    assert_eq!(content_size(Some("123"), 1000), 123);
    assert_eq!(content_size(Some("0"), 1000), 0);
    assert_eq!(content_size(Some("18446744073709551615"), 1000), u64::MAX);
    assert_eq!(content_size(Some("+5"), 9), 5);
}

#[test]
fn content_size_falls_back_to_the_declared_size() {
    assert_eq!(content_size(None, 1000), 1000);
    assert_eq!(content_size(Some("abc"), 1000), 1000);
    assert_eq!(content_size(Some(""), 1000), 1000);
    assert_eq!(content_size(Some("-1"), 1000), 1000);
    assert_eq!(content_size(Some("18446744073709551616"), 1000), 1000);
    assert_eq!(content_size(None, 0), 0);
}
