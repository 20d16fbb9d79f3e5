//! The user's library: its listings, the activation of a book and the
//! formats in which a book's file comes.
use vstd::prelude::*;
use crate::api::{Error, ErrorView, Result};
use crate::client::Client;
use crate::common::{utc_text, DateTime, COMPLETED_DATE_FORMAT};
use crate::request::{Method, Request, RequestView};
use crate::text::{decimal, texts, to_decimal};

verus! {

pub const ACTIVE_URL: &'static str = "https://api.nextory.se/api/app/library/7.5/active";

pub const INACTIVE_URL: &'static str = "https://api.nextory.se/api/app/library/7.5/inactive";

pub const ACTIVATION_URL: &'static str =
    "https://api.nextory.se/api/app/library/7.5/directctbookactivation";

pub const DELETION_URL: &'static str =
    "https://api.nextory.se/api/app/library/7.5/directctbookdeletion";

pub const COMPLETED_ADD_URL: &'static str =
    "https://api.nextory.se/api/app/library/7.5/completed/add";

/// The file in which a book comes.
#[derive(Debug, PartialEq, Eq)]
pub struct File {
    pub url: String,
    pub formatid: u32,
    pub duration: String,
    pub sizeinbytes: usize,
}

/// The mathematical content of a [`File`].
pub struct FileView {
    pub url: Seq<char>,
    pub formatid: u32,
    pub duration: Seq<char>,
    pub sizeinbytes: usize,
}

impl View for File {
    type V = FileView;

    open spec fn view(&self) -> FileView {
        FileView {
            url: self.url@,
            formatid: self.formatid,
            duration: self.duration@,
            sizeinbytes: self.sizeinbytes,
        }
    }
}

impl Clone for File {
    fn clone(&self) -> (copy: Self)
        ensures
            copy@ == self@,
    {
        File {
            url: self.url.clone(),
            formatid: self.formatid,
            duration: self.duration.clone(),
            sizeinbytes: self.sizeinbytes,
        }
    }
}

/// The books that the user holds a license for.
#[derive(Debug, PartialEq, Eq)]
pub struct Active {
    pub books: Vec<Book>,
    pub bookcount: usize,
    pub maxactivecount: usize,
}

/// One page of the books that the user has saved without a license.
#[derive(Debug, PartialEq, Eq)]
pub struct Inactive {
    pub books: Vec<InactiveBook>,
}

/// A saved book, as the inactive listing shows it.
#[derive(Clone, Copy, Debug, PartialEq, Eq)]
pub struct InactiveBook {
    pub id: u32,
    pub isupcoming: u8,
}

/// What an activation returns: the licensed book with its file.
#[derive(Debug, PartialEq, Eq)]
pub struct Activation {
    pub books: Book,
}

/// A licensed book with the file to download.
#[derive(Debug, PartialEq, Eq)]
pub struct Book {
    pub id: u32,
    pub isbn: String,
    pub isupcoming: u8,
    pub _type: u8,
    pub title: String,
    pub imageurl: String,
    pub authors: Vec<String>,
    pub file: File,
    pub pubdate: DateTime,
}

/// The mathematical content of a [`Book`].
pub struct BookView {
    pub id: u32,
    pub isbn: Seq<char>,
    pub isupcoming: u8,
    pub _type: u8,
    pub title: Seq<char>,
    pub imageurl: Seq<char>,
    pub authors: Seq<Seq<char>>,
    pub file: FileView,
    pub pubdate: DateTime,
}

impl View for Book {
    type V = BookView;

    open spec fn view(&self) -> BookView {
        BookView {
            id: self.id,
            isbn: self.isbn@,
            isupcoming: self.isupcoming,
            _type: self._type,
            title: self.title@,
            imageurl: self.imageurl@,
            authors: texts(self.authors@),
            file: self.file@,
            pubdate: self.pubdate,
        }
    }
}

impl InactiveBook {
    /// Whether the service marks the book as not yet published.
    pub open spec fn spec_is_upcoming(&self) -> bool {
        self.isupcoming == 1
    }

    /// Whether the service marks the book as not yet published.
    #[verifier::when_used_as_spec(spec_is_upcoming)]
    pub fn is_upcoming(&self) -> (upcoming: bool)
        ensures
            upcoming == self.spec_is_upcoming(),
    {
        self.isupcoming == 1
    }
}

/// The closed set of formats that a file can have.
#[derive(Clone, Copy, Debug, PartialEq, Eq, Structural)]
pub enum FileFormat {
    Mp3,
    EPub,
    PdfDrm,
    PdfWatermark,
    HLS,
    Unknown,
}

/// The format that the service means by `code`.
pub open spec fn format_of(code: u32) -> FileFormat {
    if code == 0x016 {
        FileFormat::Mp3
    } else if code == 0x009 {
        FileFormat::EPub
    } else if code == 0x00A {
        FileFormat::PdfDrm
    } else if code == 0x00B {
        FileFormat::PdfWatermark
    } else if code == 0x130 {
        FileFormat::HLS
    } else {
        FileFormat::Unknown
    }
}

/// The file name extension under which a format is stored, for the formats
/// that can be stored as a single file.
pub open spec fn extension_of(format: FileFormat) -> Option<Seq<char>> {
    match format {
        FileFormat::Mp3 => Some("mp3"@),
        FileFormat::EPub => Some("epub"@),
        FileFormat::PdfDrm => Some("pdf"@),
        FileFormat::PdfWatermark => Some("pdf"@),
        FileFormat::HLS => None,
        FileFormat::Unknown => None,
    }
}

impl From<u32> for FileFormat {
    fn from(value: u32) -> (format: Self) {
        match value {
            0x016 => FileFormat::Mp3,
            0x009 => FileFormat::EPub,
            0x00A => FileFormat::PdfDrm,
            0x00B => FileFormat::PdfWatermark,
            0x130 => FileFormat::HLS,
            _ => FileFormat::Unknown,
        }
    }
}

impl vstd::std_specs::convert::FromSpecImpl<u32> for FileFormat {
    open spec fn obeys_from_spec() -> bool {
        true
    }

    open spec fn from_spec(value: u32) -> Self {
        format_of(value)
    }
}

impl FileFormat {
    /// The extension under which a file of this format is stored.
    ///
    /// Streams and unknown formats cannot be stored as a single file: for
    /// them, and only for them, the answer is [`Error::UnsupportedFormat`].
    pub fn get_extension(&self) -> (extension: Result<&'static str>)
        ensures
            match extension {
                Ok(name) => extension_of(*self) == Some(name@),
                Err(error) => extension_of(*self) is None && error@
                    == ErrorView::UnsupportedFormat,
            },
    {
        match self {
            FileFormat::Mp3 => Ok("mp3"),
            FileFormat::EPub => Ok("epub"),
            FileFormat::PdfDrm | FileFormat::PdfWatermark => Ok("pdf"),
            _ => Err(Error::UnsupportedFormat),
        }
    }
}

/// The request for the active listing.
pub open spec fn list_active_request(token: Seq<char>) -> RequestView {
    RequestView {
        method: Method::Get,
        url: ACTIVE_URL@,
        query: Seq::empty(),
        headers: seq![("token"@, token)],
        form: Seq::empty(),
    }
}

/// The request for page `pagenumber` of the inactive listing.
pub open spec fn list_inactive_request(token: Seq<char>, pagenumber: u32) -> RequestView {
    RequestView {
        method: Method::Get,
        url: INACTIVE_URL@,
        query: seq![
            ("type"@, "0"@),
            ("sort"@, "dateModified"@),
            ("rows"@, "12"@),
            ("pagenumber"@, decimal(pagenumber as nat)),
        ],
        headers: seq![("token"@, token)],
        form: Seq::empty(),
    }
}

/// The request that activates a book.
pub open spec fn activation_request(
    token: Seq<char>,
    bookid: u32,
    esalesticket: Seq<char>,
    traceid: Seq<char>,
) -> RequestView {
    RequestView {
        method: Method::Post,
        url: ACTIVATION_URL@,
        query: seq![
            ("bookid"@, decimal(bookid as nat)),
            ("esalesticket"@, esalesticket),
            ("traceid"@, traceid),
        ],
        headers: seq![("token"@, token)],
        form: Seq::empty(),
    }
}

/// The request that gives a book's license back.
pub open spec fn deletion_request(token: Seq<char>, bookid: u32) -> RequestView {
    RequestView {
        method: Method::Post,
        url: DELETION_URL@,
        query: seq![("bookid"@, decimal(bookid as nat)), ("esalesticket"@, ""@)],
        headers: seq![("token"@, token)],
        form: Seq::empty(),
    }
}

/// The request that marks a book as completed on the date written as
/// `completeddate`.
pub open spec fn completed_request(
    token: Seq<char>,
    bookid: u32,
    completeddate: Seq<char>,
) -> RequestView {
    RequestView {
        method: Method::Post,
        url: COMPLETED_ADD_URL@,
        query: seq![
            ("bookid"@, decimal(bookid as nat)),
            ("visibility"@, "PUBLIC"@),
            ("completeddate"@, completeddate),
        ],
        headers: seq![("token"@, token)],
        form: Seq::empty(),
    }
}

/// The request for the books that the user holds a license for.
pub fn list_active(client: &Client) -> (request: Request)
    ensures
        request@ == list_active_request(client.token@),
{
    client.get_with_auth(ACTIVE_URL)
}

/// The request for page `pagenumber` of the saved books, twelve to a page,
/// latest change first.
pub fn list_inactive(client: &Client, pagenumber: u32) -> (request: Request)
    ensures
        request@ == list_inactive_request(client.token@, pagenumber),
{
    let number = to_decimal(pagenumber as u64);
    let request = client.request_with_auth(
        Request::get(INACTIVE_URL).query("type", "0").query("sort", "dateModified").query(
            "rows",
            "12",
        ).query("pagenumber", number.as_str()),
    );
    proof {
        let expected = list_inactive_request(client.token@, pagenumber);
        assert(request@.query =~= expected.query);
        assert(request@.headers =~= expected.headers);
    }
    request
}

/// The request that grants or renews the license of book `bookid`.
///
/// `esalesticket` is the ticket under which a search listed the book, or
/// empty where there is none. `traceid` is the identifier of the search
/// page that the book came from, or empty.
pub fn directctbookactivation(
    client: &Client,
    bookid: u32,
    esalesticket: &str,
    traceid: &str,
) -> (request: Request)
    ensures
        request@ == activation_request(client.token@, bookid, esalesticket@, traceid@),
{
    let number = to_decimal(bookid as u64);
    let request = client.request_with_auth(
        Request::post(ACTIVATION_URL).query("bookid", number.as_str()).query(
            "esalesticket",
            esalesticket,
        ).query("traceid", traceid),
    );
    proof {
        let expected = activation_request(client.token@, bookid, esalesticket@, traceid@);
        assert(request@.query =~= expected.query);
        assert(request@.headers =~= expected.headers);
    }
    request
}

/// The request that gives the license of book `bookid` back.
pub fn directctbookdeletion(client: &Client, bookid: u32) -> (request: Request)
    ensures
        request@ == deletion_request(client.token@, bookid),
{
    let number = to_decimal(bookid as u64);
    let request = client.request_with_auth(
        Request::post(DELETION_URL).query("bookid", number.as_str()).query("esalesticket", ""),
    );
    proof {
        let expected = deletion_request(client.token@, bookid);
        assert(request@.query =~= expected.query);
        assert(request@.headers =~= expected.headers);
    }
    request
}

/// The request that marks book `bookid` as completed on the date written
/// as `completeddate`, visible to everyone.
pub fn completed_on(client: &Client, bookid: u32, completeddate: &str) -> (request: Request)
    ensures
        request@ == completed_request(client.token@, bookid, completeddate@),
{
    let number = to_decimal(bookid as u64);
    let request = client.request_with_auth(
        Request::post(COMPLETED_ADD_URL).query("bookid", number.as_str()).query(
            "visibility",
            "PUBLIC",
        ).query("completeddate", completeddate),
    );
    proof {
        let expected = completed_request(client.token@, bookid, completeddate@);
        assert(request@.query =~= expected.query);
        assert(request@.headers =~= expected.headers);
    }
    request
}

/// The request that marks book `bookid` as completed at the instant
/// `completed_at`, or `None` when that instant lies beyond the calendar.
pub fn add_completed(client: &Client, bookid: u32, completed_at: &DateTime) -> (request: Option<
    Request,
>)
    ensures
        match request {
            Some(r) => utc_text(completed_at.secs, completed_at.nanos, COMPLETED_DATE_FORMAT@)
                matches Some(date) && r@ == completed_request(client.token@, bookid, date),
            None => utc_text(completed_at.secs, completed_at.nanos, COMPLETED_DATE_FORMAT@)
                is None,
        },
{
    match completed_at.completed_text() {
        Some(date) => Some(completed_on(client, bookid, date.as_str())),
        None => None,
    }
}

} // verus!
