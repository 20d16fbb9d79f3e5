//! The catalogue: book groups, the books of a group and the new releases.
use vstd::prelude::*;
use crate::client::Client;
use crate::common::{sort_name, utc_year, DateTime, Sort};
use crate::request::{Method, Request, RequestView};
use crate::text::{
    decimal, join, join_all, opt_str, signed_decimal, texts, to_decimal, to_signed_decimal,
};

verus! {

pub const GROUPS_URL: &'static str = "https://api.nextory.se/api/app/catalogue/7.5/groups";

pub const BOOKSFORBOOKGROUP_URL: &'static str =
    "https://api.nextory.se/api/app/catalogue/7.5/booksforbookgroup";

/// The group under which the service lists the new releases.
pub const NEW_RELEASES_GROUP: &'static str = "tttl_dynamic_1544$$ver_179";

/// One page of the books of a group.
#[derive(Debug, PartialEq, Eq)]
pub struct Search {
    pub books: Vec<Book>,
    pub bookcount: usize,
    pub pagetoken: Option<String>,
}

/// A book as the catalogue lists it.
#[derive(Debug, PartialEq, Eq)]
pub struct Book {
    pub id: u32,
    pub title: String,
    pub imageurl: String,
    pub authors: Vec<String>,
    pub pubdate: DateTime,
    pub esalesticket: String,
    pub isupcoming: Option<u32>,
    pub libstatus: String,
}

/// One page of book groups.
#[derive(Debug, PartialEq, Eq)]
pub struct Groups {
    pub bookgroups: Vec<Group>,
    pub bookgroupcount: u32,
}

/// A book group, known by its identifier.
#[derive(Debug, PartialEq, Eq)]
pub struct Group {
    pub id: String,
}

/// The line that describes a book published in `year`: identifier, title,
/// year and authors.
pub open spec fn book_text(
    id: u32,
    title: Seq<char>,
    year: i32,
    authors: Seq<Seq<char>>,
) -> Seq<char> {
    decimal(id as nat) + " "@ + title + "("@ + signed_decimal(year as int) + ") by "@ + join(
        authors,
        ", "@,
    )
}

impl Book {
    /// Whether the service marks the book as not yet published.
    pub open spec fn spec_is_upcoming(&self) -> bool {
        self.isupcoming == Some(1u32)
    }

    /// Whether the service marks the book as not yet published.
    #[verifier::when_used_as_spec(spec_is_upcoming)]
    pub fn is_upcoming(&self) -> (upcoming: bool)
        ensures
            upcoming == self.spec_is_upcoming(),
    {
        match self.isupcoming {
            Some(flag) => flag == 1,
            None => false,
        }
    }

    /// The line that describes this book, given the year of its publication
    /// date.
    pub fn describe(&self, year: i32) -> (line: String)
        ensures
            line@ == book_text(self.id, self.title@, year, texts(self.authors@)),
    {
        let mut line = to_decimal(self.id as u64);
        line.append(" ");
        line.append(self.title.as_str());
        line.append("(");
        line.append(to_signed_decimal(year).as_str());
        line.append(") by ");
        line.append(join_all(&self.authors, ", ").as_str());
        line
    }

    /// The line that describes this book, or `None` when its publication
    /// date lies beyond the calendar.
    pub fn to_text(&self) -> (line: Option<String>)
        ensures
            match line {
                Some(l) => utc_year(self.pubdate.secs, self.pubdate.nanos) matches Some(year)
                    && l@ == book_text(self.id, self.title@, year, texts(self.authors@)),
                None => utc_year(self.pubdate.secs, self.pubdate.nanos) is None,
            },
    {
        match self.pubdate.year() {
            Some(year) => Some(self.describe(year)),
            None => None,
        }
    }
}

/// The request for page `pagenumber` of the book groups, narrowed to `view`
/// where one is given.
pub open spec fn groups_request(
    token: Seq<char>,
    pagenumber: u32,
    view: Option<Seq<char>>,
) -> RequestView {
    RequestView {
        method: Method::Get,
        url: GROUPS_URL@,
        query: seq![
            ("languages"@, "de,en"@),
            ("formattype"@, "0"@),
            ("pagesize"@, "12"@),
            ("pagenumber"@, decimal(pagenumber as nat)),
        ] + match view {
            Some(name) => seq![("view"@, name)],
            None => Seq::empty(),
        },
        headers: seq![("token"@, token)],
        form: Seq::empty(),
    }
}

/// The request for one page of the books of a group.
///
/// The page token goes out as it was given, or empty when there is none.
pub open spec fn booksforbookgroup_request(
    token: Seq<char>,
    bookgroupid: Seq<char>,
    sort: Sort,
    pagetoken: Option<Seq<char>>,
    pagenumber: Option<u32>,
) -> RequestView {
    RequestView {
        method: Method::Get,
        url: BOOKSFORBOOKGROUP_URL@,
        query: seq![
            ("bookgroupid"@, bookgroupid),
            ("sort"@, sort_name(sort)),
            ("type"@, "0"@),
            ("languages"@, "de,en"@),
            (
                "pagetoken"@,
                match pagetoken {
                    Some(echoed) => echoed,
                    None => Seq::empty(),
                },
            ),
            ("segment"@, "5"@),
            ("rows"@, "12"@),
            ("includenotallowedbooks"@, "true"@),
        ] + match pagenumber {
            Some(number) => seq![("pagenumber"@, decimal(number as nat))],
            None => Seq::empty(),
        },
        headers: seq![("token"@, token)],
        form: Seq::empty(),
    }
}

/// The request for page `pagenumber` of the new releases.
pub open spec fn new_request(token: Seq<char>, pagenumber: u32) -> RequestView {
    RequestView {
        method: Method::Get,
        url: BOOKSFORBOOKGROUP_URL@,
        query: seq![
            ("bookgroupid"@, NEW_RELEASES_GROUP@),
            ("sort"@, "NEST"@),
            ("includenotallowedbooks"@, "true"@),
            ("pagenumber"@, decimal(pagenumber as nat)),
            ("type"@, "0"@),
            ("languages"@, "de,en"@),
            ("rows"@, "12"@),
            ("segment"@, "1"@),
            ("pagetoken"@, ""@),
        ],
        headers: seq![("token"@, token)],
        form: Seq::empty(),
    }
}

/// The request for page `pagenumber` of the book groups, twelve to a page,
/// in German and English, narrowed to `view` where one is given.
pub fn groups(client: &Client, pagenumber: u32, view: Option<&str>) -> (request: Request)
    ensures
        request@ == groups_request(client.token@, pagenumber, opt_str(view)),
{
    let number = to_decimal(pagenumber as u64);
    let mut request = Request::get(GROUPS_URL).query("languages", "de,en").query(
        "formattype",
        "0",
    ).query("pagesize", "12").query("pagenumber", number.as_str());
    if let Some(name) = view {
        request = request.query("view", name);
    }
    let request = client.request_with_auth(request);
    proof {
        let expected = groups_request(client.token@, pagenumber, opt_str(view));
        assert(request@.query =~= expected.query);
        assert(request@.headers =~= expected.headers);
    }
    request
}

/// The request for one page of the books of group `bookgroupid` in the
/// order `sort`.
///
/// The first page of a traversal has no `pagetoken`. Every later request
/// carries the token of the page before it; `pagenumber` goes along as a
/// coarser hint.
pub fn booksforbookgroup(
    client: &Client,
    bookgroupid: &str,
    sort: Sort,
    pagetoken: Option<&str>,
    pagenumber: Option<u32>,
) -> (request: Request)
    ensures
        request@ == booksforbookgroup_request(
            client.token@,
            bookgroupid@,
            sort,
            opt_str(pagetoken),
            pagenumber,
        ),
{
    let echoed: &str = match pagetoken {
        Some(token) => token,
        None => "",
    };
    proof {
        reveal_strlit("");
        assert(""@ =~= Seq::<char>::empty());
    }
    let mut request = Request::get(BOOKSFORBOOKGROUP_URL).query("bookgroupid", bookgroupid).query(
        "sort",
        sort.as_str(),
    ).query("type", "0").query("languages", "de,en").query("pagetoken", echoed).query(
        "segment",
        "5",
    ).query("rows", "12").query("includenotallowedbooks", "true");
    if let Some(number) = pagenumber {
        request = request.query("pagenumber", to_decimal(number as u64).as_str());
    }
    let request = client.request_with_auth(request);
    proof {
        let expected = booksforbookgroup_request(
            client.token@,
            bookgroupid@,
            sort,
            opt_str(pagetoken),
            pagenumber,
        );
        assert(request@.query =~= expected.query);
        assert(request@.headers =~= expected.headers);
    }
    request
}

/// The request for page `pagenumber` of the new releases, in the order that
/// the service fixes for them.
pub fn new(client: &Client, pagenumber: u32) -> (request: Request)
    ensures
        request@ == new_request(client.token@, pagenumber),
{
    let number = to_decimal(pagenumber as u64);
    let request = Request::get(BOOKSFORBOOKGROUP_URL).query(
        "bookgroupid",
        NEW_RELEASES_GROUP,
    ).query("sort", "NEST").query("includenotallowedbooks", "true").query(
        "pagenumber",
        number.as_str(),
    ).query("type", "0").query("languages", "de,en").query("rows", "12").query(
        "segment",
        "1",
    ).query("pagetoken", "");
    let request = client.request_with_auth(request);
    proof {
        let expected = new_request(client.token@, pagenumber);
        assert(request@.query =~= expected.query);
        assert(request@.headers =~= expected.headers);
    }
    request
}

} // verus!
