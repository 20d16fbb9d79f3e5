//! The walk over a paginated listing: which page to ask for next, and when
//! to stop.
use vstd::prelude::*;
use crate::catalogue::{
    booksforbookgroup, booksforbookgroup_request, groups, groups_request, new, new_request,
    Groups, Search,
};
use crate::client::Client;
use crate::common::Sort;
use crate::downloader::Downloader;
use crate::library::{list_inactive, list_inactive_request, Inactive};
use crate::request::{first_value, Request, RequestView};
use crate::text::{decimal, opt_str, opt_text};

verus! {

/// The number of entries on a full page.
pub const PAGE_SIZE: usize = 12;

/// The page number that follows `page` after a page of `items` entries:
/// none after an empty page, and none when the numbers are used up.
pub open spec fn next_page(page: u32, items: nat) -> Option<u32> {
    if items == 0 || page == u32::MAX {
        None
    } else {
        Some((page + 1) as u32)
    }
}

fn following_page(page: u32, items: usize) -> (next: Option<u32>)
    ensures
        next == next_page(page, items as nat),
{
    if items == 0 || page == u32::MAX {
        None
    } else {
        Some(page + 1)
    }
}

/// The walk over the new releases, by page number.
#[derive(Clone, Copy, Debug, PartialEq, Eq, Structural)]
pub struct NewWalk {
    /// The number of the page to ask for next.
    pub page: u32,
    /// Whether the walk has ended.
    pub finished: bool,
}

impl NewWalk {
    /// The request that a walk in this state sends, if it sends one.
    pub open spec fn request_view(self, token: Seq<char>) -> Option<RequestView> {
        if self.finished {
            None
        } else {
            Some(new_request(token, self.page))
        }
    }

    /// The walk after a page of `books` books came back: it ends on an
    /// empty page and goes on to the next number otherwise.
    pub open spec fn after(self, books: nat) -> NewWalk {
        if self.finished {
            self
        } else {
            match next_page(self.page, books) {
                Some(page) => NewWalk { page: page, finished: false },
                None => NewWalk { page: self.page, finished: true },
            }
        }
    }

    /// The request for the next page, or `None` when the walk has ended.
    pub fn request(&self, client: &Client) -> (request: Option<Request>)
        ensures
            match request {
                Some(r) => self.request_view(client.token@) == Some(r@),
                None => self.request_view(client.token@) is None,
            },
    {
        if self.finished {
            None
        } else {
            Some(new(client, self.page))
        }
    }

    /// Moves on after the page `search` came back.
    pub fn advance(self, search: &Search) -> (walk: NewWalk)
        ensures
            walk == self.after(search.books@.len()),
    {
        if self.finished {
            self
        } else {
            match following_page(self.page, search.books.len()) {
                Some(page) => NewWalk { page, finished: false },
                None => NewWalk { page: self.page, finished: true },
            }
        }
    }
}

/// The number of requests that a walk over the new releases sends from the
/// state `walk` on, when the pages that come back have the sizes `sizes`,
/// in this order: one for each page until the walk has ended.
pub open spec fn new_requests(walk: NewWalk, sizes: Seq<nat>) -> nat
    decreases sizes.len(),
{
    if walk.finished || sizes.len() == 0 {
        0
    } else {
        1 + new_requests(walk.after(sizes[0]), sizes.drop_first())
    }
}

/// When the page at position `empty` is the first without books, a walk
/// over the new releases that starts at page `start` sends exactly
/// `empty + 1` requests, as long as the page numbers last: one for each
/// page with books and one for the empty page. Whatever would come after
/// is never asked for.
pub proof fn new_walk_stops_after_empty_page(start: u32, sizes: Seq<nat>, empty: int)
    requires
        0 <= empty < sizes.len(),
        sizes[empty] == 0,
        forall|i: int| 0 <= i < empty ==> sizes[i] > 0,
        start + empty <= u32::MAX,
    ensures
        new_requests(NewWalk { page: start, finished: false }, sizes) == empty + 1,
    decreases empty,
{
    let walk = NewWalk { page: start, finished: false };
    let rest = sizes.drop_first();
    if empty == 0 {
        assert(walk.after(sizes[0]).finished);
        assert(new_requests(walk.after(sizes[0]), rest) == 0);
    } else {
        assert(walk.after(sizes[0]) == NewWalk { page: (start + 1) as u32, finished: false });
        assert(rest[empty - 1] == sizes[empty]);
        assert forall|i: int| 0 <= i < empty - 1 implies rest[i] > 0 by {
            assert(rest[i] == sizes[i + 1]);
        }
        new_walk_stops_after_empty_page((start + 1) as u32, rest, empty - 1);
    }
}

/// The walk over the book groups of a view, by page number.
#[derive(Debug, PartialEq, Eq)]
pub struct GroupsWalk {
    /// The view to which the groups are narrowed, if any.
    pub view: Option<String>,
    /// The order in which the books of each group are walked.
    pub sort: Sort,
    /// The number of the page to ask for next.
    pub page: u32,
    /// Whether the walk has ended.
    pub finished: bool,
}

/// The mathematical content of a [`GroupsWalk`].
pub struct GroupsWalkView {
    pub view: Option<Seq<char>>,
    pub sort: Sort,
    pub page: u32,
    pub finished: bool,
}

impl View for GroupsWalk {
    type V = GroupsWalkView;

    open spec fn view(&self) -> GroupsWalkView {
        GroupsWalkView {
            view: opt_text(self.view),
            sort: self.sort,
            page: self.page,
            finished: self.finished,
        }
    }
}

impl GroupsWalkView {
    /// The request that a walk in this state sends, if it sends one.
    pub open spec fn request_view(self, token: Seq<char>) -> Option<RequestView> {
        if self.finished {
            None
        } else {
            Some(groups_request(token, self.page, self.view))
        }
    }

    /// The walk after a page of `groups` groups came back: it ends on an
    /// empty page and goes on to the next number otherwise.
    pub open spec fn after(self, groups: nat) -> GroupsWalkView {
        if self.finished {
            self
        } else {
            match next_page(self.page, groups) {
                Some(page) => GroupsWalkView { page: page, ..self },
                None => GroupsWalkView { finished: true, ..self },
            }
        }
    }
}

impl GroupsWalk {
    /// The request for the next page, or `None` when the walk has ended.
    pub fn request(&self, client: &Client) -> (request: Option<Request>)
        ensures
            match request {
                Some(r) => self@.request_view(client.token@) == Some(r@),
                None => self@.request_view(client.token@) is None,
            },
    {
        if self.finished {
            None
        } else {
            let view: Option<&str> = match &self.view {
                Some(name) => Some(name.as_str()),
                None => None,
            };
            Some(groups(client, self.page, view))
        }
    }

    /// The walks over the books of the groups on the page `groups`, one for
    /// each group in the order of the page, each at its beginning and in
    /// the order of this walk.
    pub fn categories(&self, groups: &Groups) -> (walks: Vec<CategoryWalk>)
        ensures
            walks@.len() == groups.bookgroups@.len(),
            forall|i: int|
                0 <= i < walks@.len() ==> (#[trigger] walks@[i])@ == category_start(
                    groups.bookgroups@[i].id@,
                    self.sort,
                ),
    {
        let mut walks: Vec<CategoryWalk> = Vec::new();
        let mut i: usize = 0;
        while i < groups.bookgroups.len()
            invariant
                i <= groups.bookgroups@.len(),
                walks@.len() == i,
                forall|j: int|
                    0 <= j < i ==> (#[trigger] walks@[j])@ == category_start(
                        groups.bookgroups@[j].id@,
                        self.sort,
                    ),
            decreases groups.bookgroups@.len() - i,
        {
            walks.push(
                CategoryWalk {
                    category: groups.bookgroups[i].id.clone(),
                    sort: self.sort,
                    pagetoken: None,
                    page: 0,
                    finished: false,
                },
            );
            i += 1;
        }
        walks
    }

    /// Moves on after the page `groups` came back.
    pub fn advance(self, groups: &Groups) -> (walk: GroupsWalk)
        ensures
            walk@ == self@.after(groups.bookgroups@.len()),
    {
        if self.finished {
            self
        } else {
            match following_page(self.page, groups.bookgroups.len()) {
                Some(page) => GroupsWalk {
                    view: self.view,
                    sort: self.sort,
                    page,
                    finished: false,
                },
                None => GroupsWalk {
                    view: self.view,
                    sort: self.sort,
                    page: self.page,
                    finished: true,
                },
            }
        }
    }
}

/// The walk over the books of one group, by page token.
///
/// The first request carries no token. Every later request carries the
/// token that came with the page before it, as it came.
#[derive(Debug, PartialEq, Eq)]
pub struct CategoryWalk {
    /// The identifier of the group.
    pub category: String,
    /// The order in which the books are listed.
    pub sort: Sort,
    /// The token that came with the last page, if one came.
    pub pagetoken: Option<String>,
    /// The number of the page to ask for next.
    pub page: u32,
    /// Whether the walk has ended.
    pub finished: bool,
}

/// The mathematical content of a [`CategoryWalk`].
pub struct CategoryWalkView {
    pub category: Seq<char>,
    pub sort: Sort,
    pub pagetoken: Option<Seq<char>>,
    pub page: u32,
    pub finished: bool,
}

impl View for CategoryWalk {
    type V = CategoryWalkView;

    open spec fn view(&self) -> CategoryWalkView {
        CategoryWalkView {
            category: self.category@,
            sort: self.sort,
            pagetoken: opt_text(self.pagetoken),
            page: self.page,
            finished: self.finished,
        }
    }
}

/// The walk over the books of group `category` at its beginning: page 0,
/// no token yet.
pub open spec fn category_start(category: Seq<char>, sort: Sort) -> CategoryWalkView {
    CategoryWalkView { category: category, sort: sort, pagetoken: None, page: 0, finished: false }
}

impl CategoryWalkView {
    /// The request that a walk in this state sends, if it sends one.
    pub open spec fn request_view(self, token: Seq<char>) -> Option<RequestView> {
        if self.finished {
            None
        } else {
            Some(
                booksforbookgroup_request(
                    token,
                    self.category,
                    self.sort,
                    self.pagetoken,
                    Some(self.page),
                ),
            )
        }
    }

    /// The walk after a page of `books` books came back with `pagetoken`:
    /// it ends on an empty page; otherwise it keeps the token of that page
    /// and goes on to the next number.
    pub open spec fn after(self, books: nat, pagetoken: Option<Seq<char>>) -> CategoryWalkView {
        if self.finished {
            self
        } else {
            match next_page(self.page, books) {
                Some(page) => CategoryWalkView { pagetoken: pagetoken, page: page, ..self },
                None => CategoryWalkView { finished: true, ..self },
            }
        }
    }
}

impl CategoryWalk {
    /// The request for the next page, or `None` when the walk has ended.
    pub fn request(&self, client: &Client) -> (request: Option<Request>)
        ensures
            match request {
                Some(r) => self@.request_view(client.token@) == Some(r@),
                None => self@.request_view(client.token@) is None,
            },
    {
        if self.finished {
            None
        } else {
            let pagetoken: Option<&str> = match &self.pagetoken {
                Some(token) => Some(token.as_str()),
                None => None,
            };
            Some(
                booksforbookgroup(
                    client,
                    self.category.as_str(),
                    self.sort,
                    pagetoken,
                    Some(self.page),
                ),
            )
        }
    }

    /// Moves on after the page `search` came back.
    pub fn advance(self, search: &Search) -> (walk: CategoryWalk)
        ensures
            walk@ == self@.after(search.books@.len(), opt_text(search.pagetoken)),
    {
        if self.finished {
            self
        } else {
            match following_page(self.page, search.books.len()) {
                Some(page) => CategoryWalk {
                    category: self.category,
                    sort: self.sort,
                    pagetoken: search.pagetoken.clone(),
                    page,
                    finished: false,
                },
                None => CategoryWalk {
                    category: self.category,
                    sort: self.sort,
                    pagetoken: self.pagetoken,
                    page: self.page,
                    finished: true,
                },
            }
        }
    }
}

/// The page number that follows `page` in the inactive listing after a
/// page of `items` entries: none after a page that is not full, and none
/// when the numbers are used up.
pub open spec fn next_inactive_page(page: u32, items: nat) -> Option<u32> {
    if items < PAGE_SIZE || page == u32::MAX {
        None
    } else {
        Some((page + 1) as u32)
    }
}

/// The walk over the inactive listing, by page number. A page with fewer
/// than twelve entries is the last one.
#[derive(Clone, Copy, Debug, PartialEq, Eq, Structural)]
pub struct InactiveWalk {
    /// The number of the page to ask for next.
    pub page: u32,
    /// Whether the walk has ended.
    pub finished: bool,
}

impl InactiveWalk {
    /// The request that a walk in this state sends, if it sends one.
    pub open spec fn request_view(self, token: Seq<char>) -> Option<RequestView> {
        if self.finished {
            None
        } else {
            Some(list_inactive_request(token, self.page))
        }
    }

    /// The walk after a page of `books` books came back: it ends on a page
    /// that is not full and goes on to the next number otherwise.
    pub open spec fn after(self, books: nat) -> InactiveWalk {
        if self.finished {
            self
        } else {
            match next_inactive_page(self.page, books) {
                Some(page) => InactiveWalk { page: page, finished: false },
                None => InactiveWalk { page: self.page, finished: true },
            }
        }
    }

    /// The request for the next page, or `None` when the walk has ended.
    pub fn request(&self, client: &Client) -> (request: Option<Request>)
        ensures
            match request {
                Some(r) => self.request_view(client.token@) == Some(r@),
                None => self.request_view(client.token@) is None,
            },
    {
        if self.finished {
            None
        } else {
            Some(list_inactive(client, self.page))
        }
    }

    /// Moves on after the page `inactive` came back.
    pub fn advance(self, inactive: &Inactive) -> (walk: InactiveWalk)
        ensures
            walk == self.after(inactive.books@.len()),
    {
        if self.finished {
            self
        } else if inactive.books.len() < PAGE_SIZE || self.page == u32::MAX {
            InactiveWalk { page: self.page, finished: true }
        } else {
            InactiveWalk { page: self.page + 1, finished: false }
        }
    }
}

/// The number of requests that a walk over the inactive listing sends
/// from the state `walk` on, when the pages that come back have the sizes
/// `sizes`, in this order: one for each page until the walk has ended.
pub open spec fn inactive_requests(walk: InactiveWalk, sizes: Seq<nat>) -> nat
    decreases sizes.len(),
{
    if walk.finished || sizes.len() == 0 {
        0
    } else {
        1 + inactive_requests(walk.after(sizes[0]), sizes.drop_first())
    }
}

/// When the page at position `short` is the first that is not full, a walk
/// over the inactive listing that starts at page `start` sends exactly
/// `short + 1` requests, as long as the page numbers last: one for each
/// full page before it and one for the page itself. Whatever would come
/// after is never asked for.
pub proof fn inactive_walk_stops_after_short_page(start: u32, sizes: Seq<nat>, short: int)
    requires
        0 <= short < sizes.len(),
        sizes[short] < PAGE_SIZE,
        forall|i: int| 0 <= i < short ==> sizes[i] >= PAGE_SIZE,
        start + short <= u32::MAX,
    ensures
        inactive_requests(InactiveWalk { page: start, finished: false }, sizes) == short + 1,
    decreases short,
{
    let walk = InactiveWalk { page: start, finished: false };
    let rest = sizes.drop_first();
    if short == 0 {
        assert(walk.after(sizes[0]).finished);
        assert(inactive_requests(walk.after(sizes[0]), rest) == 0);
    } else {
        assert(walk.after(sizes[0]) == InactiveWalk { page: (start + 1) as u32, finished: false });
        assert(rest[short - 1] == sizes[short]);
        assert forall|i: int| 0 <= i < short - 1 implies rest[i] >= PAGE_SIZE by {
            assert(rest[i] == sizes[i + 1]);
        }
        inactive_walk_stops_after_short_page((start + 1) as u32, rest, short - 1);
    }
}

/// The token that came with a page goes out with the request for the next
/// page, unchanged, and the page number goes up by one.
pub proof fn page_token_is_echoed(
    walk: CategoryWalkView,
    books: nat,
    pagetoken: Seq<char>,
    token: Seq<char>,
)
    requires
        !walk.finished,
        books > 0,
        walk.page < u32::MAX,
    ensures
        ({
            let next = walk.after(books, Some(pagetoken));
            &&& next.request_view(token) == Some(
                booksforbookgroup_request(
                    token,
                    walk.category,
                    walk.sort,
                    Some(pagetoken),
                    Some((walk.page + 1) as u32),
                ),
            )
            &&& next.request_view(token).unwrap().query_value("pagetoken"@) == Some(pagetoken)
            &&& next.request_view(token).unwrap().query_value("pagenumber"@) == Some(
                decimal((walk.page + 1) as nat),
            )
        }),
{
    reveal_strlit("bookgroupid");
    reveal_strlit("sort");
    reveal_strlit("type");
    reveal_strlit("languages");
    reveal_strlit("pagetoken");
    reveal_strlit("segment");
    reveal_strlit("rows");
    reveal_strlit("includenotallowedbooks");
    reveal_strlit("pagenumber");
    let request = walk.after(books, Some(pagetoken)).request_view(token).unwrap();
    assert(request.query[0].0 != "pagetoken"@) by {
        assert("bookgroupid"@[0] != "pagetoken"@[0]);
    }
    assert(request.query[1].0 != "pagetoken"@) by {
        assert("sort"@[0] != "pagetoken"@[0]);
    }
    assert(request.query[2].0 != "pagetoken"@) by {
        assert("type"@[0] != "pagetoken"@[0]);
    }
    assert(request.query[3].0 != "pagetoken"@) by {
        assert("languages"@[0] != "pagetoken"@[0]);
    }
    assert(request.query[0].0 != "pagenumber"@) by {
        assert("bookgroupid"@[0] != "pagenumber"@[0]);
    }
    assert(request.query[1].0 != "pagenumber"@) by {
        assert("sort"@[0] != "pagenumber"@[0]);
    }
    assert(request.query[2].0 != "pagenumber"@) by {
        assert("type"@[0] != "pagenumber"@[0]);
    }
    assert(request.query[3].0 != "pagenumber"@) by {
        assert("languages"@[0] != "pagenumber"@[0]);
    }
    assert(request.query[4].0 != "pagenumber"@) by {
        assert("pagetoken"@[4] != "pagenumber"@[4]);
    }
    assert(request.query[5].0 != "pagenumber"@) by {
        assert("segment"@[0] != "pagenumber"@[0]);
    }
    assert(request.query[6].0 != "pagenumber"@) by {
        assert("rows"@[0] != "pagenumber"@[0]);
    }
    assert(request.query[7].0 != "pagenumber"@) by {
        assert("includenotallowedbooks"@[0] != "pagenumber"@[0]);
    }
    query_lookup_steps(request.query, "pagetoken"@, 4);
    query_lookup_steps(request.query, "pagenumber"@, 8);
}

/// Looking a name up skips the pairs before its first occurrence.
proof fn query_lookup_steps(pairs: Seq<(Seq<char>, Seq<char>)>, name: Seq<char>, at: int)
    requires
        0 <= at < pairs.len(),
        pairs[at].0 == name,
        forall|i: int| 0 <= i < at ==> pairs[i].0 != name,
    ensures
        first_value(pairs, name) == Some(pairs[at].1),
    decreases at,
{
    if at > 0 {
        let rest = pairs.drop_first();
        assert(rest[at - 1] == pairs[at]);
        assert forall|i: int| 0 <= i < at - 1 implies rest[i].0 != name by {
            assert(rest[i] == pairs[i + 1]);
        }
        query_lookup_steps(rest, name, at - 1);
    }
}

impl Downloader {
    /// Begins the walk over the new releases at page 0.
    pub fn download_new(&self) -> (walk: NewWalk)
        ensures
            walk == (NewWalk { page: 0, finished: false }),
    {
        NewWalk { page: 0, finished: false }
    }

    /// Begins the walk over the books of group `category`, in the order
    /// `sort`, at page 0 and without a token.
    pub fn download_category(&self, category: &str, sort: Sort) -> (walk: CategoryWalk)
        ensures
            walk@ == category_start(category@, sort),
    {
        CategoryWalk {
            category: String::from_str(category),
            sort,
            pagetoken: None,
            page: 0,
            finished: false,
        }
    }

    /// Begins the walk over the book groups, narrowed to `view` where one
    /// is given, at page 0. The books of each group are to be walked in the
    /// order `sort`.
    pub fn download_groups(&self, view: Option<&str>, sort: Sort) -> (walk: GroupsWalk)
        ensures
            walk@ == (GroupsWalkView { view: opt_str(view), sort: sort, page: 0, finished: false }),
    {
        let view = match view {
            Some(name) => Some(String::from_str(name)),
            None => None,
        };
        GroupsWalk { view, sort, page: 0, finished: false }
    }

    /// Begins the walk over the inactive listing at page 0.
    pub fn download_inactive(&self) -> (walk: InactiveWalk)
        ensures
            walk == (InactiveWalk { page: 0, finished: false }),
    {
        InactiveWalk { page: 0, finished: false }
    }
}

} // verus!
