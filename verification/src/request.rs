//! A request as a plain value: what is to be sent, not the act of sending.
use vstd::prelude::*;

verus! {

/// The HTTP method of a request.
#[derive(Clone, Copy, Debug, PartialEq, Eq, Structural)]
pub enum Method {
    Get,
    Post,
}

/// A list of name and value pairs, in the order in which they are sent.
pub type Pairs = Vec<(String, String)>;

/// One request to the service.
///
/// `query` holds the query parameters before URL encoding, `headers` the
/// headers beyond the transport's defaults and `form` the text fields of a
/// multipart body. An empty `form` means that no body is sent.
#[derive(Debug, PartialEq, Eq)]
pub struct Request {
    pub method: Method,
    pub url: String,
    pub query: Pairs,
    pub headers: Pairs,
    pub form: Pairs,
}

/// The mathematical content of a [`Request`].
pub struct RequestView {
    pub method: Method,
    pub url: Seq<char>,
    pub query: Seq<(Seq<char>, Seq<char>)>,
    pub headers: Seq<(Seq<char>, Seq<char>)>,
    pub form: Seq<(Seq<char>, Seq<char>)>,
}

impl View for Request {
    type V = RequestView;

    open spec fn view(&self) -> RequestView {
        RequestView {
            method: self.method,
            url: self.url@,
            query: self.query.deep_view(),
            headers: self.headers.deep_view(),
            form: self.form.deep_view(),
        }
    }
}

impl RequestView {
    /// The value of the first query parameter called `name`, if there is one.
    pub open spec fn query_value(self, name: Seq<char>) -> Option<Seq<char>> {
        first_value(self.query, name)
    }
}

/// The value of the first pair called `name`, if there is one.
pub open spec fn first_value(pairs: Seq<(Seq<char>, Seq<char>)>, name: Seq<char>) -> Option<
    Seq<char>,
>
    decreases pairs.len(),
{
    if pairs.len() == 0 {
        None
    } else if pairs[0].0 == name {
        Some(pairs[0].1)
    } else {
        first_value(pairs.drop_first(), name)
    }
}

/// Appends the pair `(name, value)` to `pairs`.
pub fn push_pair(pairs: &mut Pairs, name: &str, value: &str)
    ensures
        final(pairs).deep_view() == old(pairs).deep_view().push((name@, value@)),
{
    pairs.push((String::from_str(name), String::from_str(value)));
    assert(pairs.deep_view() =~= old(pairs).deep_view().push((name@, value@)));
}

impl Request {
    /// A `GET` of `url` with no parameters.
    pub fn get(url: &str) -> (request: Request)
        ensures
            request@ == (RequestView {
                method: Method::Get,
                url: url@,
                query: Seq::empty(),
                headers: Seq::empty(),
                form: Seq::empty(),
            }),
    {
        let request = Request {
            method: Method::Get,
            url: String::from_str(url),
            query: Vec::new(),
            headers: Vec::new(),
            form: Vec::new(),
        };
        assert(request.query.deep_view() =~= Seq::empty());
        assert(request.headers.deep_view() =~= Seq::empty());
        assert(request.form.deep_view() =~= Seq::empty());
        request
    }

    /// A `POST` to `url` with no parameters.
    pub fn post(url: &str) -> (request: Request)
        ensures
            request@ == (RequestView {
                method: Method::Post,
                url: url@,
                query: Seq::empty(),
                headers: Seq::empty(),
                form: Seq::empty(),
            }),
    {
        let request = Request {
            method: Method::Post,
            url: String::from_str(url),
            query: Vec::new(),
            headers: Vec::new(),
            form: Vec::new(),
        };
        assert(request.query.deep_view() =~= Seq::empty());
        assert(request.headers.deep_view() =~= Seq::empty());
        assert(request.form.deep_view() =~= Seq::empty());
        request
    }

    /// The same request with one more query parameter at the end.
    pub fn query(self, name: &str, value: &str) -> (request: Request)
        ensures
            request@ == (RequestView { query: self@.query.push((name@, value@)), ..self@ }),
    {
        let mut request = self;
        push_pair(&mut request.query, name, value);
        request
    }

    /// The same request with one more header at the end.
    pub fn header(self, name: &str, value: &str) -> (request: Request)
        ensures
            request@ == (RequestView { headers: self@.headers.push((name@, value@)), ..self@ }),
    {
        let mut request = self;
        push_pair(&mut request.headers, name, value);
        request
    }

    /// The same request with one more text field at the end of its form.
    pub fn text(self, name: &str, value: &str) -> (request: Request)
        ensures
            request@ == (RequestView { form: self@.form.push((name@, value@)), ..self@ }),
    {
        let mut request = self;
        push_pair(&mut request.form, name, value);
        request
    }
}

} // verus!
