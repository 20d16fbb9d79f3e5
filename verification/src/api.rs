//! The error taxonomy and the two status checks that produce it.
use vstd::prelude::*;

verus! {

/// Everything that can go wrong between this client and the service.
#[derive(Debug, PartialEq, Eq)]
pub enum Error {
    /// The application endpoint rejected the request, during the login or
    /// after it: the code and the message that the service reported.
    Api(u16, String),
    /// The file endpoint rejected the download: status code and message.
    /// Its codes are not those of the application endpoint.
    Cdn(u16, String),
    /// A local precondition failed, with the reason in words: no
    /// sub-account is active, for one.
    Status(String),
    /// The transport failed below the application protocol; the text
    /// describes the failure.
    Reqwest(String),
    /// The book's format cannot be stored as a single file.
    UnsupportedFormat,
    /// The answer carried neither data nor an error, or it was not the
    /// answer that was waited for.
    Unknown,
}

/// The mathematical content of an [`Error`].
pub enum ErrorView {
    Api(u16, Seq<char>),
    Cdn(u16, Seq<char>),
    Status(Seq<char>),
    Reqwest(Seq<char>),
    UnsupportedFormat,
    Unknown,
}

impl View for Error {
    type V = ErrorView;

    open spec fn view(&self) -> ErrorView {
        match *self {
            Error::Api(code, message) => ErrorView::Api(code, message@),
            Error::Cdn(code, message) => ErrorView::Cdn(code, message@),
            Error::Status(message) => ErrorView::Status(message@),
            Error::Reqwest(message) => ErrorView::Reqwest(message@),
            Error::UnsupportedFormat => ErrorView::UnsupportedFormat,
            Error::Unknown => ErrorView::Unknown,
        }
    }
}

pub type Result<T> = std::result::Result<T, Error>;

/// A status code counts as success exactly when it lies in `200..300`.
pub open spec fn is_success(status: u16) -> bool {
    200 <= status < 300
}

/// The text of a response body, or `fallback` when the body could not be read.
pub open spec fn body_or(body: Option<String>, fallback: Seq<char>) -> Seq<char> {
    match body {
        Some(text) => text@,
        None => fallback,
    }
}

/// Tells whether `status` is a success code.
pub fn status_is_success(status: u16) -> (ok: bool)
    ensures
        ok == is_success(status),
{
    200 <= status && status < 300
}

impl Error {
    /// Accepts a response of the application endpoint by its status code.
    ///
    /// A success code passes. Any other code becomes [`Error::Api`] with the
    /// code and the body text, or the empty text when the body was unreadable.
    pub fn ensure_ok(status: u16, body: Option<String>) -> (checked: Result<()>)
        ensures
            is_success(status) ==> checked is Ok,
            !is_success(status) ==> checked is Err && checked->Err_0@ == ErrorView::Api(
                status,
                body_or(body, Seq::empty()),
            ),
    {
        if status_is_success(status) {
            Ok(())
        } else {
            let message = match body {
                Some(text) => text,
                None => String::new(),
            };
            Err(Error::Api(status, message))
        }
    }

    /// Accepts a response of the file endpoint by its status code.
    ///
    /// A success code passes. Any other code becomes [`Error::Cdn`] with the
    /// code and the body text, or `(Unknown)` when the body was unreadable.
    pub fn ensure_download_ok(status: u16, body: Option<String>) -> (checked: Result<()>)
        ensures
            is_success(status) ==> checked is Ok,
            !is_success(status) ==> checked is Err && checked->Err_0@ == ErrorView::Cdn(
                status,
                body_or(body, "(Unknown)"@),
            ),
    {
        if status_is_success(status) {
            Ok(())
        } else {
            let message = match body {
                Some(text) => text,
                None => String::from_str("(Unknown)"),
            };
            Err(Error::Cdn(status, message))
        }
    }
}

} // verus!
