//! Where a book's file goes and what has to happen to get it there.
use vstd::prelude::*;
use crate::api::{Error, ErrorView, Result};
use crate::client::{download_request, Client};
use crate::library::{extension_of, format_of, Book, BookView, File, FileFormat, FileView};
use crate::request::{Request, RequestView};
use crate::text::{
    join_first, join_prefix, parse_u64, parsed_u64, prefix, replace_char, replaced, truncate,
};

verus! {

/// The most characters of a title that go into a file name.
pub const TITLE_LIMIT: usize = 200;

/// The most authors that go into a folder name.
pub const AUTHOR_LIMIT: usize = 5;

/// What stands between two authors in a folder name.
pub const AUTHOR_SEPARATOR: &'static str = " & ";

/// The place of a file: a folder directly under the root, and the file in
/// it. Folder and file are single path components.
#[derive(Debug, PartialEq, Eq)]
pub struct Destination {
    pub root: String,
    pub folder: String,
    pub file: String,
}

/// The mathematical content of a [`Destination`].
pub struct DestinationView {
    pub root: Seq<char>,
    pub folder: Seq<char>,
    pub file: Seq<char>,
}

impl View for Destination {
    type V = DestinationView;

    open spec fn view(&self) -> DestinationView {
        DestinationView { root: self.root@, folder: self.folder@, file: self.file@ }
    }
}

/// What is written into the metadata tag of an audio file.
#[derive(Debug, PartialEq, Eq)]
pub struct TagPlan {
    pub title: String,
    pub artist: Option<String>,
    pub cover_url: String,
}

/// The mathematical content of a [`TagPlan`].
pub struct TagPlanView {
    pub title: Seq<char>,
    pub artist: Option<Seq<char>>,
    pub cover_url: Seq<char>,
}

impl View for TagPlan {
    type V = TagPlanView;

    open spec fn view(&self) -> TagPlanView {
        TagPlanView {
            title: self.title@,
            artist: match self.artist {
                Some(name) => Some(name@),
                None => None,
            },
            cover_url: self.cover_url@,
        }
    }
}

/// Everything that is decided about a book's download before a byte moves.
#[derive(Debug, PartialEq, Eq)]
pub struct DownloadPlan {
    pub destination: Destination,
    pub file: File,
    pub format: FileFormat,
    pub tag: Option<TagPlan>,
}

/// The mathematical content of a [`DownloadPlan`].
pub struct DownloadPlanView {
    pub destination: DestinationView,
    pub file: FileView,
    pub format: FileFormat,
    pub tag: Option<TagPlanView>,
}

impl View for DownloadPlan {
    type V = DownloadPlanView;

    open spec fn view(&self) -> DownloadPlanView {
        DownloadPlanView {
            destination: self.destination@,
            file: self.file@,
            format: self.format,
            tag: match self.tag {
                Some(tag) => Some(tag@),
                None => None,
            },
        }
    }
}

/// What to do about a file once it is known whether it is there already.
#[derive(Debug, PartialEq, Eq)]
pub enum FileAction {
    /// The file is there: nothing is requested.
    Skip(Destination),
    /// The file is missing: send `request` and write the body to `destination`.
    Fetch { destination: Destination, request: Request },
}

/// The mathematical content of a [`FileAction`].
pub enum FileActionView {
    Skip(DestinationView),
    Fetch { destination: DestinationView, request: RequestView },
}

impl View for FileAction {
    type V = FileActionView;

    open spec fn view(&self) -> FileActionView {
        match *self {
            FileAction::Skip(destination) => FileActionView::Skip(destination@),
            FileAction::Fetch { destination, request } => FileActionView::Fetch {
                destination: destination@,
                request: request@,
            },
        }
    }
}

/// A name made safe as a single path component: every `/` becomes `_`.
pub open spec fn sanitized(name: Seq<char>) -> Seq<char> {
    replaced(name, '/', '_')
}

/// The place of file `file_name` in folder `folder` under `root`.
pub open spec fn destination_of(
    root: Seq<char>,
    folder: Seq<char>,
    file_name: Seq<char>,
) -> DestinationView {
    DestinationView { root: root, folder: sanitized(folder), file: sanitized(file_name) }
}

/// The file name of a book: at most the first 200 characters of its title,
/// a dot and the extension of its format. Formats that cannot be stored
/// have none.
pub open spec fn file_name_of(title: Seq<char>, format: FileFormat) -> Option<Seq<char>> {
    match extension_of(format) {
        Some(extension) => Some(prefix(title, TITLE_LIMIT as nat) + "."@ + extension),
        None => None,
    }
}

/// The folder name of a book: its first five authors at most, joined.
pub open spec fn folder_of(authors: Seq<Seq<char>>) -> Seq<char> {
    join_first(
        authors,
        AUTHOR_SEPARATOR@,
        if authors.len() > AUTHOR_LIMIT {
            AUTHOR_LIMIT as nat
        } else {
            authors.len()
        },
    )
}

/// The tag of a book: its title, its first author if it has one, and the
/// address of its cover.
pub open spec fn tag_of(book: BookView) -> TagPlanView {
    TagPlanView {
        title: book.title,
        artist: if book.authors.len() > 0 {
            Some(book.authors[0])
        } else {
            None
        },
        cover_url: book.imageurl,
    }
}

/// The plan for a book under `root`, or the reason why there is none.
///
/// Only audio files are tagged.
pub open spec fn plan_of(root: Seq<char>, book: BookView) -> std::result::Result<
    DownloadPlanView,
    ErrorView,
> {
    let format = format_of(book.file.formatid);
    match file_name_of(book.title, format) {
        Some(file_name) => Ok(
            DownloadPlanView {
                destination: destination_of(root, folder_of(book.authors), file_name),
                file: book.file,
                format: format,
                tag: if format == FileFormat::Mp3 {
                    Some(tag_of(book))
                } else {
                    None
                },
            },
        ),
        None => Err(ErrorView::UnsupportedFormat),
    }
}

/// What to do about `file` at `destination`, given whether it exists.
pub open spec fn file_action(
    token: Seq<char>,
    destination: DestinationView,
    file: FileView,
    exists: bool,
) -> FileActionView {
    if exists {
        FileActionView::Skip(destination)
    } else {
        FileActionView::Fetch {
            destination: destination,
            request: download_request(token, file.url),
        }
    }
}

/// A sanitized name is as long as the name and holds no path separator, so
/// it is a single path component.
pub proof fn sanitized_has_no_separator(name: Seq<char>)
    ensures
        sanitized(name).len() == name.len(),
        forall|i: int| 0 <= i < name.len() ==> sanitized(name)[i] != '/',
        forall|i: int| 0 <= i < name.len() && name[i] != '/' ==> sanitized(name)[i] == name[i],
{
}

/// Storing is idempotent: for a file that exists nothing is requested, and
/// the place that is handed back is the place to which the file would have
/// been fetched.
pub proof fn existing_file_needs_no_request(
    token: Seq<char>,
    destination: DestinationView,
    file: FileView,
)
    ensures
        file_action(token, destination, file, true) == FileActionView::Skip(destination),
        file_action(token, destination, file, false) == (FileActionView::Fetch {
            destination: destination,
            request: download_request(token, file.url),
        }),
{
}

/// The size to expect of a download: what the response announced, where
/// that was a number, else what the service declared.
pub open spec fn expected_size(announced: Option<u64>, declared: usize) -> u64 {
    match announced {
        Some(length) => length,
        None => declared as u64,
    }
}

/// The size to expect of a download, from the `Content-Length` header, if
/// the response had a readable one, and the size that the service declared.
/// The size is advisory: nothing is checked against it.
pub fn content_size(header: Option<&str>, declared: usize) -> (size: u64)
    ensures
        size == expected_size(
            match header {
                Some(text) => parsed_u64(text@),
                None => None,
            },
            declared,
        ),
{
    let announced = match header {
        Some(text) => parse_u64(text),
        None => None,
    };
    match announced {
        Some(length) => length,
        None => declared as u64,
    }
}

/// Makes `name` safe as a single path component.
pub fn sanitize(name: &str) -> (safe: String)
    ensures
        safe@ == sanitized(name@),
{
    replace_char(name, '/', '_')
}

/// Stores books under a root folder.
#[derive(Debug, PartialEq, Eq)]
pub struct Downloader {
    pub path: String,
    pub mark_completed: bool,
}

impl Downloader {
    /// A downloader that stores under `path` and, if `mark_completed` is
    /// set, marks every stored book as completed.
    pub fn new(path: String, mark_completed: bool) -> (downloader: Downloader)
        ensures
            downloader.path@ == path@,
            downloader.mark_completed == mark_completed,
    {
        Downloader { path, mark_completed }
    }

    /// The place of file `file_name` in folder `folder` under the root.
    pub fn destination(&self, folder: &str, file_name: &str) -> (destination: Destination)
        ensures
            destination@ == destination_of(self.path@, folder@, file_name@),
    {
        Destination {
            root: self.path.clone(),
            folder: sanitize(folder),
            file: sanitize(file_name),
        }
    }

    /// Decides what to do about `api_file`, which belongs at `file_name` in
    /// `folder`, given whether a file exists there already.
    ///
    /// An existing file is never fetched again.
    pub fn download_file(
        &self,
        client: &Client,
        folder: &str,
        api_file: &File,
        file_name: &str,
        exists: bool,
    ) -> (action: FileAction)
        ensures
            action@ == file_action(
                client.token@,
                destination_of(self.path@, folder@, file_name@),
                api_file@,
                exists,
            ),
            exists ==> action is Skip,
    {
        let destination = self.destination(folder, file_name);
        if exists {
            FileAction::Skip(destination)
        } else {
            FileAction::Fetch { destination, request: client.start_download(api_file) }
        }
    }

    /// Plans the download of `book`: where its file goes, under which name,
    /// and what is written into its tag.
    ///
    /// A book whose format cannot be stored as a single file has no plan:
    /// the answer is [`Error::UnsupportedFormat`].
    pub fn download_book(&self, book: &Book) -> (plan: Result<DownloadPlan>)
        ensures
            match plan {
                Ok(p) => plan_of(self.path@, book@) == Ok::<DownloadPlanView, ErrorView>(p@),
                Err(e) => plan_of(self.path@, book@) == Err::<DownloadPlanView, ErrorView>(e@),
            },
    {
        let format = FileFormat::from(book.file.formatid);
        let extension = match format.get_extension() {
            Ok(extension) => extension,
            Err(error) => {
                return Err(error);
            },
        };
        let mut file_name = String::from_str(truncate(book.title.as_str(), TITLE_LIMIT));
        file_name.append(".");
        file_name.append(extension);
        let folder = join_prefix(&book.authors, AUTHOR_SEPARATOR, AUTHOR_LIMIT);
        let destination = self.destination(folder.as_str(), file_name.as_str());
        let tag = if format == FileFormat::Mp3 {
            let artist = if book.authors.len() > 0 {
                Some(book.authors[0].clone())
            } else {
                None
            };
            Some(TagPlan { title: book.title.clone(), artist, cover_url: book.imageurl.clone() })
        } else {
            None
        };
        Ok(DownloadPlan { destination, file: book.file.clone(), format, tag })
    }
}

} // verus!
