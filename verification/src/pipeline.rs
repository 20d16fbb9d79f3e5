//! The pipeline that takes one book from a listing to a file on disk, and
//! the run that takes a whole page of books through it, one after another.
//!
//! Neither sends or stores anything. A [`Stage`] says what has to be done
//! next; whoever does it reports back with a [`BookEvent`].
use vstd::prelude::*;
use crate::api::{Error, ErrorView, Result};
use crate::catalogue;
use crate::client::Client;
use crate::common::EmptyResponse;
use crate::downloader::{
    plan_of, Destination, DestinationView, DownloadPlan, DownloadPlanView, Downloader,
};
use crate::library::{
    activation_request, directctbookactivation, Activation, Book, BookView, InactiveBook,
};
use crate::request::{Request, RequestView};

verus! {

/// The length of the trace id that goes with the activations of one search
/// page.
pub const TRACE_ID_LENGTH: usize = 21;

/// Why a book was passed over.
#[derive(Clone, Copy, Debug, PartialEq, Eq, Structural)]
pub enum SkipReason {
    /// The book is not published yet, so it cannot be activated.
    Upcoming,
}

/// How the pipeline ended for one book.
#[derive(Debug, PartialEq, Eq)]
pub enum Outcome {
    /// The file is at this place, fetched now or found there.
    Downloaded(Destination),
    /// Nothing was attempted.
    Skipped(SkipReason),
    /// A step failed; the book was given up.
    Failed(Error),
}

/// The mathematical content of an [`Outcome`].
pub enum OutcomeView {
    Downloaded(DestinationView),
    Skipped(SkipReason),
    Failed(ErrorView),
}

impl View for Outcome {
    type V = OutcomeView;

    open spec fn view(&self) -> OutcomeView {
        match *self {
            Outcome::Downloaded(destination) => OutcomeView::Downloaded(destination@),
            Outcome::Skipped(reason) => OutcomeView::Skipped(reason),
            Outcome::Failed(error) => OutcomeView::Failed(error@),
        }
    }
}

/// What has to be done next for a book.
#[derive(Debug, PartialEq, Eq)]
pub enum Stage {
    /// Send the request; answer with [`BookEvent::Activated`].
    Activate(Request),
    /// Bring the plan's file to the plan's destination; answer with
    /// [`BookEvent::Stored`].
    Store(DownloadPlan),
    /// Write the plan's tag into the stored file; answer with
    /// [`BookEvent::Tagged`].
    Tag(DownloadPlan),
    /// Mark the book as completed; answer with [`BookEvent::Marked`].
    MarkCompleted(Destination),
    /// Nothing: the pipeline has ended with this outcome.
    Done(Outcome),
}

/// The mathematical content of a [`Stage`].
pub enum StageView {
    Activate(RequestView),
    Store(DownloadPlanView),
    Tag(DownloadPlanView),
    MarkCompleted(DestinationView),
    Done(OutcomeView),
}

impl View for Stage {
    type V = StageView;

    open spec fn view(&self) -> StageView {
        match *self {
            Stage::Activate(request) => StageView::Activate(request@),
            Stage::Store(plan) => StageView::Store(plan@),
            Stage::Tag(plan) => StageView::Tag(plan@),
            Stage::MarkCompleted(destination) => StageView::MarkCompleted(destination@),
            Stage::Done(outcome) => StageView::Done(outcome@),
        }
    }
}

/// The report on the work that a stage asked for.
#[derive(Debug, PartialEq, Eq)]
pub enum BookEvent {
    /// The answer to the activation.
    Activated(Result<Activation>),
    /// Whether the file is in place.
    Stored(Result<()>),
    /// Whether the tag was written.
    Tagged(bool),
    /// The answer to marking the book as completed.
    Marked(Result<EmptyResponse>),
}

/// The mathematical content of a [`BookEvent`].
pub enum BookEventView {
    Activated(std::result::Result<BookView, ErrorView>),
    Stored(std::result::Result<(), ErrorView>),
    Tagged(bool),
    Marked(std::result::Result<(), ErrorView>),
}

impl View for BookEvent {
    type V = BookEventView;

    open spec fn view(&self) -> BookEventView {
        match *self {
            BookEvent::Activated(Ok(activation)) => BookEventView::Activated(
                Ok(activation.books@),
            ),
            BookEvent::Activated(Err(error)) => BookEventView::Activated(Err(error@)),
            BookEvent::Stored(Ok(_)) => BookEventView::Stored(Ok(())),
            BookEvent::Stored(Err(error)) => BookEventView::Stored(Err(error@)),
            BookEvent::Tagged(written) => BookEventView::Tagged(written),
            BookEvent::Marked(Ok(_)) => BookEventView::Marked(Ok(())),
            BookEvent::Marked(Err(error)) => BookEventView::Marked(Err(error@)),
        }
    }
}

/// A book that a listing offers for download.
#[derive(Clone, Copy, Debug)]
pub enum Candidate<'a> {
    /// A book of a search page, with the trace id of that page.
    Search { book: &'a catalogue::Book, traceid: &'a str },
    /// A book of the inactive listing.
    Inactive(&'a InactiveBook),
    /// A book of the active listing, which is licensed already.
    Active(&'a Book),
}

/// The mathematical content of a [`Candidate`]: what the pipeline reads of
/// it.
pub enum CandidateView {
    /// A book that has to be activated first.
    Listed { id: u32, upcoming: bool, esalesticket: Seq<char>, traceid: Seq<char> },
    /// A book that is licensed already.
    Held(BookView),
}

impl<'a> View for Candidate<'a> {
    type V = CandidateView;

    open spec fn view(&self) -> CandidateView {
        match *self {
            Candidate::Search { book, traceid } => listed_in_search(*book, traceid@),
            Candidate::Inactive(book) => listed_inactive(*book),
            Candidate::Active(book) => CandidateView::Held(book@),
        }
    }
}

/// A book of a search page as a candidate.
pub open spec fn listed_in_search(book: catalogue::Book, traceid: Seq<char>) -> CandidateView {
    CandidateView::Listed {
        id: book.id,
        upcoming: book.spec_is_upcoming(),
        esalesticket: book.esalesticket@,
        traceid: traceid,
    }
}

/// A book of the inactive listing as a candidate: it has neither a ticket
/// nor a trace id.
pub open spec fn listed_inactive(book: InactiveBook) -> CandidateView {
    CandidateView::Listed {
        id: book.id,
        upcoming: book.spec_is_upcoming(),
        esalesticket: Seq::empty(),
        traceid: Seq::empty(),
    }
}

impl CandidateView {
    /// The identifier under which the listing shows the book.
    pub open spec fn id(self) -> u32 {
        match self {
            CandidateView::Listed { id, .. } => id,
            CandidateView::Held(book) => book.id,
        }
    }
}

/// The stage that follows a license: the download is planned, or the book
/// is given up because its format cannot be stored.
pub open spec fn planned(root: Seq<char>, book: BookView) -> StageView {
    match plan_of(root, book) {
        Ok(plan) => StageView::Store(plan),
        Err(error) => StageView::Done(OutcomeView::Failed(error)),
    }
}

/// The stage that follows the tag, written or not: the book is marked as
/// completed if that is wanted, else the pipeline ends well.
pub open spec fn tagged(mark: bool, destination: DestinationView) -> StageView {
    if mark {
        StageView::MarkCompleted(destination)
    } else {
        StageView::Done(OutcomeView::Downloaded(destination))
    }
}

/// The stage that follows the file's arrival: the tag, where the plan has
/// one.
pub open spec fn stored(mark: bool, plan: DownloadPlanView) -> StageView {
    if plan.tag is Some {
        StageView::Tag(plan)
    } else {
        tagged(mark, plan.destination)
    }
}

/// The first stage of a candidate.
///
/// A book that is not published yet is passed over before anything is
/// sent. A book that is licensed already goes straight to its plan.
pub open spec fn first_stage(
    root: Seq<char>,
    token: Seq<char>,
    candidate: CandidateView,
) -> StageView {
    match candidate {
        CandidateView::Listed { id, upcoming, esalesticket, traceid } => if upcoming {
            StageView::Done(OutcomeView::Skipped(SkipReason::Upcoming))
        } else {
            StageView::Activate(activation_request(token, id, esalesticket, traceid))
        },
        CandidateView::Held(book) => planned(root, book),
    }
}

/// The stage that follows `stage` on `event`.
///
/// A failed activation, a failed download and a failed completion mark
/// each end the pipeline with that failure. A failed tag does not: the
/// file is safe already. A report that does not answer the stage ends the
/// pipeline with [`ErrorView::Unknown`]. Once ended, the pipeline stays
/// as it is.
pub open spec fn next_stage(
    root: Seq<char>,
    mark: bool,
    stage: StageView,
    event: BookEventView,
) -> StageView {
    match stage {
        StageView::Activate(_) => match event {
            BookEventView::Activated(Ok(book)) => planned(root, book),
            BookEventView::Activated(Err(error)) => StageView::Done(OutcomeView::Failed(error)),
            _ => StageView::Done(OutcomeView::Failed(ErrorView::Unknown)),
        },
        StageView::Store(plan) => match event {
            BookEventView::Stored(Ok(_)) => stored(mark, plan),
            BookEventView::Stored(Err(error)) => StageView::Done(OutcomeView::Failed(error)),
            _ => StageView::Done(OutcomeView::Failed(ErrorView::Unknown)),
        },
        StageView::Tag(plan) => match event {
            BookEventView::Tagged(_) => tagged(mark, plan.destination),
            _ => StageView::Done(OutcomeView::Failed(ErrorView::Unknown)),
        },
        StageView::MarkCompleted(destination) => match event {
            BookEventView::Marked(Ok(_)) => StageView::Done(
                OutcomeView::Downloaded(destination),
            ),
            BookEventView::Marked(Err(error)) => StageView::Done(OutcomeView::Failed(error)),
            _ => StageView::Done(OutcomeView::Failed(ErrorView::Unknown)),
        },
        StageView::Done(outcome) => StageView::Done(outcome),
    }
}

/// How the pipeline ends for `candidate`, told in one piece, when the
/// activation (if one is asked for) is answered with `activated`, the
/// download with `stored` and the completion mark with `marked`.
///
/// A book that is not published yet is passed over. A failed activation
/// fails the book, and so does a format that cannot be stored, a failed
/// download and, where marks are wanted, a failed mark. Every other book
/// ends as downloaded to the place that its plan names.
pub open spec fn outcome_of(
    root: Seq<char>,
    mark: bool,
    candidate: CandidateView,
    activated: std::result::Result<BookView, ErrorView>,
    stored: std::result::Result<(), ErrorView>,
    marked: std::result::Result<(), ErrorView>,
) -> OutcomeView {
    let licensed = match candidate {
        CandidateView::Listed { upcoming, .. } => if upcoming {
            Err(OutcomeView::Skipped(SkipReason::Upcoming))
        } else {
            match activated {
                Ok(book) => Ok(book),
                Err(error) => Err(OutcomeView::Failed(error)),
            }
        },
        CandidateView::Held(book) => Ok(book),
    };
    match licensed {
        Err(outcome) => outcome,
        Ok(book) => match plan_of(root, book) {
            Err(error) => OutcomeView::Failed(error),
            Ok(plan) => match stored {
                Err(error) => OutcomeView::Failed(error),
                Ok(_) => if mark {
                    match marked {
                        Err(error) => OutcomeView::Failed(error),
                        Ok(_) => OutcomeView::Downloaded(plan.destination),
                    }
                } else {
                    OutcomeView::Downloaded(plan.destination)
                },
            },
        },
    }
}

/// The stage at which the pipeline rests after each piece of work that it
/// asks for, from `stage` on, has been answered: the activation with
/// `activated`, the download with `stored`, the tag with `written` and the
/// completion mark with `marked`.
pub open spec fn answered(
    root: Seq<char>,
    mark: bool,
    stage: StageView,
    activated: std::result::Result<BookView, ErrorView>,
    stored: std::result::Result<(), ErrorView>,
    written: bool,
    marked: std::result::Result<(), ErrorView>,
) -> StageView {
    let licensed = if stage is Activate {
        next_stage(root, mark, stage, BookEventView::Activated(activated))
    } else {
        stage
    };
    let kept = if licensed is Store {
        next_stage(root, mark, licensed, BookEventView::Stored(stored))
    } else {
        licensed
    };
    let labelled = if kept is Tag {
        next_stage(root, mark, kept, BookEventView::Tagged(written))
    } else {
        kept
    };
    if labelled is MarkCompleted {
        next_stage(root, mark, labelled, BookEventView::Marked(marked))
    } else {
        labelled
    }
}

/// Step by step the pipeline comes to the end that [`outcome_of`] tells in
/// one piece: at most four answers are needed, and whether the tag could be
/// written has no part in the outcome.
pub proof fn pipeline_ends_as_told(
    root: Seq<char>,
    mark: bool,
    token: Seq<char>,
    candidate: CandidateView,
    activated: std::result::Result<BookView, ErrorView>,
    stored: std::result::Result<(), ErrorView>,
    written: bool,
    marked: std::result::Result<(), ErrorView>,
)
    ensures
        answered(
            root,
            mark,
            first_stage(root, token, candidate),
            activated,
            stored,
            written,
            marked,
        ) == StageView::Done(outcome_of(root, mark, candidate, activated, stored, marked)),
{
}

/// A book that is not published yet is never activated: the only stage
/// that asks for an activation is the first stage of a listed book that is
/// published, and its request is for that very book.
pub proof fn upcoming_is_never_activated(
    root: Seq<char>,
    mark: bool,
    token: Seq<char>,
    candidate: CandidateView,
    stage: StageView,
    event: BookEventView,
)
    ensures
        !(next_stage(root, mark, stage, event) is Activate),
        first_stage(root, token, candidate) is Activate ==> (candidate
            matches CandidateView::Listed { id, upcoming, esalesticket, traceid } && !upcoming
            && first_stage(root, token, candidate) == StageView::Activate(
            activation_request(token, id, esalesticket, traceid),
        )),
{
}

/// Whether the tag could be written makes no difference to what follows:
/// the file is safe, and the pipeline goes on as after a written tag.
pub proof fn tagging_is_not_fatal(root: Seq<char>, mark: bool, plan: DownloadPlanView)
    ensures
        next_stage(root, mark, StageView::Tag(plan), BookEventView::Tagged(false)) == next_stage(
            root,
            mark,
            StageView::Tag(plan),
            BookEventView::Tagged(true),
        ),
        !(next_stage(root, mark, StageView::Tag(plan), BookEventView::Tagged(false))
            matches StageView::Done(OutcomeView::Failed(_))),
{
}

/// A book is marked as completed only where that is wanted, and only after
/// its file is in place. Where it is wanted, no book ends as downloaded
/// without the mark having succeeded.
pub proof fn completion_follows_the_setting(
    root: Seq<char>,
    mark: bool,
    stage: StageView,
    event: BookEventView,
)
    requires
        !(stage is Done),
    ensures
        next_stage(root, mark, stage, event) is MarkCompleted ==> mark && (stage is Store
            || stage is Tag),
        mark && (next_stage(root, mark, stage, event) matches StageView::Done(
            OutcomeView::Downloaded(_),
        )) ==> stage is MarkCompleted && (event matches BookEventView::Marked(Ok(_))),
{
}

fn plan_stage(downloader: &Downloader, book: &Book) -> (stage: Stage)
    ensures
        stage@ == planned(downloader.path@, book@),
{
    match downloader.download_book(book) {
        Ok(plan) => Stage::Store(plan),
        Err(error) => Stage::Done(Outcome::Failed(error)),
    }
}

fn tagged_stage(mark: bool, destination: Destination) -> (stage: Stage)
    ensures
        stage@ == tagged(mark, destination@),
{
    if mark {
        Stage::MarkCompleted(destination)
    } else {
        Stage::Done(Outcome::Downloaded(destination))
    }
}

fn failed_stage(error: Error) -> (stage: Stage)
    ensures
        stage@ == StageView::Done(OutcomeView::Failed(error@)),
{
    Stage::Done(Outcome::Failed(error))
}

impl Stage {
    /// Whether the pipeline has ended.
    pub open spec fn spec_is_done(&self) -> bool {
        *self is Done
    }

    /// Whether the pipeline has ended.
    #[verifier::when_used_as_spec(spec_is_done)]
    pub fn is_done(&self) -> (done: bool)
        ensures
            done == self.spec_is_done(),
            done == (self@ is Done),
    {
        match self {
            Stage::Done(_) => true,
            _ => false,
        }
    }

    /// The stage that follows this one on `event`.
    pub fn step(self, downloader: &Downloader, event: BookEvent) -> (next: Stage)
        ensures
            next@ == next_stage(downloader.path@, downloader.mark_completed, self@, event@),
    {
        match self {
            Stage::Activate(_) => match event {
                BookEvent::Activated(Ok(activation)) => plan_stage(downloader, &activation.books),
                BookEvent::Activated(Err(error)) => failed_stage(error),
                _ => failed_stage(Error::Unknown),
            },
            Stage::Store(plan) => match event {
                BookEvent::Stored(Ok(_)) => {
                    if plan.tag.is_some() {
                        Stage::Tag(plan)
                    } else {
                        tagged_stage(downloader.mark_completed, plan.destination)
                    }
                },
                BookEvent::Stored(Err(error)) => failed_stage(error),
                _ => failed_stage(Error::Unknown),
            },
            Stage::Tag(plan) => match event {
                BookEvent::Tagged(_) => tagged_stage(downloader.mark_completed, plan.destination),
                _ => failed_stage(Error::Unknown),
            },
            Stage::MarkCompleted(destination) => match event {
                BookEvent::Marked(Ok(_)) => Stage::Done(Outcome::Downloaded(destination)),
                BookEvent::Marked(Err(error)) => failed_stage(error),
                _ => failed_stage(Error::Unknown),
            },
            Stage::Done(outcome) => Stage::Done(outcome),
        }
    }
}

impl Downloader {
    /// The first stage of the pipeline for `candidate`.
    ///
    /// A book that is not published yet is never activated: it is passed
    /// over at once.
    pub fn process_one(&self, client: &Client, candidate: Candidate<'_>) -> (stage: Stage)
        ensures
            stage@ == first_stage(self.path@, client.token@, candidate@),
    {
        match candidate {
            Candidate::Search { book, traceid } => {
                if book.is_upcoming() {
                    Stage::Done(Outcome::Skipped(SkipReason::Upcoming))
                } else {
                    Stage::Activate(
                        directctbookactivation(
                            client,
                            book.id,
                            book.esalesticket.as_str(),
                            traceid,
                        ),
                    )
                }
            },
            Candidate::Inactive(book) => {
                if book.is_upcoming() {
                    Stage::Done(Outcome::Skipped(SkipReason::Upcoming))
                } else {
                    proof {
                        reveal_strlit("");
                        assert(""@ =~= Seq::<char>::empty());
                    }
                    Stage::Activate(directctbookactivation(client, book.id, "", ""))
                }
            },
            Candidate::Active(book) => plan_stage(self, book),
        }
    }
}

} // verus!
