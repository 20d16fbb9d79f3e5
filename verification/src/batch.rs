//! The run over one page of books: every book goes through the pipeline in
//! turn, and however it ends for one book, the next one is taken up.
use vstd::prelude::*;
use crate::catalogue;
use crate::catalogue::Search;
use crate::client::Client;
use crate::downloader::Downloader;
use crate::api::ErrorView;
use crate::library::{Active, Book, BookView, Inactive, InactiveBook};
use crate::pipeline::{
    first_stage, listed_in_search, listed_inactive, next_stage, outcome_of,
    pipeline_ends_as_told, BookEvent, BookEventView, Candidate, CandidateView, Outcome,
    OutcomeView, Stage, StageView, TRACE_ID_LENGTH,
};

verus! {

/// The books of one page of a listing.
#[derive(Debug)]
pub enum Page {
    /// A page of search results, with the trace id drawn for it.
    Search { books: Vec<catalogue::Book>, traceid: String },
    /// A page of the inactive listing.
    Inactive(Vec<InactiveBook>),
    /// The active listing.
    Active(Vec<Book>),
}

/// The books of a search page as candidates, in order.
pub open spec fn search_candidates(
    books: Seq<catalogue::Book>,
    traceid: Seq<char>,
) -> Seq<CandidateView> {
    Seq::new(books.len(), |i: int| listed_in_search(books[i], traceid))
}

/// The books of an inactive page as candidates, in order.
pub open spec fn inactive_candidates(books: Seq<InactiveBook>) -> Seq<CandidateView> {
    Seq::new(books.len(), |i: int| listed_inactive(books[i]))
}

/// The books of the active listing as candidates, in order.
pub open spec fn active_candidates(books: Seq<Book>) -> Seq<CandidateView> {
    Seq::new(books.len(), |i: int| CandidateView::Held(books[i]@))
}

impl Page {
    /// The books of the page as candidates, in order.
    pub open spec fn candidates(&self) -> Seq<CandidateView> {
        match *self {
            Page::Search { books, traceid } => search_candidates(books@, traceid@),
            Page::Inactive(books) => inactive_candidates(books@),
            Page::Active(books) => active_candidates(books@),
        }
    }

    /// The trace id of a search page; other pages have none.
    pub open spec fn trace_id(&self) -> Option<Seq<char>> {
        match *self {
            Page::Search { traceid, .. } => Some(traceid@),
            _ => None,
        }
    }

    /// The number of books on the page.
    pub fn len(&self) -> (count: usize)
        ensures
            count == self.candidates().len(),
    {
        match self {
            Page::Search { books, .. } => books.len(),
            Page::Inactive(books) => books.len(),
            Page::Active(books) => books.len(),
        }
    }

    /// The book at position `index` as a candidate.
    pub fn candidate(&self, index: usize) -> (candidate: Candidate<'_>)
        requires
            index < self.candidates().len(),
        ensures
            candidate@ == self.candidates()[index as int],
    {
        match self {
            Page::Search { books, traceid } => Candidate::Search {
                book: &books[index],
                traceid: traceid.as_str(),
            },
            Page::Inactive(books) => Candidate::Inactive(&books[index]),
            Page::Active(books) => Candidate::Active(&books[index]),
        }
    }
}

/// The views of a sequence of outcomes, in order.
pub open spec fn outcome_views(outcomes: Seq<Outcome>) -> Seq<OutcomeView> {
    outcomes.map_values(|o: Outcome| o@)
}

/// The mathematical content of a [`PageRun`].
pub struct RunView {
    /// The books of the page.
    pub candidates: Seq<CandidateView>,
    /// How many books have an outcome; also the position of the book in
    /// progress.
    pub position: nat,
    /// What has to be done next for the book in progress; `None` when
    /// every book has an outcome.
    pub stage: Option<StageView>,
    /// The outcomes so far, in the order of the books.
    pub outcomes: Seq<OutcomeView>,
}

impl RunView {
    /// A run is coherent when the books before the position, and no others,
    /// have an outcome, and a book is in progress exactly when one is left.
    pub open spec fn wf(self) -> bool {
        &&& self.position <= self.candidates.len()
        &&& self.outcomes.len() == self.position
        &&& (self.stage is None <==> self.position == self.candidates.len())
        &&& (self.stage matches Some(stage) ==> !(stage is Done))
    }

    /// Whether every book has an outcome.
    pub open spec fn finished(self) -> bool {
        self.stage is None
    }
}

/// The run that takes up the books from `position` on, with `outcomes`
/// recorded for the books before.
///
/// Books whose pipeline ends before anything has to be done are recorded at
/// once. The run rests at the first book that asks for work, or at the end
/// of the page.
pub open spec fn settle(
    root: Seq<char>,
    token: Seq<char>,
    candidates: Seq<CandidateView>,
    position: nat,
    outcomes: Seq<OutcomeView>,
) -> RunView
    decreases candidates.len() - position,
{
    if position >= candidates.len() {
        RunView { candidates: candidates, position: position, stage: None, outcomes: outcomes }
    } else {
        match first_stage(root, token, candidates[position as int]) {
            StageView::Done(outcome) => settle(
                root,
                token,
                candidates,
                position + 1,
                outcomes.push(outcome),
            ),
            stage => RunView {
                candidates: candidates,
                position: position,
                stage: Some(stage),
                outcomes: outcomes,
            },
        }
    }
}

/// The run over `candidates` from the first book on.
pub open spec fn start_run(
    root: Seq<char>,
    token: Seq<char>,
    candidates: Seq<CandidateView>,
) -> RunView {
    settle(root, token, candidates, 0, Seq::empty())
}

/// The run that follows `run` on `event`.
///
/// The event goes to the book in progress. When that ends its pipeline,
/// with whatever outcome, the outcome is recorded and the following books
/// are taken up. A finished run stays as it is.
pub open spec fn run_step(
    root: Seq<char>,
    mark: bool,
    token: Seq<char>,
    run: RunView,
    event: BookEventView,
) -> RunView {
    match run.stage {
        None => run,
        Some(stage) => match next_stage(root, mark, stage, event) {
            StageView::Done(outcome) => settle(
                root,
                token,
                run.candidates,
                run.position + 1,
                run.outcomes.push(outcome),
            ),
            next => RunView { stage: Some(next), ..run },
        },
    }
}

/// Taking up the books from a position on keeps the page and the outcomes
/// recorded before, gives every book that it passes exactly one outcome,
/// and rests in a coherent run.
pub proof fn settle_keeps_what_is_recorded(
    root: Seq<char>,
    token: Seq<char>,
    candidates: Seq<CandidateView>,
    position: nat,
    outcomes: Seq<OutcomeView>,
)
    requires
        position <= candidates.len(),
        outcomes.len() == position,
    ensures
        ({
            let run = settle(root, token, candidates, position, outcomes);
            &&& run.wf()
            &&& run.candidates == candidates
            &&& position <= run.position
            &&& run.outcomes.take(position as int) == outcomes
        }),
    decreases candidates.len() - position,
{
    let run = settle(root, token, candidates, position, outcomes);
    if position < candidates.len() {
        match first_stage(root, token, candidates[position as int]) {
            StageView::Done(outcome) => {
                let longer = outcomes.push(outcome);
                settle_keeps_what_is_recorded(root, token, candidates, position + 1, longer);
                assert(run.outcomes.take(position as int) =~= run.outcomes.take(
                    (position + 1) as int,
                ).take(position as int));
                assert(longer.take(position as int) =~= outcomes);
            },
            _ => {
                assert(run.outcomes.take(position as int) =~= outcomes);
            },
        }
    } else {
        assert(run.outcomes.take(position as int) =~= outcomes);
    }
}

/// Where the run rests, and what it then asks for, does not depend on how
/// the earlier books ended: after a failure the following books are taken
/// up exactly as after a success.
pub proof fn outcomes_do_not_steer(
    root: Seq<char>,
    token: Seq<char>,
    candidates: Seq<CandidateView>,
    position: nat,
    outcomes: Seq<OutcomeView>,
    others: Seq<OutcomeView>,
)
    requires
        outcomes.len() == others.len(),
    ensures
        ({
            let run = settle(root, token, candidates, position, outcomes);
            let other = settle(root, token, candidates, position, others);
            &&& run.position == other.position
            &&& run.stage == other.stage
            &&& run.outcomes.len() == other.outcomes.len()
            &&& forall|i: int|
                outcomes.len() <= i < run.outcomes.len() ==> run.outcomes[i] == other.outcomes[i]
        }),
    decreases candidates.len() - position,
{
    if position < candidates.len() {
        match first_stage(root, token, candidates[position as int]) {
            StageView::Done(outcome) => {
                outcomes_do_not_steer(
                    root,
                    token,
                    candidates,
                    position + 1,
                    outcomes.push(outcome),
                    others.push(outcome),
                );
                settle_appends(root, token, candidates, position + 1, outcomes.push(outcome));
                settle_appends(root, token, candidates, position + 1, others.push(outcome));
                let run = settle(root, token, candidates, position, outcomes);
                let other = settle(root, token, candidates, position, others);
                let at = outcomes.len() as int;
                assert(run.outcomes[at] == run.outcomes.take(at + 1)[at]);
                assert(other.outcomes[at] == other.outcomes.take(at + 1)[at]);
            },
            _ => {},
        }
    }
}

/// Taking up books only ever appends to the outcomes.
proof fn settle_appends(
    root: Seq<char>,
    token: Seq<char>,
    candidates: Seq<CandidateView>,
    position: nat,
    outcomes: Seq<OutcomeView>,
)
    ensures
        ({
            let run = settle(root, token, candidates, position, outcomes);
            &&& outcomes.len() <= run.outcomes.len()
            &&& run.outcomes.take(outcomes.len() as int) == outcomes
        }),
    decreases candidates.len() - position,
{
    let run = settle(root, token, candidates, position, outcomes);
    if position < candidates.len() {
        match first_stage(root, token, candidates[position as int]) {
            StageView::Done(outcome) => {
                let longer = outcomes.push(outcome);
                settle_appends(root, token, candidates, position + 1, longer);
                assert(run.outcomes.take(outcomes.len() as int) =~= run.outcomes.take(
                    longer.len() as int,
                ).take(outcomes.len() as int));
                assert(longer.take(outcomes.len() as int) =~= outcomes);
            },
            _ => {
                assert(run.outcomes.take(outcomes.len() as int) =~= outcomes);
            },
        }
    } else {
        assert(run.outcomes.take(outcomes.len() as int) =~= outcomes);
    }
}

/// A step of a coherent run gives a coherent run over the same page. No
/// outcome is lost or changed, no book is passed without an outcome, and
/// when the run is finished every book of the page has one.
pub proof fn every_book_is_reported(
    root: Seq<char>,
    mark: bool,
    token: Seq<char>,
    run: RunView,
    event: BookEventView,
)
    requires
        run.wf(),
    ensures
        ({
            let next = run_step(root, mark, token, run, event);
            &&& next.wf()
            &&& next.candidates == run.candidates
            &&& run.position <= next.position
            &&& next.outcomes.take(run.position as int) == run.outcomes
            &&& (next.finished() ==> next.outcomes.len() == run.candidates.len())
        }),
{
    let next = run_step(root, mark, token, run, event);
    match run.stage {
        None => {
            assert(next.outcomes.take(run.position as int) =~= run.outcomes);
        },
        Some(stage) => match next_stage(root, mark, stage, event) {
            StageView::Done(outcome) => {
                let longer = run.outcomes.push(outcome);
                settle_keeps_what_is_recorded(
                    root,
                    token,
                    run.candidates,
                    run.position + 1,
                    longer,
                );
                assert(next.outcomes.take(run.position as int) =~= next.outcomes.take(
                    (run.position + 1) as int,
                ).take(run.position as int));
                assert(longer.take(run.position as int) =~= run.outcomes);
            },
            _ => {
                assert(next.outcomes.take(run.position as int) =~= run.outcomes);
            },
        },
    }
}

/// The answers to the work that the pipeline asks for on behalf of one
/// book.
pub struct Answers {
    /// The answer to the activation.
    pub activated: std::result::Result<BookView, ErrorView>,
    /// Whether the file came to its place.
    pub stored: std::result::Result<(), ErrorView>,
    /// Whether the tag could be written.
    pub written: bool,
    /// The answer to marking the book as completed.
    pub marked: std::result::Result<(), ErrorView>,
}

/// The run after the book in progress has had each piece of work that it
/// asks for answered from `answers`. No answer goes to a later book.
pub open spec fn answer_book(
    root: Seq<char>,
    mark: bool,
    token: Seq<char>,
    run: RunView,
    answers: Answers,
) -> RunView {
    let book = run.position;
    let licensed = if run.stage matches Some(StageView::Activate(_)) {
        run_step(root, mark, token, run, BookEventView::Activated(answers.activated))
    } else {
        run
    };
    let kept = if licensed.position == book && (licensed.stage matches Some(
        StageView::Store(_),
    )) {
        run_step(root, mark, token, licensed, BookEventView::Stored(answers.stored))
    } else {
        licensed
    };
    let labelled = if kept.position == book && (kept.stage matches Some(StageView::Tag(_))) {
        run_step(root, mark, token, kept, BookEventView::Tagged(answers.written))
    } else {
        kept
    };
    if labelled.position == book && (labelled.stage matches Some(StageView::MarkCompleted(_))) {
        run_step(root, mark, token, labelled, BookEventView::Marked(answers.marked))
    } else {
        labelled
    }
}

/// How a book ends depends on the book and on the answers to its own work,
/// and on nothing else: once a book that has just been taken up has had
/// its answers, the run has recorded for it the outcome that
/// [`outcome_of`] tells, whatever the outcomes of the books before, and
/// has taken up the books that follow.
pub proof fn book_ends_by_its_own_answers(
    root: Seq<char>,
    mark: bool,
    token: Seq<char>,
    run: RunView,
    answers: Answers,
)
    requires
        run.wf(),
        !run.finished(),
        run.stage == Some(first_stage(root, token, run.candidates[run.position as int])),
    ensures
        answer_book(root, mark, token, run, answers) == settle(
            root,
            token,
            run.candidates,
            run.position + 1,
            run.outcomes.push(
                outcome_of(
                    root,
                    mark,
                    run.candidates[run.position as int],
                    answers.activated,
                    answers.stored,
                    answers.marked,
                ),
            ),
        ),
        answer_book(root, mark, token, run, answers).outcomes[run.position as int] == outcome_of(
            root,
            mark,
            run.candidates[run.position as int],
            answers.activated,
            answers.stored,
            answers.marked,
        ),
{
    let candidate = run.candidates[run.position as int];
    let outcome = outcome_of(
        root,
        mark,
        candidate,
        answers.activated,
        answers.stored,
        answers.marked,
    );
    pipeline_ends_as_told(
        root,
        mark,
        token,
        candidate,
        answers.activated,
        answers.stored,
        answers.written,
        answers.marked,
    );
    assert forall|outcomes: Seq<OutcomeView>| #[trigger]
        settle(root, token, run.candidates, run.position + 1, outcomes).position
            > run.position by {
        settle_position_grows(root, token, run.candidates, run.position + 1, outcomes);
    }
    let after = settle(root, token, run.candidates, run.position + 1, run.outcomes.push(outcome));
    settle_appends(root, token, run.candidates, run.position + 1, run.outcomes.push(outcome));
    let at = run.position as int;
    assert(after.outcomes[at] == after.outcomes.take(at + 1)[at]);
}

/// Taking up books never moves the position back.
proof fn settle_position_grows(
    root: Seq<char>,
    token: Seq<char>,
    candidates: Seq<CandidateView>,
    position: nat,
    outcomes: Seq<OutcomeView>,
)
    ensures
        settle(root, token, candidates, position, outcomes).position >= position,
    decreases candidates.len() - position,
{
    if position < candidates.len() {
        match first_stage(root, token, candidates[position as int]) {
            StageView::Done(outcome) => {
                settle_position_grows(
                    root,
                    token,
                    candidates,
                    position + 1,
                    outcomes.push(outcome),
                );
            },
            _ => {},
        }
    }
}

/// A book that the run passes without asking for work ends as
/// [`outcome_of`] tells for it, whatever the answers would have been.
pub proof fn passed_book_ends_by_itself(
    root: Seq<char>,
    mark: bool,
    token: Seq<char>,
    candidates: Seq<CandidateView>,
    position: nat,
    outcomes: Seq<OutcomeView>,
    book: int,
    answers: Answers,
)
    requires
        outcomes.len() == position,
        position <= book < settle(root, token, candidates, position, outcomes).position,
        book < candidates.len(),
    ensures
        settle(root, token, candidates, position, outcomes).outcomes[book] == outcome_of(
            root,
            mark,
            candidates[book],
            answers.activated,
            answers.stored,
            answers.marked,
        ),
    decreases candidates.len() - position,
{
    if position < candidates.len() {
        match first_stage(root, token, candidates[position as int]) {
            StageView::Done(outcome) => {
                let longer = outcomes.push(outcome);
                if book == position {
                    settle_appends(root, token, candidates, position + 1, longer);
                    let run = settle(root, token, candidates, position + 1, longer);
                    assert(run.outcomes[book] == run.outcomes.take(book + 1)[book]);
                    pipeline_ends_as_told(
                        root,
                        mark,
                        token,
                        candidates[book],
                        answers.activated,
                        answers.stored,
                        answers.written,
                        answers.marked,
                    );
                } else {
                    passed_book_ends_by_itself(
                        root,
                        mark,
                        token,
                        candidates,
                        position + 1,
                        longer,
                        book,
                        answers,
                    );
                }
            },
            _ => {},
        }
    }
}

/// A page of books on its way through the pipeline.
#[derive(Debug)]
pub struct PageRun {
    page: Page,
    position: usize,
    stage: Option<Stage>,
    outcomes: Vec<Outcome>,
}

impl View for PageRun {
    type V = RunView;

    closed spec fn view(&self) -> RunView {
        RunView {
            candidates: self.page.candidates(),
            position: self.position as nat,
            stage: match self.stage {
                Some(stage) => Some(stage@),
                None => None,
            },
            outcomes: outcome_views(self.outcomes@),
        }
    }
}

#[verifier::loop_isolation(false)]
fn take_up(
    downloader: &Downloader,
    client: &Client,
    page: Page,
    position: usize,
    outcomes: Vec<Outcome>,
) -> (run: PageRun)
    requires
        position <= page.candidates().len(),
        outcomes@.len() == position,
    ensures
        run@ == settle(
            downloader.path@,
            client.token@,
            page.candidates(),
            position as nat,
            outcome_views(outcomes@),
        ),
        run.page == page,
{
    let ghost goal = settle(
        downloader.path@,
        client.token@,
        page.candidates(),
        position as nat,
        outcome_views(outcomes@),
    );
    let count = page.len();
    let mut at = position;
    let mut recorded = outcomes;
    while at < count
        invariant
            at <= count,
            recorded@.len() == at,
            goal == settle(
                downloader.path@,
                client.token@,
                page.candidates(),
                at as nat,
                outcome_views(recorded@),
            ),
        decreases count - at,
    {
        let stage = downloader.process_one(client, page.candidate(at));
        match stage {
            Stage::Done(outcome) => {
                proof {
                    assert(outcome_views(recorded@.push(outcome)) =~= outcome_views(
                        recorded@,
                    ).push(outcome@));
                }
                recorded.push(outcome);
                at += 1;
            },
            _ => {
                return PageRun { page, position: at, stage: Some(stage), outcomes: recorded };
            },
        }
    }
    PageRun { page, position: at, stage: None, outcomes: recorded }
}

impl PageRun {
    #[verifier::type_invariant]
    spec fn well_formed(&self) -> bool {
        &&& self.position <= self.page.candidates().len()
        &&& self.outcomes@.len() == self.position
        &&& (self.stage is None <==> self.position == self.page.candidates().len())
        &&& (self.stage matches Some(stage) ==> !(stage is Done))
    }

    /// The page that the run goes over.
    pub closed spec fn page(&self) -> Page {
        self.page
    }

    /// Starts the run over `page`: the books are taken up from the first
    /// one on.
    pub fn start(downloader: &Downloader, client: &Client, page: Page) -> (run: PageRun)
        ensures
            run@ == start_run(downloader.path@, client.token@, page.candidates()),
            run@.wf(),
            run.page() == page,
    {
        let outcomes: Vec<Outcome> = Vec::new();
        proof {
            assert(outcome_views(outcomes@) =~= Seq::empty());
            settle_keeps_what_is_recorded(
                downloader.path@,
                client.token@,
                page.candidates(),
                0,
                Seq::empty(),
            );
        }
        take_up(downloader, client, page, 0, outcomes)
    }

    /// Hands the report `event` to the book in progress and moves on.
    ///
    /// When the book's pipeline ends, with whatever outcome, the outcome is
    /// recorded and the following books are taken up: no failure of one
    /// book keeps another from its turn.
    pub fn step(self, downloader: &Downloader, client: &Client, event: BookEvent) -> (run:
        PageRun)
        ensures
            run@ == run_step(
                downloader.path@,
                downloader.mark_completed,
                client.token@,
                self@,
                event@,
            ),
            run@.wf(),
            run.page() == self.page(),
    {
        proof {
            use_type_invariant(&self);
            every_book_is_reported(
                downloader.path@,
                downloader.mark_completed,
                client.token@,
                self@,
                event@,
            );
        }
        let PageRun { page, position, stage, outcomes } = self;
        let count = page.len();
        match stage {
            None => PageRun { page, position, stage: None, outcomes },
            Some(stage) => {
                let next = stage.step(downloader, event);
                match next {
                    Stage::Done(outcome) => {
                        let mut outcomes = outcomes;
                        proof {
                            assert(outcome_views(outcomes@.push(outcome)) =~= outcome_views(
                                outcomes@,
                            ).push(outcome@));
                        }
                        outcomes.push(outcome);
                        take_up(downloader, client, page, position + 1, outcomes)
                    },
                    _ => PageRun { page, position, stage: Some(next), outcomes },
                }
            },
        }
    }

    /// What has to be done next, or `None` when every book has an outcome.
    pub fn pending(&self) -> (stage: Option<&Stage>)
        ensures
            match stage {
                Some(s) => self@.stage == Some(s@) && !s.spec_is_done(),
                None => self@.stage is None,
            },
    {
        proof {
            use_type_invariant(self);
        }
        self.stage.as_ref()
    }

    /// Whether every book of the page has an outcome.
    pub fn is_finished(&self) -> (finished: bool)
        ensures
            finished == self@.finished(),
            finished ==> self@.outcomes.len() == self@.candidates.len(),
    {
        proof {
            use_type_invariant(self);
        }
        self.stage.is_none()
    }

    /// The identifier of the book at position `index` of the page, or
    /// `None` beyond the page.
    pub fn id_at(&self, index: usize) -> (id: Option<u32>)
        ensures
            match id {
                Some(i) => index < self@.candidates.len() && i == self@.candidates[index as int]
                    .id(),
                None => index >= self@.candidates.len(),
            },
    {
        if index < self.page.len() {
            let id = match self.page.candidate(index) {
                Candidate::Search { book, .. } => book.id,
                Candidate::Inactive(book) => book.id,
                Candidate::Active(book) => book.id,
            };
            Some(id)
        } else {
            None
        }
    }

    /// The identifier of the book in progress, or `None` when every book
    /// has an outcome.
    pub fn current_id(&self) -> (id: Option<u32>)
        ensures
            match id {
                Some(i) => !self@.finished() && i == self@.candidates[self@.position as int].id(),
                None => self@.finished(),
            },
    {
        proof {
            use_type_invariant(self);
        }
        self.id_at(self.position)
    }

    /// The number of books on the page.
    pub fn len(&self) -> (count: usize)
        ensures
            count == self@.candidates.len(),
    {
        self.page.len()
    }

    /// The number of books that have an outcome.
    pub fn position(&self) -> (position: usize)
        ensures
            position == self@.position,
            position == self@.outcomes.len(),
            position <= self@.candidates.len(),
    {
        proof {
            use_type_invariant(self);
        }
        self.position
    }

    /// The trace id that goes with the activations of a search page.
    pub fn trace_id(&self) -> (traceid: Option<&str>)
        ensures
            match traceid {
                Some(t) => self.page().trace_id() == Some(t@),
                None => self.page().trace_id() is None,
            },
    {
        match &self.page {
            Page::Search { traceid, .. } => Some(traceid.as_str()),
            _ => None,
        }
    }

    /// The outcomes so far, one for each book before the one in progress,
    /// in the order of the page.
    pub fn outcomes(&self) -> (outcomes: &Vec<Outcome>)
        ensures
            outcome_views(outcomes@) == self@.outcomes,
            outcomes@.len() == self@.position,
    {
        proof {
            use_type_invariant(self);
        }
        &self.outcomes
    }

    /// Ends the run and hands out the outcomes recorded so far.
    pub fn into_outcomes(self) -> (outcomes: Vec<Outcome>)
        ensures
            outcome_views(outcomes@) == self@.outcomes,
            outcomes@.len() == self@.position,
    {
        proof {
            use_type_invariant(&self);
        }
        self.outcomes
    }
}

impl Downloader {
    /// Starts the run over a search page under the trace id `traceid`.
    pub fn download_search_with(&self, client: &Client, search: Search, traceid: &str) -> (run:
        PageRun)
        ensures
            run@ == start_run(
                self.path@,
                client.token@,
                search_candidates(search.books@, traceid@),
            ),
            run@.wf(),
            run.page().trace_id() == Some(traceid@),
    {
        PageRun::start(
            self,
            client,
            Page::Search { books: search.books, traceid: String::from_str(traceid) },
        )
    }

    /// Starts the run over a search page. One trace id of 21 symbols is
    /// drawn for the page and goes with every activation of the run.
    pub fn download_search(&self, client: &Client, search: Search) -> (run: PageRun)
        ensures
            run.page().trace_id() matches Some(traceid) && {
                &&& traceid.len() == TRACE_ID_LENGTH
                &&& forall|i: int|
                    0 <= i < traceid.len() ==> client.random@.contains(#[trigger] traceid[i])
                &&& run@ == start_run(
                    self.path@,
                    client.token@,
                    search_candidates(search.books@, traceid),
                )
            },
            run@.wf(),
    {
        let traceid = client.random.next_string::<TRACE_ID_LENGTH>();
        self.download_search_with(client, search, traceid.as_str())
    }

    /// Starts the run over the active listing. These books are licensed
    /// already: none is activated, none is passed over.
    pub fn download_active(&self, client: &Client, active: Active) -> (run: PageRun)
        ensures
            run@ == start_run(self.path@, client.token@, active_candidates(active.books@)),
            run@.wf(),
    {
        PageRun::start(self, client, Page::Active(active.books))
    }

    /// Starts the run over one page of the inactive listing.
    pub fn download_inactive_page(&self, client: &Client, inactive: Inactive) -> (run: PageRun)
        ensures
            run@ == start_run(self.path@, client.token@, inactive_candidates(inactive.books@)),
            run@.wf(),
    {
        PageRun::start(self, client, Page::Inactive(inactive.books))
    }
}

} // verus!
