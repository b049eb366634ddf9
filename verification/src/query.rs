//! One query for the heads of a remote, as a sequence of decisions.
//!
//! A query never touches the network itself. It asks for one transport
//! operation at a time ([`Action`]), is told how the operation went
//! ([`Event`]), and decides from that what comes next, until it arrives at
//! its result. [`Git::start`] opens a query and [`Git::step`] carries it
//! forward; [`next`] is the table both are held to.

use vstd::prelude::*;
use crate::error::Error;
use crate::git::Git;
use crate::head::{into_pairs, paired, HeadView, RemoteHead};
use crate::object_id::ObjectId;

verus! {

/// Name of the fault-injection point that every query evaluates before it
/// asks for anything else.
pub const INJECTION_POINT: &'static str = "git.heads.create_detached";

/// Description carried by an injected failure that brings no message of its
/// own.
pub const INJECTED_MESSAGE: &'static str = "Injected create_detach error.";

/// The direction in which a connection to a remote is opened.
#[derive(Debug, Clone, Copy, PartialEq, Eq, Structural)]
pub enum Direction {
    /// For reading from the remote.
    Fetch,
    /// For writing to the remote.
    Push,
}

/// A transport operation that a query asks its caller to perform.
#[derive(Debug, PartialEq, Eq)]
pub enum Action {
    /// Evaluate the fault-injection point named `point`, before any
    /// connection is attempted.
    Evaluate { point: String },
    /// Create a connection object for `url` that belongs to no local
    /// repository.
    CreateDetached { url: String },
    /// Open the connection in `direction`.
    Connect { direction: Direction },
    /// Ask the connected remote for its reference advertisement.
    List,
    /// Tear the connection down.
    Release,
}

/// How the operation that a query asked for turned out.
#[derive(Debug, PartialEq, Eq)]
pub enum Event {
    /// The operation succeeded and has nothing to report. For the
    /// fault-injection point: it injects nothing.
    Done,
    /// The fault-injection point forces a failure, with this description if
    /// it gives one.
    Injected(Option<String>),
    /// The remote advertised these references, in this order.
    Advertised(Vec<RemoteHead>),
    /// The operation failed; the text describes the cause.
    Failed(String),
}

/// Where a query stands: which operation it is waiting for and, once that is
/// settled, the result it will return.
#[derive(Debug)]
pub struct State {
    stage: Stage,
}

#[derive(Debug)]
enum Stage {
    Injection,
    Creating,
    Connecting,
    Listing,
    Releasing(Result<Vec<(String, ObjectId)>, Error>),
}

/// What one step of a query comes to.
#[derive(Debug)]
pub enum Progress {
    /// The query goes on from this state and asks for this operation.
    Next(State, Action),
    /// The query is over and returns this.
    Finished(Result<Vec<(String, ObjectId)>, Error>),
}

/// The result of a query as plain values: the advertised pairs of reference
/// name and revision identifier, or the description of the failure.
pub type Outcome = Result<Seq<(Seq<char>, Seq<u8>)>, Seq<char>>;

/// What an [`Action`] stands for.
pub enum ActionView {
    Evaluate { point: Seq<char> },
    CreateDetached { url: Seq<char> },
    Connect { direction: Direction },
    List,
    Release,
}

/// What an [`Event`] stands for.
pub enum EventView {
    Done,
    Injected(Option<Seq<char>>),
    Advertised(Seq<HeadView>),
    Failed(Seq<char>),
}

/// What a [`State`] stands for.
pub enum StateView {
    /// Waiting to hear from the fault-injection point. No connection object
    /// exists.
    Injection,
    /// Waiting for the connection object to be created.
    Creating,
    /// A connection object exists; waiting for it to be opened.
    Connecting,
    /// The connection is open; waiting for the advertisement.
    Listing,
    /// The result is settled; waiting for the connection to be torn down.
    Releasing(Outcome),
}

/// What a [`Progress`] stands for.
pub enum ProgressView {
    Next(StateView, ActionView),
    Finished(Outcome),
}

/// The plain value of a result.
pub open spec fn outcome_view(result: Result<Vec<(String, ObjectId)>, Error>) -> Outcome {
    match result {
        Ok(pairs) => Ok(pairs.deep_view()),
        Err(error) => Err(error@),
    }
}

impl View for Action {
    type V = ActionView;

    open spec fn view(&self) -> ActionView {
        match self {
            Action::Evaluate { point } => ActionView::Evaluate { point: point@ },
            Action::CreateDetached { url } => ActionView::CreateDetached { url: url@ },
            Action::Connect { direction } => ActionView::Connect { direction: *direction },
            Action::List => ActionView::List,
            Action::Release => ActionView::Release,
        }
    }
}

impl View for Event {
    type V = EventView;

    open spec fn view(&self) -> EventView {
        match self {
            Event::Done => EventView::Done,
            Event::Injected(Some(message)) => EventView::Injected(Some(message@)),
            Event::Injected(None) => EventView::Injected(None),
            Event::Advertised(heads) => EventView::Advertised(heads.deep_view()),
            Event::Failed(message) => EventView::Failed(message@),
        }
    }
}

impl View for State {
    type V = StateView;

    closed spec fn view(&self) -> StateView {
        match self.stage {
            Stage::Injection => StateView::Injection,
            Stage::Creating => StateView::Creating,
            Stage::Connecting => StateView::Connecting,
            Stage::Listing => StateView::Listing,
            Stage::Releasing(result) => StateView::Releasing(outcome_view(result)),
        }
    }
}

impl View for Progress {
    type V = ProgressView;

    open spec fn view(&self) -> ProgressView {
        match self {
            Progress::Next(state, action) => ProgressView::Next(state@, action@),
            Progress::Finished(result) => ProgressView::Finished(outcome_view(*result)),
        }
    }
}

/// The description an injected failure is reported with: the one the
/// injection point gave, exactly, or [`INJECTED_MESSAGE`] if it gave none.
pub open spec fn injected_message(given: Option<Seq<char>>) -> Seq<char> {
    match given {
        Some(message) => message,
        None => INJECTED_MESSAGE@,
    }
}

/// The operation that a query in `state` is waiting for, when the client is
/// bound to `url`.
pub open spec fn pending(url: Seq<char>, state: StateView) -> ActionView {
    match state {
        StateView::Injection => ActionView::Evaluate { point: INJECTION_POINT@ },
        StateView::Creating => ActionView::CreateDetached { url },
        StateView::Connecting => ActionView::Connect { direction: Direction::Fetch },
        StateView::Listing => ActionView::List,
        StateView::Releasing(_) => ActionView::Release,
    }
}

/// Whether `event` is an answer to the operation that `state` is waiting for.
pub open spec fn answers(state: StateView, event: EventView) -> bool {
    match state {
        StateView::Injection => event is Done || event is Injected,
        StateView::Creating | StateView::Connecting => event is Done || event is Failed,
        StateView::Listing => event is Advertised || event is Failed,
        StateView::Releasing(_) => event is Done || event is Failed,
    }
}

/// The query in `state`, still waiting for its operation.
pub open spec fn waiting(url: Seq<char>, state: StateView) -> ProgressView {
    ProgressView::Next(state, pending(url, state))
}

/// The first thing every query does: evaluate the fault-injection point.
pub open spec fn opening(url: Seq<char>) -> ProgressView {
    waiting(url, StateView::Injection)
}

/// What a query in `state` comes to when it is told `event`.
///
/// * An injected failure ends the query at once with the injected
///   description; otherwise the connection object is created.
/// * A failure to create the connection object ends the query with the
///   description of the cause: there is nothing to tear down yet.
/// * Once the connection object exists, the query opens it for fetching and
///   then asks for the advertisement. The first failure settles the result as
///   that failure; the advertisement settles it as the advertised pairs. In
///   both cases the connection is torn down before the result is returned,
///   and how the teardown went does not change it.
/// * An event that is no answer to the pending operation changes nothing:
///   the same operation is asked for again.
pub open spec fn next(url: Seq<char>, state: StateView, event: EventView) -> ProgressView {
    match (state, event) {
        (StateView::Injection, EventView::Done) => waiting(url, StateView::Creating),
        (StateView::Injection, EventView::Injected(given)) => ProgressView::Finished(
            Err(injected_message(given)),
        ),
        (StateView::Creating, EventView::Done) => waiting(url, StateView::Connecting),
        (StateView::Creating, EventView::Failed(cause)) => ProgressView::Finished(Err(cause)),
        (StateView::Connecting, EventView::Done) => waiting(url, StateView::Listing),
        (StateView::Connecting, EventView::Failed(cause)) => waiting(
            url,
            StateView::Releasing(Err(cause)),
        ),
        (StateView::Listing, EventView::Advertised(heads)) => waiting(
            url,
            StateView::Releasing(Ok(paired(heads))),
        ),
        (StateView::Listing, EventView::Failed(cause)) => waiting(
            url,
            StateView::Releasing(Err(cause)),
        ),
        (StateView::Releasing(outcome), EventView::Done) => ProgressView::Finished(outcome),
        (StateView::Releasing(outcome), EventView::Failed(_)) => ProgressView::Finished(outcome),
        _ => waiting(url, state),
    }
}

impl Git {
    /// Opens a query. Nothing has been contacted yet; the first operation
    /// asked for is the evaluation of the fault-injection point.
    pub fn start(&self) -> (progress: (State, Action))
        ensures
            ProgressView::Next(progress.0@, progress.1@) == opening(self@),
    {
        let stage = Stage::Injection;
        let action = self.ask(&stage);
        (State { stage }, action)
    }

    /// Carries a query forward by one event: see [`next`].
    pub fn step(&self, state: State, event: Event) -> (progress: Progress)
        ensures
            progress@ == next(self@, state@, event@),
    {
        match (state.stage, event) {
            (Stage::Injection, Event::Done) => self.wait(Stage::Creating),
            (Stage::Injection, Event::Injected(Some(message))) => Progress::Finished(
                Err(Error::new(message)),
            ),
            (Stage::Injection, Event::Injected(None)) => Progress::Finished(
                Err(Error::new(INJECTED_MESSAGE.to_string())),
            ),
            (Stage::Creating, Event::Done) => self.wait(Stage::Connecting),
            (Stage::Creating, Event::Failed(cause)) => Progress::Finished(Err(Error::new(cause))),
            (Stage::Connecting, Event::Done) => self.wait(Stage::Listing),
            (Stage::Connecting, Event::Failed(cause)) => self.wait(
                Stage::Releasing(Err(Error::new(cause))),
            ),
            (Stage::Listing, Event::Advertised(heads)) => self.wait(
                Stage::Releasing(Ok(into_pairs(heads))),
            ),
            (Stage::Listing, Event::Failed(cause)) => self.wait(
                Stage::Releasing(Err(Error::new(cause))),
            ),
            (Stage::Releasing(result), Event::Done) => Progress::Finished(result),
            (Stage::Releasing(result), Event::Failed(_)) => Progress::Finished(result),
            (stage, _) => self.wait(stage),
        }
    }

    /// The query at `stage`, together with the operation it waits for.
    fn wait(&self, stage: Stage) -> (progress: Progress)
        ensures
            progress@ == waiting(self@, (State { stage })@),
    {
        let action = self.ask(&stage);
        Progress::Next(State { stage }, action)
    }

    /// The operation that a query at `stage` waits for.
    fn ask(&self, stage: &Stage) -> (action: Action)
        ensures
            action@ == pending(self@, (State { stage: *stage })@),
    {
        match stage {
            Stage::Injection => Action::Evaluate { point: INJECTION_POINT.to_string() },
            Stage::Creating => Action::CreateDetached { url: self.url().to_string() },
            Stage::Connecting => Action::Connect { direction: Direction::Fetch },
            Stage::Listing => Action::List,
            Stage::Releasing(_) => Action::Release,
        }
    }
}

} // verus!
