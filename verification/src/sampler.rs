//! The sampler: a run of three queries that ends with one game of the catalog,
//! drawn uniformly, or with a failure.
//!
//! A run asks for the catalog's size, draws an index below it, asks for the
//! reference at that index and then for the game behind the reference. The
//! sampler sends nothing itself. It is a state machine: the caller performs
//! the query that the current state awaits and hands the reply to `step`,
//! until no query is awaited. No query is repeated, and the first failure ends
//! the run.

use vstd::prelude::*;
use rand::Rng;
use crate::error::{
    ErrorKind,
    ErrorView,
    FetchFailure,
    SamplerError,
    EMPTY_CATALOG,
    NO_RESULT_AT_OFFSET,
    UNEXPECTED_PAYLOAD,
};
use crate::model::{Envelope, EnvelopeView, Game, Payload, PayloadView};
use crate::request::{Request, RequestView};

verus! {

/// How far a run has come.
#[derive(Debug, Clone, PartialEq, Eq)]
pub enum SamplerState {
    /// Nothing is known yet; the catalog's size is being asked for.
    Idle,
    /// The catalog holds `total` games and `idx` was drawn; the reference at
    /// `idx` is being asked for.
    ProbeDone { total: i64, idx: i64 },
    /// The drawn game is found at `locator`; its details are being asked for.
    ResolverDone { locator: String },
    /// The run has ended with a game.
    Complete(Game),
    /// The run has ended with a failure.
    Failed(SamplerError),
}

/// A state as contracts speak of it.
pub enum StateView {
    Idle,
    ProbeDone { total: int, idx: int },
    ResolverDone { locator: Seq<char> },
    Complete(Game),
    Failed(ErrorView),
}

impl View for SamplerState {
    type V = StateView;

    open spec fn view(&self) -> StateView {
        match self {
            SamplerState::Idle => StateView::Idle,
            SamplerState::ProbeDone { total, idx } => StateView::ProbeDone {
                total: *total as int,
                idx: *idx as int,
            },
            SamplerState::ResolverDone { locator } => StateView::ResolverDone {
                locator: locator@,
            },
            SamplerState::Complete(game) => StateView::Complete(*game),
            SamplerState::Failed(err) => StateView::Failed(err@),
        }
    }
}

/// What came of the query that a state awaited.
#[derive(Debug, Clone, PartialEq, Eq)]
pub enum Event {
    /// The remote answered, and the body decoded into an envelope.
    Fetched(Envelope),
    /// The remote could not be reached, or the body did not decode.
    FetchFailed(FetchFailure),
}

/// An event as contracts speak of it.
pub enum EventView {
    Fetched(EnvelopeView),
    FetchFailed(ErrorView),
}

impl View for Event {
    type V = EventView;

    open spec fn view(&self) -> EventView {
        match self {
            Event::Fetched(envelope) => EventView::Fetched(envelope@),
            Event::FetchFailed(failure) => EventView::FetchFailed(failure@),
        }
    }
}

impl StateView {
    /// A drawn index lies inside the catalog it was drawn for.
    pub open spec fn wf(self) -> bool {
        match self {
            StateView::ProbeDone { total, idx } => 0 <= idx < total,
            _ => true,
        }
    }

    /// Whether the run has ended.
    pub open spec fn is_terminal(self) -> bool {
        self is Complete || self is Failed
    }

    /// How many queries have been answered, counting the one that ended the
    /// run as all that were left.
    pub open spec fn rank(self) -> nat {
        match self {
            StateView::Idle => 0,
            StateView::ProbeDone { .. } => 1,
            StateView::ResolverDone { .. } => 2,
            StateView::Complete(_) => 3,
            StateView::Failed(_) => 3,
        }
    }

    /// The query whose reply the state awaits; none once the run has ended.
    pub open spec fn awaited(self) -> Option<RequestView> {
        match self {
            StateView::Idle => Some(RequestView::Probe),
            StateView::ProbeDone { total, idx } => Some(RequestView::Resolve { offset: idx }),
            StateView::ResolverDone { locator } => Some(RequestView::Detail { locator }),
            StateView::Complete(_) => None,
            StateView::Failed(_) => None,
        }
    }

    /// What the run has come to; nothing while a query is awaited.
    pub open spec fn outcome(self) -> Option<Result<Game, ErrorView>> {
        match self {
            StateView::Complete(game) => Some(Ok(game)),
            StateView::Failed(err) => Some(Err(err)),
            _ => None,
        }
    }
}

/// The failure of a run whose catalog has no game to draw.
pub open spec fn empty_catalog() -> ErrorView {
    ErrorView { kind: ErrorKind::EmptyCatalog, text: EMPTY_CATALOG@ }
}

/// The failure of a run whose list query at the drawn offset found nothing.
pub open spec fn no_result_at_offset() -> ErrorView {
    ErrorView { kind: ErrorKind::Remote, text: NO_RESULT_AT_OFFSET@ }
}

/// The failure of a run that was handed the payload of the other kind of
/// query: the body did not have the shape that was asked for.
pub open spec fn unexpected_payload() -> ErrorView {
    ErrorView { kind: ErrorKind::Decode, text: UNEXPECTED_PAYLOAD@ }
}

/// What the reply to the size query says: the size of the whole catalog, as
/// the envelope counts it, whatever the page that was asked for.
pub open spec fn reported_total(event: EventView) -> Result<int, ErrorView> {
    match event {
        EventView::FetchFailed(failure) => Err(failure),
        EventView::Fetched(envelope) => match envelope.payload {
            PayloadView::References(_) => Ok(envelope.total),
            PayloadView::Item(_) => Err(unexpected_payload()),
        },
    }
}

/// What the reply to the list query at the drawn offset says: the locator of
/// the first reference, or that there is none.
pub open spec fn first_locator(event: EventView) -> Result<Seq<char>, ErrorView> {
    match event {
        EventView::FetchFailed(failure) => Err(failure),
        EventView::Fetched(envelope) => match envelope.payload {
            PayloadView::References(locators) => {
                if locators.len() == 0 {
                    Err(no_result_at_offset())
                } else {
                    Ok(locators[0])
                }
            },
            PayloadView::Item(_) => Err(unexpected_payload()),
        },
    }
}

/// What the reply to the detail query says: the game.
pub open spec fn delivered_game(event: EventView) -> Result<Game, ErrorView> {
    match event {
        EventView::FetchFailed(failure) => Err(failure),
        EventView::Fetched(envelope) => match envelope.payload {
            PayloadView::Item(game) => Ok(game),
            PayloadView::References(_) => Err(unexpected_payload()),
        },
    }
}

/// The size of the catalog that an index is drawn for: the event answers the
/// size query of a run that has just begun, and counts at least one game.
pub open spec fn draws_below(state: StateView, event: EventView) -> Option<int> {
    match (state, reported_total(event)) {
        (StateView::Idle, Ok(total)) => if total > 0 {
            Some(total)
        } else {
            None
        },
        _ => None,
    }
}

/// Whether `pick` may stand for the index drawn at this step: where one is
/// drawn, it lies inside the catalog.
pub open spec fn pick_allowed(state: StateView, event: EventView, pick: int) -> bool {
    match draws_below(state, event) {
        Some(total) => 0 <= pick < total,
        None => true,
    }
}

/// The state that follows `state` on `event`, where `pick` is the index that
/// is drawn if one is.
///
/// A failed round-trip ends the run with that failure. An envelope advances
/// the run by one query if it carries what the query asked for: a positive
/// size, then at least one reference, then the game. Otherwise it ends the
/// run. A run that has ended stays as it is.
pub open spec fn next_state(state: StateView, event: EventView, pick: int) -> StateView {
    match state {
        StateView::Idle => match reported_total(event) {
            Ok(total) => if total <= 0 {
                StateView::Failed(empty_catalog())
            } else {
                StateView::ProbeDone { total, idx: pick }
            },
            Err(failure) => StateView::Failed(failure),
        },
        StateView::ProbeDone { .. } => match first_locator(event) {
            Ok(locator) => StateView::ResolverDone { locator },
            Err(failure) => StateView::Failed(failure),
        },
        StateView::ResolverDone { .. } => match delivered_game(event) {
            Ok(game) => StateView::Complete(game),
            Err(failure) => StateView::Failed(failure),
        },
        StateView::Complete(_) => state,
        StateView::Failed(_) => state,
    }
}

/// The view of a query that may be absent.
pub open spec fn request_view(request: Option<Request>) -> Option<RequestView> {
    match request {
        Some(r) => Some(r@),
        None => None,
    }
}

/// The view of an outcome that may be absent.
pub open spec fn outcome_view(outcome: Option<Result<Game, SamplerError>>) -> Option<
    Result<Game, ErrorView>,
> {
    match outcome {
        Some(Ok(game)) => Some(Ok(game)),
        Some(Err(err)) => Some(Err(err@)),
        None => None,
    }
}

/// Calls `gen_range(0..max)` of `rand::Rng` on `rand::thread_rng()`. The
/// result is drawn uniformly from the half-open range, so all that holds of
/// every outcome is that it lies in the range. An empty range makes
/// `gen_range` panic and is left out. The generator of the thread is seeded
/// from the operating system on first use.
#[verifier::external_body]
fn random(max: i64) -> (idx: i64)
    requires
        max > 0,
    ensures
        0 <= idx < max,
{
    rand::thread_rng().gen_range(0..max)
}

/// Draws an index into a catalog of `total` games, each with the same chance.
/// A catalog without games has no index: that is a failure of its own kind.
pub fn pick_index(total: i64) -> (drawn: Result<i64, SamplerError>)
    ensures
        total > 0 ==> drawn is Ok && 0 <= drawn->Ok_0 < total,
        total <= 0 ==> drawn is Err && drawn->Err_0@ == empty_catalog(),
{
    if total <= 0 {
        Err(SamplerError::EmptyCatalog)
    } else {
        Ok(random(total))
    }
}

/// Reads the size of the catalog from the reply to the size query. The
/// references of the reply are not looked at.
pub fn max_games_from(event: Event) -> (total: Result<i64, SamplerError>)
    ensures
        match reported_total(event@) {
            Ok(n) => total is Ok && total->Ok_0 == n,
            Err(failure) => total is Err && total->Err_0@ == failure,
        },
{
    match event {
        Event::FetchFailed(failure) => Err(SamplerError::from_fetch(failure)),
        Event::Fetched(envelope) => match envelope.results {
            Payload::References(_) => Ok(envelope.number_of_total_results),
            Payload::Item(_) => Err(SamplerError::unexpected_payload()),
        },
    }
}

/// Reads the locator of the drawn game from the reply to the list query: the
/// first reference of the list. A list without a reference is a failure of
/// the remote, not of the transport or of the decoding.
pub fn game_uri_from(event: Event) -> (locator: Result<String, SamplerError>)
    ensures
        match first_locator(event@) {
            Ok(l) => locator is Ok && locator->Ok_0@ == l,
            Err(failure) => locator is Err && locator->Err_0@ == failure,
        },
{
    match event {
        Event::FetchFailed(failure) => Err(SamplerError::from_fetch(failure)),
        Event::Fetched(envelope) => match envelope.results {
            Payload::References(references) => {
                if references.len() == 0 {
                    Err(SamplerError::no_result_at_offset())
                } else {
                    Ok(references[0].api_detail_url.clone())
                }
            },
            Payload::Item(_) => Err(SamplerError::unexpected_payload()),
        },
    }
}

/// Takes the game out of the reply to the detail query, as it was decoded.
pub fn game_details_from(event: Event) -> (game: Result<Game, SamplerError>)
    ensures
        match delivered_game(event@) {
            Ok(g) => game == Ok::<Game, SamplerError>(g),
            Err(failure) => game is Err && game->Err_0@ == failure,
        },
{
    match event {
        Event::FetchFailed(failure) => Err(SamplerError::from_fetch(failure)),
        Event::Fetched(envelope) => match envelope.results {
            Payload::Item(game) => Ok(game),
            Payload::References(_) => Err(SamplerError::unexpected_payload()),
        },
    }
}

impl SamplerState {
    /// The query whose reply the state awaits; none once the run has ended.
    pub fn request(&self) -> (request: Option<Request>)
        ensures
            request_view(request) == self@.awaited(),
    {
        match self {
            SamplerState::Idle => Some(Request::Probe),
            SamplerState::ProbeDone { total, idx } => Some(Request::Resolve { offset: *idx }),
            SamplerState::ResolverDone { locator } => Some(
                Request::Detail { locator: locator.clone() },
            ),
            SamplerState::Complete(_) => None,
            SamplerState::Failed(_) => None,
        }
    }

    /// What the run has come to: the game or the failure, whole. Nothing
    /// while a query is awaited.
    pub fn into_outcome(self) -> (outcome: Option<Result<Game, SamplerError>>)
        ensures
            outcome_view(outcome) == self@.outcome(),
    {
        match self {
            SamplerState::Complete(game) => Some(Ok(game)),
            SamplerState::Failed(err) => Some(Err(err)),
            _ => None,
        }
    }
}

/// The state in which every run begins, and its first query.
pub fn start() -> (out: (SamplerState, Option<Request>))
    ensures
        out.0@ == StateView::Idle,
        request_view(out.1) == Some(RequestView::Probe),
{
    (SamplerState::Idle, Some(Request::Probe))
}

/// The state that follows a state in which no index is drawn: the reference
/// is resolved, the game is fetched, or the run has ended and stays so.
fn step_past_probe(state: SamplerState, event: Event) -> (next: SamplerState)
    requires
        !(state@ is Idle),
    ensures
        forall|pick: int| next@ == #[trigger] next_state(state@, event@, pick),
{
    match state {
        SamplerState::ProbeDone { .. } => match game_uri_from(event) {
            Ok(locator) => SamplerState::ResolverDone { locator },
            Err(failure) => SamplerState::Failed(failure),
        },
        SamplerState::ResolverDone { .. } => match game_details_from(event) {
            Ok(game) => SamplerState::Complete(game),
            Err(failure) => SamplerState::Failed(failure),
        },
        ended => ended,
    }
}

/// The state that follows `state` on `event` when `pick` is the index drawn,
/// and the query to perform next.
pub fn step_with(state: SamplerState, event: Event, pick: i64) -> (out: (
    SamplerState,
    Option<Request>,
))
    requires
        pick_allowed(state@, event@, pick as int),
    ensures
        out.0@ == next_state(state@, event@, pick as int),
        out.0@.wf(),
        request_view(out.1) == out.0@.awaited(),
{
    let next = match state {
        SamplerState::Idle => match max_games_from(event) {
            Ok(total) => if total <= 0 {
                SamplerState::Failed(SamplerError::EmptyCatalog)
            } else {
                SamplerState::ProbeDone { total, idx: pick }
            },
            Err(failure) => SamplerState::Failed(failure),
        },
        past_probe => step_past_probe(past_probe, event),
    };
    let request = next.request();
    (next, request)
}

/// The state that follows `state` on `event`, and the query to perform next.
///
/// Where the event reports the size of the catalog, an index is drawn here:
/// the state that follows is the one that `next_state` gives for some index
/// inside the catalog. At every other step `next_state` gives one state
/// whatever the index.
pub fn step(state: SamplerState, event: Event) -> (out: (SamplerState, Option<Request>))
    ensures
        exists|pick: int|
            pick_allowed(state@, event@, pick) && out.0@ == #[trigger] next_state(
                state@,
                event@,
                pick,
            ),
        out.0@.wf(),
        request_view(out.1) == out.0@.awaited(),
{
    let next = match state {
        SamplerState::Idle => match max_games_from(event) {
            Ok(total) => match pick_index(total) {
                Ok(idx) => SamplerState::ProbeDone { total, idx },
                Err(failure) => SamplerState::Failed(failure),
            },
            Err(failure) => SamplerState::Failed(failure),
        },
        past_probe => step_past_probe(past_probe, event),
    };
    proof {
        let pick: int = match next@ {
            StateView::ProbeDone { total, idx } => idx,
            _ => 0,
        };
        assert(pick_allowed(state@, event@, pick));
        assert(next@ == next_state(state@, event@, pick));
    }
    let request = next.request();
    (next, request)
}

/// The state of a run after its first three replies.
pub open spec fn run(first: EventView, second: EventView, third: EventView, pick: int) -> StateView {
    next_state(next_state(next_state(StateView::Idle, first, pick), second, pick), third, pick)
}

/// A run that has ended stays as it ended, whatever arrives.
pub proof fn lemma_ended_run_stays(state: StateView, event: EventView, pick: int)
    requires
        state.is_terminal(),
    ensures
        next_state(state, event, pick) == state,
{
}

/// A run only moves forward: every reply either answers the query that was
/// awaited, which leaves one query fewer, or ends the run with a failure.
pub proof fn lemma_step_moves_forward(state: StateView, event: EventView, pick: int)
    requires
        !state.is_terminal(),
    ensures
        next_state(state, event, pick).rank() > state.rank(),
        next_state(state, event, pick) is Failed || next_state(state, event, pick).rank()
            == state.rank() + 1,
{
}

/// A drawn index always lies inside the catalog it was drawn for: a step
/// leads to no other state.
pub proof fn lemma_step_keeps_wf(state: StateView, event: EventView, pick: int)
    requires
        pick_allowed(state, event, pick),
    ensures
        next_state(state, event, pick).wf(),
{
}

/// When the first query reports a catalog of `total` games, the list query
/// that follows asks for an offset that is at least zero and strictly less
/// than `total`.
pub proof fn lemma_offset_below_total(envelope: EnvelopeView, pick: int)
    requires
        envelope.payload is References,
        envelope.total > 0,
        pick_allowed(StateView::Idle, EventView::Fetched(envelope), pick),
    ensures
        next_state(StateView::Idle, EventView::Fetched(envelope), pick).awaited() == Some(
            RequestView::Resolve { offset: pick },
        ),
        0 <= pick < envelope.total,
{
}

/// A query is sent for an offset only in a state that holds the size that
/// was reported, and the offset is below that size.
pub proof fn lemma_resolve_only_inside_catalog(state: StateView, offset: int)
    requires
        state.wf(),
        state.awaited() == Some(RequestView::Resolve { offset }),
    ensures
        state matches StateView::ProbeDone { total, idx } && idx == offset && 0 <= offset < total,
{
}

/// A catalog that reports no game, or fewer, ends the run with a failure of
/// its own kind before any index is drawn.
pub proof fn lemma_empty_catalog_fails(envelope: EnvelopeView, pick: int)
    requires
        envelope.payload is References,
        envelope.total <= 0,
    ensures
        next_state(StateView::Idle, EventView::Fetched(envelope), pick) == StateView::Failed(
            empty_catalog(),
        ),
{
}

/// A list query at the drawn offset that is answered with no reference ends
/// the run with a remote failure: not with a decode failure, and not with a
/// state that awaits anything.
pub proof fn lemma_empty_list_is_remote_failure(
    total: int,
    idx: int,
    envelope: EnvelopeView,
    pick: int,
)
    requires
        envelope.payload == PayloadView::References(Seq::<Seq<char>>::empty()),
    ensures
        next_state(StateView::ProbeDone { total, idx }, EventView::Fetched(envelope), pick)
            == StateView::Failed(no_result_at_offset()),
        no_result_at_offset().kind == ErrorKind::Remote,
{
}

/// A failed round-trip ends the run with that very failure: its kind and its
/// text reach the caller as they were reported. So a body that does not
/// decode surfaces as a decode failure, and a remote that cannot be reached
/// as a transport failure.
pub proof fn lemma_failure_surfaces_unchanged(state: StateView, failure: ErrorView, pick: int)
    requires
        !state.is_terminal(),
    ensures
        next_state(state, EventView::FetchFailed(failure), pick).outcome() == Some(
            Err::<Game, ErrorView>(failure),
        ),
{
}

/// A detail reply whose body does not decode ends the run with a decode
/// failure that carries the decoder's own text.
pub proof fn lemma_undecodable_detail_is_decode_failure(
    locator: Seq<char>,
    text: Seq<char>,
    pick: int,
)
    ensures
        next_state(
            StateView::ResolverDone { locator },
            EventView::FetchFailed(ErrorView { kind: ErrorKind::Decode, text }),
            pick,
        ) == StateView::Failed(ErrorView { kind: ErrorKind::Decode, text }),
{
}

/// Every run has ended once three replies have arrived.
pub proof fn lemma_run_ends(first: EventView, second: EventView, third: EventView, pick: int)
    ensures
        run(first, second, third, pick).is_terminal(),
{
}

/// A run ends with a game exactly when each of the three replies carried
/// what its query asked for: a positive size, at least one reference, and
/// the game. The game is the one of the third reply. In every other case the
/// run ends with a failure and hands out nothing.
pub proof fn lemma_run_is_all_or_nothing(
    first: EventView,
    second: EventView,
    third: EventView,
    pick: int,
    game: Game,
)
    ensures
        run(first, second, third, pick) == StateView::Complete(game) <==> {
            &&& first matches EventView::Fetched(size)
            &&& size.payload is References
            &&& size.total > 0
            &&& second matches EventView::Fetched(list)
            &&& list.payload matches PayloadView::References(locators)
            &&& locators.len() > 0
            &&& third matches EventView::Fetched(detail)
            &&& detail.payload == PayloadView::Item(game)
        },
{
}

} // verus!
