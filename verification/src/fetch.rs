//! Fetching the places around the device: one position, then one query.
//!
//! The flow waits twice, for the device and for the network, and the waiting
//! is the caller's. What is decided between the waits is decided here:
//! [`fetch_bathrooms`] takes the state of a fetch and the event that ended a
//! wait, and answers with the next state and with what is to be done next.

use crate::location::{Coordinates, LocationErrorKind, ResolutionOutcome};
use crate::overpass::{
    complete, nearby_query, nearby_query_text, point_of, points_of, points_of_interest, views_of,
    well_formed, OverpassResponse, PointOfInterest, PointOfInterestView,
};
use vstd::prelude::*;

verus! {

/// Why a fetch produced no places.
#[derive(Clone, Copy, Debug, PartialEq, Eq, Structural)]
pub enum BathroomError {
    /// The position could not be resolved; no query was sent.
    Location(LocationErrorKind),
    /// The query failed: in transport, by its status, or by a document that
    /// does not fit the schema.
    FetchBathroomsFailed,
}

/// The result of one fetch.
#[derive(Clone, Debug, PartialEq)]
pub enum QueryResult {
    /// The places that the service found, in the order of its answer.
    Ready(Vec<PointOfInterest>),
    Errored(BathroomError),
}

/// What came back for the one query of a fetch.
#[derive(Clone, Debug, PartialEq)]
pub enum NetworkReply {
    /// No response arrived.
    TransportFailed,
    /// A response arrived, with its status code and with its body as far as
    /// it could be decoded: `None` for a body that is no document at all.
    Received { status: u16, document: Option<OverpassResponse> },
}

/// Where a fetch stands.
#[derive(Clone, Copy, Debug, PartialEq, Eq, Structural)]
pub enum FetchState {
    /// Waiting for the position.
    Locating,
    /// Waiting for the reply to the query.
    Requesting,
    /// The result was delivered.
    Finished,
}

/// What ended a wait.
#[derive(Clone, Debug, PartialEq)]
pub enum FetchEvent {
    /// The position request settled.
    Located(ResolutionOutcome),
    /// The query was answered, or failed.
    Replied(NetworkReply),
}

/// What the caller is to do after an event.
#[derive(Clone, Debug, PartialEq)]
pub enum FetchAction {
    /// Nothing: the event did not belong to the state.
    Nothing,
    /// Send one GET request to this address and come back with the reply.
    Request(String),
    /// Hand this result to whoever asked; the fetch is over.
    Deliver(QueryResult),
}

/// A result as a mathematical value.
pub ghost enum QueryResultView {
    Ready(Seq<PointOfInterestView>),
    Errored(BathroomError),
}

/// An action as a mathematical value.
pub ghost enum FetchActionView {
    Nothing,
    Request(Seq<char>),
    Deliver(QueryResultView),
}

impl View for QueryResult {
    type V = QueryResultView;

    open spec fn view(&self) -> QueryResultView {
        match self {
            QueryResult::Ready(points) => QueryResultView::Ready(views_of(points@)),
            QueryResult::Errored(error) => QueryResultView::Errored(*error),
        }
    }
}

impl View for FetchAction {
    type V = FetchActionView;

    open spec fn view(&self) -> FetchActionView {
        match self {
            FetchAction::Nothing => FetchActionView::Nothing,
            FetchAction::Request(url) => FetchActionView::Request(url@),
            FetchAction::Deliver(result) => FetchActionView::Deliver(result@),
        }
    }
}

/// Whether a status code reports success.
pub open spec fn is_success(status: u16) -> bool {
    200 <= status <= 299
}

/// Whether a reply carries places: it arrived, with a success status and a
/// document that fits the schema.
pub open spec fn usable(reply: NetworkReply) -> bool {
    &&& reply matches NetworkReply::Received { status, document }
    &&& is_success(status)
    &&& document matches Some(decoded)
    &&& well_formed(decoded)
}

/// The result that a reply amounts to.
pub open spec fn conclusion(reply: NetworkReply) -> QueryResultView {
    if usable(reply) {
        QueryResultView::Ready(points_of(reply->document->0.elements->0@))
    } else {
        QueryResultView::Errored(BathroomError::FetchBathroomsFailed)
    }
}

/// The state that follows `state` on `event`.
pub open spec fn next_state(state: FetchState, event: FetchEvent) -> FetchState {
    match (state, event) {
        (FetchState::Locating, FetchEvent::Located(ResolutionOutcome::Success(_))) => {
            FetchState::Requesting
        },
        (FetchState::Locating, FetchEvent::Located(ResolutionOutcome::Failure(_))) => {
            FetchState::Finished
        },
        (FetchState::Requesting, FetchEvent::Replied(_)) => FetchState::Finished,
        _ => state,
    }
}

/// What is to be done when `event` arrives in `state`.
pub open spec fn action_of(state: FetchState, event: FetchEvent) -> FetchActionView {
    match (state, event) {
        (FetchState::Locating, FetchEvent::Located(ResolutionOutcome::Success(center))) => {
            FetchActionView::Request(nearby_query_text(center))
        },
        (FetchState::Locating, FetchEvent::Located(ResolutionOutcome::Failure(kind))) => {
            FetchActionView::Deliver(QueryResultView::Errored(BathroomError::Location(kind)))
        },
        (FetchState::Requesting, FetchEvent::Replied(reply)) => FetchActionView::Deliver(
            conclusion(reply),
        ),
        _ => FetchActionView::Nothing,
    }
}

/// The state after the events of `events` arrived in order.
pub open spec fn state_after(state: FetchState, events: Seq<FetchEvent>) -> FetchState
    decreases events.len(),
{
    if events.len() == 0 {
        state
    } else {
        state_after(next_state(state, events[0]), events.drop_first())
    }
}

/// How many requests are sent while the events of `events` arrive in order.
pub open spec fn requests_in(state: FetchState, events: Seq<FetchEvent>) -> nat
    decreases events.len(),
{
    if events.len() == 0 {
        0
    } else {
        let now: nat = if action_of(state, events[0]) is Request {
            1
        } else {
            0
        };
        now + requests_in(next_state(state, events[0]), events.drop_first())
    }
}

/// How many results are delivered while the events of `events` arrive in
/// order.
pub open spec fn deliveries_in(state: FetchState, events: Seq<FetchEvent>) -> nat
    decreases events.len(),
{
    if events.len() == 0 {
        0
    } else {
        let now: nat = if action_of(state, events[0]) is Deliver {
            1
        } else {
            0
        };
        now + deliveries_in(next_state(state, events[0]), events.drop_first())
    }
}

/// Whether a status code reports success.
pub fn status_is_success(status: u16) -> (success: bool)
    ensures
        success == is_success(status),
{
    200 <= status && status <= 299
}

/// The result that a reply amounts to: the places of a usable reply, in the
/// order of the document, and a failed fetch for every other reply.
pub fn conclude(reply: &NetworkReply) -> (result: QueryResult)
    ensures
        result@ == conclusion(*reply),
{
    match reply {
        NetworkReply::Received { status, document: Some(document) } => {
            if status_is_success(*status) {
                match points_of_interest(document) {
                    Some(points) => QueryResult::Ready(points),
                    None => QueryResult::Errored(BathroomError::FetchBathroomsFailed),
                }
            } else {
                QueryResult::Errored(BathroomError::FetchBathroomsFailed)
            }
        },
        _ => QueryResult::Errored(BathroomError::FetchBathroomsFailed),
    }
}

/// One step of a fetch. A fetch starts in [`FetchState::Locating`], while
/// the position is being resolved.
///
/// A failed resolution ends the fetch with that failure, and no request is
/// sent. A position leads to the one request. The reply to it ends the fetch
/// with the places or with a failed fetch. An event that does not belong to
/// the state changes nothing.
pub fn fetch_bathrooms(state: FetchState, event: &FetchEvent) -> (step: (FetchState, FetchAction))
    ensures
        step.0 == next_state(state, *event),
        step.1@ == action_of(state, *event),
{
    match (state, event) {
        (FetchState::Locating, FetchEvent::Located(ResolutionOutcome::Success(center))) => (
            FetchState::Requesting,
            FetchAction::Request(nearby_query(*center)),
        ),
        (FetchState::Locating, FetchEvent::Located(ResolutionOutcome::Failure(kind))) => (
            FetchState::Finished,
            FetchAction::Deliver(QueryResult::Errored(BathroomError::Location(*kind))),
        ),
        (FetchState::Requesting, FetchEvent::Replied(reply)) => (
            FetchState::Finished,
            FetchAction::Deliver(conclude(reply)),
        ),
        _ => (state, FetchAction::Nothing),
    }
}

/// A document that does not fit the schema fails the fetch, and a result
/// that is ready is never partial: it has one place for each element of the
/// document, in the document's order.
pub proof fn law_all_or_nothing(status: u16, document: OverpassResponse)
    ensures
        !well_formed(document) ==> conclusion(
            NetworkReply::Received { status, document: Some(document) },
        ) == QueryResultView::Errored(BathroomError::FetchBathroomsFailed),
        conclusion(NetworkReply::Received { status, document: Some(document) })
            matches QueryResultView::Ready(points) ==> {
            &&& document.elements is Some
            &&& points.len() == document.elements->0@.len()
            &&& forall|i: int|
                0 <= i < points.len() ==> complete(document.elements->0@[i]) && #[trigger] points[i]
                    == point_of(document.elements->0@[i])
        },
{
}

/// Nothing but a usable reply makes a result ready: a failed transport, a
/// status outside 200 to 299 and a body that is no document all fail the
/// fetch.
pub proof fn law_unusable_reply_fails(reply: NetworkReply)
    ensures
        reply is TransportFailed ==> conclusion(reply) == QueryResultView::Errored(
            BathroomError::FetchBathroomsFailed,
        ),
        reply matches NetworkReply::Received { status, document } && (status < 200 || status > 299
            || document is None) ==> conclusion(reply) == QueryResultView::Errored(
            BathroomError::FetchBathroomsFailed,
        ),
{
}

/// A finished fetch stays finished and does nothing more, whatever arrives.
pub proof fn law_finished_is_final(events: Seq<FetchEvent>)
    ensures
        state_after(FetchState::Finished, events) == FetchState::Finished,
        requests_in(FetchState::Finished, events) == 0,
        deliveries_in(FetchState::Finished, events) == 0,
    decreases events.len(),
{
    if events.len() > 0 {
        law_finished_is_final(events.drop_first());
    }
}

/// A fetch sends at most one request and delivers at most one result, from
/// whatever state it is taken up and whatever events arrive.
pub proof fn law_at_most_once(state: FetchState, events: Seq<FetchEvent>)
    ensures
        requests_in(state, events) <= 1,
        deliveries_in(state, events) <= 1,
        state != FetchState::Locating ==> requests_in(state, events) == 0,
    decreases events.len(),
{
    if events.len() > 0 {
        law_at_most_once(next_state(state, events[0]), events.drop_first());
        law_finished_is_final(events.drop_first());
    }
}

/// A position leads to exactly one request, the query around that position,
/// and the reply to it ends the fetch with the result that the reply
/// amounts to.
pub proof fn law_position_then_reply(center: Coordinates, reply: NetworkReply)
    ensures
        action_of(FetchState::Locating, FetchEvent::Located(ResolutionOutcome::Success(center)))
            == FetchActionView::Request(nearby_query_text(center)),
        action_of(FetchState::Requesting, FetchEvent::Replied(reply)) == FetchActionView::Deliver(
            conclusion(reply),
        ),
        state_after(
            FetchState::Locating,
            seq![FetchEvent::Located(ResolutionOutcome::Success(center)), FetchEvent::Replied(reply)],
        ) == FetchState::Finished,
        requests_in(
            FetchState::Locating,
            seq![FetchEvent::Located(ResolutionOutcome::Success(center)), FetchEvent::Replied(reply)],
        ) == 1,
        deliveries_in(
            FetchState::Locating,
            seq![FetchEvent::Located(ResolutionOutcome::Success(center)), FetchEvent::Replied(reply)],
        ) == 1,
{
    let located = FetchEvent::Located(ResolutionOutcome::Success(center));
    let replied = FetchEvent::Replied(reply);
    let events = seq![located, replied];
    let rest = seq![replied];
    assert(events[0] == located);
    assert(events.drop_first() =~= rest);
    assert(rest[0] == replied);
    assert(rest.drop_first() =~= Seq::<FetchEvent>::empty());
    reveal_with_fuel(state_after, 3);
    reveal_with_fuel(requests_in, 3);
    reveal_with_fuel(deliveries_in, 3);
}

/// A failed resolution short-circuits the fetch: the failure is delivered as
/// the result, and no request is sent then or later.
pub proof fn law_failure_short_circuits(kind: LocationErrorKind, later: Seq<FetchEvent>)
    ensures
        action_of(
            FetchState::Locating,
            FetchEvent::Located(ResolutionOutcome::Failure(kind)),
        ) == FetchActionView::Deliver(QueryResultView::Errored(BathroomError::Location(kind))),
        requests_in(
            FetchState::Locating,
            seq![FetchEvent::Located(ResolutionOutcome::Failure(kind))] + later,
        ) == 0,
        deliveries_in(
            FetchState::Locating,
            seq![FetchEvent::Located(ResolutionOutcome::Failure(kind))] + later,
        ) == 1,
{
    let first = FetchEvent::Located(ResolutionOutcome::Failure(kind));
    let events = seq![first] + later;
    assert(events[0] == first);
    assert(events.drop_first() =~= later);
    law_finished_is_final(later);
}

} // verus!
