//! One request from arrival to reply.
//!
//! The crate touches neither socket nor store. An exchange is a small state
//! machine instead: `dispatch` resolves the request and says what is to be
//! done first, the driver does it and reports what came of it, and `advance`
//! says what is to be done next, until the action is a reply. A reply also
//! says whether the driver holds a connection that it now has to give back.

use crate::error::RequestError;
use crate::http::{
    greeting_response, json_response, not_found_response, server_error_response, Method,
    Request, Response, ResponseView,
};
use crate::json::{listing_text, render_listing};
use crate::product::{
    all_rows_map, ascending, by_id, distinct_ids, lemma_by_id_ascending,
    lemma_by_id_ignores_order, lemma_by_id_permutes, map_rows, products_of_rows, row_views,
    sort_by_id, CellView, Row,
};
use crate::routes::{
    answers, lemma_lookup_none, lemma_service_table, lookup, service_table, Handler, RouteTable,
};
use vstd::prelude::*;

verus! {

/// Where an exchange stands.
#[derive(Clone, Copy, Debug, PartialEq, Eq, Structural)]
pub enum Stage {
    /// A connection has been asked for; none is held yet.
    Acquiring,
    /// A connection is held and the query is under way.
    Querying,
    /// The reply has been given. Nothing is held.
    Done,
}

/// What the driver reports of the store.
#[derive(Clone, Debug, PartialEq, Eq)]
pub enum StoreEvent {
    /// A connection was handed out.
    Connected,
    /// The store could not be reached.
    Unreachable,
    /// No connection became free within the bounded wait.
    Exhausted,
    /// The query returned these rows, read at one point in time.
    Rows(Vec<Row>),
    /// The query returned rows that could not be read cell by cell.
    RowsUnreadable,
    /// The store refused or failed the query.
    QueryRejected,
}

/// The mathematical value of a [`StoreEvent`].
pub enum StoreEventView {
    Connected,
    Unreachable,
    Exhausted,
    Rows(Seq<Seq<CellView>>),
    RowsUnreadable,
    QueryRejected,
}

impl View for StoreEvent {
    type V = StoreEventView;

    open spec fn view(&self) -> StoreEventView {
        match *self {
            StoreEvent::Connected => StoreEventView::Connected,
            StoreEvent::Unreachable => StoreEventView::Unreachable,
            StoreEvent::Exhausted => StoreEventView::Exhausted,
            StoreEvent::Rows(rows) => StoreEventView::Rows(row_views(rows@)),
            StoreEvent::RowsUnreadable => StoreEventView::RowsUnreadable,
            StoreEvent::QueryRejected => StoreEventView::QueryRejected,
        }
    }
}

/// The end of an exchange.
#[derive(Clone, Debug, PartialEq, Eq)]
pub struct Reply {
    /// What the client is sent.
    pub response: Response,
    /// Whether the driver holds a connection, which it now gives back.
    pub release: bool,
    /// Why the request failed, for the operator's log. The response does not
    /// say.
    pub error: Option<RequestError>,
}

/// The mathematical value of a [`Reply`].
pub struct ReplyView {
    pub response: ResponseView,
    pub release: bool,
    pub error: Option<RequestError>,
}

impl View for Reply {
    type V = ReplyView;

    open spec fn view(&self) -> ReplyView {
        ReplyView { response: self.response@, release: self.release, error: self.error }
    }
}

/// What the driver is to do next.
#[derive(Clone, Debug, PartialEq, Eq)]
pub enum Action {
    /// Ask the connection provider for a connection.
    Acquire,
    /// Read all rows of the product table, ordered by identifier.
    Query,
    /// Send the response; the exchange is over.
    Reply(Reply),
    /// Nothing: the exchange was over already.
    Idle,
}

/// The mathematical value of an [`Action`].
pub enum ActionView {
    Acquire,
    Query,
    Reply(ReplyView),
    Idle,
}

impl View for Action {
    type V = ActionView;

    open spec fn view(&self) -> ActionView {
        match *self {
            Action::Acquire => ActionView::Acquire,
            Action::Query => ActionView::Query,
            Action::Reply(reply) => ActionView::Reply(reply@),
            Action::Idle => ActionView::Idle,
        }
    }
}

/// One move of an exchange: the stage it is in now, and what to do.
#[derive(Clone, Debug, PartialEq, Eq)]
pub struct Step {
    pub stage: Stage,
    pub action: Action,
}

/// The mathematical value of a [`Step`].
pub struct StepView {
    pub stage: Stage,
    pub action: ActionView,
}

impl View for Step {
    type V = StepView;

    open spec fn view(&self) -> StepView {
        StepView { stage: self.stage, action: self.action@ }
    }
}

/// How a request was routed: the handler that was invoked, if any, and the
/// first move of the exchange.
#[derive(Clone, Debug, PartialEq, Eq)]
pub struct Dispatch {
    pub handler: Option<Handler>,
    pub step: Step,
}

/// The last move of an exchange that went well.
pub open spec fn finished(response: ResponseView, release: bool) -> StepView {
    StepView {
        stage: Stage::Done,
        action: ActionView::Reply(ReplyView { response, release, error: None }),
    }
}

/// The last move of an exchange that failed: the generic server error,
/// whatever the cause.
pub open spec fn failed(error: Option<RequestError>, release: bool) -> StepView {
    StepView {
        stage: Stage::Done,
        action: ActionView::Reply(
            ReplyView { response: server_error_response(), release, error },
        ),
    }
}

/// The first move, by the handler that the route table names. Without a
/// handler the request is answered as not found; the greeting answers at
/// once; the product listing begins by asking for a connection.
pub open spec fn first_step(handler: Option<Handler>) -> StepView {
    match handler {
        None => finished(not_found_response(), false),
        Some(Handler::Greeting) => finished(greeting_response(), false),
        Some(Handler::Products) => StepView {
            stage: Stage::Acquiring,
            action: ActionView::Acquire,
        },
    }
}

/// The response of the product listing to the rows of one reading: all
/// products, in ascending order of identifier, as one JSON array. One row
/// that is no product fails the listing as a whole.
pub open spec fn listing_response(rows: Seq<Seq<CellView>>) -> Result<
    ResponseView,
    RequestError,
> {
    match products_of_rows(rows) {
        Some(products) => Ok(json_response(listing_text(by_id(products)))),
        None => Err(RequestError::MappingFailed),
    }
}

/// The move that follows an event. An event that does not belong to the
/// stage counts as a failure of the handler. Whatever ends the exchange
/// while a connection is held releases it.
pub open spec fn next_step(stage: Stage, event: StoreEventView) -> StepView {
    match stage {
        Stage::Acquiring => match event {
            StoreEventView::Connected => StepView {
                stage: Stage::Querying,
                action: ActionView::Query,
            },
            StoreEventView::Unreachable => failed(Some(RequestError::StoreUnavailable), false),
            StoreEventView::Exhausted => failed(Some(RequestError::PoolExhausted), false),
            _ => failed(None, false),
        },
        Stage::Querying => match event {
            StoreEventView::Rows(rows) => match listing_response(rows) {
                Ok(response) => finished(response, true),
                Err(error) => failed(Some(error), true),
            },
            StoreEventView::RowsUnreadable => failed(Some(RequestError::MappingFailed), true),
            StoreEventView::QueryRejected => failed(Some(RequestError::QueryFailed), true),
            _ => failed(None, true),
        },
        Stage::Done => StepView { stage: Stage::Done, action: ActionView::Idle },
    }
}

/// The event for a connection that was not handed out within the bounded
/// wait. A pool without a single open connection could not reach the store;
/// one whose connections are all lent out is exhausted.
pub open spec fn acquisition_failure(open_connections: u32) -> StoreEventView {
    if open_connections == 0 {
        StoreEventView::Unreachable
    } else {
        StoreEventView::Exhausted
    }
}

impl StoreEvent {
    /// The event for a connection that was not handed out within the bounded
    /// wait, by the number of connections that the pool holds open.
    pub fn acquisition_failed(open_connections: u32) -> (out: StoreEvent)
        ensures
            out@ == acquisition_failure(open_connections),
    {
        if open_connections == 0 {
            StoreEvent::Unreachable
        } else {
            StoreEvent::Exhausted
        }
    }
}

impl Step {
    /// The last move of an exchange that went well.
    fn finish(response: Response, release: bool) -> (out: Step)
        ensures
            out@ == finished(response@, release),
    {
        Step { stage: Stage::Done, action: Action::Reply(Reply { response, release, error: None }) }
    }

    /// The last move of an exchange that failed.
    fn fail(error: Option<RequestError>, release: bool) -> (out: Step)
        ensures
            out@ == failed(error, release),
    {
        Step {
            stage: Stage::Done,
            action: Action::Reply(Reply { response: Response::server_error(), release, error }),
        }
    }
}

/// What the product listing makes of the rows that the query returned.
pub fn list_products(rows: &Vec<Row>) -> (out: Result<Response, RequestError>)
    ensures
        match listing_response(row_views(rows@)) {
            Ok(response) => out matches Ok(r) && r@ == response,
            Err(error) => out == Err::<Response, RequestError>(error),
        },
{
    match map_rows(rows) {
        Ok(products) => {
            let ordered = sort_by_id(products);
            Ok(Response::json(render_listing(&ordered)))
        },
        Err(error) => Err(error),
    }
}

/// Routes a request and makes the first move of its exchange. A request that
/// no route answers invokes no handler and is answered with 404.
pub fn dispatch(table: &RouteTable, request: &Request) -> (out: Dispatch)
    ensures
        out.handler == lookup(table@, request@.method, request@.path),
        out.step@ == first_step(out.handler),
        (forall|i: int|
            0 <= i < table@.len() ==> !answers(
                #[trigger] table@[i],
                request@.method,
                request@.path,
            )) ==> out.handler is None && out.step@ == finished(not_found_response(), false),
{
    proof {
        lemma_lookup_none(table@, request@.method, request@.path);
    }
    let handler = table.resolve(request.method, &request.path);
    let step = match handler {
        None => Step::finish(Response::not_found(), false),
        Some(Handler::Greeting) => Step::finish(Response::greeting(), false),
        Some(Handler::Products) => Step { stage: Stage::Acquiring, action: Action::Acquire },
    };
    Dispatch { handler, step }
}

/// Makes the move that follows an event.
pub fn advance(stage: Stage, event: StoreEvent) -> (out: Step)
    ensures
        out@ == next_step(stage, event@),
{
    match stage {
        Stage::Acquiring => match event {
            StoreEvent::Connected => Step { stage: Stage::Querying, action: Action::Query },
            StoreEvent::Unreachable => Step::fail(Some(RequestError::StoreUnavailable), false),
            StoreEvent::Exhausted => Step::fail(Some(RequestError::PoolExhausted), false),
            _ => Step::fail(None, false),
        },
        Stage::Querying => match event {
            StoreEvent::Rows(rows) => match list_products(&rows) {
                Ok(response) => Step::finish(response, true),
                Err(error) => Step::fail(Some(error), true),
            },
            StoreEvent::RowsUnreadable => Step::fail(Some(RequestError::MappingFailed), true),
            StoreEvent::QueryRejected => Step::fail(Some(RequestError::QueryFailed), true),
            _ => Step::fail(None, true),
        },
        Stage::Done => Step { stage: Stage::Done, action: Action::Idle },
    }
}

/// On the routes of the service, `GET /` is answered at once with status
/// 200 and the fixed greeting, whatever else is going on; a request for a
/// method and path without a route is answered with 404.
pub proof fn lemma_service_answers(method: Method, path: Seq<char>)
    ensures
        first_step(lookup(service_table(), Method::Get, "/"@)) == finished(
            greeting_response(),
            false,
        ),
        first_step(lookup(service_table(), Method::Get, "/products"@)).action
            == ActionView::Acquire,
        !(method == Method::Get && (path == "/"@ || path == "/products"@)) ==> first_step(
            lookup(service_table(), method, path),
        ) == finished(not_found_response(), false),
{
    reveal_strlit("/");
    reveal_strlit("/products");
    assert("/"@.len() != "/products"@.len());
    lemma_service_table(Method::Get, "/"@);
    lemma_service_table(Method::Get, "/products"@);
    lemma_service_table(method, path);
}

/// A connection is given back exactly by the reply that ends an exchange in
/// which one was held, whether the exchange went well or not.
pub proof fn lemma_release_follows_hold(stage: Stage, event: StoreEventView)
    ensures
        next_step(stage, event).action matches ActionView::Reply(reply) ==> reply.release == (stage
            == Stage::Querying),
        stage == Stage::Querying ==> next_step(stage, event).action is Reply,
        next_step(stage, event).stage == Stage::Querying ==> stage == Stage::Acquiring,
{
}

/// A connection that cannot be had fails the one request and nothing else.
/// The exchange ends at once with the generic server error and holds
/// nothing. The next exchange begins as every exchange does, and once a
/// connection is handed out again it lists the rows that it is given.
pub proof fn lemma_failed_acquisition_is_contained(
    open_connections: u32,
    rows: Seq<Seq<CellView>>,
)
    ensures
        next_step(Stage::Acquiring, acquisition_failure(open_connections)) == failed(
            Some(
                if open_connections == 0 {
                    RequestError::StoreUnavailable
                } else {
                    RequestError::PoolExhausted
                },
            ),
            false,
        ),
        first_step(Some(Handler::Products)).stage == Stage::Acquiring,
        next_step(Stage::Acquiring, StoreEventView::Connected).stage == Stage::Querying,
        all_rows_map(rows) ==> next_step(Stage::Querying, StoreEventView::Rows(rows)) == finished(
            json_response(listing_text(by_id(products_of_rows(rows)->Some_0))),
            true,
        ),
{
}

/// A reply that reports a failure is the generic server error: its status is
/// 500 and its body does not depend on the cause.
pub proof fn lemma_failure_is_generic(stage: Stage, event: StoreEventView)
    ensures
        next_step(stage, event).action matches ActionView::Reply(reply) ==> (reply.error is Some
            ==> reply.response == server_error_response()) && (reply.response.status == 200
            || reply.response.status == 500),
{
}

/// An exchange is over after two events at most, whatever they are.
pub proof fn lemma_two_events_suffice(
    handler: Option<Handler>,
    first: StoreEventView,
    second: StoreEventView,
)
    ensures
        next_step(next_step(first_step(handler).stage, first).stage, second).stage == Stage::Done,
{
}

/// A listing is whole: a successful response holds every product of the one
/// reading it was made from, each once per row and none besides, in
/// ascending order of identifier. No response mixes two readings or stops
/// half way.
pub proof fn lemma_listing_is_whole(rows: Seq<Seq<CellView>>)
    ensures
        listing_response(rows) is Ok <==> all_rows_map(rows),
        listing_response(rows) matches Ok(response) ==> {
            let listed = by_id(products_of_rows(rows)->Some_0);
            &&& response == json_response(listing_text(listed))
            &&& listed.len() == rows.len()
            &&& listed.to_multiset() == products_of_rows(rows)->Some_0.to_multiset()
            &&& ascending(listed)
        },
{
    if products_of_rows(rows) is Some {
        lemma_by_id_permutes(products_of_rows(rows)->Some_0);
        lemma_by_id_ascending(products_of_rows(rows)->Some_0);
    }
}

/// The physical order of the rows does not show in the listing: two readings
/// that hold the same products, neither with a repeated identifier, get the
/// same response.
pub proof fn lemma_listing_ignores_row_order(a: Seq<Seq<CellView>>, b: Seq<Seq<CellView>>)
    requires
        products_of_rows(a) is Some,
        products_of_rows(b) is Some,
        distinct_ids(products_of_rows(a)->Some_0),
        distinct_ids(products_of_rows(b)->Some_0),
        products_of_rows(a)->Some_0.to_set() == products_of_rows(b)->Some_0.to_set(),
    ensures
        listing_response(a) == listing_response(b),
        next_step(Stage::Querying, StoreEventView::Rows(a)) == next_step(
            Stage::Querying,
            StoreEventView::Rows(b),
        ),
{
    lemma_by_id_ignores_order(products_of_rows(a)->Some_0, products_of_rows(b)->Some_0);
}

} // verus!
