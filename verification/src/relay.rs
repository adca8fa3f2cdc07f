//! What the relay does with a request: the one step that needs the
//! network, and the answer to the caller.
//!
//! The relay itself sends nothing. For a request it names the next
//! [`Step`]; whoever runs it posts the message, and hands what came of that
//! to [`after_post`] for the answer.

use crate::event::{event_of, InboundEvent, InboundEventView};
use crate::json::json_of;
use crate::payload::{payload_of, transform, OutboundPayload, PayloadView};
use crate::routing::{
    lemma_resolve_first_match, lemma_resolve_unknown_path, resolve_in, table_of_config, RouteView,
    RoutingTable,
};
use crate::text::text_of_str;
use vstd::prelude::*;

verus! {

/// Status of an answer that reports success.
pub const STATUS_OK: u16 = 200;

/// Status of an answer that reports that nothing was found.
pub const STATUS_NOT_FOUND: u16 = 404;

/// An answer to the caller.
#[derive(Clone, Debug, PartialEq, Eq)]
pub struct Reply {
    pub status: u16,
    pub body: String,
}

/// What a [`Reply`] spells.
pub struct ReplyView {
    pub status: u16,
    pub body: Seq<char>,
}

impl View for Reply {
    type V = ReplyView;

    open spec fn view(&self) -> ReplyView {
        ReplyView { status: self.status, body: self.body@ }
    }
}

/// What the relay does next for a request.
#[derive(Clone, Debug, PartialEq, Eq)]
pub enum Step {
    /// Post `payload` to `url`, once, then answer with [`after_post`].
    Post { url: String, payload: OutboundPayload },
    /// Answer at once; nothing is sent.
    Answer(Reply),
}

/// What a [`Step`] spells.
pub enum StepView {
    Post { url: Seq<char>, payload: PayloadView },
    Answer(ReplyView),
}

impl View for Step {
    type V = StepView;

    open spec fn view(&self) -> StepView {
        match self {
            Step::Post { url, payload } => StepView::Post { url: url@, payload: payload@ },
            Step::Answer(reply) => StepView::Answer(reply@),
        }
    }
}

/// What came of posting a message.
#[derive(Clone, Copy, Debug, PartialEq, Eq)]
pub enum Delivery {
    /// Some response came back, whatever its status.
    Responded,
    /// No response came back.
    TransportError,
}

/// The answer to the health check.
pub open spec fn healthy() -> ReplyView {
    ReplyView { status: STATUS_OK, body: "Healthy"@ }
}

/// The answer where nothing was found or nothing could be sent.
pub open spec fn not_found() -> ReplyView {
    ReplyView { status: STATUS_NOT_FOUND, body: "Not found"@ }
}

/// The answer where the message went out.
pub open spec fn sent() -> ReplyView {
    ReplyView { status: STATUS_OK, body: "Content sent to Discord"@ }
}

/// The step for a request: post the message for the event to the webhook
/// of the path, or answer that nothing was found where the path has none.
pub open spec fn step_for(routes: Seq<RouteView>, path: Seq<char>, event: InboundEventView)
    -> StepView {
    match resolve_in(routes, path) {
        Some(url) => StepView::Post { url, payload: payload_of(event) },
        None => StepView::Answer(not_found()),
    }
}

/// The answer after the post: success for any response, not found for a
/// transport error.
pub open spec fn reply_after(delivery: Delivery) -> ReplyView {
    match delivery {
        Delivery::Responded => sent(),
        Delivery::TransportError => not_found(),
    }
}

/// The answer to the health check.
pub fn health_reply() -> (reply: Reply)
    ensures
        reply@ == healthy(),
{
    Reply { status: STATUS_OK, body: "Healthy".to_owned() }
}

/// The answer to a request that matches no route, whose body is not JSON,
/// whose path has no webhook, or whose message could not be sent.
pub fn not_found_reply() -> (reply: Reply)
    ensures
        reply@ == not_found(),
{
    Reply { status: STATUS_NOT_FOUND, body: "Not found".to_owned() }
}

/// The step for a request, given the table in force and the event read
/// from the body.
pub fn next_step(table: &RoutingTable, path: &str, event: &InboundEvent) -> (step: Step)
    ensures
        step@ == step_for(table@, path@, event@),
{
    match table.resolve(path) {
        Some(url) => Step::Post { url, payload: transform(event) },
        None => Step::Answer(not_found_reply()),
    }
}

/// The step for a request, given the configuration text as it stands at
/// this request (`None` where it is unset), the path and the body. The
/// table is read from the text anew each time; nothing is kept from one
/// request to the next.
pub fn plan(config: Option<&str>, path: &str, body: &serde_json::Value) -> (step: Step)
    ensures
        step@ == step_for(table_of_config(text_of_str(config)), path@, event_of(json_of(*body))),
{
    let table = RoutingTable::from_config(config);
    let event = InboundEvent::from_json(body);
    next_step(&table, path, &event)
}

/// The answer to the caller once the post has been tried.
pub fn after_post(delivery: Delivery) -> (reply: Reply)
    ensures
        reply@ == reply_after(delivery),
{
    match delivery {
        Delivery::Responded => Reply { status: STATUS_OK, body: "Content sent to Discord".to_owned() },
        Delivery::TransportError => not_found_reply(),
    }
}

/// A request for a path that no entry of the table names is answered with
/// not found, and nothing is posted.
pub proof fn lemma_unknown_path_not_found(
    routes: Seq<RouteView>,
    path: Seq<char>,
    event: InboundEventView,
)
    requires
        forall|i: int| 0 <= i < routes.len() ==> routes[i].path != Some(path),
    ensures
        step_for(routes, path, event) == StepView::Answer(not_found()),
{
    lemma_resolve_unknown_path(routes, path);
}

/// A request for a path that the table names leads to one post: to the
/// address of the first entry with that path, where that entry has one, of
/// the message for the event. The message holds one embed.
pub proof fn lemma_known_path_posts_once(
    routes: Seq<RouteView>,
    path: Seq<char>,
    event: InboundEventView,
    first: int,
    url: Seq<char>,
)
    requires
        0 <= first < routes.len(),
        routes[first].path == Some(path),
        forall|i: int| 0 <= i < first ==> routes[i].path != Some(path),
        routes[first].url == Some(url),
    ensures
        step_for(routes, path, event) == (StepView::Post { url, payload: payload_of(event) }),
        payload_of(event).embeds.len() == 1,
{
    lemma_resolve_first_match(routes, path, first);
}

/// A request for a path whose first entry has no address is answered with
/// not found, whatever later entries say, and nothing is posted.
pub proof fn lemma_path_without_address_not_found(
    routes: Seq<RouteView>,
    path: Seq<char>,
    event: InboundEventView,
    first: int,
)
    requires
        0 <= first < routes.len(),
        routes[first].path == Some(path),
        forall|i: int| 0 <= i < first ==> routes[i].path != Some(path),
        routes[first].url is None,
    ensures
        step_for(routes, path, event) == StepView::Answer(not_found()),
{
    lemma_resolve_first_match(routes, path, first);
}

} // verus!
