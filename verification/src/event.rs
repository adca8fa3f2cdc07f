//! Inbound events: what a request body is taken to say.

use crate::json::{json_of, json_text, render, Json};
use crate::members::{string_field, text_field};
use vstd::prelude::*;

verus! {

/// A market event, each field as the text the sender gave.
#[derive(Clone, Debug, PartialEq, Eq)]
pub struct MarketEvent {
    pub exchange: String,
    pub ticker: String,
    pub close: String,
    pub open: String,
    pub volume: String,
    pub event: String,
    pub interval: String,
}

/// What a [`MarketEvent`] spells.
pub struct MarketEventView {
    pub exchange: Seq<char>,
    pub ticker: Seq<char>,
    pub close: Seq<char>,
    pub open: Seq<char>,
    pub volume: Seq<char>,
    pub event: Seq<char>,
    pub interval: Seq<char>,
}

impl View for MarketEvent {
    type V = MarketEventView;

    open spec fn view(&self) -> MarketEventView {
        MarketEventView {
            exchange: self.exchange@,
            ticker: self.ticker@,
            close: self.close@,
            open: self.open@,
            volume: self.volume@,
            event: self.event@,
            interval: self.interval@,
        }
    }
}

/// A request body: a market event where it is a JSON object, and the JSON
/// text of the body where it is anything else.
#[derive(Clone, Debug, PartialEq, Eq)]
pub enum InboundEvent {
    Structured(MarketEvent),
    Unstructured(String),
}

/// What an [`InboundEvent`] spells.
pub enum InboundEventView {
    Structured(MarketEventView),
    Unstructured(Seq<char>),
}

impl View for InboundEvent {
    type V = InboundEventView;

    open spec fn view(&self) -> InboundEventView {
        match self {
            InboundEvent::Structured(e) => InboundEventView::Structured(e@),
            InboundEvent::Unstructured(t) => InboundEventView::Unstructured(t@),
        }
    }
}

/// The market event that an object spells: each field is the string under
/// its key, and empty where the object has no string there.
pub open spec fn market_event_of(doc: Json) -> MarketEventView {
    MarketEventView {
        exchange: text_field(doc, "exchange"@),
        ticker: text_field(doc, "ticker"@),
        close: text_field(doc, "close"@),
        open: text_field(doc, "open"@),
        volume: text_field(doc, "volume"@),
        event: text_field(doc, "event"@),
        interval: text_field(doc, "interval"@),
    }
}

/// The event that a body spells. Every object is a market event, whatever
/// it holds; every other document is carried as its JSON text.
pub open spec fn event_of(doc: Json) -> InboundEventView {
    if doc is Object {
        InboundEventView::Structured(market_event_of(doc))
    } else {
        InboundEventView::Unstructured(json_text(doc))
    }
}

impl InboundEvent {
    /// Reads the event out of a request body.
    pub fn from_json(body: &serde_json::Value) -> (event: InboundEvent)
        ensures
            event@ == event_of(json_of(*body)),
    {
        if body.is_object() {
            InboundEvent::Structured(
                MarketEvent {
                    exchange: string_field(body, "exchange"),
                    ticker: string_field(body, "ticker"),
                    close: string_field(body, "close"),
                    open: string_field(body, "open"),
                    volume: string_field(body, "volume"),
                    event: string_field(body, "event"),
                    interval: string_field(body, "interval"),
                },
            )
        } else {
            InboundEvent::Unstructured(render(body))
        }
    }
}

} // verus!
