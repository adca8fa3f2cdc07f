//! The message that goes out for an event: one embed, its wording and its
//! colour.

use crate::event::{event_of, InboundEvent, InboundEventView, MarketEvent, MarketEventView};
use crate::json::{
    array_value, decimal, json_of, json_of_each, members_of, number_value, object_value, text_value, Json,
};
use crate::members::text_field;
use crate::text::{lemma_lex_less_irreflexive, text_before, text_less};
use vstd::prelude::*;
use vstd::string::*;
use vstd::utf8::*;

verus! {

/// Colour of an event that closed below its open.
pub const RED: u32 = 16711680;

/// Colour of an event that closed at or above its open.
pub const GREEN: u32 = 65280;

/// Colour of a text notification.
pub const PINK: u32 = 16761035;

/// The address every embed names as its author's.
pub const AUTHOR_URL: &'static str = "https://github.com/coinchimp/whistle";

/// The picture every embed shows for its author.
pub const AUTHOR_ICON_URL: &'static str =
    "https://raw.githubusercontent.com/coinchimp/whistle/main/assets/images/whistle.png";

/// The address every embed names as its author's.
pub open spec fn author_url() -> Seq<char> {
    AUTHOR_URL@
}

/// The picture every embed shows for its author.
pub open spec fn author_icon_url() -> Seq<char> {
    AUTHOR_ICON_URL@
}

/// Who an embed is from.
#[derive(Clone, Debug, PartialEq, Eq)]
pub struct Author {
    pub name: String,
    pub url: String,
    pub icon_url: String,
}

/// One embed of a message.
#[derive(Clone, Debug, PartialEq, Eq)]
pub struct Embed {
    pub author: Author,
    pub description: String,
    pub color: u32,
}

/// A message for a chat webhook.
#[derive(Clone, Debug, PartialEq, Eq)]
pub struct OutboundPayload {
    pub embeds: Vec<Embed>,
}

/// What an [`Author`] spells.
pub struct AuthorView {
    pub name: Seq<char>,
    pub url: Seq<char>,
    pub icon_url: Seq<char>,
}

/// What an [`Embed`] spells.
pub struct EmbedView {
    pub author: AuthorView,
    pub description: Seq<char>,
    pub color: u32,
}

/// What an [`OutboundPayload`] spells.
pub struct PayloadView {
    pub embeds: Seq<EmbedView>,
}

impl View for Author {
    type V = AuthorView;

    open spec fn view(&self) -> AuthorView {
        AuthorView { name: self.name@, url: self.url@, icon_url: self.icon_url@ }
    }
}

impl View for Embed {
    type V = EmbedView;

    open spec fn view(&self) -> EmbedView {
        EmbedView { author: self.author@, description: self.description@, color: self.color }
    }
}

impl View for OutboundPayload {
    type V = PayloadView;

    open spec fn view(&self) -> PayloadView {
        PayloadView { embeds: self.embeds@.map_values(|e: Embed| e@) }
    }
}

/// The colour of a market event: red where the close comes before the open
/// in the order of strings, green otherwise.
pub open spec fn market_color(close: Seq<char>, open: Seq<char>) -> u32 {
    if text_less(close, open) {
        RED
    } else {
        GREEN
    }
}

/// The embed for a market event.
pub open spec fn market_embed(e: MarketEventView) -> EmbedView {
    EmbedView {
        author: AuthorView {
            name: "Whistle: "@ + e.ticker + " "@ + e.event + " at "@ + e.exchange,
            url: author_url(),
            icon_url: author_icon_url(),
        },
        description: "Open: "@ + e.open + "\nClose: "@ + e.close + "\nInterval: "@ + e.interval
            + "\nVolume: "@ + e.volume + "\n"@,
        color: market_color(e.close, e.open),
    }
}

/// The embed for a body that is no market event, given the JSON text of the
/// body.
pub open spec fn text_embed(text: Seq<char>) -> EmbedView {
    EmbedView {
        author: AuthorView {
            name: "Whistle: Text Notification"@,
            url: author_url(),
            icon_url: author_icon_url(),
        },
        description: "Event: "@ + text,
        color: PINK,
    }
}

/// The embed for an event.
pub open spec fn embed_of(event: InboundEventView) -> EmbedView {
    match event {
        InboundEventView::Structured(e) => market_embed(e),
        InboundEventView::Unstructured(t) => text_embed(t),
    }
}

/// The message for an event: a single embed.
pub open spec fn payload_of(event: InboundEventView) -> PayloadView {
    PayloadView { embeds: seq![embed_of(event)] }
}

/// The JSON object for an author.
pub open spec fn author_doc(a: AuthorView) -> Json {
    Json::Object(
        map![
            "name"@ => Json::Text(a.name),
            "url"@ => Json::Text(a.url),
            "icon_url"@ => Json::Text(a.icon_url),
        ],
    )
}

/// The JSON object for an embed.
pub open spec fn embed_doc(e: EmbedView) -> Json {
    Json::Object(
        map![
            "author"@ => author_doc(e.author),
            "description"@ => Json::Text(e.description),
            "color"@ => Json::Number(decimal(e.color as nat)),
        ],
    )
}

/// The JSON document that goes out for a message: an object whose one
/// member, `embeds`, is the array of its embeds.
pub open spec fn payload_doc(p: PayloadView) -> Json {
    Json::Object(map!["embeds"@ => Json::Array(p.embeds.map_values(|e: EmbedView| embed_doc(e)))])
}

/// The colour for a close and an open.
pub fn choose_color(close: &str, open: &str) -> (color: u32)
    ensures
        color == market_color(close@, open@),
{
    if text_before(close, open) {
        RED
    } else {
        GREEN
    }
}

fn project_author(name: String) -> (author: Author)
    ensures
        author@ == (AuthorView { name: name@, url: author_url(), icon_url: author_icon_url() }),
{
    Author {
        name,
        url: AUTHOR_URL.to_owned(),
        icon_url: AUTHOR_ICON_URL.to_owned(),
    }
}

/// Builds the embed for a market event.
pub fn embed_market(e: &MarketEvent) -> (embed: Embed)
    ensures
        embed@ == market_embed(e@),
{
    let mut name = "Whistle: ".to_owned();
    name.append(e.ticker.as_str());
    name.append(" ");
    name.append(e.event.as_str());
    name.append(" at ");
    name.append(e.exchange.as_str());
    let mut description = "Open: ".to_owned();
    description.append(e.open.as_str());
    description.append("\nClose: ");
    description.append(e.close.as_str());
    description.append("\nInterval: ");
    description.append(e.interval.as_str());
    description.append("\nVolume: ");
    description.append(e.volume.as_str());
    description.append("\n");
    Embed {
        author: project_author(name),
        description,
        color: choose_color(e.close.as_str(), e.open.as_str()),
    }
}

/// Builds the embed for a body that is no market event, from the JSON text
/// of the body.
pub fn embed_text(text: &str) -> (embed: Embed)
    ensures
        embed@ == text_embed(text@),
{
    let mut description = "Event: ".to_owned();
    description.append(text);
    Embed {
        author: project_author("Whistle: Text Notification".to_owned()),
        description,
        color: PINK,
    }
}

impl Author {
    /// The JSON object for this author.
    pub fn to_json(&self) -> (value: serde_json::Value)
        ensures
            json_of(value) == author_doc(self@),
    {
        let mut members: Vec<(String, serde_json::Value)> = Vec::new();
        members.push(("name".to_owned(), text_value(self.name.clone())));
        members.push(("url".to_owned(), text_value(self.url.clone())));
        members.push(("icon_url".to_owned(), text_value(self.icon_url.clone())));
        proof {
            reveal_strlit("name");
            reveal_strlit("url");
            reveal_strlit("icon_url");
            assert("name"@.len() == 4 && "url"@.len() == 3 && "icon_url"@.len() == 8);
            reveal_with_fuel(members_of, 4);
            assert(members@.drop_last().drop_last().drop_last().len() == 0);
        }
        object_value(members)
    }
}

impl Embed {
    /// The JSON object for this embed.
    pub fn to_json(&self) -> (value: serde_json::Value)
        ensures
            json_of(value) == embed_doc(self@),
    {
        let mut members: Vec<(String, serde_json::Value)> = Vec::new();
        members.push(("author".to_owned(), self.author.to_json()));
        members.push(("description".to_owned(), text_value(self.description.clone())));
        members.push(("color".to_owned(), number_value(self.color)));
        proof {
            reveal_strlit("author");
            reveal_strlit("description");
            reveal_strlit("color");
            assert("author"@.len() == 6 && "description"@.len() == 11 && "color"@.len() == 5);
            reveal_with_fuel(members_of, 4);
            assert(members@.drop_last().drop_last().drop_last().len() == 0);
        }
        object_value(members)
    }
}

impl OutboundPayload {
    /// The JSON document that goes out for this message.
    pub fn to_json(&self) -> (value: serde_json::Value)
        ensures
            json_of(value) == payload_doc(self@),
    {
        let mut items: Vec<serde_json::Value> = Vec::new();
        let mut i: usize = 0;
        while i < self.embeds.len()
            invariant
                i <= self.embeds.len(),
                items.len() == i,
                forall|j: int| 0 <= j < i ==> json_of(items@[j]) == embed_doc(self.embeds@[j]@),
            decreases self.embeds.len() - i,
        {
            items.push(self.embeds[i].to_json());
            i += 1;
        }
        let mut members: Vec<(String, serde_json::Value)> = Vec::new();
        members.push(("embeds".to_owned(), array_value(items)));
        proof {
            reveal_with_fuel(members_of, 2);
            assert(members@.drop_last().len() == 0);
            assert(json_of_each(items@) =~= self@.embeds.map_values(|e: EmbedView| embed_doc(e)));
        }
        object_value(members)
    }
}

/// Builds the message for an event.
pub fn transform(event: &InboundEvent) -> (payload: OutboundPayload)
    ensures
        payload@ == payload_of(event@),
{
    let embed = match event {
        InboundEvent::Structured(e) => embed_market(e),
        InboundEvent::Unstructured(t) => embed_text(t.as_str()),
    };
    let mut embeds: Vec<Embed> = Vec::new();
    embeds.push(embed);
    let payload = OutboundPayload { embeds };
    assert(payload@.embeds =~= seq![embed_of(event@)]);
    payload
}

/// Every message holds exactly one embed, names the project as its author,
/// and has one of the three colours.
pub proof fn lemma_payload_shape(event: InboundEventView)
    ensures
        payload_of(event).embeds.len() == 1,
        payload_of(event).embeds[0].author.url == "https://github.com/coinchimp/whistle"@,
        payload_of(event).embeds[0].author.icon_url == AUTHOR_ICON_URL@,
        payload_of(event).embeds[0].color == RED || payload_of(event).embeds[0].color == GREEN
            || payload_of(event).embeds[0].color == PINK,
{
}

/// The document that goes out for an event is an object whose one member,
/// `embeds`, is an array of one object; that object holds the author, the
/// description and the colour of the embed for the event, each under its
/// name, and nothing else.
pub proof fn lemma_message_document(event: InboundEventView)
    ensures
        payload_doc(payload_of(event)) == Json::Object(
            map!["embeds"@ => Json::Array(seq![embed_doc(embed_of(event))])],
        ),
        embed_doc(embed_of(event)) matches Json::Object(members) && members.dom() =~= set![
            "author"@,
            "description"@,
            "color"@,
        ] && members["author"@] == author_doc(embed_of(event).author) && members["description"@]
            == Json::Text(embed_of(event).description) && members["color"@] == Json::Number(
            decimal(embed_of(event).color as nat),
        ),
{
    assert(payload_of(event).embeds.map_values(|e: EmbedView| embed_doc(e)) =~= seq![
        embed_doc(embed_of(event)),
    ]);
    reveal_strlit("author");
    reveal_strlit("description");
    reveal_strlit("color");
    assert("author"@.len() == 6 && "description"@.len() == 11 && "color"@.len() == 5);
}

/// The three colours as the document writes them.
pub proof fn lemma_colour_digits()
    ensures
        decimal(RED as nat) == "16711680"@,
        decimal(GREEN as nat) == "65280"@,
        decimal(PINK as nat) == "16761035"@,
{
    reveal_strlit("16711680");
    reveal_strlit("65280");
    reveal_strlit("16761035");
    reveal_with_fuel(decimal, 9);
    assert(decimal(16711680) =~= "16711680"@);
    assert(decimal(65280) =~= "65280"@);
    assert(decimal(16761035) =~= "16761035"@);
}

/// A market event is red exactly where its close comes before its open in
/// the order of strings, and green otherwise; equal close and open are
/// green.
pub proof fn lemma_market_color(e: MarketEventView)
    ensures
        text_less(e.close, e.open) ==> market_embed(e).color == RED,
        !text_less(e.close, e.open) ==> market_embed(e).color == GREEN,
        e.close == e.open ==> market_embed(e).color == GREEN,
{
    lemma_lex_less_irreflexive(encode_utf8(e.close));
}

/// The message for a body that is a JSON object is red where the string
/// under `close` comes before the string under `open`, and green otherwise,
/// a missing string counting as empty.
pub proof fn lemma_object_color(body: Json)
    requires
        body is Object,
    ensures
        payload_of(event_of(body)).embeds[0].color == (if text_less(
            text_field(body, "close"@),
            text_field(body, "open"@),
        ) {
            RED
        } else {
            GREEN
        }),
{
}

/// The message for a body that is no JSON object is pink.
pub proof fn lemma_text_color(body: Json)
    requires
        !(body is Object),
    ensures
        payload_of(event_of(body)).embeds[0].color == PINK,
{
}

} // verus!
