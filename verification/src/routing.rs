//! The routing table: which webhook a path stands for.

use crate::json::{json_of, json_parse, parse, Json};
use crate::members::{string_member, text_member};
use crate::percent::{percent_decode, percent_decoded};
use crate::text::{text_equal, text_of, text_of_str};
use vstd::prelude::*;

verus! {

/// Name of the environment variable that holds the configuration text.
pub const WEBHOOKS_VARIABLE: &'static str = "DISCORD_WEBHOOKS";

/// One entry of the routing table. A field that the configuration leaves
/// out, or gives as something other than a string, is `None`.
#[derive(Clone, Debug, PartialEq, Eq)]
pub struct WebhookRoute {
    pub path: Option<String>,
    pub url: Option<String>,
}

/// What a [`WebhookRoute`] spells.
pub struct RouteView {
    pub path: Option<Seq<char>>,
    pub url: Option<Seq<char>>,
}

impl View for WebhookRoute {
    type V = RouteView;

    open spec fn view(&self) -> RouteView {
        RouteView { path: text_of(self.path), url: text_of(self.url) }
    }
}

/// The entries of the configuration, in the order it gives them.
#[derive(Clone, Debug, PartialEq, Eq)]
pub struct RoutingTable {
    pub routes: Vec<WebhookRoute>,
}

impl View for RoutingTable {
    type V = Seq<RouteView>;

    open spec fn view(&self) -> Seq<RouteView> {
        self.routes@.map_values(|r: WebhookRoute| r@)
    }
}

/// Why a configuration text gives no table.
#[derive(Clone, Copy, Debug, PartialEq, Eq)]
pub enum ConfigFault {
    /// The percent-decoded bytes are not UTF-8.
    Encoding,
    /// The decoded text is not JSON.
    Syntax,
}

/// The webhook for `path`: the address of the first entry with that path,
/// where that entry has one. Later entries with the same path are never
/// consulted.
pub open spec fn resolve_in(routes: Seq<RouteView>, path: Seq<char>) -> Option<Seq<char>>
    decreases routes.len(),
{
    if routes.len() == 0 {
        None
    } else if routes[0].path == Some(path) {
        routes[0].url
    } else {
        resolve_in(routes.skip(1), path)
    }
}

/// The entry that one element of the configuration spells.
pub open spec fn route_of(item: Json) -> RouteView {
    RouteView { path: text_member(item, "path"@), url: text_member(item, "url"@) }
}

/// The table that a configuration document spells: one entry for each
/// element of an array, and no entry for any other document.
pub open spec fn routes_of(doc: Json) -> Seq<RouteView> {
    match doc {
        Json::Array(items) => items.map_values(|item: Json| route_of(item)),
        _ => Seq::empty(),
    }
}

/// What reading a configuration text comes to: a table, or the fault that
/// stopped the reading.
pub open spec fn parsed_config(raw: Seq<char>) -> Result<Seq<RouteView>, ConfigFault> {
    match percent_decoded(raw) {
        None => Err(ConfigFault::Encoding),
        Some(decoded) => match json_parse(decoded) {
            None => Err(ConfigFault::Syntax),
            Some(doc) => Ok(routes_of(doc)),
        },
    }
}

/// The table in force for a configuration text that may be unset: empty
/// where it is unset or cannot be read.
pub open spec fn table_of_config(raw: Option<Seq<char>>) -> Seq<RouteView> {
    match raw {
        None => Seq::empty(),
        Some(text) => match parsed_config(text) {
            Ok(routes) => routes,
            Err(_) => Seq::empty(),
        },
    }
}

/// Percent-decodes a configuration text.
pub fn decode_config(raw: &str) -> (result: Result<String, ConfigFault>)
    ensures
        match result {
            Ok(decoded) => percent_decoded(raw@) == Some(decoded@),
            Err(fault) => fault == ConfigFault::Encoding && percent_decoded(raw@) is None,
        },
{
    match percent_decode(raw) {
        Some(decoded) => Ok(decoded),
        None => Err(ConfigFault::Encoding),
    }
}

impl WebhookRoute {
    /// An entry that sends `path` to `url`.
    pub fn new(path: &str, url: &str) -> (route: WebhookRoute)
        ensures
            route@ == (RouteView { path: Some(path@), url: Some(url@) }),
    {
        WebhookRoute { path: Some(path.to_owned()), url: Some(url.to_owned()) }
    }

    /// The entry that one element of the configuration spells.
    pub fn from_json(item: &serde_json::Value) -> (route: WebhookRoute)
        ensures
            route@ == route_of(json_of(*item)),
    {
        WebhookRoute { path: string_member(item, "path"), url: string_member(item, "url") }
    }

    /// Whether this entry is the one for `path`.
    pub fn matches_path(&self, path: &str) -> (yes: bool)
        ensures
            yes == (self@.path == Some(path@)),
    {
        match &self.path {
            Some(p) => text_equal(p.as_str(), path),
            None => false,
        }
    }
}

impl RoutingTable {
    /// The table without entries.
    pub fn empty() -> (table: RoutingTable)
        ensures
            table@ == Seq::<RouteView>::empty(),
    {
        let table = RoutingTable { routes: Vec::new() };
        assert(table@ =~= Seq::<RouteView>::empty());
        table
    }

    /// The table that a configuration document spells.
    pub fn from_json(doc: &serde_json::Value) -> (table: RoutingTable)
        ensures
            table@ == routes_of(json_of(*doc)),
    {
        match doc.as_array() {
            Some(items) => {
                let mut routes: Vec<WebhookRoute> = Vec::new();
                let mut i: usize = 0;
                while i < items.len()
                    invariant
                        i <= items.len(),
                        routes.len() == i,
                        forall|j: int| 0 <= j < i ==> routes@[j]@ == route_of(json_of(items@[j])),
                    decreases items.len() - i,
                {
                    routes.push(WebhookRoute::from_json(&items[i]));
                    i += 1;
                }
                let table = RoutingTable { routes };
                assert(table@ =~= routes_of(json_of(*doc)));
                table
            },
            None => RoutingTable::empty(),
        }
    }

    /// Reads a configuration text: percent-decodes it, parses the result as
    /// JSON, and takes the table that the document spells.
    pub fn parse(raw: &str) -> (result: Result<RoutingTable, ConfigFault>)
        ensures
            match result {
                Ok(table) => parsed_config(raw@) == Ok::<Seq<RouteView>, ConfigFault>(table@),
                Err(fault) => parsed_config(raw@) == Err::<Seq<RouteView>, ConfigFault>(fault),
            },
    {
        match decode_config(raw) {
            Err(fault) => Err(fault),
            Ok(decoded) => match parse(decoded.as_str()) {
                None => Err(ConfigFault::Syntax),
                Some(doc) => Ok(RoutingTable::from_json(&doc)),
            },
        }
    }

    /// The table in force for a configuration text that may be unset. A
    /// text that is unset or cannot be read gives the empty table, so that
    /// every path misses.
    pub fn from_config(raw: Option<&str>) -> (table: RoutingTable)
        ensures
            table@ == table_of_config(text_of_str(raw)),
    {
        match raw {
            None => RoutingTable::empty(),
            Some(text) => match RoutingTable::parse(text) {
                Ok(table) => table,
                Err(_) => RoutingTable::empty(),
            },
        }
    }

    /// The webhook for `path`, or `None` where the table has none for it.
    pub fn resolve(&self, path: &str) -> (url: Option<String>)
        ensures
            text_of(url) == resolve_in(self@, path@),
    {
        let mut i: usize = 0;
        assert(self@.skip(0) =~= self@);
        while i < self.routes.len()
            invariant
                i <= self.routes.len(),
                resolve_in(self@, path@) == resolve_in(self@.skip(i as int), path@),
            decreases self.routes.len() - i,
        {
            assert(self@.skip(i as int).skip(1) =~= self@.skip(i + 1));
            assert(self@.skip(i as int)[0] == self.routes@[i as int]@);
            if self.routes[i].matches_path(path) {
                return self.routes[i].url.clone();
            }
            i += 1;
        }
        None
    }
}

/// A path that no entry names has no webhook.
pub proof fn lemma_resolve_unknown_path(routes: Seq<RouteView>, path: Seq<char>)
    requires
        forall|i: int| 0 <= i < routes.len() ==> routes[i].path != Some(path),
    ensures
        resolve_in(routes, path) is None,
    decreases routes.len(),
{
    if routes.len() > 0 {
        let rest = routes.skip(1);
        assert forall|i: int| 0 <= i < rest.len() implies rest[i].path != Some(path) by {
            assert(rest[i] == routes[i + 1]);
        }
        lemma_resolve_unknown_path(rest, path);
    }
}

/// The first entry that names a path decides: its address is the answer,
/// whatever later entries say.
pub proof fn lemma_resolve_first_match(routes: Seq<RouteView>, path: Seq<char>, first: int)
    requires
        0 <= first < routes.len(),
        routes[first].path == Some(path),
        forall|i: int| 0 <= i < first ==> routes[i].path != Some(path),
    ensures
        resolve_in(routes, path) == routes[first].url,
    decreases routes.len(),
{
    if first > 0 {
        let rest = routes.skip(1);
        assert(rest[first - 1] == routes[first]);
        assert forall|i: int| 0 <= i < first - 1 implies rest[i].path != Some(path) by {
            assert(rest[i] == routes[i + 1]);
        }
        lemma_resolve_first_match(rest, path, first - 1);
    }
}

/// A configuration that is unset, badly encoded, not JSON, or not an array
/// gives no webhook for any path.
pub proof fn lemma_unreadable_config_misses(raw: Option<Seq<char>>, path: Seq<char>)
    requires
        match raw {
            None => true,
            Some(text) => match percent_decoded(text) {
                None => true,
                Some(decoded) => match json_parse(decoded) {
                    None => true,
                    Some(doc) => !(doc is Array),
                },
            },
        },
    ensures
        resolve_in(table_of_config(raw), path) is None,
{
}

} // verus!
