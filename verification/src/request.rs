//! The three queries of a sampling run, and the address of each.
//!
//! A query is sent as a `GET` to its address, with `USER_AGENT` as the
//! `User-Agent` header, and is answered with a JSON envelope.

use vstd::prelude::*;
use vstd::string::StringExecFns;
use crate::text::{decimal, join, push_decimal, push_joined, views};

verus! {

/// The remote turns away a request that does not name its sender.
pub const USER_AGENT: &'static str = "alorg-game-of-the-day-giantbomb";

/// Where the catalog is listed.
pub const LIST_ENDPOINT: &'static str = "https://www.giantbomb.com/api/games/";

/// The attributes of a game that a detail query asks for. The long
/// description is left out: it is markup and can be of any size.
pub open spec fn detail_fields() -> Seq<Seq<char>> {
    seq![
        "name"@,
        "site_detail_url"@,
        "themes"@,
        "platforms"@,
        "original_release_date"@,
        "image"@,
        "id"@,
        "guid"@,
        "expected_release_year"@,
        "expected_release_quarter"@,
        "expected_release_month"@,
        "expected_release_day"@,
        "developers"@,
        "deck"@,
        "concepts"@,
        "characters"@,
    ]
}

/// The address of the query for the catalog's size: a list query for a
/// single reference, whose envelope counts the whole catalog.
pub open spec fn probe_url(token: Seq<char>) -> Seq<char> {
    LIST_ENDPOINT@ + "?api_key="@ + token + "&limit=1&field_list=api_detail_url&format=json"@
}

/// The address of the query for the one reference at `offset`.
pub open spec fn resolve_url(token: Seq<char>, offset: int) -> Seq<char> {
    LIST_ENDPOINT@ + "?api_key="@ + token + "&limit=1&format=json&offset="@ + decimal(offset)
        + "&field_list=api_detail_url"@
}

/// The address of the query for the game at `locator`, restricted to the
/// attributes of `detail_fields`.
pub open spec fn detail_url(token: Seq<char>, locator: Seq<char>) -> Seq<char> {
    locator + "?api_key="@ + token + "&format=json&field_list="@ + join(detail_fields(), ","@)
}

/// The attributes that a detail query asks for, in the order in which they
/// are named.
pub fn detail_field_list() -> (fields: Vec<&'static str>)
    ensures
        views(fields@) == detail_fields(),
{
    let fields: Vec<&'static str> = vec![
        "name",
        "site_detail_url",
        "themes",
        "platforms",
        "original_release_date",
        "image",
        "id",
        "guid",
        "expected_release_year",
        "expected_release_quarter",
        "expected_release_month",
        "expected_release_day",
        "developers",
        "deck",
        "concepts",
        "characters",
    ];
    assert(views(fields@) =~= detail_fields());
    fields
}

/// The address of the query for the catalog's size.
pub fn max_games_url(token: &str) -> (url: String)
    ensures
        url@ == probe_url(token@),
{
    let mut url = LIST_ENDPOINT.to_owned();
    url.append("?api_key=");
    url.append(token);
    url.append("&limit=1&field_list=api_detail_url&format=json");
    url
}

/// The address of the query for the reference at `idx`.
pub fn game_uri_url(token: &str, idx: i64) -> (url: String)
    ensures
        url@ == resolve_url(token@, idx as int),
{
    let mut url = LIST_ENDPOINT.to_owned();
    url.append("?api_key=");
    url.append(token);
    url.append("&limit=1&format=json&offset=");
    push_decimal(&mut url, idx);
    url.append("&field_list=api_detail_url");
    url
}

/// The address of the query for the details of the game at `uri`.
pub fn game_details_url(token: &str, uri: &str) -> (url: String)
    ensures
        url@ == detail_url(token@, uri@),
{
    let fields = detail_field_list();
    let mut url = uri.to_owned();
    url.append("?api_key=");
    url.append(token);
    url.append("&format=json&field_list=");
    push_joined(&mut url, &fields, ",");
    url
}

/// One query to the remote.
#[derive(Debug, Clone, PartialEq, Eq)]
pub enum Request {
    /// Ask for the catalog's size.
    Probe,
    /// Ask for the reference at a zero-based offset.
    Resolve { offset: i64 },
    /// Ask for the game at a locator.
    Detail { locator: String },
}

/// A query as contracts speak of it.
pub enum RequestView {
    Probe,
    Resolve { offset: int },
    Detail { locator: Seq<char> },
}

impl View for Request {
    type V = RequestView;

    open spec fn view(&self) -> RequestView {
        match self {
            Request::Probe => RequestView::Probe,
            Request::Resolve { offset } => RequestView::Resolve { offset: *offset as int },
            Request::Detail { locator } => RequestView::Detail { locator: locator@ },
        }
    }
}

impl RequestView {
    /// The address that the query is sent to, for a given credential.
    pub open spec fn url(self, token: Seq<char>) -> Seq<char> {
        match self {
            RequestView::Probe => probe_url(token),
            RequestView::Resolve { offset } => resolve_url(token, offset),
            RequestView::Detail { locator } => detail_url(token, locator),
        }
    }

    /// Whether the answer is a list of references; otherwise it is one game.
    pub open spec fn expects_references(self) -> bool {
        !(self is Detail)
    }
}

impl Request {
    /// The address that the query is sent to.
    pub fn url(&self, token: &str) -> (url: String)
        ensures
            url@ == self@.url(token@),
    {
        match self {
            Request::Probe => max_games_url(token),
            Request::Resolve { offset } => game_uri_url(token, *offset),
            Request::Detail { locator } => game_details_url(token, locator.as_str()),
        }
    }

    /// Whether the answer is to be decoded as a list of references.
    pub fn expects_references(&self) -> (list: bool)
        ensures
            list == self@.expects_references(),
    {
        match self {
            Request::Detail { .. } => false,
            _ => true,
        }
    }
}

/// No detail query asks for the long description of a game.
pub proof fn lemma_description_not_requested()
    ensures
        !detail_fields().contains("description"@),
{
    reveal_strlit("description");
    reveal_strlit("name");
    reveal_strlit("site_detail_url");
    reveal_strlit("themes");
    reveal_strlit("platforms");
    reveal_strlit("original_release_date");
    reveal_strlit("image");
    reveal_strlit("id");
    reveal_strlit("guid");
    reveal_strlit("expected_release_year");
    reveal_strlit("expected_release_quarter");
    reveal_strlit("expected_release_month");
    reveal_strlit("expected_release_day");
    reveal_strlit("developers");
    reveal_strlit("deck");
    reveal_strlit("concepts");
    reveal_strlit("characters");
    assert forall|i: int| 0 <= i < detail_fields().len() implies detail_fields()[i].len()
        != "description"@.len() by {}
}

} // verus!
