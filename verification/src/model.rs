//! The catalog's data: what the remote service sends, as plain values.
//!
//! Every attribute that the remote may leave out is an `Option`, so that an
//! absent attribute and one that is present but empty stay apart.

use vstd::prelude::*;

verus! {

/// The display image of a game, in the resolutions that the remote offers.
#[derive(Debug, Clone, PartialEq, Eq)]
pub struct GameImage {
    pub original_url: Option<String>,
    pub super_url: Option<String>,
    pub screen_url: Option<String>,
    pub screen_large_url: Option<String>,
    pub medium_url: Option<String>,
    pub small_url: Option<String>,
    pub thumb_url: Option<String>,
    pub icon_url: Option<String>,
    pub tiny_url: Option<String>,
}

/// A cross-referenced characteristic of a game: a platform, a concept, a
/// developer, a character or a theme.
#[derive(Debug, Clone, PartialEq, Eq)]
pub struct Characteristic {
    pub api_detail_url: String,
    pub id: i32,
    pub name: String,
    pub site_detail_url: String,
    pub abbreviation: Option<String>,
}

/// One game of the catalog, as handed to the caller.
#[derive(Debug, Clone, PartialEq, Eq)]
pub struct Game {
    pub id: i32,
    pub guid: String,
    pub image: Option<GameImage>,
    pub name: String,
    pub deck: Option<String>,
    pub description: Option<String>,
    pub original_release_date: Option<String>,
    pub site_detail_url: Option<String>,
    pub expected_release_day: Option<i32>,
    pub expected_release_month: Option<i32>,
    pub expected_release_year: Option<i32>,
    pub expected_release_quarter: Option<i32>,
    pub platforms: Option<Vec<Characteristic>>,
    pub concepts: Option<Vec<Characteristic>>,
    pub developers: Option<Vec<Characteristic>>,
    pub characters: Option<Vec<Characteristic>>,
    pub themes: Option<Vec<Characteristic>>,
}

/// A pointer to one game: the locator under which its details are fetched.
#[derive(Debug, Clone, PartialEq, Eq)]
pub struct DetailUrl {
    pub api_detail_url: String,
}

impl View for DetailUrl {
    type V = Seq<char>;

    open spec fn view(&self) -> Seq<char> {
        self.api_detail_url@
    }
}

/// What an envelope carries: the references of a list query, or the one game
/// of a detail query.
#[derive(Debug, Clone, PartialEq, Eq)]
pub enum Payload {
    References(Vec<DetailUrl>),
    Item(Game),
}

/// A payload as the sampler reads it: of a reference only its locator counts.
pub enum PayloadView {
    References(Seq<Seq<char>>),
    Item(Game),
}

impl View for Payload {
    type V = PayloadView;

    open spec fn view(&self) -> PayloadView {
        match self {
            Payload::References(refs) => PayloadView::References(
                refs@.map_values(|r: DetailUrl| r@),
            ),
            Payload::Item(game) => PayloadView::Item(*game),
        }
    }
}

/// The outer structure of every remote response: a status, the pagination
/// counts and the payload.
///
/// `number_of_total_results` is the size of the whole catalog, whatever page
/// size was asked for. The status fields `error` and `status_code` are
/// carried as received: the sampler reads the count and the payload whatever
/// they say, and a caller that wants to turn a reply with a bad status away
/// does so before it hands the envelope over.
#[derive(Debug, Clone, PartialEq, Eq)]
pub struct Envelope {
    pub error: String,
    pub version: String,
    pub limit: i32,
    pub offset: i32,
    pub number_of_page_results: i64,
    pub number_of_total_results: i64,
    pub status_code: i32,
    pub results: Payload,
}

/// An envelope as the sampler reads it: the catalog's size and the payload,
/// and nothing of the status or of the page.
pub struct EnvelopeView {
    pub total: int,
    pub payload: PayloadView,
}

impl View for Envelope {
    type V = EnvelopeView;

    open spec fn view(&self) -> EnvelopeView {
        EnvelopeView { total: self.number_of_total_results as int, payload: self.results@ }
    }
}

} // verus!
