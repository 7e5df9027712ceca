//! Stations and the queries that select and order them.

use crate::text::{
    chars_of, contains, has_substring, lowercase, opt_text, string_of, texts, to_lowercase, trim,
    trimmed,
};
use vstd::prelude::*;

verus! {

/// A copy of an optional string.
pub fn clone_opt_string(o: &Option<String>) -> (r: Option<String>)
    ensures
        opt_text(r) == opt_text(*o),
{
    match o {
        Some(s) => Some(s.clone()),
        None => None,
    }
}

/// A copy of a list of strings.
pub fn clone_strings(v: &Vec<String>) -> (r: Vec<String>)
    ensures
        texts(r@) == texts(v@),
{
    let mut r: Vec<String> = Vec::new();
    let mut i: usize = 0;
    while i < v.len()
        invariant
            i <= v.len(),
            texts(r@) == texts(v@.take(i as int)),
        decreases v.len() - i,
    {
        r.push(v[i].clone());
        i += 1;
        assert(texts(v@.take(i as int)) =~= texts(v@.take(i - 1)).push(v@[i - 1]@));
        assert(texts(r@) =~= texts(r@.drop_last()).push(r@.last()@));
    }
    assert(v@.take(v.len() as int) =~= v@);
    r
}

/// A named network audio stream with its descriptive metadata.
#[derive(Debug, PartialEq, Eq)]
pub struct Station {
    pub station_uuid: String,
    pub name: String,
    pub url_resolved: String,
    pub homepage: Option<String>,
    pub favicon: Option<String>,
    pub tags: Vec<String>,
    pub country: Option<String>,
    pub country_code: Option<String>,
    pub language: Option<String>,
    pub codec: Option<String>,
    pub bitrate: Option<u32>,
    pub votes: Option<u32>,
    pub click_count: Option<u32>,
}

/// What a [`Station`] says.
pub struct StationView {
    pub station_uuid: Seq<char>,
    pub name: Seq<char>,
    pub url_resolved: Seq<char>,
    pub homepage: Option<Seq<char>>,
    pub favicon: Option<Seq<char>>,
    pub tags: Seq<Seq<char>>,
    pub country: Option<Seq<char>>,
    pub country_code: Option<Seq<char>>,
    pub language: Option<Seq<char>>,
    pub codec: Option<Seq<char>>,
    pub bitrate: Option<u32>,
    pub votes: Option<u32>,
    pub click_count: Option<u32>,
}

impl View for Station {
    type V = StationView;

    open spec fn view(&self) -> StationView {
        StationView {
            station_uuid: self.station_uuid@,
            name: self.name@,
            url_resolved: self.url_resolved@,
            homepage: opt_text(self.homepage),
            favicon: opt_text(self.favicon),
            tags: texts(self.tags@),
            country: opt_text(self.country),
            country_code: opt_text(self.country_code),
            language: opt_text(self.language),
            codec: opt_text(self.codec),
            bitrate: self.bitrate,
            votes: self.votes,
            click_count: self.click_count,
        }
    }
}

/// What a list of stations says.
pub open spec fn station_views(v: Seq<Station>) -> Seq<StationView> {
    v.map_values(|s: Station| s@)
}

/// What an optional station says.
pub open spec fn opt_station_view(o: Option<Station>) -> Option<StationView> {
    match o {
        Some(s) => Some(s@),
        None => None,
    }
}

impl StationView {
    /// Whether one of the tags holds `q` once lowered.
    pub open spec fn tag_matches(self, q: Seq<char>) -> bool {
        exists|i: int| 0 <= i < self.tags.len() && has_substring(lowercase(#[trigger] self.tags[i]), q)
    }

    /// Whether the station answers the free-text query: a blank query matches every station,
    /// any other must occur, case ignored, in the name or in one of the tags.
    pub open spec fn matches(self, query: Seq<char>) -> bool {
        let q = lowercase(trimmed(query));
        q.len() == 0 || has_substring(lowercase(self.name), q) || self.tag_matches(q)
    }
}

impl Clone for Station {
    fn clone(&self) -> (r: Self)
        ensures
            r@ == self@,
    {
        Station {
            station_uuid: self.station_uuid.clone(),
            name: self.name.clone(),
            url_resolved: self.url_resolved.clone(),
            homepage: clone_opt_string(&self.homepage),
            favicon: clone_opt_string(&self.favicon),
            tags: clone_strings(&self.tags),
            country: clone_opt_string(&self.country),
            country_code: clone_opt_string(&self.country_code),
            language: clone_opt_string(&self.language),
            codec: clone_opt_string(&self.codec),
            bitrate: self.bitrate,
            votes: self.votes,
            click_count: self.click_count,
        }
    }
}

impl Station {
    pub fn matches_query(&self, query: &str) -> (r: bool)
        ensures
            r == self@.matches(query@),
    {
        let typed = chars_of(query);
        let wanted = string_of(&trim(&typed));
        let q = chars_of(to_lowercase(wanted.as_str()).as_str());
        if q.len() == 0 {
            return true;
        }
        let name = chars_of(to_lowercase(self.name.as_str()).as_str());
        if contains(&name, &q) {
            return true;
        }
        let mut i: usize = 0;
        while i < self.tags.len()
            invariant
                i <= self.tags.len(),
                q@ == lowercase(trimmed(query@)),
                q@.len() > 0,
                !has_substring(lowercase(self@.name), q@),
                forall|j: int|
                    0 <= j < i ==> !has_substring(lowercase(#[trigger] self@.tags[j]), q@),
            decreases self.tags.len() - i,
        {
            let tag = chars_of(to_lowercase(self.tags[i].as_str()).as_str());
            assert(self@.tags[i as int] == self.tags@[i as int]@);
            if contains(&tag, &q) {
                assert(has_substring(lowercase(self@.tags[i as int]), q@));
                assert(self@.tag_matches(q@));
                return true;
            }
            i += 1;
        }
        assert(!self@.tag_matches(q@));
        false
    }
}

/// A copy of a list of stations.
pub fn clone_stations(v: &Vec<Station>) -> (r: Vec<Station>)
    ensures
        station_views(r@) == station_views(v@),
{
    let mut r: Vec<Station> = Vec::new();
    let mut i: usize = 0;
    while i < v.len()
        invariant
            i <= v.len(),
            station_views(r@) == station_views(v@.take(i as int)),
        decreases v.len() - i,
    {
        r.push(v[i].clone());
        i += 1;
        assert(station_views(v@.take(i as int)) =~= station_views(v@.take(i - 1)).push(
            v@[i - 1]@,
        ));
        assert(station_views(r@) =~= station_views(r@.drop_last()).push(r@.last()@));
    }
    assert(v@.take(v.len() as int) =~= v@);
    r
}

/// A copy of an optional station.
pub fn clone_opt_station(o: &Option<Station>) -> (r: Option<Station>)
    ensures
        opt_station_view(r) == opt_station_view(*o),
{
    match o {
        Some(s) => Some(s.clone()),
        None => None,
    }
}

/// Constraints on the stations of a search; a field that is `None` constrains nothing.
#[derive(Debug, PartialEq, Eq)]
pub struct StationFilters {
    pub country: Option<String>,
    pub language: Option<String>,
    pub tag: Option<String>,
    pub codec: Option<String>,
    pub min_bitrate: Option<u32>,
}

/// What a [`StationFilters`] says.
pub struct StationFiltersView {
    pub country: Option<Seq<char>>,
    pub language: Option<Seq<char>>,
    pub tag: Option<Seq<char>>,
    pub codec: Option<Seq<char>>,
    pub min_bitrate: Option<u32>,
}

impl StationFiltersView {
    /// The filters that constrain nothing.
    pub open spec fn none() -> StationFiltersView {
        StationFiltersView {
            country: None,
            language: None,
            tag: None,
            codec: None,
            min_bitrate: None,
        }
    }

    pub open spec fn is_empty(self) -> bool {
        self == StationFiltersView::none()
    }
}

impl View for StationFilters {
    type V = StationFiltersView;

    open spec fn view(&self) -> StationFiltersView {
        StationFiltersView {
            country: opt_text(self.country),
            language: opt_text(self.language),
            tag: opt_text(self.tag),
            codec: opt_text(self.codec),
            min_bitrate: self.min_bitrate,
        }
    }
}

impl Clone for StationFilters {
    fn clone(&self) -> (r: Self)
        ensures
            r@ == self@,
    {
        StationFilters {
            country: clone_opt_string(&self.country),
            language: clone_opt_string(&self.language),
            tag: clone_opt_string(&self.tag),
            codec: clone_opt_string(&self.codec),
            min_bitrate: self.min_bitrate,
        }
    }
}

impl Default for StationFilters {
    fn default() -> (r: Self)
        ensures
            r@ == StationFiltersView::none(),
    {
        StationFilters { country: None, language: None, tag: None, codec: None, min_bitrate: None }
    }
}

impl StationFilters {
    pub fn is_empty(&self) -> (r: bool)
        ensures
            r == self@.is_empty(),
    {
        self.country.is_none() && self.language.is_none() && self.tag.is_none()
            && self.codec.is_none() && self.min_bitrate.is_none()
    }
}

/// The field by which a result list is ordered.
#[derive(Debug, Clone, Copy, PartialEq, Eq, Structural)]
pub enum StationSort {
    Name,
    Votes,
    Clicks,
    Bitrate,
}

impl Default for StationSort {
    fn default() -> (r: Self)
        ensures
            r == StationSort::Votes,
    {
        StationSort::Votes
    }
}

impl StationSort {
    /// The ordering key of the remote catalog that stands for the field.
    pub open spec fn api_order(self) -> Seq<char> {
        match self {
            StationSort::Name => "name"@,
            StationSort::Votes => "votes"@,
            StationSort::Clicks => "clickcount"@,
            StationSort::Bitrate => "bitrate"@,
        }
    }

    /// Whether the field orders from high to low: every field but the name does.
    pub open spec fn descending(self) -> bool {
        self != StationSort::Name
    }

    /// The word by which commands and messages call the field.
    pub open spec fn word(self) -> Seq<char> {
        match self {
            StationSort::Name => "name"@,
            StationSort::Votes => "votes"@,
            StationSort::Clicks => "clicks"@,
            StationSort::Bitrate => "bitrate"@,
        }
    }

    pub fn as_api_order(self) -> (r: &'static str)
        ensures
            r@ == self.api_order(),
    {
        match self {
            StationSort::Name => "name",
            StationSort::Votes => "votes",
            StationSort::Clicks => "clickcount",
            StationSort::Bitrate => "bitrate",
        }
    }

    pub fn is_descending(self) -> (r: bool)
        ensures
            r == self.descending(),
    {
        match self {
            StationSort::Name => false,
            _ => true,
        }
    }

    /// The word by which commands and messages call the field.
    pub fn label(self) -> (r: &'static str)
        ensures
            r@ == self.word(),
    {
        match self {
            StationSort::Name => "name",
            StationSort::Votes => "votes",
            StationSort::Clicks => "clicks",
            StationSort::Bitrate => "bitrate",
        }
    }
}

/// One search: the free text, the filters, the order and the greatest number of results.
#[derive(Debug, PartialEq, Eq)]
pub struct StationSearchQuery {
    pub query: String,
    pub filters: StationFilters,
    pub sort: StationSort,
    pub limit: usize,
}

/// What a [`StationSearchQuery`] says.
pub struct StationSearchQueryView {
    pub query: Seq<char>,
    pub filters: StationFiltersView,
    pub sort: StationSort,
    pub limit: nat,
}

impl View for StationSearchQuery {
    type V = StationSearchQueryView;

    open spec fn view(&self) -> StationSearchQueryView {
        StationSearchQueryView {
            query: self.query@,
            filters: self.filters@,
            sort: self.sort,
            limit: self.limit as nat,
        }
    }
}

impl Clone for StationSearchQuery {
    fn clone(&self) -> (r: Self)
        ensures
            r@ == self@,
    {
        StationSearchQuery {
            query: self.query.clone(),
            filters: self.filters.clone(),
            sort: self.sort,
            limit: self.limit,
        }
    }
}

impl Default for StationSearchQuery {
    fn default() -> (r: Self)
        ensures
            r@ == (StationSearchQueryView {
                query: Seq::empty(),
                filters: StationFiltersView::none(),
                sort: StationSort::Votes,
                limit: 50,
            }),
    {
        StationSearchQuery {
            query: String::new(),
            filters: StationFilters::default(),
            sort: StationSort::default(),
            limit: 50,
        }
    }
}

} // verus!
