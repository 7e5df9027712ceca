//! Station catalogs: where the session searches for stations.
//!
//! A catalog answers a [`StationSearchQuery`] with an ordered list of stations. The static
//! catalog searches a list in memory. For the remote catalog this module decides everything but
//! the request itself: the address and the parameters to send, what an answer means, which
//! records are kept, and whether and when to try again.

use crate::domain::models::{
    clone_opt_string, station_views, Station, StationSearchQuery, StationSearchQueryView,
    StationSort, StationView,
};
use crate::ranking::{
    arranged, is_arrangement, key_views, lemma_ranked, outranks, positions, rank, ranked,
    ranks_before, RankKey, RankKeyView,
};
use crate::text::{
    ascii_lowered, blank, chars_of, concat, decimal_digits, decimal_string, fields, is_blank,
    lemma_lex_asymmetric, lex_less, opt_text, split_on, string_of, to_ascii_lowercase, trim,
    trimmed, views,
};
use vstd::prelude::*;

verus! {

/// Why a search failed.
#[derive(Debug, PartialEq, Eq)]
pub enum CatalogError {
    /// The catalog answered with this status from 500 to 599, also at the last attempt.
    ServerError(u16),
    /// The catalog answered with this status from 400 to 499.
    ErrorStatus(u16),
    /// No answer came within this many milliseconds, also at the last attempt; the text says
    /// what went wrong.
    Unreachable(u64, String),
    /// The answer was no list of station records; the text says what went wrong.
    Undecodable(String),
}

/// What a [`CatalogError`] says.
pub enum CatalogErrorView {
    ServerError(u16),
    ErrorStatus(u16),
    Unreachable(u64, Seq<char>),
    Undecodable(Seq<char>),
}

impl View for CatalogError {
    type V = CatalogErrorView;

    open spec fn view(&self) -> CatalogErrorView {
        match self {
            CatalogError::ServerError(s) => CatalogErrorView::ServerError(*s),
            CatalogError::ErrorStatus(s) => CatalogErrorView::ErrorStatus(*s),
            CatalogError::Unreachable(t, d) => CatalogErrorView::Unreachable(*t, d@),
            CatalogError::Undecodable(d) => CatalogErrorView::Undecodable(d@),
        }
    }
}

impl CatalogErrorView {
    /// The sentence that reports the error.
    pub open spec fn message(self) -> Seq<char> {
        match self {
            CatalogErrorView::ServerError(s) => "station catalog server error: HTTP "@
                + decimal_digits(s as nat),
            CatalogErrorView::ErrorStatus(s) => "station catalog returned error status: HTTP "@
                + decimal_digits(s as nat),
            CatalogErrorView::Unreachable(t, d) => "station catalog request failed (timeout="@
                + decimal_digits(t as nat) + "ms): "@ + d,
            CatalogErrorView::Undecodable(d) => "failed to deserialize station catalog response: "@
                + d,
        }
    }
}

impl Clone for CatalogError {
    fn clone(&self) -> (r: Self)
        ensures
            r@ == self@,
    {
        match self {
            CatalogError::ServerError(s) => CatalogError::ServerError(*s),
            CatalogError::ErrorStatus(s) => CatalogError::ErrorStatus(*s),
            CatalogError::Unreachable(t, d) => CatalogError::Unreachable(*t, d.clone()),
            CatalogError::Undecodable(d) => CatalogError::Undecodable(d.clone()),
        }
    }
}

impl CatalogError {
    /// The sentence that reports the error.
    pub fn message(&self) -> (r: String)
        ensures
            r@ == self@.message(),
    {
        match self {
            CatalogError::ServerError(s) => concat(
                "station catalog server error: HTTP ",
                decimal_string(*s as u64).as_str(),
            ),
            CatalogError::ErrorStatus(s) => concat(
                "station catalog returned error status: HTTP ",
                decimal_string(*s as u64).as_str(),
            ),
            CatalogError::Unreachable(t, d) => {
                let mut r = concat(
                    "station catalog request failed (timeout=",
                    decimal_string(*t).as_str(),
                );
                r.append("ms): ");
                r.append(d.as_str());
                r
            },
            CatalogError::Undecodable(d) => concat(
                "failed to deserialize station catalog response: ",
                d.as_str(),
            ),
        }
    }
}

/// What the answer of a catalog says.
pub open spec fn found_view(r: Result<Vec<Station>, CatalogError>) -> Result<
    Seq<StationView>,
    CatalogErrorView,
> {
    match r {
        Ok(v) => Ok(station_views(v@)),
        Err(e) => Err(e@),
    }
}

/// A source of stations.
pub trait StationCatalog {
    fn search(&self, query: &StationSearchQuery) -> Result<Vec<Station>, CatalogError>;
}

/// The weight of a numeric field in a ranking: a station without the value ranks below every
/// station with one.
pub open spec fn field_weight(v: Option<u32>) -> nat {
    match v {
        Some(n) => n as nat + 1,
        None => 0,
    }
}

/// The value by which a station is sorted, as a weight; sorting by name weighs all alike.
pub open spec fn sort_weight(sort: StationSort, s: StationView) -> nat {
    match sort {
        StationSort::Name => 0,
        StationSort::Votes => field_weight(s.votes),
        StationSort::Clicks => field_weight(s.click_count),
        StationSort::Bitrate => field_weight(s.bitrate),
    }
}

/// The key by which a station is ranked: the sort field from high to low, then the name from
/// low to high.
pub open spec fn station_key(sort: StationSort, s: StationView) -> RankKeyView {
    RankKeyView { weight: sort_weight(sort, s), label: s.name }
}

/// The keys of a list of stations.
pub open spec fn station_keys(stations: Seq<StationView>, sort: StationSort) -> Seq<RankKeyView> {
    Seq::new(stations.len(), |i: int| station_key(sort, stations[i]))
}

/// The stations in the order of the sort field.
pub open spec fn sorted_stations(stations: Seq<StationView>, sort: StationSort) -> Seq<
    StationView,
> {
    arranged(stations, ranked(station_keys(stations, sort)))
}

/// The text that the static catalog looks for: the query, trimmed, with `A` to `Z` lowered.
pub open spec fn search_text(query: Seq<char>) -> Seq<char> {
    ascii_lowered(trimmed(query))
}

/// The test by which the static catalog keeps a station.
pub open spec fn is_match(text: Seq<char>) -> spec_fn(StationView) -> bool {
    |s: StationView| text.len() == 0 || s.matches(text)
}

/// The first `limit` items of `s`, or all where it has no more.
pub open spec fn limited<T>(s: Seq<T>, limit: nat) -> Seq<T> {
    if s.len() > limit {
        s.take(limit as int)
    } else {
        s
    }
}

/// What the static catalog answers: the stations that match the text, in the order of the
/// sort field, as many as the limit allows.
pub open spec fn static_search(stations: Seq<StationView>, q: StationSearchQueryView) -> Seq<
    StationView,
> {
    limited(sorted_stations(stations.filter(is_match(search_text(q.query))), q.sort), q.limit)
}

/// Whether `a` may stand before `b` in a list sorted by `sort`: its value in the sort field
/// is the greater one, a missing value being the least, or the values are equal and its name
/// is not the greater one. Sorting by name compares the names alone.
pub open spec fn in_sort_order(sort: StationSort, a: StationView, b: StationView) -> bool {
    sort_weight(sort, a) > sort_weight(sort, b) || (sort_weight(sort, a) == sort_weight(sort, b)
        && !lex_less(b.name, a.name))
}

/// Sorting rearranges the stations, and puts each station before every station behind which
/// it may not stand: by votes, clicks or bitrate from high to low with the names from low to
/// high among equals, by name from low to high.
pub proof fn lemma_sorted_stations(stations: Seq<StationView>, sort: StationSort)
    ensures
        sorted_stations(stations, sort).len() == stations.len(),
        is_arrangement(ranked(station_keys(stations, sort)), stations.len()),
        forall|i: int|
            0 <= i < stations.len() ==> stations.contains(
                #[trigger] sorted_stations(stations, sort)[i],
            ),
        forall|i: int, j: int|
            0 <= i < j < stations.len() ==> in_sort_order(
                sort,
                #[trigger] sorted_stations(stations, sort)[i],
                #[trigger] sorted_stations(stations, sort)[j],
            ),
{
    let keys = station_keys(stations, sort);
    let order = ranked(keys);
    let sorted = sorted_stations(stations, sort);
    lemma_ranked(keys);
    assert forall|i: int| 0 <= i < stations.len() implies stations.contains(
        #[trigger] sorted[i],
    ) by {
        assert(sorted[i] == stations[order[i]]);
    }
    assert forall|i: int, j: int| 0 <= i < j < stations.len() implies in_sort_order(
        sort,
        #[trigger] sorted[i],
        #[trigger] sorted[j],
    ) by {
        let a = stations[order[i]];
        let b = stations[order[j]];
        assert(sorted[i] == a && sorted[j] == b);
        assert(ranks_before(keys, order[i], order[j]));
        assert(keys[order[i]] == station_key(sort, a));
        assert(keys[order[j]] == station_key(sort, b));
        if outranks(station_key(sort, a), station_key(sort, b)) {
            if sort_weight(sort, a) == sort_weight(sort, b) {
                lemma_lex_asymmetric(a.name, b.name);
            }
        }
    }
}

/// What the static catalog answers is in sort order, no longer than the limit, and made of
/// stations of the catalog that match the text.
pub proof fn lemma_static_search(stations: Seq<StationView>, q: StationSearchQueryView)
    ensures
        static_search(stations, q).len() <= q.limit,
        static_search(stations, q).len() <= stations.len(),
        forall|i: int|
            0 <= i < static_search(stations, q).len() ==> stations.contains(
                #[trigger] static_search(stations, q)[i],
            ) && is_match(search_text(q.query))(static_search(stations, q)[i]),
        forall|i: int, j: int|
            0 <= i < j < static_search(stations, q).len() ==> in_sort_order(
                q.sort,
                #[trigger] static_search(stations, q)[i],
                #[trigger] static_search(stations, q)[j],
            ),
{
    let keep = is_match(search_text(q.query));
    let hits = stations.filter(keep);
    let sorted = sorted_stations(hits, q.sort);
    let found = static_search(stations, q);
    stations.lemma_filter_len(keep);
    lemma_sorted_stations(hits, q.sort);
    assert forall|i: int| 0 <= i < found.len() implies stations.contains(#[trigger] found[i])
        && keep(found[i]) by {
        assert(found[i] == sorted[i]);
        assert(hits.contains(sorted[i]));
        let k = choose|k: int| 0 <= k < hits.len() && hits[k] == sorted[i];
        stations.lemma_filter_pred(keep, k);
        stations.lemma_filter_contains_rev(keep, sorted[i]);
    }
    assert forall|i: int, j: int| 0 <= i < j < found.len() implies in_sort_order(
        q.sort,
        #[trigger] found[i],
        #[trigger] found[j],
    ) by {
        assert(found[i] == sorted[i] && found[j] == sorted[j]);
    }
}

/// The key by which a station is ranked.
pub fn sort_key(sort: StationSort, s: &Station) -> (r: RankKey)
    ensures
        r@ == station_key(sort, s@),
{
    let field: Option<u32> = match sort {
        StationSort::Name => None,
        StationSort::Votes => s.votes,
        StationSort::Clicks => s.click_count,
        StationSort::Bitrate => s.bitrate,
    };
    let weight: u64 = match field {
        Some(n) => n as u64 + 1,
        None => 0,
    };
    RankKey { weight, label: chars_of(s.name.as_str()) }
}

/// A list of stations held in memory.
pub struct StaticCatalog {
    pub stations: Vec<Station>,
}

impl StaticCatalog {
    pub fn new(stations: Vec<Station>) -> (r: Self)
        ensures
            r.stations == stations,
    {
        StaticCatalog { stations }
    }

    /// The stations that match the query's text, ordered by its sort field, as many as its
    /// limit allows. The filters of the query play no part.
    pub fn find(&self, query: &StationSearchQuery) -> (r: Vec<Station>)
        ensures
            station_views(r@) == static_search(station_views(self.stations@), query@),
    {
        let text = to_ascii_lowercase(&trim(&chars_of(query.query.as_str())));
        let wanted = string_of(&text);
        let ghost all = station_views(self.stations@);
        let ghost keep = is_match(search_text(query@.query));
        let mut hits: Vec<Station> = Vec::new();
        let mut keys: Vec<RankKey> = Vec::new();
        let mut i: usize = 0;
        proof {
            reveal(Seq::filter);
            assert(all.take(0).filter(keep) =~= Seq::<StationView>::empty());
            assert(key_views(keys@) =~= station_keys(station_views(hits@), query.sort));
        }
        while i < self.stations.len()
            invariant
                i <= self.stations.len(),
                all == station_views(self.stations@),
                keep == is_match(search_text(query@.query)),
                wanted@ == search_text(query@.query),
                text@ == wanted@,
                station_views(hits@) == all.take(i as int).filter(keep),
                key_views(keys@) == station_keys(station_views(hits@), query.sort),
            decreases self.stations.len() - i,
        {
            let station = &self.stations[i];
            assert(all[i as int] == station@);
            proof {
                reveal(Seq::filter);
                assert(all.take(i + 1).drop_last() =~= all.take(i as int));
                assert(all.take(i + 1).last() == station@);
            }
            if text.len() == 0 || station.matches_query(wanted.as_str()) {
                let ghost old_hits = station_views(hits@);
                let ghost old_keys = key_views(keys@);
                hits.push(station.clone());
                keys.push(sort_key(query.sort, station));
                proof {
                    assert(station_views(hits@) =~= old_hits.push(station@));
                    assert(key_views(keys@) =~= old_keys.push(station_key(query.sort, station@)));
                    assert(key_views(keys@) =~= station_keys(station_views(hits@), query.sort));
                }
            }
            i += 1;
        }
        assert(all.take(self.stations.len() as int) =~= all);
        let order = rank(&keys);
        let count: usize = if order.len() > query.limit {
            query.limit
        } else {
            order.len()
        };
        let mut out: Vec<Station> = Vec::new();
        let mut j: usize = 0;
        let ghost sorted = arranged(station_views(hits@), positions(order@));
        while j < count
            invariant
                j <= count <= order.len(),
                order.len() == keys.len(),
                keys.len() == hits.len(),
                forall|k: int| 0 <= k < order.len() ==> order@[k] < keys.len(),
                sorted == arranged(station_views(hits@), positions(order@)),
                station_views(out@) == sorted.take(j as int),
            decreases count - j,
        {
            let ghost old_out = station_views(out@);
            out.push(hits[order[j]].clone());
            proof {
                assert(station_views(out@) =~= old_out.push(hits@[order@[j as int] as int]@));
                assert(positions(order@)[j as int] == order@[j as int]);
                assert(sorted[j as int] == hits@[order@[j as int] as int]@);
                assert(sorted.take(j + 1) =~= sorted.take(j as int).push(sorted[j as int]));
            }
            j += 1;
        }
        assert(sorted.take(sorted.len() as int) =~= sorted);
        out
    }
}

impl StationCatalog for StaticCatalog {
    fn search(&self, query: &StationSearchQuery) -> (r: Result<Vec<Station>, CatalogError>)
        ensures
            found_view(r) == Ok::<Seq<StationView>, CatalogErrorView>(
                static_search(station_views(self.stations@), query@),
            ),
    {
        Ok(self.find(query))
    }
}

/// One record of the remote catalog's answer, as it was decoded.
#[derive(Debug, PartialEq, Eq)]
pub struct ApiStation {
    pub stationuuid: String,
    pub name: Option<String>,
    pub url: Option<String>,
    pub url_resolved: Option<String>,
    pub homepage: Option<String>,
    pub tags: Option<String>,
    pub country: Option<String>,
    pub language: Option<String>,
    pub codec: Option<String>,
    pub bitrate: Option<u32>,
    pub votes: Option<u32>,
    pub clickcount: Option<u32>,
}

/// What an [`ApiStation`] says.
pub struct ApiStationView {
    pub stationuuid: Seq<char>,
    pub name: Option<Seq<char>>,
    pub url: Option<Seq<char>>,
    pub url_resolved: Option<Seq<char>>,
    pub homepage: Option<Seq<char>>,
    pub tags: Option<Seq<char>>,
    pub country: Option<Seq<char>>,
    pub language: Option<Seq<char>>,
    pub codec: Option<Seq<char>>,
    pub bitrate: Option<u32>,
    pub votes: Option<u32>,
    pub clickcount: Option<u32>,
}

impl View for ApiStation {
    type V = ApiStationView;

    open spec fn view(&self) -> ApiStationView {
        ApiStationView {
            stationuuid: self.stationuuid@,
            name: opt_text(self.name),
            url: opt_text(self.url),
            url_resolved: opt_text(self.url_resolved),
            homepage: opt_text(self.homepage),
            tags: opt_text(self.tags),
            country: opt_text(self.country),
            language: opt_text(self.language),
            codec: opt_text(self.codec),
            bitrate: self.bitrate,
            votes: self.votes,
            clickcount: self.clickcount,
        }
    }
}

/// What a list of records says.
pub open spec fn record_views(v: Seq<ApiStation>) -> Seq<ApiStationView> {
    v.map_values(|r: ApiStation| r@)
}

/// The pieces, each trimmed, without those that are empty then.
pub open spec fn trimmed_pieces(parts: Seq<Seq<char>>) -> Seq<Seq<char>>
    decreases parts.len(),
{
    if parts.len() == 0 {
        Seq::empty()
    } else {
        let before = trimmed_pieces(parts.drop_last());
        let piece = trimmed(parts.last());
        if piece.len() > 0 {
            before.push(piece)
        } else {
            before
        }
    }
}

/// The tags of a record: the pieces between the commas of its tag text, trimmed, without the
/// empty ones.
pub open spec fn tag_list(tags: Option<Seq<char>>) -> Seq<Seq<char>> {
    match tags {
        Some(t) => trimmed_pieces(fields(t, ',')),
        None => trimmed_pieces(fields(Seq::empty(), ',')),
    }
}

/// The value, unless it is absent or blank.
pub open spec fn present(o: Option<Seq<char>>) -> Option<Seq<char>> {
    match o {
        Some(v) => if is_blank(v) {
            None
        } else {
            Some(v)
        },
        None => None,
    }
}

/// The stream address of a record: the resolved address where the record has one, else the
/// raw address, else nothing.
pub open spec fn stream_address(r: ApiStationView) -> Seq<char> {
    match r.url_resolved {
        Some(u) => u,
        None => match r.url {
            Some(u) => u,
            None => Seq::empty(),
        },
    }
}

/// The station that a record describes, or `None` for a record without a stream address. A
/// record without a name gets a placeholder; a blank country, language or codec counts as
/// absent.
pub open spec fn record_station(r: ApiStationView) -> Option<StationView> {
    if is_blank(stream_address(r)) {
        None
    } else {
        Some(
            StationView {
                station_uuid: r.stationuuid,
                name: match present(r.name) {
                    Some(n) => n,
                    None => "(unnamed station)"@,
                },
                url_resolved: stream_address(r),
                homepage: r.homepage,
                favicon: None,
                tags: tag_list(r.tags),
                country: present(r.country),
                country_code: None,
                language: present(r.language),
                codec: present(r.codec),
                bitrate: r.bitrate,
                votes: r.votes,
                click_count: r.clickcount,
            },
        )
    }
}

/// The stations that a list of records describes, in the order of the records.
pub open spec fn record_stations(records: Seq<ApiStationView>) -> Seq<StationView>
    decreases records.len(),
{
    if records.len() == 0 {
        Seq::empty()
    } else {
        let before = record_stations(records.drop_last());
        match record_station(records.last()) {
            Some(s) => before.push(s),
            None => before,
        }
    }
}

fn keep_present(o: &Option<String>) -> (r: Option<String>)
    ensures
        opt_text(r) == present(opt_text(*o)),
{
    match o {
        Some(v) => {
            if blank(v.as_str()) {
                None
            } else {
                Some(v.clone())
            }
        },
        None => None,
    }
}

/// The tags of a record.
pub fn tags_from_text(tags: &Option<String>) -> (r: Vec<String>)
    ensures
        crate::text::texts(r@) == tag_list(opt_text(*tags)),
{
    let raw: Vec<char> = match tags {
        Some(t) => chars_of(t.as_str()),
        None => Vec::new(),
    };
    let pieces = split_on(&raw, ',');
    let ghost all = views(pieces@);
    let mut out: Vec<String> = Vec::new();
    let mut i: usize = 0;
    assert(all.take(0) =~= Seq::<Seq<char>>::empty());
    assert(crate::text::texts(out@) =~= trimmed_pieces(all.take(0)));
    while i < pieces.len()
        invariant
            i <= pieces.len(),
            all == views(pieces@),
            crate::text::texts(out@) == trimmed_pieces(all.take(i as int)),
        decreases pieces.len() - i,
    {
        let piece = trim(&pieces[i]);
        assert(all.take(i + 1).drop_last() =~= all.take(i as int));
        assert(all.take(i + 1).last() == pieces@[i as int]@);
        if piece.len() > 0 {
            let ghost before = crate::text::texts(out@);
            out.push(string_of(&piece));
            assert(crate::text::texts(out@) =~= before.push(piece@));
        }
        i += 1;
    }
    assert(all.take(pieces.len() as int) =~= all);
    out
}

/// The station that a record describes, or `None` for a record without a stream address.
pub fn station_from_record(record: &ApiStation) -> (r: Option<Station>)
    ensures
        crate::domain::models::opt_station_view(r) == record_station(record@),
{
    let stream: String = match &record.url_resolved {
        Some(u) => u.clone(),
        None => match &record.url {
            Some(u) => u.clone(),
            None => String::new(),
        },
    };
    if blank(stream.as_str()) {
        return None;
    }
    let name: String = match keep_present(&record.name) {
        Some(n) => n,
        None => "(unnamed station)".to_owned(),
    };
    Some(
        Station {
            station_uuid: record.stationuuid.clone(),
            name,
            url_resolved: stream,
            homepage: clone_opt_string(&record.homepage),
            favicon: None,
            tags: tags_from_text(&record.tags),
            country: keep_present(&record.country),
            country_code: None,
            language: keep_present(&record.language),
            codec: keep_present(&record.codec),
            bitrate: record.bitrate,
            votes: record.votes,
            click_count: record.clickcount,
        },
    )
}

/// The stations that the records describe; a record without a stream address is left out.
pub fn stations_from_records(records: &Vec<ApiStation>) -> (r: Vec<Station>)
    ensures
        station_views(r@) == record_stations(record_views(records@)),
{
    let ghost all = record_views(records@);
    let mut out: Vec<Station> = Vec::new();
    let mut i: usize = 0;
    assert(station_views(out@) =~= record_stations(all.take(0)));
    while i < records.len()
        invariant
            i <= records.len(),
            all == record_views(records@),
            station_views(out@) == record_stations(all.take(i as int)),
        decreases records.len() - i,
    {
        assert(all.take(i + 1).drop_last() =~= all.take(i as int));
        assert(all.take(i + 1).last() == records@[i as int]@);
        match station_from_record(&records[i]) {
            Some(s) => {
                let ghost before = station_views(out@);
                out.push(s);
                assert(station_views(out@) =~= before.push(out@.last()@));
            },
            None => {},
        }
        i += 1;
    }
    assert(all.take(records.len() as int) =~= all);
    out
}

/// What a list of request parameters says.
pub open spec fn param_views(v: Seq<(String, String)>) -> Seq<(Seq<char>, Seq<char>)> {
    v.map_values(|p: (String, String)| (p.0@, p.1@))
}

/// One optional parameter: present where the value is.
pub open spec fn optional_param(key: Seq<char>, value: Option<Seq<char>>) -> Seq<
    (Seq<char>, Seq<char>),
> {
    match value {
        Some(v) => seq![(key, v)],
        None => Seq::empty(),
    }
}

/// The parameters of the remote search for a query: the fixed ones first, then the free text
/// where it is not blank, then each filter that is set.
pub open spec fn search_params(q: StationSearchQueryView) -> Seq<(Seq<char>, Seq<char>)> {
    seq![
        ("hidebroken"@, "true"@),
        ("limit"@, decimal_digits(q.limit)),
        ("order"@, q.sort.api_order()),
        ("reverse"@, if q.sort.descending() { "true"@ } else { "false"@ }),
    ] + optional_param(
        "name"@,
        if is_blank(q.query) {
            None
        } else {
            Some(trimmed(q.query))
        },
    ) + optional_param("country"@, q.filters.country) + optional_param(
        "language"@,
        q.filters.language,
    ) + optional_param("tag"@, q.filters.tag) + optional_param("codec"@, q.filters.codec)
        + optional_param(
        "bitrateMin"@,
        match q.filters.min_bitrate {
            Some(n) => Some(decimal_digits(n as nat)),
            None => None,
        },
    )
}

fn push_param(params: &mut Vec<(String, String)>, key: &str, value: String)
    ensures
        param_views(final(params)@) == param_views(old(params)@).push((key@, value@)),
{
    params.push((key.to_owned(), value));
    assert(param_views(params@) =~= param_views(old(params)@).push((key@, value@)));
}

fn push_optional(params: &mut Vec<(String, String)>, key: &str, value: &Option<String>)
    ensures
        param_views(final(params)@) == param_views(old(params)@) + optional_param(
            key@,
            opt_text(*value),
        ),
{
    match value {
        Some(v) => {
            push_param(params, key, v.clone());
            assert(param_views(params@) =~= param_views(old(params)@) + optional_param(
                key@,
                opt_text(*value),
            ));
        },
        None => {
            assert(param_views(params@) =~= param_views(old(params)@) + optional_param(
                key@,
                opt_text(*value),
            ));
        },
    }
}

/// What came of one attempt to ask the remote catalog.
#[derive(Debug, PartialEq, Eq)]
pub enum AttemptOutcome {
    /// No answer: the request could not be sent or timed out. The text says what went wrong.
    Unreachable(String),
    /// An answer with this status; with it the records of its body, or why the body could not
    /// be decoded. The body counts only for a status that is no error.
    Answered(u16, Result<Vec<ApiStation>, String>),
}

/// What an [`AttemptOutcome`] says.
pub enum AttemptOutcomeView {
    Unreachable(Seq<char>),
    Answered(u16, Result<Seq<ApiStationView>, Seq<char>>),
}

impl View for AttemptOutcome {
    type V = AttemptOutcomeView;

    open spec fn view(&self) -> AttemptOutcomeView {
        match self {
            AttemptOutcome::Unreachable(d) => AttemptOutcomeView::Unreachable(d@),
            AttemptOutcome::Answered(s, body) => AttemptOutcomeView::Answered(
                *s,
                match body {
                    Ok(records) => Ok(record_views(records@)),
                    Err(d) => Err(d@),
                },
            ),
        }
    }
}

/// What the search does after an attempt.
#[derive(Debug, PartialEq, Eq)]
pub enum SearchStep {
    /// The search is over; these are the stations.
    Done(Vec<Station>),
    /// The search is over; it failed.
    Failed(CatalogError),
    /// Wait this many milliseconds, then ask again.
    RetryAfter(u64),
}

/// What a [`SearchStep`] says.
pub enum SearchStepView {
    Done(Seq<StationView>),
    Failed(CatalogErrorView),
    RetryAfter(u64),
}

impl View for SearchStep {
    type V = SearchStepView;

    open spec fn view(&self) -> SearchStepView {
        match self {
            SearchStep::Done(v) => SearchStepView::Done(station_views(v@)),
            SearchStep::Failed(e) => SearchStepView::Failed(e@),
            SearchStep::RetryAfter(ms) => SearchStepView::RetryAfter(*ms),
        }
    }
}

/// The pause before the attempt after attempt number `attempt` (the first is number 0): 150
/// milliseconds for each attempt made so far, as far as the number fits.
pub open spec fn backoff_ms(attempt: nat) -> u64 {
    if 150 * (attempt + 1) <= u64::MAX {
        (150 * (attempt + 1)) as u64
    } else {
        u64::MAX
    }
}

/// Whether an attempt with this outcome may be repeated: no answer, or a status from 500 to
/// 599.
pub open spec fn is_transient(outcome: AttemptOutcomeView) -> bool {
    match outcome {
        AttemptOutcomeView::Unreachable(_) => true,
        AttemptOutcomeView::Answered(status, _) => 500 <= status <= 599,
    }
}

/// Whether the body of an answer with this status counts: it does unless the status is an
/// error, from 400 to 599.
pub open spec fn body_counts(status: u16) -> bool {
    !(400 <= status <= 599)
}

/// The error that a transient outcome stands for.
pub open spec fn transient_error(timeout_ms: u64, outcome: AttemptOutcomeView) -> CatalogErrorView {
    match outcome {
        AttemptOutcomeView::Unreachable(d) => CatalogErrorView::Unreachable(timeout_ms, d),
        AttemptOutcomeView::Answered(status, _) => CatalogErrorView::ServerError(status),
    }
}

/// What follows attempt number `attempt`: a transient failure is retried while attempts are
/// left and ends the search with its error after the last; a status from 400 to 499 ends it at
/// once; any other answer ends it with the stations of its body, or with the reason why the
/// body could not be decoded.
pub open spec fn step_after(
    timeout_ms: u64,
    max_retries: nat,
    attempt: nat,
    outcome: AttemptOutcomeView,
) -> SearchStepView {
    if is_transient(outcome) {
        if attempt < max_retries {
            SearchStepView::RetryAfter(backoff_ms(attempt))
        } else {
            SearchStepView::Failed(transient_error(timeout_ms, outcome))
        }
    } else {
        match outcome {
            AttemptOutcomeView::Answered(status, body) => if 400 <= status <= 499 {
                SearchStepView::Failed(CatalogErrorView::ErrorStatus(status))
            } else {
                match body {
                    Ok(records) => SearchStepView::Done(record_stations(records)),
                    Err(d) => SearchStepView::Failed(CatalogErrorView::Undecodable(d)),
                }
            },
            AttemptOutcomeView::Unreachable(d) => SearchStepView::Failed(
                CatalogErrorView::Unreachable(timeout_ms, d),
            ),
        }
    }
}

/// The remote catalog: where it is, how long it may take and how often it is asked again.
pub struct RadioBrowserCatalog {
    pub base_url: String,
    pub timeout_ms: u64,
    pub max_retries: usize,
}

impl RadioBrowserCatalog {
    /// A catalog at `base_url` that may take 3 seconds and is asked again twice.
    pub fn new(base_url: &str) -> (r: Self)
        ensures
            r.base_url@ == base_url@,
            r.timeout_ms == 3000,
            r.max_retries == 2,
    {
        RadioBrowserCatalog::new_with_config(base_url, 3000, 2)
    }

    pub fn new_with_config(base_url: &str, timeout_ms: u64, max_retries: usize) -> (r: Self)
        ensures
            r.base_url@ == base_url@,
            r.timeout_ms == timeout_ms,
            r.max_retries == max_retries,
    {
        RadioBrowserCatalog { base_url: base_url.to_owned(), timeout_ms, max_retries }
    }

    /// The address of the search.
    pub fn search_url(&self) -> (r: String)
        ensures
            r@ == self.base_url@ + "/json/stations/search"@,
    {
        concat(self.base_url.as_str(), "/json/stations/search")
    }

    /// The parameters of the search for a query.
    pub fn build_params(&self, query: &StationSearchQuery) -> (r: Vec<(String, String)>)
        ensures
            param_views(r@) == search_params(query@),
    {
        let mut params: Vec<(String, String)> = Vec::new();
        assert(param_views(params@) =~= Seq::<(Seq<char>, Seq<char>)>::empty());
        push_param(&mut params, "hidebroken", "true".to_owned());
        push_param(&mut params, "limit", decimal_string(query.limit as u64));
        push_param(&mut params, "order", query.sort.as_api_order().to_owned());
        let reverse: &str = if query.sort.is_descending() {
            "true"
        } else {
            "false"
        };
        push_param(&mut params, "reverse", reverse.to_owned());
        assert(param_views(params@) =~= seq![
            ("hidebroken"@, "true"@),
            ("limit"@, decimal_digits(query@.limit)),
            ("order"@, query.sort.api_order()),
            ("reverse"@, if query.sort.descending() { "true"@ } else { "false"@ }),
        ]);
        let typed = trim(&chars_of(query.query.as_str()));
        let name: Option<String> = if typed.len() == 0 {
            None
        } else {
            Some(string_of(&typed))
        };
        push_optional(&mut params, "name", &name);
        push_optional(&mut params, "country", &query.filters.country);
        push_optional(&mut params, "language", &query.filters.language);
        push_optional(&mut params, "tag", &query.filters.tag);
        push_optional(&mut params, "codec", &query.filters.codec);
        let floor: Option<String> = match query.filters.min_bitrate {
            Some(n) => Some(decimal_string(n as u64)),
            None => None,
        };
        push_optional(&mut params, "bitrateMin", &floor);
        params
    }

    /// Whether the body of an answer with this status is to be read and decoded.
    pub fn reads_body(status: u16) -> (r: bool)
        ensures
            r == body_counts(status),
    {
        !(status >= 400 && status <= 599)
    }

    /// What follows attempt number `attempt` with this outcome.
    pub fn after_attempt(&self, attempt: usize, outcome: &AttemptOutcome) -> (r: SearchStep)
        ensures
            r@ == step_after(self.timeout_ms, self.max_retries as nat, attempt as nat, outcome@),
    {
        match outcome {
            AttemptOutcome::Unreachable(d) => {
                if attempt < self.max_retries {
                    SearchStep::RetryAfter(RadioBrowserCatalog::backoff(attempt))
                } else {
                    SearchStep::Failed(CatalogError::Unreachable(self.timeout_ms, d.clone()))
                }
            },
            AttemptOutcome::Answered(status, body) => {
                if *status >= 500 && *status <= 599 {
                    if attempt < self.max_retries {
                        SearchStep::RetryAfter(RadioBrowserCatalog::backoff(attempt))
                    } else {
                        SearchStep::Failed(CatalogError::ServerError(*status))
                    }
                } else if *status >= 400 && *status <= 499 {
                    SearchStep::Failed(CatalogError::ErrorStatus(*status))
                } else {
                    match body {
                        Ok(records) => SearchStep::Done(stations_from_records(records)),
                        Err(d) => SearchStep::Failed(CatalogError::Undecodable(d.clone())),
                    }
                }
            },
        }
    }

    /// The pause before the attempt after attempt number `attempt`.
    pub fn backoff(attempt: usize) -> (r: u64)
        ensures
            r == backoff_ms(attempt as nat),
    {
        let wide: u128 = 150 * (attempt as u128 + 1);
        if wide <= u64::MAX as u128 {
            wide as u64
        } else {
            u64::MAX
        }
    }
}

/// The search never waits after the last attempt: with `max_retries` retries there are at most
/// `max_retries + 1` attempts.
pub proof fn lemma_retries_are_bounded(
    timeout_ms: u64,
    max_retries: nat,
    attempt: nat,
    outcome: AttemptOutcomeView,
)
    requires
        attempt >= max_retries,
    ensures
        !(step_after(timeout_ms, max_retries, attempt, outcome) is RetryAfter),
{
}

/// The body of an answer plays no part where it does not count.
pub proof fn lemma_error_status_ignores_body(
    timeout_ms: u64,
    max_retries: nat,
    attempt: nat,
    status: u16,
    first: Result<Seq<ApiStationView>, Seq<char>>,
    second: Result<Seq<ApiStationView>, Seq<char>>,
)
    requires
        !body_counts(status),
    ensures
        step_after(timeout_ms, max_retries, attempt, AttemptOutcomeView::Answered(status, first))
            == step_after(
            timeout_ms,
            max_retries,
            attempt,
            AttemptOutcomeView::Answered(status, second),
        ),
{
}

/// An answer that is no failure of the server is final: it is never asked for again.
pub proof fn lemma_answers_are_final(
    timeout_ms: u64,
    max_retries: nat,
    attempt: nat,
    outcome: AttemptOutcomeView,
)
    requires
        !is_transient(outcome),
    ensures
        !(step_after(timeout_ms, max_retries, attempt, outcome) is RetryAfter),
{
}

} // verus!
