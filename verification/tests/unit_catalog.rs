use iradio::app::default_stations;
use iradio::domain::models::{Station, StationFilters, StationSearchQuery, StationSort};
use iradio::integrations::station_catalog::{
    station_from_record, stations_from_records, tags_from_text, ApiStation, AttemptOutcome,
    CatalogError, RadioBrowserCatalog, SearchStep, StaticCatalog, StationCatalog,
};

fn catalog_station(id: &str, name: &str, votes: Option<u32>, bitrate: Option<u32>) -> Station {
    Station {
        station_uuid: id.to_string(),
        name: name.to_string(),
        url_resolved: format!("https://example.com/{id}"),
        homepage: None,
        favicon: None,
        tags: vec!["Jazz".to_string()],
        country: None,
        country_code: None,
        language: None,
        codec: None,
        bitrate,
        votes,
        click_count: votes,
    }
}

fn query_for(text: &str, sort: StationSort, limit: usize) -> StationSearchQuery {
    StationSearchQuery {
        query: text.to_string(),
        filters: StationFilters::default(),
        sort,
        limit,
    }
}

fn record(id: &str) -> ApiStation {
    ApiStation {
        stationuuid: id.to_string(),
        name: None,
        url: None,
        url_resolved: None,
        homepage: None,
        tags: None,
        country: None,
        language: None,
        codec: None,
        bitrate: None,
        votes: None,
        clickcount: None,
    }
}

fn names(stations: &[Station]) -> Vec<&str> {
    stations.iter().map(|s| s.name.as_str()).collect()
}

#[test]
fn search_builds_filter_and_sort_params() {
    let catalog = RadioBrowserCatalog::new_with_config("http://127.0.0.1:9", 1000, 0);
    let params = catalog.build_params(&StationSearchQuery {
        query: "jazz".to_string(),
        filters: StationFilters {
            country: Some("US".to_string()),
            language: Some("english".to_string()),
            tag: Some("smooth".to_string()),
            codec: Some("mp3".to_string()),
            min_bitrate: Some(128),
        },
        sort: StationSort::Clicks,
        limit: 25,
    });
    let req: Vec<String> = params.iter().map(|(k, v)| format!("{k}={v}")).collect();
    assert!(req.contains(&"name=jazz".to_string()));
    assert!(req.contains(&"country=US".to_string()));
    assert!(req.contains(&"language=english".to_string()));
    assert!(req.contains(&"tag=smooth".to_string()));
    assert!(req.contains(&"codec=mp3".to_string()));
    assert!(req.contains(&"bitrateMin=128".to_string()));
    assert!(req.contains(&"order=clickcount".to_string()));
    assert!(req.contains(&"reverse=true".to_string()));
    assert_eq!(
        req,
        vec![
            "hidebroken=true",
            "limit=25",
            "order=clickcount",
            "reverse=true",
            "name=jazz",
            "country=US",
            "language=english",
            "tag=smooth",
            "codec=mp3",
            "bitrateMin=128",
        ]
    );

    let mut jazz = record("id1");
    jazz.name = Some("Jazz FM".to_string());
    jazz.url_resolved = Some("https://example.com/stream".to_string());
    jazz.tags = Some("jazz,smooth".to_string());
    jazz.clickcount = Some(20);
    let step = catalog.after_attempt(0, &AttemptOutcome::Answered(200, Ok(vec![jazz])));
    let stations = match step {
        SearchStep::Done(stations) => stations,
        other => panic!("search stations: {other:?}"),
    };
    assert_eq!(stations.len(), 1);
    assert_eq!(stations[0].name, "Jazz FM");
    assert_eq!(stations[0].click_count, Some(20));
}

#[test]
fn search_retries_after_server_error() {
    let catalog = RadioBrowserCatalog::new_with_config("http://127.0.0.1:9", 1000, 1);

    let first = catalog.after_attempt(0, &AttemptOutcome::Answered(500, Err(String::new())));
    assert_eq!(first, SearchStep::RetryAfter(150));

    let mut retry = record("id2");
    retry.name = Some("Retry FM".to_string());
    retry.url_resolved = Some("https://example.com/retry".to_string());
    retry.tags = Some(String::new());
    let second = catalog.after_attempt(1, &AttemptOutcome::Answered(200, Ok(vec![retry])));
    let stations = match second {
        SearchStep::Done(stations) => stations,
        other => panic!("search should retry and succeed: {other:?}"),
    };
    assert_eq!(stations.len(), 1);
    assert_eq!(stations[0].name, "Retry FM");
}

#[test]
fn search_params_leave_out_what_is_not_set() {
    let catalog = RadioBrowserCatalog::new("https://de1.api.radio-browser.info");
    assert_eq!(catalog.timeout_ms, 3000);
    assert_eq!(catalog.max_retries, 2);
    assert_eq!(
        catalog.search_url(),
        "https://de1.api.radio-browser.info/json/stations/search"
    );
    let params = catalog.build_params(&query_for("   ", StationSort::Name, 50));
    assert_eq!(
        params,
        vec![
            ("hidebroken".to_string(), "true".to_string()),
            ("limit".to_string(), "50".to_string()),
            ("order".to_string(), "name".to_string()),
            ("reverse".to_string(), "false".to_string()),
        ]
    );
    let params = catalog.build_params(&query_for("  groove salad ", StationSort::Votes, 0));
    assert_eq!(params[1], ("limit".to_string(), "0".to_string()));
    assert_eq!(params[2], ("order".to_string(), "votes".to_string()));
    assert_eq!(params[3], ("reverse".to_string(), "true".to_string()));
    assert_eq!(params[4], ("name".to_string(), "groove salad".to_string()));
    assert_eq!(params.len(), 5);
}

#[test]
fn retries_stop_at_the_limit_and_surface_the_last_error() {
    let catalog = RadioBrowserCatalog::new_with_config("http://x", 2500, 2);
    let down = AttemptOutcome::Unreachable("timed out".to_string());
    assert_eq!(catalog.after_attempt(0, &down), SearchStep::RetryAfter(150));
    assert_eq!(catalog.after_attempt(1, &down), SearchStep::RetryAfter(300));
    assert_eq!(
        catalog.after_attempt(2, &down),
        SearchStep::Failed(CatalogError::Unreachable(2500, "timed out".to_string()))
    );
    assert_eq!(
        catalog.after_attempt(3, &down),
        SearchStep::Failed(CatalogError::Unreachable(2500, "timed out".to_string()))
    );
    let broken = AttemptOutcome::Answered(503, Ok(Vec::new()));
    assert_eq!(catalog.after_attempt(1, &broken), SearchStep::RetryAfter(300));
    assert_eq!(
        catalog.after_attempt(2, &broken),
        SearchStep::Failed(CatalogError::ServerError(503))
    );
    assert_eq!(RadioBrowserCatalog::backoff(0), 150);
    assert_eq!(RadioBrowserCatalog::backoff(9), 1500);
    assert_eq!(RadioBrowserCatalog::backoff(usize::MAX), {
        let wide = 150u128 * (usize::MAX as u128 + 1);
        if wide <= u64::MAX as u128 {
            wide as u64
        } else {
            u64::MAX
        }
    });
}

#[test]
fn client_errors_and_bad_bodies_are_never_retried() {
    let catalog = RadioBrowserCatalog::new_with_config("http://x", 1000, 5);
    assert_eq!(
        catalog.after_attempt(0, &AttemptOutcome::Answered(404, Ok(Vec::new()))),
        SearchStep::Failed(CatalogError::ErrorStatus(404))
    );
    assert_eq!(
        catalog.after_attempt(0, &AttemptOutcome::Answered(200, Err("expected array".to_string()))),
        SearchStep::Failed(CatalogError::Undecodable("expected array".to_string()))
    );
    assert_eq!(
        catalog.after_attempt(0, &AttemptOutcome::Answered(200, Ok(Vec::new()))),
        SearchStep::Done(Vec::new())
    );
    assert!(RadioBrowserCatalog::reads_body(200));
    assert!(RadioBrowserCatalog::reads_body(302));
    assert!(RadioBrowserCatalog::reads_body(399));
    assert!(!RadioBrowserCatalog::reads_body(400));
    assert!(!RadioBrowserCatalog::reads_body(599));
    assert!(RadioBrowserCatalog::reads_body(600));
    assert_eq!(
        CatalogError::ErrorStatus(404).message(),
        "station catalog returned error status: HTTP 404"
    );
    assert_eq!(
        CatalogError::ServerError(500).message(),
        "station catalog server error: HTTP 500"
    );
    assert_eq!(
        CatalogError::Unreachable(3000, "refused".to_string()).message(),
        "station catalog request failed (timeout=3000ms): refused"
    );
    assert_eq!(
        CatalogError::Undecodable("eof".to_string()).message(),
        "failed to deserialize station catalog response: eof"
    );
}

#[test]
fn records_are_decoded_permissively() {
    let mut full = record("id-1");
    full.name = Some("  ".to_string());
    full.url = Some("http://raw".to_string());
    full.homepage = Some("http://home".to_string());
    full.tags = Some(" jazz, ,smooth jazz,,  ".to_string());
    full.country = Some(" ".to_string());
    full.language = Some("english".to_string());
    full.codec = Some(String::new());
    full.bitrate = Some(128);
    full.votes = Some(3);
    full.clickcount = Some(4);
    let station = station_from_record(&full).expect("record with a raw address");
    assert_eq!(
        station,
        Station {
            station_uuid: "id-1".to_string(),
            name: "(unnamed station)".to_string(),
            url_resolved: "http://raw".to_string(),
            homepage: Some("http://home".to_string()),
            favicon: None,
            tags: vec!["jazz".to_string(), "smooth jazz".to_string()],
            country: None,
            country_code: None,
            language: Some("english".to_string()),
            codec: None,
            bitrate: Some(128),
            votes: Some(3),
            click_count: Some(4),
        }
    );

    let mut resolved = record("id-2");
    resolved.url = Some("http://raw".to_string());
    resolved.url_resolved = Some("http://resolved".to_string());
    resolved.name = Some("Named".to_string());
    let station = station_from_record(&resolved).expect("record with both addresses");
    assert_eq!(station.url_resolved, "http://resolved");
    assert_eq!(station.name, "Named");
    assert!(station.tags.is_empty());

    assert_eq!(station_from_record(&record("id-3")), None);
    let mut blank = record("id-4");
    blank.url_resolved = Some("   ".to_string());
    blank.url = Some("http://raw".to_string());
    assert_eq!(station_from_record(&blank), None);

    let kept = stations_from_records(&vec![record("a"), resolved, record("b")]);
    assert_eq!(kept.len(), 1);
    assert_eq!(kept[0].station_uuid, "id-2");
}

#[test]
fn tags_are_cut_at_commas_and_trimmed() {
    assert_eq!(tags_from_text(&None), Vec::<String>::new());
    assert_eq!(tags_from_text(&Some(String::new())), Vec::<String>::new());
    assert_eq!(tags_from_text(&Some(",".to_string())), Vec::<String>::new());
    assert_eq!(tags_from_text(&Some("a".to_string())), vec!["a"]);
    assert_eq!(
        tags_from_text(&Some("news, talk ,  world news".to_string())),
        vec!["news", "talk", "world news"]
    );
}

#[test]
fn static_catalog_filters_by_name_and_tags() {
    let catalog = StaticCatalog::new(default_stations());
    let found = catalog
        .search(&query_for("news", StationSort::Votes, 50))
        .expect("static search");
    assert_eq!(names(&found), vec!["NPR", "BBC World Service"]);
    let found = catalog.find(&query_for("  SOMA ", StationSort::Votes, 50));
    assert_eq!(names(&found), vec!["SomaFM Groove Salad"]);
    let found = catalog.find(&query_for("", StationSort::Votes, 50));
    assert_eq!(names(&found), vec!["SomaFM Groove Salad", "NPR", "BBC World Service"]);
    let found = catalog.find(&query_for("nothing like it", StationSort::Votes, 50));
    assert!(found.is_empty());
}

#[test]
fn static_catalog_sorts_and_truncates() {
    let catalog = StaticCatalog::new(vec![
        catalog_station("1", "delta", Some(5), None),
        catalog_station("2", "alfa", Some(5), Some(64)),
        catalog_station("3", "charlie", None, Some(320)),
        catalog_station("4", "bravo", Some(9), Some(64)),
        catalog_station("5", "alfa", Some(5), Some(128)),
    ]);
    let ids = |stations: Vec<Station>| -> Vec<String> {
        stations.into_iter().map(|s| s.station_uuid).collect()
    };
    assert_eq!(
        ids(catalog.find(&query_for("", StationSort::Name, 50))),
        vec!["2", "5", "4", "3", "1"]
    );
    assert_eq!(
        ids(catalog.find(&query_for("", StationSort::Votes, 50))),
        vec!["4", "2", "5", "1", "3"]
    );
    assert_eq!(
        ids(catalog.find(&query_for("", StationSort::Clicks, 50))),
        vec!["4", "2", "5", "1", "3"]
    );
    assert_eq!(
        ids(catalog.find(&query_for("", StationSort::Bitrate, 50))),
        vec!["3", "5", "2", "4", "1"]
    );
    assert_eq!(
        ids(catalog.find(&query_for("", StationSort::Bitrate, 2))),
        vec!["3", "5"]
    );
    assert!(catalog.find(&query_for("", StationSort::Bitrate, 0)).is_empty());
    assert_eq!(
        ids(catalog.find(&query_for("jazz", StationSort::Name, 5))),
        vec!["2", "5", "4", "3", "1"]
    );
}

#[test]
fn static_catalog_results_are_in_sort_order() {
    let catalog = StaticCatalog::new(vec![
        catalog_station("1", "b", Some(1), Some(9)),
        catalog_station("2", "a", None, Some(9)),
        catalog_station("3", "c", Some(7), None),
        catalog_station("4", "a", Some(7), Some(2)),
        catalog_station("5", "d", Some(0), Some(2)),
    ]);
    for sort in [StationSort::Votes, StationSort::Clicks, StationSort::Bitrate] {
        let found = catalog.find(&query_for("", sort, 50));
        assert_eq!(found.len(), 5);
        for pair in found.windows(2) {
            let key = |s: &Station| match sort {
                StationSort::Votes => s.votes,
                StationSort::Clicks => s.click_count,
                _ => s.bitrate,
            };
            assert!(key(&pair[0]) >= key(&pair[1]));
            if key(&pair[0]) == key(&pair[1]) {
                assert!(pair[0].name <= pair[1].name);
            }
        }
    }
    let found = catalog.find(&query_for("", StationSort::Name, 50));
    for pair in found.windows(2) {
        assert!(pair[0].name <= pair[1].name);
    }
}

#[test]
fn station_matches_query_in_name_or_tags() {
    let station = catalog_station("1", "Straße FM", Some(1), None);
    assert!(station.matches_query(""));
    assert!(station.matches_query("   "));
    assert!(station.matches_query("STRASSE") == "straße fm".contains(&"STRASSE".to_lowercase()));
    assert!(station.matches_query("STRAßE"));
    assert!(station.matches_query(" fm "));
    assert!(station.matches_query("jazz"));
    assert!(station.matches_query("JAZ"));
    assert!(!station.matches_query("rock"));
}

#[test]
fn sort_fields_map_to_api_orders() {
    assert_eq!(StationSort::Name.as_api_order(), "name");
    assert_eq!(StationSort::Votes.as_api_order(), "votes");
    assert_eq!(StationSort::Clicks.as_api_order(), "clickcount");
    assert_eq!(StationSort::Bitrate.as_api_order(), "bitrate");
    assert!(!StationSort::Name.is_descending());
    assert!(StationSort::Votes.is_descending());
    assert!(StationSort::Clicks.is_descending());
    assert!(StationSort::Bitrate.is_descending());
    assert_eq!(StationSort::default(), StationSort::Votes);
    assert_eq!(StationSort::Clicks.label(), "clicks");
    assert!(StationFilters::default().is_empty());
    assert!(!StationFilters {
        country: None,
        language: None,
        tag: None,
        codec: None,
        min_bitrate: Some(0),
    }
    .is_empty());
    let query = StationSearchQuery::default();
    assert_eq!(query.query, "");
    assert_eq!(query.limit, 50);
    assert_eq!(query.sort, StationSort::Votes);
    assert_eq!(query.clone(), query);
}
