use iradio::domain::commands::{parse_filter_args, ParseError, PlayTarget, SlashCommand};
use iradio::domain::models::{StationFilters, StationSort};

#[test]
fn parse_play_command() {
    let cmd = SlashCommand::parse("/play soma").expect("parse /play command");
    assert_eq!(
        cmd,
        SlashCommand::Play(PlayTarget::Query("soma".to_string()))
    );
}

#[test]
fn parse_play_without_args_uses_selected_station() {
    let cmd = SlashCommand::parse("/play").expect("parse /play command without args");
    assert_eq!(cmd, SlashCommand::Play(PlayTarget::Selected));
}

#[test]
fn parse_play_selected_alias() {
    let cmd = SlashCommand::parse("/play selected").expect("parse /play selected");
    assert_eq!(cmd, SlashCommand::Play(PlayTarget::Selected));
}

#[test]
fn parse_play_index() {
    let cmd = SlashCommand::parse("/play 1").expect("parse /play 1");
    assert_eq!(cmd, SlashCommand::Play(PlayTarget::Index(1)));
}

#[test]
fn parse_favorites_command() {
    let cmd = SlashCommand::parse("/favorites").expect("parse /favorites");
    assert_eq!(cmd, SlashCommand::Favorites);
}

#[test]
fn parse_volume_command_bounds() {
    let low = SlashCommand::parse("/volume 0").expect("parse /volume 0");
    let high = SlashCommand::parse("/volume 100").expect("parse /volume 100");
    assert_eq!(low, SlashCommand::Volume(0));
    assert_eq!(high, SlashCommand::Volume(100));
}

#[test]
fn parse_search_command() {
    let cmd = SlashCommand::parse("/search news radio").expect("parse /search command");
    assert_eq!(cmd, SlashCommand::Search("news radio".to_string()));
}

#[test]
fn parse_filter_command() {
    let cmd = SlashCommand::parse(
        "/filter country=US language=english tag=jazz codec=mp3 min_bitrate=128",
    )
    .expect("parse /filter command");
    assert_eq!(
        cmd,
        SlashCommand::Filter(StationFilters {
            country: Some("US".to_string()),
            language: Some("english".to_string()),
            tag: Some("jazz".to_string()),
            codec: Some("mp3".to_string()),
            min_bitrate: Some(128),
        })
    );
}

#[test]
fn parse_sort_command() {
    let cmd = SlashCommand::parse("/sort clicks").expect("parse /sort command");
    assert_eq!(cmd, SlashCommand::Sort(StationSort::Clicks));
}

#[test]
fn reject_invalid_filter_value() {
    let err = SlashCommand::parse("/filter min_bitrate=abc").expect_err("invalid should fail");
    assert!(err.message().contains("min_bitrate must be an integer"));
}

#[test]
fn reject_unknown_filter_key() {
    let err = SlashCommand::parse("/filter foo=bar").expect_err("invalid should fail");
    assert!(err.message().contains("unknown filter key"));
}

#[test]
fn reject_unknown_sort_field() {
    let err = SlashCommand::parse("/sort listeners").expect_err("invalid should fail");
    assert!(err.message().contains("invalid sort field"));
}

#[test]
fn reject_unknown_command() {
    let err = SlashCommand::parse("/does-not-exist").expect_err("unknown command should fail");
    assert!(err.message().contains("unknown command"));
}

#[test]
fn reject_zero_play_index() {
    let err = SlashCommand::parse("/play 0").expect_err("index 0 should fail");
    assert!(err.message().contains(">= 1"));
}

#[test]
fn reject_volume_without_value() {
    let err = SlashCommand::parse("/volume").expect_err("missing volume should fail");
    assert!(err.message().contains("usage: /volume <0-100>"));
}

#[test]
fn reject_volume_with_non_integer() {
    let err = SlashCommand::parse("/volume loud").expect_err("non-integer should fail");
    assert!(err.message().contains("volume must be an integer"));
}

#[test]
fn reject_volume_with_negative_integer() {
    let err = SlashCommand::parse("/volume -1").expect_err("negative should fail");
    assert!(err.message().contains("volume must be an integer"));
}

#[test]
fn reject_volume_out_of_range() {
    let err = SlashCommand::parse("/volume 101").expect_err("out of range should fail");
    assert!(err.message().contains("between 0 and 100"));
}

#[test]
fn reject_volume_with_extra_args() {
    let err = SlashCommand::parse("/volume 50 extra").expect_err("extra args should fail");
    assert!(err.message().contains("usage: /volume <0-100>"));
}

#[test]
fn parse_rejects_text_without_marker() {
    assert_eq!(SlashCommand::parse("play"), Err(ParseError::MissingMarker));
    assert_eq!(SlashCommand::parse(""), Err(ParseError::MissingMarker));
    assert_eq!(SlashCommand::parse("   "), Err(ParseError::MissingMarker));
    assert_eq!(
        SlashCommand::parse("play").unwrap_err().message(),
        "slash commands must start with '/'"
    );
}

#[test]
fn parse_rejects_marker_alone() {
    assert_eq!(SlashCommand::parse("/"), Err(ParseError::EmptyCommand));
    assert_eq!(SlashCommand::parse("  /   "), Err(ParseError::EmptyCommand));
    assert_eq!(ParseError::EmptyCommand.message(), "empty command");
}

#[test]
fn parse_trims_and_splits_on_any_white_space() {
    assert_eq!(SlashCommand::parse("  /stop  "), Ok(SlashCommand::Stop));
    assert_eq!(SlashCommand::parse("\t/pause\n"), Ok(SlashCommand::Pause));
    assert_eq!(SlashCommand::parse("/ resume"), Ok(SlashCommand::Resume));
    assert_eq!(
        SlashCommand::parse("/search\u{a0}news \t radio\u{3000}now"),
        Ok(SlashCommand::Search("news radio now".to_string()))
    );
    assert_eq!(
        SlashCommand::parse("/play   groove    salad "),
        Ok(SlashCommand::Play(PlayTarget::Query("groove salad".to_string())))
    );
}

#[test]
fn parse_verbs_are_case_sensitive() {
    assert_eq!(
        SlashCommand::parse("/Play"),
        Err(ParseError::UnknownCommand("Play".to_string()))
    );
    assert_eq!(
        SlashCommand::parse("/STOP").unwrap_err().message(),
        "unknown command: STOP"
    );
}

#[test]
fn parse_verbs_without_arguments() {
    assert_eq!(SlashCommand::parse("/stop"), Ok(SlashCommand::Stop));
    assert_eq!(SlashCommand::parse("/pause"), Ok(SlashCommand::Pause));
    assert_eq!(SlashCommand::parse("/resume"), Ok(SlashCommand::Resume));
    assert_eq!(SlashCommand::parse("/clear-filters"), Ok(SlashCommand::ClearFilters));
    assert_eq!(SlashCommand::parse("/favorites"), Ok(SlashCommand::Favorites));
    assert_eq!(SlashCommand::parse("/fav"), Ok(SlashCommand::Favorite));
    assert_eq!(SlashCommand::parse("/favorite"), Ok(SlashCommand::Favorite));
    assert_eq!(SlashCommand::parse("/unfav"), Ok(SlashCommand::Unfavorite));
    assert_eq!(SlashCommand::parse("/unfavorite"), Ok(SlashCommand::Unfavorite));
    assert_eq!(SlashCommand::parse("/quit"), Ok(SlashCommand::Quit));
    assert_eq!(SlashCommand::parse("/q"), Ok(SlashCommand::Quit));
    assert_eq!(SlashCommand::parse("/help"), Ok(SlashCommand::Help));
}

#[test]
fn parse_play_targets() {
    assert_eq!(
        SlashCommand::parse("/play SELECTED"),
        Ok(SlashCommand::Play(PlayTarget::Selected))
    );
    assert_eq!(
        SlashCommand::parse("/play 42"),
        Ok(SlashCommand::Play(PlayTarget::Index(42)))
    );
    assert_eq!(
        SlashCommand::parse("/play +7"),
        Ok(SlashCommand::Play(PlayTarget::Index(7)))
    );
    assert_eq!(
        SlashCommand::parse("/play 007"),
        Ok(SlashCommand::Play(PlayTarget::Index(7)))
    );
    assert_eq!(SlashCommand::parse("/play 000"), Err(ParseError::ZeroPlayIndex));
    assert_eq!(
        SlashCommand::parse("/play -1"),
        Ok(SlashCommand::Play(PlayTarget::Query("-1".to_string())))
    );
    assert_eq!(
        SlashCommand::parse("/play 1 2"),
        Ok(SlashCommand::Play(PlayTarget::Query("1 2".to_string())))
    );
    assert_eq!(
        SlashCommand::parse("/play 99999999999999999999999999"),
        Ok(SlashCommand::Play(PlayTarget::Query(
            "99999999999999999999999999".to_string()
        )))
    );
    assert_eq!(
        SlashCommand::parse("/play 1x"),
        Ok(SlashCommand::Play(PlayTarget::Query("1x".to_string())))
    );
}

#[test]
fn parse_search_needs_a_text() {
    assert_eq!(SlashCommand::parse("/search"), Err(ParseError::SearchUsage));
    assert_eq!(SlashCommand::parse("/search   "), Err(ParseError::SearchUsage));
    assert_eq!(ParseError::SearchUsage.message(), "usage: /search <query>");
}

#[test]
fn parse_sort_fields() {
    assert_eq!(SlashCommand::parse("/sort name"), Ok(SlashCommand::Sort(StationSort::Name)));
    assert_eq!(SlashCommand::parse("/sort VOTES"), Ok(SlashCommand::Sort(StationSort::Votes)));
    assert_eq!(
        SlashCommand::parse("/sort Bitrate"),
        Ok(SlashCommand::Sort(StationSort::Bitrate))
    );
    assert_eq!(SlashCommand::parse("/sort"), Err(ParseError::SortUsage));
    assert_eq!(SlashCommand::parse("/sort name votes"), Err(ParseError::SortUsage));
    assert_eq!(
        SlashCommand::parse("/sort listeners"),
        Err(ParseError::InvalidSortField("listeners".to_string()))
    );
    assert_eq!(
        ParseError::InvalidSortField("listeners".to_string()).message(),
        "invalid sort field: listeners"
    );
    assert_eq!(
        ParseError::SortUsage.message(),
        "usage: /sort <name|votes|clicks|bitrate>"
    );
}

#[test]
fn parse_filter_errors() {
    assert_eq!(SlashCommand::parse("/filter"), Err(ParseError::FilterUsage));
    assert_eq!(
        SlashCommand::parse("/filter country"),
        Err(ParseError::FilterSyntax("country".to_string()))
    );
    assert_eq!(
        SlashCommand::parse("/filter tag=a=b"),
        Err(ParseError::FilterSyntax("tag=a=b".to_string()))
    );
    assert_eq!(
        SlashCommand::parse("/filter country="),
        Err(ParseError::EmptyFilterValue("country".to_string()))
    );
    assert_eq!(
        SlashCommand::parse("/filter foo=bar"),
        Err(ParseError::UnknownFilterKey("foo".to_string()))
    );
    assert_eq!(
        SlashCommand::parse("/filter min_bitrate=-5"),
        Err(ParseError::MinBitrateNotInteger)
    );
    assert_eq!(
        SlashCommand::parse("/filter min_bitrate=4294967296"),
        Err(ParseError::MinBitrateNotInteger)
    );
    assert_eq!(
        SlashCommand::parse("/filter country=US foo=bar tag"),
        Err(ParseError::UnknownFilterKey("foo".to_string()))
    );
    assert_eq!(
        ParseError::FilterSyntax("tag".to_string()).message(),
        "invalid filter syntax: tag (expected key=value)"
    );
    assert_eq!(
        ParseError::EmptyFilterValue("tag".to_string()).message(),
        "filter value cannot be empty for key: tag"
    );
    assert_eq!(
        ParseError::UnknownFilterKey("foo".to_string()).message(),
        "unknown filter key: foo"
    );
    assert_eq!(
        ParseError::FilterUsage.message(),
        "usage: /filter country=<x> language=<y> tag=<z> codec=<c> min_bitrate=<n>"
    );
}

#[test]
fn parse_filter_keys_ignore_case_and_later_values_win() {
    assert_eq!(
        SlashCommand::parse("/filter COUNTRY=US country=DE Min_Bitrate=4294967295"),
        Ok(SlashCommand::Filter(StationFilters {
            country: Some("DE".to_string()),
            language: None,
            tag: None,
            codec: None,
            min_bitrate: Some(4294967295),
        }))
    );
}

#[test]
fn parse_filter_args_reads_constraints() {
    assert_eq!(
        parse_filter_args(&["codec=aac", "tag=jazz"]),
        Ok(StationFilters {
            country: None,
            language: None,
            tag: Some("jazz".to_string()),
            codec: Some("aac".to_string()),
            min_bitrate: None,
        })
    );
    assert_eq!(parse_filter_args(&[]), Ok(StationFilters::default()));
    assert_eq!(
        parse_filter_args(&["tag=  "]),
        Err(ParseError::EmptyFilterValue("tag".to_string()))
    );
}

#[test]
fn parse_volume_errors_are_distinct() {
    assert_eq!(SlashCommand::parse("/volume"), Err(ParseError::VolumeMissing));
    assert_eq!(SlashCommand::parse("/volume 1 2"), Err(ParseError::VolumeExtra));
    assert_eq!(
        SlashCommand::parse("/volume loud"),
        Err(ParseError::VolumeNotInteger("loud".to_string()))
    );
    assert_eq!(SlashCommand::parse("/volume -1"), Err(ParseError::VolumeNegative));
    assert_eq!(SlashCommand::parse("/volume 101"), Err(ParseError::VolumeOutOfRange));
    assert_eq!(
        SlashCommand::parse("/volume 99999999999999999999999999"),
        Err(ParseError::VolumeOutOfRange)
    );
    assert_eq!(SlashCommand::parse("/volume 42"), Ok(SlashCommand::Volume(42)));
    assert_eq!(
        ParseError::VolumeOutOfRange.message(),
        "volume must be between 0 and 100"
    );
    assert_eq!(
        ParseError::VolumeNotInteger("loud".to_string()).message(),
        "volume must be an integer, got: loud"
    );
}

#[test]
fn parsing_the_same_text_twice_gives_equal_results() {
    for text in [
        "/play 3",
        "/filter tag=jazz",
        "/nope",
        "nothing",
        "/volume 200",
        "/search a  b",
    ] {
        assert_eq!(SlashCommand::parse(text), SlashCommand::parse(text));
    }
}

#[test]
fn zero_play_index_fails_however_it_is_spaced() {
    for text in ["/play 0", " /play 0 ", "/play\t0", "/play +0", "/play 00"] {
        let err = SlashCommand::parse(text).expect_err("index 0 should fail");
        assert_eq!(err, ParseError::ZeroPlayIndex);
        assert_eq!(err.message(), "play index must be >= 1");
    }
}
