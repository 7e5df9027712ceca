use iradio::domain::models::{StationFilters, StationSort};
use iradio::storage::config::{
    non_empty, parse_sort, parse_value, strip_comment, variable_label, ConfigError, PlaybackMode,
    RuntimeConfig, TomlValue,
};

fn chars(text: &str) -> Vec<char> {
    text.chars().collect()
}

fn pairs(vars: &[(&str, &str)]) -> Vec<(String, String)> {
    vars.iter()
        .map(|(name, value)| (name.to_string(), value.to_string()))
        .collect()
}

#[test]
fn parses_config_file_defaults() {
    let mut config = RuntimeConfig::default();
    config
        .merge_toml_text(
            r#"
                    [playback]
                    mode = "http"

                    [radio_browser]
                    base_url = "https://example.radio.browser"
                    timeout_ms = 4500
                    retries = 4

                    [defaults]
                    sort = "bitrate"

                    [defaults.filters]
                    country = "US"
                    language = "english"
                    tag = "jazz"
                    codec = "mp3"
                    min_bitrate = 192
                "#,
        )
        .expect("merge config text");

    assert_eq!(config.playback.mode, PlaybackMode::Http);
    assert_eq!(
        config.radio_browser.base_url,
        "https://example.radio.browser".to_string()
    );
    assert_eq!(config.radio_browser.timeout_ms, 4500);
    assert_eq!(config.radio_browser.retries, 4);
    assert_eq!(config.defaults.sort, StationSort::Bitrate);
    assert_eq!(config.defaults.filters.country.as_deref(), Some("US"));
    assert_eq!(config.defaults.filters.language.as_deref(), Some("english"));
    assert_eq!(config.defaults.filters.tag.as_deref(), Some("jazz"));
    assert_eq!(config.defaults.filters.codec.as_deref(), Some("mp3"));
    assert_eq!(config.defaults.filters.min_bitrate, Some(192));
}

#[test]
fn invalid_sort_in_file_is_rejected() {
    let mut config = RuntimeConfig::default();
    let err = config
        .merge_toml_text(
            r#"
                    [defaults]
                    sort = "listeners"
                "#,
        )
        .expect_err("invalid sort should fail");
    assert!(err.message().contains("invalid sort"));
}

#[test]
fn load_config_file_applies_defaults() {
    let text = r#"
            [playback]
            mode = "http"

            [radio_browser]
            base_url = "https://custom.radio.browser"
            timeout_ms = 4500
            retries = 5

            [defaults]
            sort = "clicks"

            [defaults.filters]
            country = "US"
            language = "english"
            tag = "news"
            codec = "mp3"
            min_bitrate = 128
        "#;

    let config = RuntimeConfig::load_from(Some(text), &Vec::new()).expect("load config from path");
    assert_eq!(config.playback.mode, PlaybackMode::Http);
    assert_eq!(
        config.radio_browser.base_url,
        "https://custom.radio.browser"
    );
    assert_eq!(config.radio_browser.timeout_ms, 4500);
    assert_eq!(config.radio_browser.retries, 5);
    assert_eq!(config.defaults.sort, StationSort::Clicks);
    assert_eq!(config.defaults.filters.country.as_deref(), Some("US"));
    assert_eq!(config.defaults.filters.language.as_deref(), Some("english"));
    assert_eq!(config.defaults.filters.tag.as_deref(), Some("news"));
    assert_eq!(config.defaults.filters.codec.as_deref(), Some("mp3"));
    assert_eq!(config.defaults.filters.min_bitrate, Some(128));
}

#[test]
fn env_vars_override_file_values() {
    let text = r#"
            [playback]
            mode = "rc"

            [radio_browser]
            base_url = "https://file.radio.browser"
            timeout_ms = 2000
            retries = 1

            [defaults]
            sort = "name"

            [defaults.filters]
            country = "DE"
            min_bitrate = 96
        "#;

    let vars = pairs(&[
        ("IRADIO_PLAYBACK_MODE", "http"),
        ("IRADIO_RADIO_BROWSER_BASE", "https://env.radio.browser"),
        ("IRADIO_RADIO_BROWSER_TIMEOUT_MS", "9000"),
        ("IRADIO_RADIO_BROWSER_MAX_RETRIES", "7"),
        ("IRADIO_DEFAULT_SORT", "votes"),
        ("IRADIO_DEFAULT_FILTER_COUNTRY", "US"),
        ("IRADIO_DEFAULT_FILTER_MIN_BITRATE", "192"),
    ]);

    let config = RuntimeConfig::load_from(Some(text), &vars).expect("load config from path");
    assert_eq!(config.playback.mode, PlaybackMode::Http);
    assert_eq!(config.radio_browser.base_url, "https://env.radio.browser");
    assert_eq!(config.radio_browser.timeout_ms, 9000);
    assert_eq!(config.radio_browser.retries, 7);
    assert_eq!(config.defaults.sort, StationSort::Votes);
    assert_eq!(config.defaults.filters.country.as_deref(), Some("US"));
    assert_eq!(config.defaults.filters.min_bitrate, Some(192));
}

#[test]
fn defaults_hold_where_nothing_is_said() {
    let config = RuntimeConfig::load_from(None, &Vec::new()).expect("defaults");
    assert_eq!(config, RuntimeConfig::default());
    assert_eq!(config.playback.mode, PlaybackMode::Rc);
    assert_eq!(config.radio_browser.base_url, "https://de1.api.radio-browser.info");
    assert_eq!(config.radio_browser.timeout_ms, 3000);
    assert_eq!(config.radio_browser.retries, 2);
    assert_eq!(config.defaults.sort, StationSort::Votes);
    assert_eq!(config.defaults.filters, StationFilters::default());
    let config = RuntimeConfig::load_from(Some(""), &pairs(&[("HOME", "/root")]))
        .expect("nothing to read");
    assert_eq!(config, RuntimeConfig::default());
}

#[test]
fn file_lines_report_their_errors() {
    let mut config = RuntimeConfig::default();
    assert_eq!(
        config.merge_toml_text("[playback\nmode = \"http\""),
        Err(ConfigError::InvalidSection(1))
    );
    assert_eq!(
        ConfigError::InvalidSection(1).message(),
        "line 1: invalid section syntax"
    );
    assert_eq!(
        config.merge_toml_text("\n# note\n[playback]\nmode"),
        Err(ConfigError::ExpectedKeyValue(4))
    );
    assert_eq!(
        ConfigError::ExpectedKeyValue(4).message(),
        "line 4: expected key=value"
    );
    assert_eq!(
        config.merge_toml_text("[radio_browser]\nbase_url = \"http://x"),
        Err(ConfigError::InvalidValue(2))
    );
    assert_eq!(
        ConfigError::InvalidValue(2).message(),
        "line 2: invalid value: unterminated string"
    );
    assert_eq!(
        config.merge_toml_text("[radio_browser]\nbase_url = 5"),
        Err(ConfigError::ExpectedString)
    );
    assert_eq!(
        config.merge_toml_text("[radio_browser]\ntimeout_ms = \"5\""),
        Err(ConfigError::ExpectedInteger)
    );
    assert_eq!(
        config.merge_toml_text("[radio_browser]\ntimeout_ms = soon"),
        Err(ConfigError::ExpectedInteger)
    );
    assert_eq!(
        config.merge_toml_text("[defaults.filters]\nmin_bitrate = 4294967296"),
        Err(ConfigError::OutOfRangeU32)
    );
    assert_eq!(
        config.merge_toml_text("[playback]\nmode = tcp"),
        Err(ConfigError::InvalidPlaybackMode("tcp".to_string()))
    );
    assert_eq!(
        ConfigError::InvalidPlaybackMode("tcp".to_string()).message(),
        "invalid playback mode 'tcp' (expected rc or http)"
    );
    assert_eq!(
        ConfigError::InvalidSort("listeners".to_string()).message(),
        "invalid sort 'listeners' (expected name, votes, clicks, bitrate)"
    );
    assert_eq!(ConfigError::ExpectedString.message(), "expected string value");
    assert_eq!(ConfigError::ExpectedInteger.message(), "expected integer value");
    assert_eq!(
        ConfigError::OutOfRangeU32.message(),
        "integer value is out of range for u32"
    );
    assert_eq!(
        ConfigError::OutOfRangeUsize.message(),
        "integer value is out of range for usize"
    );
    assert_eq!(config, RuntimeConfig::default());
}

#[test]
fn file_lines_before_an_error_count() {
    let mut config = RuntimeConfig::default();
    let err = config
        .merge_toml_text("[radio_browser]\nretries = 9\ntimeout_ms = never\nbase_url = \"x\"")
        .expect_err("third line fails");
    assert_eq!(err, ConfigError::ExpectedInteger);
    assert_eq!(config.radio_browser.retries, 9);
    assert_eq!(config.radio_browser.timeout_ms, 3000);
    assert_eq!(config.radio_browser.base_url, "https://de1.api.radio-browser.info");
}

#[test]
fn file_comments_sections_and_unknown_keys() {
    let mut config = RuntimeConfig::default();
    config
        .merge_toml_text(
            "# all of it\r\n[ radio_browser ]  # where\r\nbase_url = \"http://x/#top\" # the # stays\r\nretries=3#three\r\nunknown = 1\r\n[other]\nmode = \"http\"\n[defaults.filters]\ntag = \"  \"\ncountry = bare word\n[defaults]\nsort =  NAME ",
        )
        .expect("merge");
    assert_eq!(config.radio_browser.base_url, "http://x/#top");
    assert_eq!(config.radio_browser.retries, 3);
    assert_eq!(config.playback.mode, PlaybackMode::Rc);
    assert_eq!(config.defaults.filters.tag, None);
    assert_eq!(config.defaults.filters.country.as_deref(), Some("bare word"));
    assert_eq!(config.defaults.sort, StationSort::Name);
}

#[test]
fn comments_start_outside_quotes() {
    assert_eq!(strip_comment(&chars("a = 1 # one")), chars("a = 1 "));
    assert_eq!(strip_comment(&chars("a = \"#\" # one")), chars("a = \"#\" "));
    assert_eq!(strip_comment(&chars("# all")), chars(""));
    assert_eq!(strip_comment(&chars("no comment")), chars("no comment"));
    assert_eq!(strip_comment(&chars("a = \"open # rest")), chars("a = \"open # rest"));
    assert_eq!(strip_comment(&chars("")), chars(""));
}

#[test]
fn values_are_texts_numbers_or_bare_words() {
    assert_eq!(
        parse_value(&chars(" \"quoted text\" ")),
        Some(TomlValue::String("quoted text".to_string()))
    );
    assert_eq!(parse_value(&chars("\"\"")), Some(TomlValue::String(String::new())));
    assert_eq!(parse_value(&chars("\"")), None);
    assert_eq!(parse_value(&chars("\"open")), None);
    assert_eq!(parse_value(&chars("42")), Some(TomlValue::Integer(42)));
    assert_eq!(
        parse_value(&chars("18446744073709551615")),
        Some(TomlValue::Integer(u64::MAX))
    );
    assert_eq!(
        parse_value(&chars("18446744073709551616")),
        Some(TomlValue::String("18446744073709551616".to_string()))
    );
    assert_eq!(parse_value(&chars("-1")), Some(TomlValue::String("-1".to_string())));
    assert_eq!(parse_value(&chars("word")), Some(TomlValue::String("word".to_string())));
    assert_eq!(parse_value(&chars("")), Some(TomlValue::String(String::new())));

    let text = TomlValue::String("t".to_string());
    let number = TomlValue::Integer(5_000_000_000);
    assert_eq!(text.as_str(), Ok("t"));
    assert_eq!(number.as_str(), Err(ConfigError::ExpectedString));
    assert_eq!(text.as_u64(), Err(ConfigError::ExpectedInteger));
    assert_eq!(number.as_u64(), Ok(5_000_000_000));
    assert_eq!(number.as_u32(), Err(ConfigError::OutOfRangeU32));
    assert_eq!(TomlValue::Integer(7).as_u32(), Ok(7));
    assert_eq!(TomlValue::Integer(7).as_usize(), Ok(7));
    assert_eq!(text.as_usize(), Err(ConfigError::ExpectedInteger));
    assert_eq!(number.into_string(), Err(ConfigError::ExpectedString));
    assert_eq!(text.into_string(), Ok("t".to_string()));
}

#[test]
fn words_name_modes_and_sorts() {
    assert_eq!(PlaybackMode::parse(" RC "), Ok(PlaybackMode::Rc));
    assert_eq!(PlaybackMode::parse("Http"), Ok(PlaybackMode::Http));
    assert_eq!(
        PlaybackMode::parse("pipe"),
        Err(ConfigError::InvalidPlaybackMode("pipe".to_string()))
    );
    assert_eq!(parse_sort(" Clicks\n"), Ok(StationSort::Clicks));
    assert_eq!(
        parse_sort("click count"),
        Err(ConfigError::InvalidSort("click count".to_string()))
    );
    assert_eq!(non_empty("x".to_string()), Some("x".to_string()));
    assert_eq!(non_empty(" \t".to_string()), None);
    assert_eq!(non_empty(String::new()), None);
}

#[test]
fn variables_report_their_names() {
    let mut config = RuntimeConfig::default();
    let err = config
        .merge_env(&pairs(&[
            ("IRADIO_RADIO_BROWSER_BASE", "http://env"),
            ("IRADIO_RADIO_BROWSER_TIMEOUT_MS", "soon"),
            ("IRADIO_DEFAULT_SORT", "votes"),
        ]))
        .expect_err("timeout is no number");
    assert_eq!(
        err,
        ConfigError::InvalidVariable("IRADIO_RADIO_BROWSER_TIMEOUT_MS".to_string())
    );
    assert_eq!(err.message(), "invalid IRADIO_RADIO_BROWSER_TIMEOUT_MS");
    assert_eq!(config.radio_browser.base_url, "http://env");
    assert_eq!(config.defaults.sort, StationSort::Votes);

    for (name, value) in [
        ("IRADIO_PLAYBACK_MODE", "udp"),
        ("IRADIO_RADIO_BROWSER_MAX_RETRIES", "-1"),
        ("IRADIO_DEFAULT_SORT", "age"),
        ("IRADIO_DEFAULT_FILTER_MIN_BITRATE", "high"),
    ] {
        let mut config = RuntimeConfig::default();
        assert_eq!(
            config.merge_env(&pairs(&[(name, value)])),
            Err(ConfigError::InvalidVariable(name.to_string()))
        );
        assert_eq!(config, RuntimeConfig::default());
    }

    let mut config = RuntimeConfig::default();
    config
        .merge_env(&pairs(&[
            ("IRADIO_DEFAULT_FILTER_TAG", "jazz"),
            ("IRADIO_DEFAULT_FILTER_TAG", "rock"),
            ("IRADIO_DEFAULT_FILTER_LANGUAGE", " "),
            ("IRADIO_DEFAULT_FILTER_CODEC", "aac"),
            ("IRADIO_UNKNOWN", "x"),
        ]))
        .expect("merge variables");
    assert_eq!(config.defaults.filters.tag.as_deref(), Some("jazz"));
    assert_eq!(config.defaults.filters.language, None);
    assert_eq!(config.defaults.filters.codec.as_deref(), Some("aac"));
    assert_eq!(variable_label(0), "IRADIO_PLAYBACK_MODE");
    assert_eq!(variable_label(9), "IRADIO_DEFAULT_FILTER_MIN_BITRATE");
    config.apply_variable(1, "http://again").expect("base");
    assert_eq!(config.radio_browser.base_url, "http://again");
}
