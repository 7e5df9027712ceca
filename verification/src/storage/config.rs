//! The configuration of a session: defaults, overlaid by the text of a configuration file,
//! overlaid by variables of the environment.
//!
//! The file is a list of lines. `#` starts a comment unless it stands between double quotes.
//! A line in square brackets names the section of the lines behind it; every other line that
//! is not blank reads `key = value`, where the value is a text in double quotes, an unsigned
//! number, or a bare word. Keys that are not known are passed over.

use crate::domain::commands::{sort_from_word, sort_of_word};
use crate::domain::models::{StationFilters, StationFiltersView, StationSort};
use crate::text::{
    ascii_lowered, chars_of, concat, concat3, decimal_digits, decimal_string, decimal_up_to,
    fields, find_char, index_of, is_blank, parse_decimal, spells, split_on, string_of, subrange,
    to_ascii_lowercase, trim, trimmed, views,
};
use vstd::prelude::*;

verus! {

/// Through which control channel the player is reached.
#[derive(Debug, Clone, Copy, PartialEq, Eq, Structural)]
pub enum PlaybackMode {
    Rc,
    Http,
}

#[derive(Debug, PartialEq, Eq)]
pub struct PlaybackConfig {
    pub mode: PlaybackMode,
}

#[derive(Debug, PartialEq, Eq)]
pub struct RadioBrowserConfig {
    pub base_url: String,
    pub timeout_ms: u64,
    pub retries: usize,
}

#[derive(Debug, PartialEq, Eq)]
pub struct DefaultsConfig {
    pub sort: StationSort,
    pub filters: StationFilters,
}

/// The configuration of a session.
#[derive(Debug, PartialEq, Eq)]
pub struct RuntimeConfig {
    pub playback: PlaybackConfig,
    pub radio_browser: RadioBrowserConfig,
    pub defaults: DefaultsConfig,
}

/// What a [`RuntimeConfig`] says.
pub struct RuntimeConfigView {
    pub mode: PlaybackMode,
    pub base_url: Seq<char>,
    pub timeout_ms: u64,
    pub retries: usize,
    pub sort: StationSort,
    pub filters: StationFiltersView,
}

impl View for RuntimeConfig {
    type V = RuntimeConfigView;

    open spec fn view(&self) -> RuntimeConfigView {
        RuntimeConfigView {
            mode: self.playback.mode,
            base_url: self.radio_browser.base_url@,
            timeout_ms: self.radio_browser.timeout_ms,
            retries: self.radio_browser.retries,
            sort: self.defaults.sort,
            filters: self.defaults.filters@,
        }
    }
}

/// Why a configuration could not be read.
#[derive(Debug, PartialEq, Eq)]
pub enum ConfigError {
    /// The line with this number opens a section and does not close it.
    InvalidSection(usize),
    /// The line with this number holds no `=`.
    ExpectedKeyValue(usize),
    /// The line with this number holds a text in quotes that does not end.
    InvalidValue(usize),
    /// A number stands where a text is expected.
    ExpectedString,
    /// A text stands where a number is expected.
    ExpectedInteger,
    /// A number does not fit 32 bits.
    OutOfRangeU32,
    /// A number does not fit `usize`.
    OutOfRangeUsize,
    /// This text names no sort field.
    InvalidSort(String),
    /// This text names no playback mode.
    InvalidPlaybackMode(String),
    /// The variable with this name holds a value that cannot be used.
    InvalidVariable(String),
}

/// What a [`ConfigError`] says.
pub enum ConfigErrorView {
    InvalidSection(usize),
    ExpectedKeyValue(usize),
    InvalidValue(usize),
    ExpectedString,
    ExpectedInteger,
    OutOfRangeU32,
    OutOfRangeUsize,
    InvalidSort(Seq<char>),
    InvalidPlaybackMode(Seq<char>),
    InvalidVariable(Seq<char>),
}

impl View for ConfigError {
    type V = ConfigErrorView;

    open spec fn view(&self) -> ConfigErrorView {
        match self {
            ConfigError::InvalidSection(n) => ConfigErrorView::InvalidSection(*n),
            ConfigError::ExpectedKeyValue(n) => ConfigErrorView::ExpectedKeyValue(*n),
            ConfigError::InvalidValue(n) => ConfigErrorView::InvalidValue(*n),
            ConfigError::ExpectedString => ConfigErrorView::ExpectedString,
            ConfigError::ExpectedInteger => ConfigErrorView::ExpectedInteger,
            ConfigError::OutOfRangeU32 => ConfigErrorView::OutOfRangeU32,
            ConfigError::OutOfRangeUsize => ConfigErrorView::OutOfRangeUsize,
            ConfigError::InvalidSort(v) => ConfigErrorView::InvalidSort(v@),
            ConfigError::InvalidPlaybackMode(v) => ConfigErrorView::InvalidPlaybackMode(v@),
            ConfigError::InvalidVariable(n) => ConfigErrorView::InvalidVariable(n@),
        }
    }
}

impl ConfigErrorView {
    /// The sentence that reports the error.
    pub open spec fn message(self) -> Seq<char> {
        match self {
            ConfigErrorView::InvalidSection(n) => "line "@ + decimal_digits(n as nat)
                + ": invalid section syntax"@,
            ConfigErrorView::ExpectedKeyValue(n) => "line "@ + decimal_digits(n as nat)
                + ": expected key=value"@,
            ConfigErrorView::InvalidValue(n) => "line "@ + decimal_digits(n as nat)
                + ": invalid value: unterminated string"@,
            ConfigErrorView::ExpectedString => "expected string value"@,
            ConfigErrorView::ExpectedInteger => "expected integer value"@,
            ConfigErrorView::OutOfRangeU32 => "integer value is out of range for u32"@,
            ConfigErrorView::OutOfRangeUsize => "integer value is out of range for usize"@,
            ConfigErrorView::InvalidSort(v) => "invalid sort '"@ + v
                + "' (expected name, votes, clicks, bitrate)"@,
            ConfigErrorView::InvalidPlaybackMode(v) => "invalid playback mode '"@ + v
                + "' (expected rc or http)"@,
            ConfigErrorView::InvalidVariable(n) => "invalid "@ + n,
        }
    }
}

impl ConfigError {
    /// The sentence that reports the error.
    pub fn message(&self) -> (r: String)
        ensures
            r@ == self@.message(),
    {
        match self {
            ConfigError::InvalidSection(n) => concat3(
                "line ",
                decimal_string(*n as u64).as_str(),
                ": invalid section syntax",
            ),
            ConfigError::ExpectedKeyValue(n) => concat3(
                "line ",
                decimal_string(*n as u64).as_str(),
                ": expected key=value",
            ),
            ConfigError::InvalidValue(n) => concat3(
                "line ",
                decimal_string(*n as u64).as_str(),
                ": invalid value: unterminated string",
            ),
            ConfigError::ExpectedString => "expected string value".to_owned(),
            ConfigError::ExpectedInteger => "expected integer value".to_owned(),
            ConfigError::OutOfRangeU32 => "integer value is out of range for u32".to_owned(),
            ConfigError::OutOfRangeUsize => "integer value is out of range for usize".to_owned(),
            ConfigError::InvalidSort(v) => concat3(
                "invalid sort '",
                v.as_str(),
                "' (expected name, votes, clicks, bitrate)",
            ),
            ConfigError::InvalidPlaybackMode(v) => concat3(
                "invalid playback mode '",
                v.as_str(),
                "' (expected rc or http)",
            ),
            ConfigError::InvalidVariable(n) => concat("invalid ", n.as_str()),
        }
    }
}

/// A value of the configuration file.
#[derive(Debug, PartialEq, Eq)]
pub enum TomlValue {
    String(String),
    Integer(u64),
}

/// What a [`TomlValue`] says.
pub enum TomlValueView {
    String(Seq<char>),
    Integer(u64),
}

impl View for TomlValue {
    type V = TomlValueView;

    open spec fn view(&self) -> TomlValueView {
        match self {
            TomlValue::String(s) => TomlValueView::String(s@),
            TomlValue::Integer(n) => TomlValueView::Integer(*n),
        }
    }
}

impl TomlValueView {
    /// The text of the value; a number is none.
    pub open spec fn text(self) -> Result<Seq<char>, ConfigErrorView> {
        match self {
            TomlValueView::String(s) => Ok(s),
            TomlValueView::Integer(_) => Err(ConfigErrorView::ExpectedString),
        }
    }

    /// The number of the value; a text is none.
    pub open spec fn number(self) -> Result<u64, ConfigErrorView> {
        match self {
            TomlValueView::Integer(n) => Ok(n),
            TomlValueView::String(_) => Err(ConfigErrorView::ExpectedInteger),
        }
    }

    /// The number of the value where it fits 32 bits.
    pub open spec fn number_u32(self) -> Result<u32, ConfigErrorView> {
        match self.number() {
            Ok(n) => if n <= u32::MAX {
                Ok(n as u32)
            } else {
                Err(ConfigErrorView::OutOfRangeU32)
            },
            Err(e) => Err(e),
        }
    }

    /// The number of the value where it fits `usize`.
    pub open spec fn number_usize(self) -> Result<usize, ConfigErrorView> {
        match self.number() {
            Ok(n) => if n <= usize::MAX {
                Ok(n as usize)
            } else {
                Err(ConfigErrorView::OutOfRangeUsize)
            },
            Err(e) => Err(e),
        }
    }
}

/// What a text read from a value, or the error, says.
pub open spec fn text_view(r: Result<String, ConfigError>) -> Result<Seq<char>, ConfigErrorView> {
    match r {
        Ok(s) => Ok(s@),
        Err(e) => Err(e@),
    }
}

/// What something plain read from a configuration, or the error, says.
pub open spec fn plain_view<T>(r: Result<T, ConfigError>) -> Result<T, ConfigErrorView> {
    match r {
        Ok(v) => Ok(v),
        Err(e) => Err(e@),
    }
}

/// What the outcome of a step that changes a configuration in place says.
pub open spec fn failure(r: Result<(), ConfigError>) -> Option<ConfigErrorView> {
    match r {
        Ok(_) => None,
        Err(e) => Some(e@),
    }
}

impl TomlValue {
    pub fn as_str(&self) -> (r: Result<&str, ConfigError>)
        ensures
            match r {
                Ok(s) => self@.text() == Ok::<Seq<char>, ConfigErrorView>(s@),
                Err(e) => self@.text() == Err::<Seq<char>, ConfigErrorView>(e@),
            },
    {
        match self {
            TomlValue::String(value) => Ok(value.as_str()),
            TomlValue::Integer(_) => Err(ConfigError::ExpectedString),
        }
    }

    pub fn into_string(self) -> (r: Result<String, ConfigError>)
        ensures
            text_view(r) == self@.text(),
    {
        match self {
            TomlValue::String(value) => Ok(value),
            TomlValue::Integer(_) => Err(ConfigError::ExpectedString),
        }
    }

    pub fn as_u64(&self) -> (r: Result<u64, ConfigError>)
        ensures
            plain_view(r) == self@.number(),
    {
        match self {
            TomlValue::Integer(value) => Ok(*value),
            TomlValue::String(_) => Err(ConfigError::ExpectedInteger),
        }
    }

    pub fn as_u32(&self) -> (r: Result<u32, ConfigError>)
        ensures
            plain_view(r) == self@.number_u32(),
    {
        match self.as_u64() {
            Ok(n) => {
                if n <= u32::MAX as u64 {
                    Ok(n as u32)
                } else {
                    Err(ConfigError::OutOfRangeU32)
                }
            },
            Err(e) => Err(e),
        }
    }

    pub fn as_usize(&self) -> (r: Result<usize, ConfigError>)
        ensures
            plain_view(r) == self@.number_usize(),
    {
        match self.as_u64() {
            Ok(n) => {
                if n <= usize::MAX as u64 {
                    Ok(n as usize)
                } else {
                    Err(ConfigError::OutOfRangeUsize)
                }
            },
            Err(e) => Err(e),
        }
    }
}

/// The playback mode that a text names, in any case of the letters and with white space
/// around it.
pub open spec fn mode_of(value: Seq<char>) -> Option<PlaybackMode> {
    let word = ascii_lowered(trimmed(value));
    if word == "rc"@ {
        Some(PlaybackMode::Rc)
    } else if word == "http"@ {
        Some(PlaybackMode::Http)
    } else {
        None
    }
}

/// The playback mode that a text names, or the error that carries the text.
pub open spec fn mode_named(value: Seq<char>) -> Result<PlaybackMode, ConfigErrorView> {
    match mode_of(value) {
        Some(m) => Ok(m),
        None => Err(ConfigErrorView::InvalidPlaybackMode(value)),
    }
}

/// The sort field that a text names, in any case of the letters and with white space around
/// it, or the error that carries the text.
pub open spec fn sort_named(value: Seq<char>) -> Result<StationSort, ConfigErrorView> {
    match sort_of_word(ascii_lowered(trimmed(value))) {
        Some(s) => Ok(s),
        None => Err(ConfigErrorView::InvalidSort(value)),
    }
}

/// The text, unless it is blank.
pub open spec fn non_blank(value: Seq<char>) -> Option<Seq<char>> {
    if is_blank(value) {
        None
    } else {
        Some(value)
    }
}

/// Where the comment of a line starts: at the first `#` that does not stand between double
/// quotes, or at the end of the line. `quoted` says whether the line starts between quotes.
pub open spec fn comment_start(line: Seq<char>, quoted: bool) -> int
    decreases line.len(),
{
    if line.len() == 0 {
        0
    } else if line[0] == '"' {
        1 + comment_start(line.drop_first(), !quoted)
    } else if line[0] == '#' && !quoted {
        0
    } else {
        1 + comment_start(line.drop_first(), quoted)
    }
}

/// The line without its comment.
pub open spec fn without_comment(line: Seq<char>) -> Seq<char> {
    line.take(comment_start(line, false))
}

/// The value that a text writes: between double quotes a text, which must end with a quote
/// too; else an unsigned 64-bit number where it is a numeral; else the text as a bare word.
pub open spec fn value_of(raw: Seq<char>) -> Option<TomlValueView> {
    let t = trimmed(raw);
    if t.len() > 0 && t[0] == '"' {
        if t.len() < 2 || t.last() != '"' {
            None
        } else {
            Some(TomlValueView::String(t.subrange(1, t.len() - 1)))
        }
    } else {
        match decimal_up_to(t, u64::MAX as nat) {
            Some(n) => Some(TomlValueView::Integer(n as u64)),
            None => Some(TomlValueView::String(t)),
        }
    }
}

/// The configuration with one value of the file put in its place. A pair of section and key
/// that is not known changes nothing.
pub open spec fn applied(
    c: RuntimeConfigView,
    section: Seq<char>,
    key: Seq<char>,
    value: TomlValueView,
) -> Result<RuntimeConfigView, ConfigErrorView> {
    if section == "playback"@ && key == "mode"@ {
        match value.text() {
            Ok(t) => match mode_named(t) {
                Ok(m) => Ok(RuntimeConfigView { mode: m, ..c }),
                Err(e) => Err(e),
            },
            Err(e) => Err(e),
        }
    } else if section == "radio_browser"@ && key == "base_url"@ {
        match value.text() {
            Ok(t) => Ok(RuntimeConfigView { base_url: t, ..c }),
            Err(e) => Err(e),
        }
    } else if section == "radio_browser"@ && key == "timeout_ms"@ {
        match value.number() {
            Ok(n) => Ok(RuntimeConfigView { timeout_ms: n, ..c }),
            Err(e) => Err(e),
        }
    } else if section == "radio_browser"@ && key == "retries"@ {
        match value.number_usize() {
            Ok(n) => Ok(RuntimeConfigView { retries: n, ..c }),
            Err(e) => Err(e),
        }
    } else if section == "defaults"@ && key == "sort"@ {
        match value.text() {
            Ok(t) => match sort_named(t) {
                Ok(s) => Ok(RuntimeConfigView { sort: s, ..c }),
                Err(e) => Err(e),
            },
            Err(e) => Err(e),
        }
    } else if section == "defaults.filters"@ && key == "country"@ {
        match value.text() {
            Ok(t) => Ok(
                RuntimeConfigView {
                    filters: StationFiltersView { country: non_blank(t), ..c.filters },
                    ..c
                },
            ),
            Err(e) => Err(e),
        }
    } else if section == "defaults.filters"@ && key == "language"@ {
        match value.text() {
            Ok(t) => Ok(
                RuntimeConfigView {
                    filters: StationFiltersView { language: non_blank(t), ..c.filters },
                    ..c
                },
            ),
            Err(e) => Err(e),
        }
    } else if section == "defaults.filters"@ && key == "tag"@ {
        match value.text() {
            Ok(t) => Ok(
                RuntimeConfigView {
                    filters: StationFiltersView { tag: non_blank(t), ..c.filters },
                    ..c
                },
            ),
            Err(e) => Err(e),
        }
    } else if section == "defaults.filters"@ && key == "codec"@ {
        match value.text() {
            Ok(t) => Ok(
                RuntimeConfigView {
                    filters: StationFiltersView { codec: non_blank(t), ..c.filters },
                    ..c
                },
            ),
            Err(e) => Err(e),
        }
    } else if section == "defaults.filters"@ && key == "min_bitrate"@ {
        match value.number_u32() {
            Ok(n) => Ok(
                RuntimeConfigView {
                    filters: StationFiltersView { min_bitrate: Some(n), ..c.filters },
                    ..c
                },
            ),
            Err(e) => Err(e),
        }
    } else {
        Ok(c)
    }
}

/// How far a file has been read: the configuration so far and the section of the next line.
pub struct Reading {
    pub config: RuntimeConfigView,
    pub section: Seq<char>,
}

/// The reading after line number `n`, which reads `raw`.
pub open spec fn after_line(r: Reading, n: nat, raw: Seq<char>) -> Result<
    Reading,
    ConfigErrorView,
> {
    let line = trimmed(without_comment(raw));
    if line.len() == 0 {
        Ok(r)
    } else if line[0] == '[' {
        if line.last() != ']' {
            Err(ConfigErrorView::InvalidSection(n as usize))
        } else {
            Ok(Reading { section: trimmed(line.subrange(1, line.len() - 1)), ..r })
        }
    } else {
        let k = index_of(line, '=');
        if k >= line.len() {
            Err(ConfigErrorView::ExpectedKeyValue(n as usize))
        } else {
            match value_of(trimmed(line.skip(k + 1))) {
                None => Err(ConfigErrorView::InvalidValue(n as usize)),
                Some(value) => match applied(r.config, r.section, trimmed(line.take(k)), value) {
                    Ok(c) => Ok(Reading { config: c, ..r }),
                    Err(e) => Err(e),
                },
            }
        }
    }
}

/// The reading after the first `upto` lines, and the error of the first line in error: the
/// lines before it count, the lines behind it do not.
pub open spec fn after_lines(start: Reading, lines: Seq<Seq<char>>, upto: nat) -> (
    Reading,
    Option<ConfigErrorView>,
)
    decreases upto,
{
    if upto == 0 {
        (start, None)
    } else {
        let before = after_lines(start, lines, (upto - 1) as nat);
        match before.1 {
            Some(e) => before,
            None => match after_line(before.0, upto, lines[upto - 1]) {
                Ok(next) => (next, None),
                Err(e) => (before.0, Some(e)),
            },
        }
    }
}

/// The configuration overlaid by the text of a file, and the error of its first line in
/// error.
pub open spec fn merged_text(c: RuntimeConfigView, content: Seq<char>) -> (
    RuntimeConfigView,
    Option<ConfigErrorView>,
) {
    let lines = fields(content, '\n');
    let end = after_lines(Reading { config: c, section: Seq::empty() }, lines, lines.len());
    (end.0.config, end.1)
}

/// Once a line is in error, the lines behind it change nothing.
pub proof fn lemma_after_lines_first_error(
    start: Reading,
    lines: Seq<Seq<char>>,
    k: nat,
    upto: nat,
)
    requires
        k <= upto,
        after_lines(start, lines, k).1 is Some,
    ensures
        after_lines(start, lines, upto) == after_lines(start, lines, k),
    decreases upto,
{
    if k < upto {
        lemma_after_lines_first_error(start, lines, k, (upto - 1) as nat);
    }
}

/// The value of the first variable with the name.
pub open spec fn variable(vars: Seq<(Seq<char>, Seq<char>)>, name: Seq<char>) -> Option<
    Seq<char>,
>
    decreases vars.len(),
{
    if vars.len() == 0 {
        None
    } else if vars[0].0 == name {
        Some(vars[0].1)
    } else {
        variable(vars.drop_first(), name)
    }
}

/// The names of the variables that overlay a configuration, in the order in which they are
/// read.
pub open spec fn variable_name(k: nat) -> Seq<char> {
    if k == 0 {
        "IRADIO_PLAYBACK_MODE"@
    } else if k == 1 {
        "IRADIO_RADIO_BROWSER_BASE"@
    } else if k == 2 {
        "IRADIO_RADIO_BROWSER_TIMEOUT_MS"@
    } else if k == 3 {
        "IRADIO_RADIO_BROWSER_MAX_RETRIES"@
    } else if k == 4 {
        "IRADIO_DEFAULT_SORT"@
    } else if k == 5 {
        "IRADIO_DEFAULT_FILTER_COUNTRY"@
    } else if k == 6 {
        "IRADIO_DEFAULT_FILTER_LANGUAGE"@
    } else if k == 7 {
        "IRADIO_DEFAULT_FILTER_TAG"@
    } else if k == 8 {
        "IRADIO_DEFAULT_FILTER_CODEC"@
    } else {
        "IRADIO_DEFAULT_FILTER_MIN_BITRATE"@
    }
}

/// How many variables overlay a configuration.
pub const VARIABLES: usize = 10;

/// The configuration with the value of variable number `k` put in its place. A value that
/// cannot be used is an error that names the variable; the filters take any text, and a blank
/// one unsets the filter.
pub open spec fn with_variable(c: RuntimeConfigView, k: nat, value: Seq<char>) -> Result<
    RuntimeConfigView,
    ConfigErrorView,
> {
    let bad = Err::<RuntimeConfigView, ConfigErrorView>(
        ConfigErrorView::InvalidVariable(variable_name(k)),
    );
    if k == 0 {
        match mode_of(value) {
            Some(m) => Ok(RuntimeConfigView { mode: m, ..c }),
            None => bad,
        }
    } else if k == 1 {
        Ok(RuntimeConfigView { base_url: value, ..c })
    } else if k == 2 {
        match decimal_up_to(value, u64::MAX as nat) {
            Some(n) => Ok(RuntimeConfigView { timeout_ms: n as u64, ..c }),
            None => bad,
        }
    } else if k == 3 {
        match decimal_up_to(value, usize::MAX as nat) {
            Some(n) => Ok(RuntimeConfigView { retries: n as usize, ..c }),
            None => bad,
        }
    } else if k == 4 {
        match sort_of_word(ascii_lowered(trimmed(value))) {
            Some(s) => Ok(RuntimeConfigView { sort: s, ..c }),
            None => bad,
        }
    } else if k == 5 {
        Ok(
            RuntimeConfigView {
                filters: StationFiltersView { country: non_blank(value), ..c.filters },
                ..c
            },
        )
    } else if k == 6 {
        Ok(
            RuntimeConfigView {
                filters: StationFiltersView { language: non_blank(value), ..c.filters },
                ..c
            },
        )
    } else if k == 7 {
        Ok(
            RuntimeConfigView {
                filters: StationFiltersView { tag: non_blank(value), ..c.filters },
                ..c
            },
        )
    } else if k == 8 {
        Ok(
            RuntimeConfigView {
                filters: StationFiltersView { codec: non_blank(value), ..c.filters },
                ..c
            },
        )
    } else {
        match decimal_up_to(value, u32::MAX as nat) {
            Some(n) => Ok(
                RuntimeConfigView {
                    filters: StationFiltersView { min_bitrate: Some(n as u32), ..c.filters },
                    ..c
                },
            ),
            None => bad,
        }
    }
}

/// The configuration overlaid by the first `upto` variables, and the error of the first
/// variable in error: the variables before it count, the variables behind it do not. A
/// variable that is not set changes nothing.
pub open spec fn after_variables(
    c: RuntimeConfigView,
    vars: Seq<(Seq<char>, Seq<char>)>,
    upto: nat,
) -> (RuntimeConfigView, Option<ConfigErrorView>)
    decreases upto,
{
    if upto == 0 {
        (c, None)
    } else {
        let before = after_variables(c, vars, (upto - 1) as nat);
        match before.1 {
            Some(e) => before,
            None => match variable(vars, variable_name((upto - 1) as nat)) {
                None => before,
                Some(value) => match with_variable(before.0, (upto - 1) as nat, value) {
                    Ok(next) => (next, None),
                    Err(e) => (before.0, Some(e)),
                },
            },
        }
    }
}

/// The configuration overlaid by the variables of the environment.
pub open spec fn merged_variables(c: RuntimeConfigView, vars: Seq<(Seq<char>, Seq<char>)>) -> (
    RuntimeConfigView,
    Option<ConfigErrorView>,
) {
    after_variables(c, vars, VARIABLES as nat)
}

/// Once a variable is in error, the variables behind it change nothing.
pub proof fn lemma_after_variables_first_error(
    c: RuntimeConfigView,
    vars: Seq<(Seq<char>, Seq<char>)>,
    k: nat,
    upto: nat,
)
    requires
        k <= upto,
        after_variables(c, vars, k).1 is Some,
    ensures
        after_variables(c, vars, upto) == after_variables(c, vars, k),
    decreases upto,
{
    if k < upto {
        lemma_after_variables_first_error(c, vars, k, (upto - 1) as nat);
    }
}

/// The configuration that is used where nothing else is said.
pub open spec fn default_config() -> RuntimeConfigView {
    RuntimeConfigView {
        mode: PlaybackMode::Rc,
        base_url: "https://de1.api.radio-browser.info"@,
        timeout_ms: 3000,
        retries: 2,
        sort: StationSort::Votes,
        filters: StationFiltersView::none(),
    }
}

/// The configuration of a session: the defaults, overlaid by the file where there is one,
/// overlaid by the variables. The first error ends the reading.
pub open spec fn loaded(content: Option<Seq<char>>, vars: Seq<(Seq<char>, Seq<char>)>) -> Result<
    RuntimeConfigView,
    ConfigErrorView,
> {
    let from_file = match content {
        Some(text) => merged_text(default_config(), text),
        None => (default_config(), None),
    };
    match from_file.1 {
        Some(e) => Err(e),
        None => {
            let from_vars = merged_variables(from_file.0, vars);
            match from_vars.1 {
                Some(e) => Err(e),
                None => Ok(from_vars.0),
            }
        },
    }
}

/// What the variables of the environment say.
pub open spec fn variable_views(v: Seq<(String, String)>) -> Seq<(Seq<char>, Seq<char>)> {
    v.map_values(|p: (String, String)| (p.0@, p.1@))
}

/// What a configuration that was loaded, or the error, says.
pub open spec fn loaded_view(r: Result<RuntimeConfig, ConfigError>) -> Result<
    RuntimeConfigView,
    ConfigErrorView,
> {
    match r {
        Ok(c) => Ok(c@),
        Err(e) => Err(e@),
    }
}

impl PlaybackMode {
    /// The playback mode that a text names.
    pub fn parse(value: &str) -> (r: Result<PlaybackMode, ConfigError>)
        ensures
            plain_view(r) == mode_named(value@),
    {
        let word = to_ascii_lowercase(&trim(&chars_of(value)));
        if spells(&word, "rc") {
            Ok(PlaybackMode::Rc)
        } else if spells(&word, "http") {
            Ok(PlaybackMode::Http)
        } else {
            Err(ConfigError::InvalidPlaybackMode(value.to_owned()))
        }
    }
}

/// The sort field that a text names.
pub fn parse_sort(value: &str) -> (r: Result<StationSort, ConfigError>)
    ensures
        plain_view(r) == sort_named(value@),
{
    let word = to_ascii_lowercase(&trim(&chars_of(value)));
    match sort_from_word(&word) {
        Some(s) => Ok(s),
        None => Err(ConfigError::InvalidSort(value.to_owned())),
    }
}

/// The text, unless it is blank.
pub fn non_empty(value: String) -> (r: Option<String>)
    ensures
        crate::text::opt_text(r) == non_blank(value@),
{
    if crate::text::blank(value.as_str()) {
        None
    } else {
        Some(value)
    }
}

/// The line without its comment.
pub fn strip_comment(line: &Vec<char>) -> (r: Vec<char>)
    ensures
        r@ == without_comment(line@),
{
    let mut quoted: bool = false;
    let mut i: usize = 0;
    assert(line@.skip(0) =~= line@);
    while i < line.len() && !(line[i] == '#' && !quoted)
        invariant
            i <= line.len(),
            comment_start(line@, false) == i + comment_start(line@.skip(i as int), quoted),
        decreases line.len() - i,
    {
        assert(line@.skip(i as int).drop_first() =~= line@.skip(i + 1));
        assert(line@.skip(i as int)[0] == line@[i as int]);
        if line[i] == '"' {
            quoted = !quoted;
        }
        i += 1;
    }
    proof {
        if i < line.len() {
            assert(line@.skip(i as int)[0] == line@[i as int]);
        }
        assert(comment_start(line@, false) == i);
    }
    let r = subrange(line, 0, i);
    assert(r@ =~= line@.take(i as int));
    r
}

/// The value that a text writes, or `None` for a text in quotes that does not end.
pub fn parse_value(raw: &Vec<char>) -> (r: Option<TomlValue>)
    ensures
        match r {
            Some(v) => value_of(raw@) == Some(v@),
            None => value_of(raw@).is_none(),
        },
{
    let t = trim(raw);
    if t.len() > 0 && t[0] == '"' {
        if t.len() < 2 || t[t.len() - 1] != '"' {
            return None;
        }
        return Some(TomlValue::String(string_of(&subrange(&t, 1, t.len() - 1))));
    }
    match parse_decimal(&t, u64::MAX) {
        Some(n) => Some(TomlValue::Integer(n)),
        None => Some(TomlValue::String(string_of(&t))),
    }
}

impl Default for RuntimeConfig {
    fn default() -> (r: Self)
        ensures
            r@ == default_config(),
    {
        RuntimeConfig {
            playback: PlaybackConfig { mode: PlaybackMode::Rc },
            radio_browser: RadioBrowserConfig {
                base_url: "https://de1.api.radio-browser.info".to_owned(),
                timeout_ms: 3000,
                retries: 2,
            },
            defaults: DefaultsConfig {
                sort: StationSort::default(),
                filters: StationFilters::default(),
            },
        }
    }
}

impl RuntimeConfig {
    /// Puts one value of the file in its place.
    pub fn apply_file_value(&mut self, section: &Vec<char>, key: &Vec<char>, value: TomlValue) -> (r:
        Result<(), ConfigError>)
        ensures
            match applied(old(self)@, section@, key@, value@) {
                Ok(c) => final(self)@ == c && r is Ok,
                Err(e) => final(self)@ == old(self)@ && failure(r) == Some(e),
            },
    {
        if spells(section, "playback") && spells(key, "mode") {
            match value.into_string() {
                Ok(t) => match PlaybackMode::parse(t.as_str()) {
                    Ok(m) => {
                        self.playback.mode = m;
                        Ok(())
                    },
                    Err(e) => Err(e),
                },
                Err(e) => Err(e),
            }
        } else if spells(section, "radio_browser") && spells(key, "base_url") {
            match value.into_string() {
                Ok(t) => {
                    self.radio_browser.base_url = t;
                    Ok(())
                },
                Err(e) => Err(e),
            }
        } else if spells(section, "radio_browser") && spells(key, "timeout_ms") {
            match value.as_u64() {
                Ok(n) => {
                    self.radio_browser.timeout_ms = n;
                    Ok(())
                },
                Err(e) => Err(e),
            }
        } else if spells(section, "radio_browser") && spells(key, "retries") {
            match value.as_usize() {
                Ok(n) => {
                    self.radio_browser.retries = n;
                    Ok(())
                },
                Err(e) => Err(e),
            }
        } else if spells(section, "defaults") && spells(key, "sort") {
            match value.into_string() {
                Ok(t) => match parse_sort(t.as_str()) {
                    Ok(s) => {
                        self.defaults.sort = s;
                        Ok(())
                    },
                    Err(e) => Err(e),
                },
                Err(e) => Err(e),
            }
        } else if spells(section, "defaults.filters") && spells(key, "country") {
            match value.into_string() {
                Ok(t) => {
                    self.defaults.filters.country = non_empty(t);
                    Ok(())
                },
                Err(e) => Err(e),
            }
        } else if spells(section, "defaults.filters") && spells(key, "language") {
            match value.into_string() {
                Ok(t) => {
                    self.defaults.filters.language = non_empty(t);
                    Ok(())
                },
                Err(e) => Err(e),
            }
        } else if spells(section, "defaults.filters") && spells(key, "tag") {
            match value.into_string() {
                Ok(t) => {
                    self.defaults.filters.tag = non_empty(t);
                    Ok(())
                },
                Err(e) => Err(e),
            }
        } else if spells(section, "defaults.filters") && spells(key, "codec") {
            match value.into_string() {
                Ok(t) => {
                    self.defaults.filters.codec = non_empty(t);
                    Ok(())
                },
                Err(e) => Err(e),
            }
        } else if spells(section, "defaults.filters") && spells(key, "min_bitrate") {
            match value.as_u32() {
                Ok(n) => {
                    self.defaults.filters.min_bitrate = Some(n);
                    Ok(())
                },
                Err(e) => Err(e),
            }
        } else {
            Ok(())
        }
    }

    fn merge_line(&mut self, section: &mut Vec<char>, n: usize, raw: &Vec<char>) -> (r: Result<
        (),
        ConfigError,
    >)
        ensures
            match after_line(
                Reading { config: old(self)@, section: old(section)@ },
                n as nat,
                raw@,
            ) {
                Ok(next) => final(self)@ == next.config && final(section)@ == next.section
                    && r is Ok,
                Err(e) => final(self)@ == old(self)@ && final(section)@ == old(section)@
                    && failure(r) == Some(e),
            },
    {
        let line = trim(&strip_comment(raw));
        if line.len() == 0 {
            return Ok(());
        }
        if line[0] == '[' {
            if line[line.len() - 1] != ']' {
                return Err(ConfigError::InvalidSection(n));
            }
            *section = trim(&subrange(&line, 1, line.len() - 1));
            return Ok(());
        }
        let k = find_char(&line, '=');
        if k >= line.len() {
            return Err(ConfigError::ExpectedKeyValue(n));
        }
        let key = trim(&subrange(&line, 0, k));
        let value_raw = trim(&subrange(&line, k + 1, line.len()));
        assert(line@.take(k as int) =~= line@.subrange(0, k as int));
        assert(line@.skip(k + 1) =~= line@.subrange(k + 1, line.len() as int));
        match parse_value(&value_raw) {
            None => Err(ConfigError::InvalidValue(n)),
            Some(value) => self.apply_file_value(section, &key, value),
        }
    }

    /// Overlays the configuration with the text of a file. The lines before the first line in
    /// error count, also where an error is returned.
    pub fn merge_toml_text(&mut self, content: &str) -> (r: Result<(), ConfigError>)
        ensures
            (final(self)@, failure(r)) == merged_text(old(self)@, content@),
    {
        let lines = split_on(&chars_of(content), '\n');
        let ghost all = views(lines@);
        let ghost start = Reading { config: self@, section: Seq::empty() };
        let mut section: Vec<char> = Vec::new();
        let mut i: usize = 0;
        while i < lines.len()
            invariant
                i <= lines.len(),
                start == (Reading { config: old(self)@, section: Seq::empty() }),
                all == views(lines@),
                all == fields(content@, '\n'),
                after_lines(start, all, i as nat) == (
                    Reading { config: self@, section: section@ },
                    None::<ConfigErrorView>,
                ),
            decreases lines.len() - i,
        {
            assert(all[i as int] == lines@[i as int]@);
            let ghost before = Reading { config: self@, section: section@ };
            match self.merge_line(&mut section, i + 1, &lines[i]) {
                Ok(()) => {},
                Err(e) => {
                    proof {
                        assert(after_line(before, (i + 1) as nat, all[i as int]) == Err::<
                            Reading,
                            ConfigErrorView,
                        >(e@));
                        assert(after_lines(start, all, (i + 1) as nat) == (before, Some(e@)));
                        lemma_after_lines_first_error(
                            start,
                            all,
                            (i + 1) as nat,
                            lines.len() as nat,
                        );
                    }
                    return Err(e);
                },
            }
            i += 1;
        }
        Ok(())
    }

    /// Puts the value of variable number `k` in its place.
    pub fn apply_variable(&mut self, k: usize, value: &str) -> (r: Result<(), ConfigError>)
        requires
            k < VARIABLES,
        ensures
            match with_variable(old(self)@, k as nat, value@) {
                Ok(c) => final(self)@ == c && r is Ok,
                Err(e) => final(self)@ == old(self)@ && failure(r) == Some(e),
            },
    {
        let v = chars_of(value);
        if k == 0 {
            match PlaybackMode::parse(value) {
                Ok(m) => {
                    self.playback.mode = m;
                    Ok(())
                },
                Err(_) => Err(ConfigError::InvalidVariable(variable_label(k).to_owned())),
            }
        } else if k == 1 {
            self.radio_browser.base_url = value.to_owned();
            Ok(())
        } else if k == 2 {
            match parse_decimal(&v, u64::MAX) {
                Some(n) => {
                    self.radio_browser.timeout_ms = n;
                    Ok(())
                },
                None => Err(ConfigError::InvalidVariable(variable_label(k).to_owned())),
            }
        } else if k == 3 {
            match parse_decimal(&v, usize::MAX as u64) {
                Some(n) => {
                    self.radio_browser.retries = n as usize;
                    Ok(())
                },
                None => Err(ConfigError::InvalidVariable(variable_label(k).to_owned())),
            }
        } else if k == 4 {
            match parse_sort(value) {
                Ok(s) => {
                    self.defaults.sort = s;
                    Ok(())
                },
                Err(_) => Err(ConfigError::InvalidVariable(variable_label(k).to_owned())),
            }
        } else if k == 5 {
            self.defaults.filters.country = non_empty(value.to_owned());
            Ok(())
        } else if k == 6 {
            self.defaults.filters.language = non_empty(value.to_owned());
            Ok(())
        } else if k == 7 {
            self.defaults.filters.tag = non_empty(value.to_owned());
            Ok(())
        } else if k == 8 {
            self.defaults.filters.codec = non_empty(value.to_owned());
            Ok(())
        } else {
            match parse_decimal(&v, u32::MAX as u64) {
                Some(n) => {
                    self.defaults.filters.min_bitrate = Some(n as u32);
                    Ok(())
                },
                None => Err(ConfigError::InvalidVariable(variable_label(k).to_owned())),
            }
        }
    }

    /// Overlays the configuration with the variables of the environment, handed in as pairs
    /// of name and value. The variables before the first variable in error count, also where
    /// an error is returned.
    pub fn merge_env(&mut self, vars: &Vec<(String, String)>) -> (r: Result<(), ConfigError>)
        ensures
            (final(self)@, failure(r)) == merged_variables(old(self)@, variable_views(vars@)),
    {
        let ghost start = self@;
        let ghost all = variable_views(vars@);
        let mut k: usize = 0;
        while k < VARIABLES
            invariant
                k <= VARIABLES,
                start == old(self)@,
                all == variable_views(vars@),
                after_variables(start, all, k as nat) == (self@, None::<ConfigErrorView>),
            decreases VARIABLES - k,
        {
            match lookup(vars, variable_label(k)) {
                None => {},
                Some(value) => {
                    let ghost before = self@;
                    match self.apply_variable(k, value.as_str()) {
                        Ok(()) => {},
                        Err(e) => {
                            proof {
                                assert(with_variable(before, k as nat, value@) == Err::<
                                    RuntimeConfigView,
                                    ConfigErrorView,
                                >(e@));
                                assert(after_variables(start, all, (k + 1) as nat) == (
                                    before,
                                    Some(e@),
                                ));
                                lemma_after_variables_first_error(
                                    start,
                                    all,
                                    (k + 1) as nat,
                                    VARIABLES as nat,
                                );
                            }
                            return Err(e);
                        },
                    }
                },
            }
            k += 1;
        }
        Ok(())
    }

    /// The configuration of a session, from the text of the configuration file, where there
    /// is one, and the variables of the environment.
    pub fn load_from(content: Option<&str>, vars: &Vec<(String, String)>) -> (r: Result<
        RuntimeConfig,
        ConfigError,
    >)
        ensures
            loaded_view(r) == loaded(
                match content {
                    Some(text) => Some(text@),
                    None => None,
                },
                variable_views(vars@),
            ),
    {
        let mut config = RuntimeConfig::default();
        match content {
            Some(text) => {
                match config.merge_toml_text(text) {
                    Ok(()) => {},
                    Err(e) => {
                        return Err(e);
                    },
                }
            },
            None => {},
        }
        match config.merge_env(vars) {
            Ok(()) => Ok(config),
            Err(e) => Err(e),
        }
    }
}

/// The name of variable number `k`.
pub fn variable_label(k: usize) -> (r: &'static str)
    ensures
        r@ == variable_name(k as nat),
{
    if k == 0 {
        "IRADIO_PLAYBACK_MODE"
    } else if k == 1 {
        "IRADIO_RADIO_BROWSER_BASE"
    } else if k == 2 {
        "IRADIO_RADIO_BROWSER_TIMEOUT_MS"
    } else if k == 3 {
        "IRADIO_RADIO_BROWSER_MAX_RETRIES"
    } else if k == 4 {
        "IRADIO_DEFAULT_SORT"
    } else if k == 5 {
        "IRADIO_DEFAULT_FILTER_COUNTRY"
    } else if k == 6 {
        "IRADIO_DEFAULT_FILTER_LANGUAGE"
    } else if k == 7 {
        "IRADIO_DEFAULT_FILTER_TAG"
    } else if k == 8 {
        "IRADIO_DEFAULT_FILTER_CODEC"
    } else {
        "IRADIO_DEFAULT_FILTER_MIN_BITRATE"
    }
}

fn lookup<'a>(vars: &'a Vec<(String, String)>, name: &str) -> (r: Option<&'a String>)
    ensures
        crate::text::opt_ref_text(r) == variable(variable_views(vars@), name@),
{
    let wanted = chars_of(name);
    let ghost all = variable_views(vars@);
    let mut i: usize = 0;
    assert(all.skip(0) =~= all);
    while i < vars.len()
        invariant
            i <= vars.len(),
            all == variable_views(vars@),
            wanted@ == name@,
            variable(all, name@) == variable(all.skip(i as int), name@),
        decreases vars.len() - i,
    {
        assert(all.skip(i as int)[0] == (vars@[i as int].0@, vars@[i as int].1@));
        if spells(&wanted, vars[i].0.as_str()) {
            return Some(&vars[i].1);
        }
        assert(all.skip(i as int).drop_first() =~= all.skip(i + 1));
        i += 1;
    }
    None
}

} // verus!
