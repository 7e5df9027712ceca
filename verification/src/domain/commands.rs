//! The command language: one line of text, starting with `/`, names one command.

use crate::domain::models::{StationFilters, StationFiltersView, StationSort};
use crate::text::{
    all_digits, ascii_lowered, chars_of, concat, concat3, count_char, count_of, decimal_digits,
    decimal_up_to, decimal_value, find_char, index_of, is_blank, is_decimal, is_digit, is_space,
    join_from, joined, lemma_decimal_digits, lemma_trimmed_clean, lemma_words_append_word,
    lemma_words_of_word, parse_decimal, spells, split_whitespace, string_of, subrange,
    to_ascii_lowercase, trim, trimmed, views, words,
};
use vstd::prelude::*;

verus! {

/// How a `/play` command chooses its station.
#[derive(Debug, PartialEq, Eq)]
pub enum PlayTarget {
    /// The station under the selection.
    Selected,
    /// The station at this position of the visible list, counted from 1.
    Index(usize),
    /// The first visible station whose name holds this text.
    Query(String),
}

/// What a [`PlayTarget`] says.
pub enum PlayTargetView {
    Selected,
    Index(nat),
    Query(Seq<char>),
}

impl View for PlayTarget {
    type V = PlayTargetView;

    open spec fn view(&self) -> PlayTargetView {
        match self {
            PlayTarget::Selected => PlayTargetView::Selected,
            PlayTarget::Index(n) => PlayTargetView::Index(*n as nat),
            PlayTarget::Query(q) => PlayTargetView::Query(q@),
        }
    }
}

/// A command of the session. Values come from [`SlashCommand::parse`] and from the palette.
#[derive(Debug, PartialEq, Eq)]
pub enum SlashCommand {
    Play(PlayTarget),
    Stop,
    Pause,
    Resume,
    Search(String),
    Filter(StationFilters),
    ClearFilters,
    Sort(StationSort),
    Favorites,
    Favorite,
    Unfavorite,
    Quit,
    Help,
    Volume(u8),
}

/// What a [`SlashCommand`] says.
pub enum SlashCommandView {
    Play(PlayTargetView),
    Stop,
    Pause,
    Resume,
    Search(Seq<char>),
    Filter(StationFiltersView),
    ClearFilters,
    Sort(StationSort),
    Favorites,
    Favorite,
    Unfavorite,
    Quit,
    Help,
    Volume(u8),
}

impl View for SlashCommand {
    type V = SlashCommandView;

    open spec fn view(&self) -> SlashCommandView {
        match self {
            SlashCommand::Play(t) => SlashCommandView::Play(t@),
            SlashCommand::Stop => SlashCommandView::Stop,
            SlashCommand::Pause => SlashCommandView::Pause,
            SlashCommand::Resume => SlashCommandView::Resume,
            SlashCommand::Search(q) => SlashCommandView::Search(q@),
            SlashCommand::Filter(f) => SlashCommandView::Filter(f@),
            SlashCommand::ClearFilters => SlashCommandView::ClearFilters,
            SlashCommand::Sort(s) => SlashCommandView::Sort(*s),
            SlashCommand::Favorites => SlashCommandView::Favorites,
            SlashCommand::Favorite => SlashCommandView::Favorite,
            SlashCommand::Unfavorite => SlashCommandView::Unfavorite,
            SlashCommand::Quit => SlashCommandView::Quit,
            SlashCommand::Help => SlashCommandView::Help,
            SlashCommand::Volume(v) => SlashCommandView::Volume(*v),
        }
    }
}

/// Why a line is no command.
#[derive(Debug, PartialEq, Eq)]
pub enum ParseError {
    /// The line does not start with `/`.
    MissingMarker,
    /// Nothing follows the `/`.
    EmptyCommand,
    /// `/play 0`: positions count from 1.
    ZeroPlayIndex,
    /// `/search` without a text.
    SearchUsage,
    /// `/filter` without a constraint.
    FilterUsage,
    /// A constraint that does not hold exactly one `=`; it carries the constraint.
    FilterSyntax(String),
    /// A constraint whose value is empty; it carries the key.
    EmptyFilterValue(String),
    /// `min_bitrate` with a value that is no unsigned 32-bit decimal numeral.
    MinBitrateNotInteger,
    /// A constraint on a key that is not known; it carries the key.
    UnknownFilterKey(String),
    /// `/sort` without a field, or with more than one.
    SortUsage,
    /// `/sort` with a field that is not known; it carries the field.
    InvalidSortField(String),
    /// `/volume` without a value.
    VolumeMissing,
    /// `/volume` with more than one value.
    VolumeExtra,
    /// `/volume` with a value that is no decimal numeral; it carries the value.
    VolumeNotInteger(String),
    /// `/volume` with a minus sign before the digits.
    VolumeNegative,
    /// `/volume` with a number above 100.
    VolumeOutOfRange,
    /// A verb that is not known; it carries the verb.
    UnknownCommand(String),
}

/// What a [`ParseError`] says.
pub enum ParseErrorView {
    MissingMarker,
    EmptyCommand,
    ZeroPlayIndex,
    SearchUsage,
    FilterUsage,
    FilterSyntax(Seq<char>),
    EmptyFilterValue(Seq<char>),
    MinBitrateNotInteger,
    UnknownFilterKey(Seq<char>),
    SortUsage,
    InvalidSortField(Seq<char>),
    VolumeMissing,
    VolumeExtra,
    VolumeNotInteger(Seq<char>),
    VolumeNegative,
    VolumeOutOfRange,
    UnknownCommand(Seq<char>),
}

impl View for ParseError {
    type V = ParseErrorView;

    open spec fn view(&self) -> ParseErrorView {
        match self {
            ParseError::MissingMarker => ParseErrorView::MissingMarker,
            ParseError::EmptyCommand => ParseErrorView::EmptyCommand,
            ParseError::ZeroPlayIndex => ParseErrorView::ZeroPlayIndex,
            ParseError::SearchUsage => ParseErrorView::SearchUsage,
            ParseError::FilterUsage => ParseErrorView::FilterUsage,
            ParseError::FilterSyntax(a) => ParseErrorView::FilterSyntax(a@),
            ParseError::EmptyFilterValue(k) => ParseErrorView::EmptyFilterValue(k@),
            ParseError::MinBitrateNotInteger => ParseErrorView::MinBitrateNotInteger,
            ParseError::UnknownFilterKey(k) => ParseErrorView::UnknownFilterKey(k@),
            ParseError::SortUsage => ParseErrorView::SortUsage,
            ParseError::InvalidSortField(f) => ParseErrorView::InvalidSortField(f@),
            ParseError::VolumeMissing => ParseErrorView::VolumeMissing,
            ParseError::VolumeExtra => ParseErrorView::VolumeExtra,
            ParseError::VolumeNotInteger(v) => ParseErrorView::VolumeNotInteger(v@),
            ParseError::VolumeNegative => ParseErrorView::VolumeNegative,
            ParseError::VolumeOutOfRange => ParseErrorView::VolumeOutOfRange,
            ParseError::UnknownCommand(c) => ParseErrorView::UnknownCommand(c@),
        }
    }
}

impl ParseErrorView {
    /// The sentence that reports the error.
    pub open spec fn message(self) -> Seq<char> {
        match self {
            ParseErrorView::MissingMarker => "slash commands must start with '/'"@,
            ParseErrorView::EmptyCommand => "empty command"@,
            ParseErrorView::ZeroPlayIndex => "play index must be >= 1"@,
            ParseErrorView::SearchUsage => "usage: /search <query>"@,
            ParseErrorView::FilterUsage =>
                "usage: /filter country=<x> language=<y> tag=<z> codec=<c> min_bitrate=<n>"@,
            ParseErrorView::FilterSyntax(a) => "invalid filter syntax: "@ + a
                + " (expected key=value)"@,
            ParseErrorView::EmptyFilterValue(k) => "filter value cannot be empty for key: "@ + k,
            ParseErrorView::MinBitrateNotInteger => "min_bitrate must be an integer"@,
            ParseErrorView::UnknownFilterKey(k) => "unknown filter key: "@ + k,
            ParseErrorView::SortUsage => "usage: /sort <name|votes|clicks|bitrate>"@,
            ParseErrorView::InvalidSortField(f) => "invalid sort field: "@ + f,
            ParseErrorView::VolumeMissing => "usage: /volume <0-100>"@,
            ParseErrorView::VolumeExtra => "usage: /volume <0-100> (one value only)"@,
            ParseErrorView::VolumeNotInteger(v) => "volume must be an integer, got: "@ + v,
            ParseErrorView::VolumeNegative => "volume must be an integer that is not negative"@,
            ParseErrorView::VolumeOutOfRange => "volume must be between 0 and 100"@,
            ParseErrorView::UnknownCommand(c) => "unknown command: "@ + c,
        }
    }
}

impl ParseError {
    /// The sentence that reports the error.
    pub fn message(&self) -> (r: String)
        ensures
            r@ == self@.message(),
    {
        match self {
            ParseError::MissingMarker => "slash commands must start with '/'".to_owned(),
            ParseError::EmptyCommand => "empty command".to_owned(),
            ParseError::ZeroPlayIndex => "play index must be >= 1".to_owned(),
            ParseError::SearchUsage => "usage: /search <query>".to_owned(),
            ParseError::FilterUsage =>
                "usage: /filter country=<x> language=<y> tag=<z> codec=<c> min_bitrate=<n>".to_owned(),
            ParseError::FilterSyntax(a) => concat3(
                "invalid filter syntax: ",
                a.as_str(),
                " (expected key=value)",
            ),
            ParseError::EmptyFilterValue(k) => concat(
                "filter value cannot be empty for key: ",
                k.as_str(),
            ),
            ParseError::MinBitrateNotInteger => "min_bitrate must be an integer".to_owned(),
            ParseError::UnknownFilterKey(k) => concat("unknown filter key: ", k.as_str()),
            ParseError::SortUsage => "usage: /sort <name|votes|clicks|bitrate>".to_owned(),
            ParseError::InvalidSortField(f) => concat("invalid sort field: ", f.as_str()),
            ParseError::VolumeMissing => "usage: /volume <0-100>".to_owned(),
            ParseError::VolumeExtra => "usage: /volume <0-100> (one value only)".to_owned(),
            ParseError::VolumeNotInteger(v) => concat(
                "volume must be an integer, got: ",
                v.as_str(),
            ),
            ParseError::VolumeNegative => "volume must be an integer that is not negative".to_owned(),
            ParseError::VolumeOutOfRange => "volume must be between 0 and 100".to_owned(),
            ParseError::UnknownCommand(c) => concat("unknown command: ", c.as_str()),
        }
    }
}

impl Clone for PlayTarget {
    fn clone(&self) -> (r: Self)
        ensures
            r@ == self@,
    {
        match self {
            PlayTarget::Selected => PlayTarget::Selected,
            PlayTarget::Index(n) => PlayTarget::Index(*n),
            PlayTarget::Query(q) => PlayTarget::Query(q.clone()),
        }
    }
}

impl Clone for SlashCommand {
    fn clone(&self) -> (r: Self)
        ensures
            r@ == self@,
    {
        match self {
            SlashCommand::Play(t) => SlashCommand::Play(t.clone()),
            SlashCommand::Stop => SlashCommand::Stop,
            SlashCommand::Pause => SlashCommand::Pause,
            SlashCommand::Resume => SlashCommand::Resume,
            SlashCommand::Search(q) => SlashCommand::Search(q.clone()),
            SlashCommand::Filter(f) => SlashCommand::Filter(f.clone()),
            SlashCommand::ClearFilters => SlashCommand::ClearFilters,
            SlashCommand::Sort(s) => SlashCommand::Sort(*s),
            SlashCommand::Favorites => SlashCommand::Favorites,
            SlashCommand::Favorite => SlashCommand::Favorite,
            SlashCommand::Unfavorite => SlashCommand::Unfavorite,
            SlashCommand::Quit => SlashCommand::Quit,
            SlashCommand::Help => SlashCommand::Help,
            SlashCommand::Volume(v) => SlashCommand::Volume(*v),
        }
    }
}

impl Clone for ParseError {
    fn clone(&self) -> (r: Self)
        ensures
            r@ == self@,
    {
        match self {
            ParseError::MissingMarker => ParseError::MissingMarker,
            ParseError::EmptyCommand => ParseError::EmptyCommand,
            ParseError::ZeroPlayIndex => ParseError::ZeroPlayIndex,
            ParseError::SearchUsage => ParseError::SearchUsage,
            ParseError::FilterUsage => ParseError::FilterUsage,
            ParseError::FilterSyntax(a) => ParseError::FilterSyntax(a.clone()),
            ParseError::EmptyFilterValue(k) => ParseError::EmptyFilterValue(k.clone()),
            ParseError::MinBitrateNotInteger => ParseError::MinBitrateNotInteger,
            ParseError::UnknownFilterKey(k) => ParseError::UnknownFilterKey(k.clone()),
            ParseError::SortUsage => ParseError::SortUsage,
            ParseError::InvalidSortField(f) => ParseError::InvalidSortField(f.clone()),
            ParseError::VolumeMissing => ParseError::VolumeMissing,
            ParseError::VolumeExtra => ParseError::VolumeExtra,
            ParseError::VolumeNotInteger(v) => ParseError::VolumeNotInteger(v.clone()),
            ParseError::VolumeNegative => ParseError::VolumeNegative,
            ParseError::VolumeOutOfRange => ParseError::VolumeOutOfRange,
            ParseError::UnknownCommand(c) => ParseError::UnknownCommand(c.clone()),
        }
    }
}

/// What the outcome of parsing a command says.
pub open spec fn parsed_view(r: Result<SlashCommand, ParseError>) -> Result<
    SlashCommandView,
    ParseErrorView,
> {
    match r {
        Ok(c) => Ok(c@),
        Err(e) => Err(e@),
    }
}

/// What the outcome of parsing filter constraints says.
pub open spec fn filters_view(r: Result<StationFilters, ParseError>) -> Result<
    StationFiltersView,
    ParseErrorView,
> {
    match r {
        Ok(f) => Ok(f@),
        Err(e) => Err(e@),
    }
}

/// `/play` with the text `value` behind it: nothing or `selected` (in any case of the letters)
/// means the selection, a numeral that fits `usize` a position, which must not be 0, and any
/// other text a query.
pub open spec fn play_command(value: Seq<char>) -> Result<SlashCommandView, ParseErrorView> {
    if value.len() == 0 || ascii_lowered(value) == "selected"@ {
        Ok(SlashCommandView::Play(PlayTargetView::Selected))
    } else {
        match decimal_up_to(value, usize::MAX as nat) {
            Some(n) => if n == 0 {
                Err(ParseErrorView::ZeroPlayIndex)
            } else {
                Ok(SlashCommandView::Play(PlayTargetView::Index(n)))
            },
            None => Ok(SlashCommandView::Play(PlayTargetView::Query(value))),
        }
    }
}

/// `/search` with the text `value` behind it.
pub open spec fn search_command(value: Seq<char>) -> Result<SlashCommandView, ParseErrorView> {
    if value.len() == 0 {
        Err(ParseErrorView::SearchUsage)
    } else {
        Ok(SlashCommandView::Search(value))
    }
}

/// The sort field that a lower-case word names.
pub open spec fn sort_of_word(w: Seq<char>) -> Option<StationSort> {
    if w == "name"@ {
        Some(StationSort::Name)
    } else if w == "votes"@ {
        Some(StationSort::Votes)
    } else if w == "clicks"@ {
        Some(StationSort::Clicks)
    } else if w == "bitrate"@ {
        Some(StationSort::Bitrate)
    } else {
        None
    }
}

/// `/sort` with the words `args` behind it: exactly one, a field's name in any case.
pub open spec fn sort_command(args: Seq<Seq<char>>) -> Result<SlashCommandView, ParseErrorView> {
    if args.len() != 1 {
        Err(ParseErrorView::SortUsage)
    } else {
        match sort_of_word(ascii_lowered(args[0])) {
            Some(s) => Ok(SlashCommandView::Sort(s)),
            None => Err(ParseErrorView::InvalidSortField(args[0])),
        }
    }
}

/// A minus sign followed by one digit or more.
pub open spec fn is_negative_numeral(s: Seq<char>) -> bool {
    s.len() >= 2 && s[0] == '-' && all_digits(s.skip(1))
}

/// `/volume` with the words `args` behind it: exactly one, a numeral from 0 to 100.
pub open spec fn volume_command(args: Seq<Seq<char>>) -> Result<
    SlashCommandView,
    ParseErrorView,
> {
    if args.len() == 0 {
        Err(ParseErrorView::VolumeMissing)
    } else if args.len() > 1 {
        Err(ParseErrorView::VolumeExtra)
    } else {
        match decimal_value(args[0]) {
            Some(n) => if n <= 100 {
                Ok(SlashCommandView::Volume(n as u8))
            } else {
                Err(ParseErrorView::VolumeOutOfRange)
            },
            None => if is_negative_numeral(args[0]) {
                Err(ParseErrorView::VolumeNegative)
            } else {
                Err(ParseErrorView::VolumeNotInteger(args[0]))
            },
        }
    }
}

/// The filters `f` with one more constraint `arg`, which reads `key=value` with exactly one
/// `=`, a value that is not blank and a known key, in any case of the letters.
pub open spec fn filter_arg(f: StationFiltersView, arg: Seq<char>) -> Result<
    StationFiltersView,
    ParseErrorView,
> {
    if count_of(arg, '=') != 1 {
        Err(ParseErrorView::FilterSyntax(arg))
    } else {
        let k = index_of(arg, '=');
        let key = arg.take(k);
        let value = arg.skip(k + 1);
        let lower = ascii_lowered(key);
        if is_blank(value) {
            Err(ParseErrorView::EmptyFilterValue(key))
        } else if lower == "country"@ {
            Ok(StationFiltersView { country: Some(value), ..f })
        } else if lower == "language"@ {
            Ok(StationFiltersView { language: Some(value), ..f })
        } else if lower == "tag"@ {
            Ok(StationFiltersView { tag: Some(value), ..f })
        } else if lower == "codec"@ {
            Ok(StationFiltersView { codec: Some(value), ..f })
        } else if lower == "min_bitrate"@ {
            match decimal_up_to(value, u32::MAX as nat) {
                Some(n) => Ok(StationFiltersView { min_bitrate: Some(n as u32), ..f }),
                None => Err(ParseErrorView::MinBitrateNotInteger),
            }
        } else {
            Err(ParseErrorView::UnknownFilterKey(key))
        }
    }
}

/// The filters that the constraints `args` give, taken from left to right: a later constraint
/// on a key replaces an earlier one, and the first constraint in error decides the error.
pub open spec fn filter_args(args: Seq<Seq<char>>) -> Result<StationFiltersView, ParseErrorView>
    decreases args.len(),
{
    if args.len() == 0 {
        Ok(StationFiltersView::none())
    } else {
        match filter_args(args.drop_last()) {
            Ok(f) => filter_arg(f, args.last()),
            Err(e) => Err(e),
        }
    }
}

/// `/filter` with the words `args` behind it.
pub open spec fn filter_command(args: Seq<Seq<char>>) -> Result<
    SlashCommandView,
    ParseErrorView,
> {
    if args.len() == 0 {
        Err(ParseErrorView::FilterUsage)
    } else {
        match filter_args(args) {
            Ok(f) => Ok(SlashCommandView::Filter(f)),
            Err(e) => Err(e),
        }
    }
}

/// The command that the verb and the words behind it name. Verbs are matched as written.
pub open spec fn command_of(verb: Seq<char>, args: Seq<Seq<char>>) -> Result<
    SlashCommandView,
    ParseErrorView,
> {
    if verb == "play"@ {
        play_command(joined(args, seq![' ']))
    } else if verb == "stop"@ {
        Ok(SlashCommandView::Stop)
    } else if verb == "pause"@ {
        Ok(SlashCommandView::Pause)
    } else if verb == "resume"@ {
        Ok(SlashCommandView::Resume)
    } else if verb == "search"@ {
        search_command(joined(args, seq![' ']))
    } else if verb == "filter"@ {
        filter_command(args)
    } else if verb == "clear-filters"@ {
        Ok(SlashCommandView::ClearFilters)
    } else if verb == "sort"@ {
        sort_command(args)
    } else if verb == "favorites"@ {
        Ok(SlashCommandView::Favorites)
    } else if verb == "fav"@ || verb == "favorite"@ {
        Ok(SlashCommandView::Favorite)
    } else if verb == "unfav"@ || verb == "unfavorite"@ {
        Ok(SlashCommandView::Unfavorite)
    } else if verb == "quit"@ || verb == "q"@ {
        Ok(SlashCommandView::Quit)
    } else if verb == "help"@ {
        Ok(SlashCommandView::Help)
    } else if verb == "volume"@ {
        volume_command(args)
    } else {
        Err(ParseErrorView::UnknownCommand(verb))
    }
}

/// What a line of input means: after trimming, a `/`, then the verb and its arguments, which
/// white space separates.
pub open spec fn parse_line(input: Seq<char>) -> Result<SlashCommandView, ParseErrorView> {
    let line = trimmed(input);
    if line.len() == 0 || line[0] != '/' {
        Err(ParseErrorView::MissingMarker)
    } else {
        let ws = words(line.skip(1));
        if ws.len() == 0 {
            Err(ParseErrorView::EmptyCommand)
        } else {
            command_of(ws[0], ws.skip(1))
        }
    }
}

/// Once a constraint is in error, the constraints behind it change nothing.
pub proof fn lemma_filter_args_first_error(args: Seq<Seq<char>>, k: int)
    requires
        0 <= k <= args.len(),
        filter_args(args.take(k)) is Err,
    ensures
        filter_args(args) == filter_args(args.take(k)),
    decreases args.len(),
{
    if k == args.len() {
        assert(args.take(k) =~= args);
    } else {
        assert(args.drop_last().take(k) =~= args.take(k));
        lemma_filter_args_first_error(args.drop_last(), k);
    }
}

/// A text in which `c` does not occur holds it zero times.
pub proof fn lemma_count_of_absent(s: Seq<char>, c: char)
    requires
        forall|j: int| 0 <= j < s.len() ==> s[j] != c,
    ensures
        count_of(s, c) == 0,
    decreases s.len(),
{
    if s.len() > 0 {
        lemma_count_of_absent(s.drop_last(), c);
    }
}

fn parse_play(value: &Vec<char>) -> (r: Result<SlashCommand, ParseError>)
    ensures
        parsed_view(r) == play_command(value@),
{
    if value.len() == 0 {
        return Ok(SlashCommand::Play(PlayTarget::Selected));
    }
    let lower = to_ascii_lowercase(value);
    if spells(&lower, "selected") {
        return Ok(SlashCommand::Play(PlayTarget::Selected));
    }
    match parse_decimal(value, usize::MAX as u64) {
        Some(n) => {
            if n == 0 {
                Err(ParseError::ZeroPlayIndex)
            } else {
                Ok(SlashCommand::Play(PlayTarget::Index(n as usize)))
            }
        },
        None => Ok(SlashCommand::Play(PlayTarget::Query(string_of(value)))),
    }
}

fn parse_search(value: &Vec<char>) -> (r: Result<SlashCommand, ParseError>)
    ensures
        parsed_view(r) == search_command(value@),
{
    if value.len() == 0 {
        Err(ParseError::SearchUsage)
    } else {
        Ok(SlashCommand::Search(string_of(value)))
    }
}

/// The sort field that a lower-case word names.
pub fn sort_from_word(w: &Vec<char>) -> (r: Option<StationSort>)
    ensures
        r == sort_of_word(w@),
{
    if spells(w, "name") {
        Some(StationSort::Name)
    } else if spells(w, "votes") {
        Some(StationSort::Votes)
    } else if spells(w, "clicks") {
        Some(StationSort::Clicks)
    } else if spells(w, "bitrate") {
        Some(StationSort::Bitrate)
    } else {
        None
    }
}

fn parse_sort(ws: &Vec<Vec<char>>) -> (r: Result<SlashCommand, ParseError>)
    requires
        ws.len() >= 1,
    ensures
        parsed_view(r) == sort_command(views(ws@).skip(1)),
{
    if ws.len() != 2 {
        return Err(ParseError::SortUsage);
    }
    let value = &ws[1];
    assert(views(ws@).skip(1)[0] == value@);
    let lower = to_ascii_lowercase(value);
    match sort_from_word(&lower) {
        Some(s) => Ok(SlashCommand::Sort(s)),
        None => Err(ParseError::InvalidSortField(string_of(value))),
    }
}

fn negative_numeral(v: &Vec<char>) -> (r: bool)
    ensures
        r == is_negative_numeral(v@),
{
    if v.len() < 2 || v[0] != '-' {
        return false;
    }
    let mut i: usize = 1;
    while i < v.len()
        invariant
            1 <= i <= v.len(),
            forall|j: int| 0 <= j < i - 1 ==> crate::text::is_digit(#[trigger] v@.skip(1)[j]),
        decreases v.len() - i,
    {
        if !crate::text::char_is_digit(v[i]) {
            assert(!crate::text::is_digit(v@.skip(1)[i - 1]));
            return false;
        }
        i += 1;
    }
    true
}

fn parse_volume(ws: &Vec<Vec<char>>) -> (r: Result<SlashCommand, ParseError>)
    requires
        ws.len() >= 1,
    ensures
        parsed_view(r) == volume_command(views(ws@).skip(1)),
{
    if ws.len() == 1 {
        return Err(ParseError::VolumeMissing);
    }
    if ws.len() > 2 {
        return Err(ParseError::VolumeExtra);
    }
    let value = &ws[1];
    assert(views(ws@).skip(1)[0] == value@);
    if !is_decimal(value) {
        if negative_numeral(value) {
            return Err(ParseError::VolumeNegative);
        }
        return Err(ParseError::VolumeNotInteger(string_of(value)));
    }
    match parse_decimal(value, 100) {
        Some(n) => Ok(SlashCommand::Volume(n as u8)),
        None => Err(ParseError::VolumeOutOfRange),
    }
}

fn apply_filter_arg(f: StationFilters, arg: &Vec<char>) -> (r: Result<StationFilters, ParseError>)
    ensures
        filters_view(r) == filter_arg(f@, arg@),
{
    let mut f = f;
    if count_char(arg, '=') != 1 {
        return Err(ParseError::FilterSyntax(string_of(arg)));
    }
    let k = find_char(arg, '=');
    proof {
        if k == arg.len() {
            lemma_count_of_absent(arg@, '=');
        }
    }
    let key = subrange(arg, 0, k);
    let value = subrange(arg, k + 1, arg.len());
    assert(arg@.take(k as int) =~= key@);
    assert(arg@.skip(k + 1) =~= value@);
    if trim(&value).len() == 0 {
        return Err(ParseError::EmptyFilterValue(string_of(&key)));
    }
    let lower = to_ascii_lowercase(&key);
    if spells(&lower, "country") {
        f.country = Some(string_of(&value));
        Ok(f)
    } else if spells(&lower, "language") {
        f.language = Some(string_of(&value));
        Ok(f)
    } else if spells(&lower, "tag") {
        f.tag = Some(string_of(&value));
        Ok(f)
    } else if spells(&lower, "codec") {
        f.codec = Some(string_of(&value));
        Ok(f)
    } else if spells(&lower, "min_bitrate") {
        match parse_decimal(&value, u32::MAX as u64) {
            Some(n) => {
                f.min_bitrate = Some(n as u32);
                Ok(f)
            },
            None => Err(ParseError::MinBitrateNotInteger),
        }
    } else {
        Err(ParseError::UnknownFilterKey(string_of(&key)))
    }
}

fn filters_from_words(ws: &Vec<Vec<char>>, from: usize) -> (r: Result<StationFilters, ParseError>)
    requires
        from <= ws.len(),
    ensures
        filters_view(r) == filter_args(views(ws@).skip(from as int)),
{
    let mut f = StationFilters::default();
    let mut i: usize = from;
    let ghost all = views(ws@).skip(from as int);
    assert(all.take(0) =~= Seq::<Seq<char>>::empty());
    while i < ws.len()
        invariant
            from <= i <= ws.len(),
            all == views(ws@).skip(from as int),
            filter_args(all.take(i - from)) == Ok::<StationFiltersView, ParseErrorView>(f@),
        decreases ws.len() - i,
    {
        let arg = &ws[i];
        assert(all.take(i + 1 - from).drop_last() =~= all.take(i - from));
        assert(all.take(i + 1 - from).last() == arg@);
        match apply_filter_arg(f, arg) {
            Ok(next) => {
                f = next;
            },
            Err(e) => {
                proof {
                    lemma_filter_args_first_error(all, i + 1 - from);
                }
                return Err(e);
            },
        }
        i += 1;
    }
    assert(all.take(ws.len() - from) =~= all);
    Ok(f)
}

/// What the texts of a list of string slices say.
pub open spec fn slice_texts(args: Seq<&str>) -> Seq<Seq<char>> {
    args.map_values(|s: &str| s@)
}

/// Reads filter constraints of the form `key=value`.
pub fn parse_filter_args(args: &[&str]) -> (r: Result<StationFilters, ParseError>)
    ensures
        filters_view(r) == filter_args(slice_texts(args@)),
{
    let mut ws: Vec<Vec<char>> = Vec::new();
    let mut i: usize = 0;
    while i < args.len()
        invariant
            i <= args.len(),
            views(ws@) == slice_texts(args@.take(i as int)),
        decreases args.len() - i,
    {
        ws.push(chars_of(args[i]));
        i += 1;
        assert(slice_texts(args@.take(i as int)) =~= slice_texts(args@.take(i - 1)).push(
            args@[i - 1]@,
        ));
        assert(views(ws@) =~= views(ws@.drop_last()).push(ws@.last()@));
    }
    assert(args@.take(args.len() as int) =~= args@);
    assert(views(ws@).skip(0) =~= views(ws@));
    filters_from_words(&ws, 0)
}

fn parse_filter(ws: &Vec<Vec<char>>) -> (r: Result<SlashCommand, ParseError>)
    requires
        ws.len() >= 1,
    ensures
        parsed_view(r) == filter_command(views(ws@).skip(1)),
{
    if ws.len() == 1 {
        return Err(ParseError::FilterUsage);
    }
    match filters_from_words(ws, 1) {
        Ok(f) => Ok(SlashCommand::Filter(f)),
        Err(e) => Err(e),
    }
}

fn parse_words(ws: &Vec<Vec<char>>) -> (r: Result<SlashCommand, ParseError>)
    requires
        ws.len() >= 1,
    ensures
        parsed_view(r) == command_of(views(ws@)[0], views(ws@).skip(1)),
{
    let verb = &ws[0];
    if spells(verb, "play") {
        parse_play(&join_from(ws, 1, ' '))
    } else if spells(verb, "stop") {
        Ok(SlashCommand::Stop)
    } else if spells(verb, "pause") {
        Ok(SlashCommand::Pause)
    } else if spells(verb, "resume") {
        Ok(SlashCommand::Resume)
    } else if spells(verb, "search") {
        parse_search(&join_from(ws, 1, ' '))
    } else if spells(verb, "filter") {
        parse_filter(ws)
    } else if spells(verb, "clear-filters") {
        Ok(SlashCommand::ClearFilters)
    } else if spells(verb, "sort") {
        parse_sort(ws)
    } else if spells(verb, "favorites") {
        Ok(SlashCommand::Favorites)
    } else if spells(verb, "fav") || spells(verb, "favorite") {
        Ok(SlashCommand::Favorite)
    } else if spells(verb, "unfav") || spells(verb, "unfavorite") {
        Ok(SlashCommand::Unfavorite)
    } else if spells(verb, "quit") || spells(verb, "q") {
        Ok(SlashCommand::Quit)
    } else if spells(verb, "help") {
        Ok(SlashCommand::Help)
    } else if spells(verb, "volume") {
        parse_volume(ws)
    } else {
        Err(ParseError::UnknownCommand(string_of(verb)))
    }
}

impl SlashCommand {
    /// Reads one line of input as a command.
    pub fn parse(input: &str) -> (r: Result<SlashCommand, ParseError>)
        ensures
            parsed_view(r) == parse_line(input@),
    {
        let line = trim(&chars_of(input));
        if line.len() == 0 || line[0] != '/' {
            return Err(ParseError::MissingMarker);
        }
        let rest = subrange(&line, 1, line.len());
        assert(rest@ =~= line@.skip(1));
        let ws = split_whitespace(&rest);
        if ws.len() == 0 {
            return Err(ParseError::EmptyCommand);
        }
        parse_words(&ws)
    }
}

/// The same text always parses to the same outcome.
pub proof fn lemma_parse_is_a_function(first: Seq<char>, second: Seq<char>)
    requires
        first == second,
    ensures
        parse_line(first) == parse_line(second),
{
}

/// `/play` followed by the numeral of a number names the station at that position: 0 is
/// refused, and a number that does not fit `usize` is taken for a name.
pub proof fn lemma_parse_play_number(n: nat)
    ensures
        parse_line("/play "@ + decimal_digits(n)) == (if n == 0 {
            Err::<SlashCommandView, ParseErrorView>(ParseErrorView::ZeroPlayIndex)
        } else if n <= usize::MAX {
            Ok::<SlashCommandView, ParseErrorView>(
                SlashCommandView::Play(PlayTargetView::Index(n)),
            )
        } else {
            Ok::<SlashCommandView, ParseErrorView>(
                SlashCommandView::Play(PlayTargetView::Query(decimal_digits(n))),
            )
        }),
{
    let d = decimal_digits(n);
    let line = "/play "@ + d;
    reveal_strlit("/play ");
    reveal_strlit("play");
    reveal_strlit("selected");
    lemma_decimal_digits(n);
    assert forall|i: int| 0 <= i < d.len() implies !is_space(#[trigger] d[i]) by {
        assert(is_digit(d[i]));
    }
    assert(line[0] == '/');
    assert(line.last() == d.last());
    lemma_trimmed_clean(line);
    assert(line.skip(1) =~= "play"@ + seq![' '] + d);
    lemma_words_of_word("play"@);
    lemma_words_append_word("play"@, d);
    let ws = words(line.skip(1));
    assert(ws =~= seq!["play"@, d]);
    assert(ws.skip(1) =~= seq![d]);
    assert(joined(seq![d], seq![' ']) == d);
    assert(is_digit(d[0]));
    assert(ascii_lowered(d)[0] == d[0]);
    assert("selected"@[0] == 's');
    assert(ascii_lowered(d) != "selected"@);
}

/// `/play 0` is refused: positions count from 1.
pub proof fn lemma_play_zero_is_refused()
    ensures
        parse_line("/play 0"@) == Err::<SlashCommandView, ParseErrorView>(
            ParseErrorView::ZeroPlayIndex,
        ),
{
    reveal_strlit("/play 0");
    reveal_strlit("/play ");
    assert(decimal_digits(0) =~= seq!['0']);
    assert("/play 0"@ =~= "/play "@ + decimal_digits(0));
    lemma_parse_play_number(0);
}

} // verus!
