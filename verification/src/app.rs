//! The session: what the user sees and does, and how each input changes it.
//!
//! [`App`] owns the session state, the player and the catalog. [`AppView`] is the state as a
//! mathematical value, and its functions say what each operation does to it. Where an
//! operation reaches for the player or the catalog, what it does next is a function of what
//! came back.

use crate::domain::commands::{
    lemma_parse_play_number, lemma_play_zero_is_refused, parse_line, ParseError, ParseErrorView,
    PlayTarget, PlayTargetView, SlashCommand, SlashCommandView,
};
use crate::domain::models::{
    opt_station_view, station_views, Station, StationFilters, StationFiltersView,
    StationSearchQuery, StationSearchQueryView, StationSort, StationView,
};
use crate::domain::palette::{
    fuzzy_ranked, item_views, try_fuzzy_filter, within_limits, PaletteItem, PaletteItemView,
};
use crate::integrations::playback::{
    outcome_view, PlaybackController, PlaybackError, PlaybackErrorView, PlaybackState,
};
use crate::integrations::station_catalog::{
    found_view, limited, CatalogError, CatalogErrorView, StaticCatalog, StationCatalog,
};
use crate::text::{
    chars_of, concat, concat3, contains, decimal_digits, decimal_string, has_substring, is_blank,
    lowercase, spells, string_of, subrange, to_lowercase,
};
use vstd::prelude::*;

verus! {

/// Which input receives the keys.
#[derive(Debug, Clone, Copy, PartialEq, Eq, Structural)]
pub enum Focus {
    Search,
    Slash,
    Palette,
}

impl Focus {
    /// The word that shows the focus.
    pub open spec fn word(self) -> Seq<char> {
        match self {
            Focus::Search => "Search"@,
            Focus::Slash => "Slash"@,
            Focus::Palette => "Palette"@,
        }
    }

    /// The focus after this one in the ring Search, Slash, Palette.
    pub open spec fn next(self) -> Focus {
        match self {
            Focus::Search => Focus::Slash,
            Focus::Slash => Focus::Palette,
            Focus::Palette => Focus::Search,
        }
    }

    /// The focus before this one in the ring.
    pub open spec fn previous(self) -> Focus {
        match self {
            Focus::Search => Focus::Palette,
            Focus::Slash => Focus::Search,
            Focus::Palette => Focus::Slash,
        }
    }

    pub fn label(self) -> (r: &'static str)
        ensures
            r@ == self.word(),
    {
        match self {
            Focus::Search => "Search",
            Focus::Slash => "Slash",
            Focus::Palette => "Palette",
        }
    }
}

/// Which list the selection points into.
#[derive(Debug, Clone, Copy, PartialEq, Eq, Structural)]
pub enum ResultsSource {
    Stations,
    Favorites,
}

impl ResultsSource {
    /// The word that shows the source.
    pub open spec fn word(self) -> Seq<char> {
        match self {
            ResultsSource::Stations => "Stations"@,
            ResultsSource::Favorites => "Favorites"@,
        }
    }

    pub fn label(self) -> (r: &'static str)
        ensures
            r@ == self.word(),
    {
        match self {
            ResultsSource::Stations => "Stations",
            ResultsSource::Favorites => "Favorites",
        }
    }
}

/// The order and the filters with which a session starts.
#[derive(Debug)]
pub struct AppDefaults {
    pub sort: StationSort,
    pub filters: StationFilters,
}

impl Default for AppDefaults {
    fn default() -> (r: Self)
        ensures
            r.sort == StationSort::Votes,
            r.filters@ == StationFiltersView::none(),
    {
        AppDefaults { sort: StationSort::default(), filters: StationFilters::default() }
    }
}

impl Clone for AppDefaults {
    fn clone(&self) -> (r: Self)
        ensures
            r.sort == self.sort,
            r.filters@ == self.filters@,
    {
        AppDefaults { sort: self.sort, filters: self.filters.clone() }
    }
}

/// Why the session could not do what was asked.
#[derive(Debug, PartialEq, Eq)]
pub enum AppError {
    /// The line is no command.
    Parse(ParseError),
    /// The selection points at no station.
    NoStationSelected,
    /// The visible list is empty.
    NoStationsAvailable,
    /// The position is not in the visible list, which has this many stations.
    IndexOutOfRange(usize),
    /// No visible station has the text in its name.
    NoStationFound,
    /// The palette shows no item at its cursor.
    NoPaletteMatch,
    /// A palette item names this action, which the session does not know.
    UnsupportedPaletteAction(String),
    /// The catalog failed on a search for this text in this order.
    SearchFailed(String, StationSort, CatalogError),
    /// The player failed to shut down.
    ShutdownFailed(PlaybackError),
}

/// What an [`AppError`] says.
pub enum AppErrorView {
    Parse(ParseErrorView),
    NoStationSelected,
    NoStationsAvailable,
    IndexOutOfRange(usize),
    NoStationFound,
    NoPaletteMatch,
    UnsupportedPaletteAction(Seq<char>),
    SearchFailed(Seq<char>, StationSort, CatalogErrorView),
    ShutdownFailed(PlaybackErrorView),
}

impl View for AppError {
    type V = AppErrorView;

    open spec fn view(&self) -> AppErrorView {
        match self {
            AppError::Parse(e) => AppErrorView::Parse(e@),
            AppError::NoStationSelected => AppErrorView::NoStationSelected,
            AppError::NoStationsAvailable => AppErrorView::NoStationsAvailable,
            AppError::IndexOutOfRange(n) => AppErrorView::IndexOutOfRange(*n),
            AppError::NoStationFound => AppErrorView::NoStationFound,
            AppError::NoPaletteMatch => AppErrorView::NoPaletteMatch,
            AppError::UnsupportedPaletteAction(a) => AppErrorView::UnsupportedPaletteAction(a@),
            AppError::SearchFailed(q, s, e) => AppErrorView::SearchFailed(q@, *s, e@),
            AppError::ShutdownFailed(e) => AppErrorView::ShutdownFailed(e@),
        }
    }
}

impl AppErrorView {
    /// The sentence that reports the error.
    pub open spec fn message(self) -> Seq<char> {
        match self {
            AppErrorView::Parse(e) => e.message(),
            AppErrorView::NoStationSelected => "no station selected"@,
            AppErrorView::NoStationsAvailable => "no stations available to play"@,
            AppErrorView::IndexOutOfRange(n) => "index out of range: valid 1.."@ + decimal_digits(
                n as nat,
            ),
            AppErrorView::NoStationFound => "no station found for play command"@,
            AppErrorView::NoPaletteMatch => "no command matched palette input"@,
            AppErrorView::UnsupportedPaletteAction(a) => "unsupported palette action: "@ + a,
            AppErrorView::SearchFailed(q, s, e) => "search failed (query='"@ + q + "', sort="@
                + s.word() + "): "@ + e.message(),
            AppErrorView::ShutdownFailed(e) => "shutdown playback while quitting: "@ + e.message(),
        }
    }
}

impl Clone for AppError {
    fn clone(&self) -> (r: Self)
        ensures
            r@ == self@,
    {
        match self {
            AppError::Parse(e) => AppError::Parse(e.clone()),
            AppError::NoStationSelected => AppError::NoStationSelected,
            AppError::NoStationsAvailable => AppError::NoStationsAvailable,
            AppError::IndexOutOfRange(n) => AppError::IndexOutOfRange(*n),
            AppError::NoStationFound => AppError::NoStationFound,
            AppError::NoPaletteMatch => AppError::NoPaletteMatch,
            AppError::UnsupportedPaletteAction(a) => AppError::UnsupportedPaletteAction(a.clone()),
            AppError::SearchFailed(q, s, e) => AppError::SearchFailed(q.clone(), *s, e.clone()),
            AppError::ShutdownFailed(e) => AppError::ShutdownFailed(e.clone()),
        }
    }
}

impl AppError {
    /// The sentence that reports the error.
    pub fn message(&self) -> (r: String)
        ensures
            r@ == self@.message(),
    {
        match self {
            AppError::Parse(e) => e.message(),
            AppError::NoStationSelected => "no station selected".to_owned(),
            AppError::NoStationsAvailable => "no stations available to play".to_owned(),
            AppError::IndexOutOfRange(n) => concat(
                "index out of range: valid 1..",
                decimal_string(*n as u64).as_str(),
            ),
            AppError::NoStationFound => "no station found for play command".to_owned(),
            AppError::NoPaletteMatch => "no command matched palette input".to_owned(),
            AppError::UnsupportedPaletteAction(a) => concat(
                "unsupported palette action: ",
                a.as_str(),
            ),
            AppError::SearchFailed(q, s, e) => {
                let mut r = concat3("search failed (query='", q.as_str(), "', sort=");
                r.append(s.label());
                r.append("): ");
                r.append(e.message().as_str());
                r
            },
            AppError::ShutdownFailed(e) => concat(
                "shutdown playback while quitting: ",
                e.message().as_str(),
            ),
        }
    }
}

/// What the outcome of an operation of the session says.
pub open spec fn done_view(r: Result<(), AppError>) -> Result<(), AppErrorView> {
    match r {
        Ok(_) => Ok(()),
        Err(e) => Err(e@),
    }
}

/// Why the session asks the catalog.
#[derive(Debug, PartialEq, Eq)]
pub enum SearchCause {
    /// The session starts.
    Startup,
    /// The search text was typed and submitted.
    Typed,
    /// `/search` with this text.
    Search(String),
    /// `/filter` with these filters.
    Filter(StationFilters),
    /// `/clear-filters`.
    ClearFilters,
    /// `/sort` by this field.
    Sort(StationSort),
}

/// What a [`SearchCause`] says.
pub enum SearchCauseView {
    Startup,
    Typed,
    Search(Seq<char>),
    Filter(StationFiltersView),
    ClearFilters,
    Sort(StationSort),
}

impl View for SearchCause {
    type V = SearchCauseView;

    open spec fn view(&self) -> SearchCauseView {
        match self {
            SearchCause::Startup => SearchCauseView::Startup,
            SearchCause::Typed => SearchCauseView::Typed,
            SearchCause::Search(q) => SearchCauseView::Search(q@),
            SearchCause::Filter(f) => SearchCauseView::Filter(f@),
            SearchCause::ClearFilters => SearchCauseView::ClearFilters,
            SearchCause::Sort(s) => SearchCauseView::Sort(*s),
        }
    }
}

/// A call to the player: `Play` starts the stream at the station's address, `SetVolume` sets
/// the volume in percent, and each of the others is the player's operation of that name.
#[derive(Debug, PartialEq, Eq)]
pub enum PlaybackCall {
    Play(Station),
    Stop,
    Pause,
    Resume,
    SetVolume(u8),
    Shutdown,
}

/// What a [`PlaybackCall`] says.
pub enum PlaybackCallView {
    Play(StationView),
    Stop,
    Pause,
    Resume,
    SetVolume(u8),
    Shutdown,
}

impl View for PlaybackCall {
    type V = PlaybackCallView;

    open spec fn view(&self) -> PlaybackCallView {
        match self {
            PlaybackCall::Play(s) => PlaybackCallView::Play(s@),
            PlaybackCall::Stop => PlaybackCallView::Stop,
            PlaybackCall::Pause => PlaybackCallView::Pause,
            PlaybackCall::Resume => PlaybackCallView::Resume,
            PlaybackCall::SetVolume(v) => PlaybackCallView::SetVolume(*v),
            PlaybackCall::Shutdown => PlaybackCallView::Shutdown,
        }
    }
}

/// A question to the catalog: why it is asked, and the query that is sent.
#[derive(Debug, PartialEq, Eq)]
pub struct CatalogCall {
    pub cause: SearchCause,
    pub query: StationSearchQuery,
}

/// What a [`CatalogCall`] says.
pub struct CatalogCallView {
    pub cause: SearchCauseView,
    pub query: StationSearchQueryView,
}

impl View for CatalogCall {
    type V = CatalogCallView;

    open spec fn view(&self) -> CatalogCallView {
        CatalogCallView { cause: self.cause@, query: self.query@ }
    }
}

/// What the session asks of the outside for one input: nothing, one call to the player, or
/// one question to the catalog.
#[derive(Debug, PartialEq, Eq)]
pub enum Planned {
    Nothing,
    Player(PlaybackCall),
    Catalog(CatalogCall),
}

/// What a [`Planned`] says.
pub enum PlannedView {
    Nothing,
    Player(PlaybackCallView),
    Catalog(CatalogCallView),
}

impl View for Planned {
    type V = PlannedView;

    open spec fn view(&self) -> PlannedView {
        match self {
            Planned::Nothing => PlannedView::Nothing,
            Planned::Player(call) => PlannedView::Player(call@),
            Planned::Catalog(call) => PlannedView::Catalog(call@),
        }
    }
}

/// The command of the pause key: it resumes a player that reports to be paused, and pauses
/// any other.
pub open spec fn pause_key(state: PlaybackState) -> SlashCommandView {
    if state == PlaybackState::Paused {
        SlashCommandView::Resume
    } else {
        SlashCommandView::Pause
    }
}

/// The number of stations that the session asks a catalog for.
pub const SEARCH_LIMIT: usize = 50;

/// Whether no two stations of the list share an id.
pub open spec fn distinct_ids(list: Seq<StationView>) -> bool {
    forall|i: int, j: int|
        0 <= i < j < list.len() ==> (#[trigger] list[i]).station_uuid != (
        #[trigger] list[j]).station_uuid
}

/// Whether a station of the list has the id.
pub open spec fn holds_id(list: Seq<StationView>, id: Seq<char>) -> bool {
    exists|i: int| 0 <= i < list.len() && (#[trigger] list[i]).station_uuid == id
}

/// The list without the stations that have the id.
pub open spec fn without_id(list: Seq<StationView>, id: Seq<char>) -> Seq<StationView>
    decreases list.len(),
{
    if list.len() == 0 {
        Seq::empty()
    } else {
        let before = without_id(list.drop_last(), id);
        if list.last().station_uuid == id {
            before
        } else {
            before.push(list.last())
        }
    }
}

/// The list without the stations whose id an earlier station of the list has.
pub open spec fn first_of_each_id(list: Seq<StationView>) -> Seq<StationView>
    decreases list.len(),
{
    if list.len() == 0 {
        Seq::empty()
    } else {
        let before = first_of_each_id(list.drop_last());
        if holds_id(before, list.last().station_uuid) {
            before
        } else {
            before.push(list.last())
        }
    }
}

/// Whether the station's name holds the text, case ignored.
pub open spec fn name_holds(s: StationView, text: Seq<char>) -> bool {
    has_substring(lowercase(s.name), lowercase(text))
}

/// The index of the first station whose name holds the text, or the length of the list.
pub open spec fn first_named(list: Seq<StationView>, text: Seq<char>) -> int
    decreases list.len(),
{
    if list.len() == 0 {
        0
    } else if name_holds(list[0], text) {
        0
    } else {
        1 + first_named(list.drop_first(), text)
    }
}

/// The index brought into a list of this length: 0 for an empty list, the last index for one
/// beyond it.
pub open spec fn clamped_index(index: nat, len: nat) -> nat {
    if len == 0 {
        0
    } else if index >= len {
        (len - 1) as nat
    } else {
        index
    }
}

/// One step forward in a list of this length, from the last index to the first. An empty list
/// moves nothing.
pub open spec fn advanced(index: nat, len: nat) -> nat {
    if len == 0 {
        index
    } else if index + 1 >= len {
        0
    } else {
        index + 1
    }
}

/// One step back in a list of this length, from the first index to the last. An empty list
/// moves nothing.
pub open spec fn retreated(index: nat, len: nat) -> nat {
    if len == 0 {
        index
    } else if index == 0 || index > len {
        (len - 1) as nat
    } else {
        (index - 1) as nat
    }
}

/// The command that a palette action stands for.
pub open spec fn palette_command(action: Seq<char>) -> Option<SlashCommandView> {
    if action == "play"@ {
        Some(SlashCommandView::Play(PlayTargetView::Selected))
    } else if action == "stop"@ {
        Some(SlashCommandView::Stop)
    } else if action == "pause"@ {
        Some(SlashCommandView::Pause)
    } else if action == "resume"@ {
        Some(SlashCommandView::Resume)
    } else if action == "favorites"@ {
        Some(SlashCommandView::Favorites)
    } else if action == "favorite"@ {
        Some(SlashCommandView::Favorite)
    } else if action == "unfavorite"@ {
        Some(SlashCommandView::Unfavorite)
    } else if action == "clear-filters"@ {
        Some(SlashCommandView::ClearFilters)
    } else if action == "sort-name"@ {
        Some(SlashCommandView::Sort(StationSort::Name))
    } else if action == "sort-votes"@ {
        Some(SlashCommandView::Sort(StationSort::Votes))
    } else if action == "sort-clicks"@ {
        Some(SlashCommandView::Sort(StationSort::Clicks))
    } else if action == "sort-bitrate"@ {
        Some(SlashCommandView::Sort(StationSort::Bitrate))
    } else if action == "help"@ {
        Some(SlashCommandView::Help)
    } else if action == "quit"@ {
        Some(SlashCommandView::Quit)
    } else {
        None
    }
}

/// The line that `/help` shows.
pub open spec fn help_text() -> Seq<char> {
    "Commands: /play /stop /pause /resume /volume /search /filter /clear-filters /sort /favorites /fav /unfav /quit"@
}

/// The state of a session.
pub struct AppView {
    pub running: bool,
    pub status_message: Seq<char>,
    pub selected_index: nat,
    pub focus: Focus,
    pub search_input: Seq<char>,
    pub slash_input: Seq<char>,
    pub palette_input: Seq<char>,
    pub focus_before_palette: Focus,
    pub search_dirty: bool,
    pub results_source: ResultsSource,
    pub palette_selected_index: nat,
    pub filtered: Seq<StationView>,
    pub favorites: Seq<StationView>,
    pub favorites_unsaved: bool,
    pub filters: StationFiltersView,
    pub sort: StationSort,
    pub now_playing: Option<StationView>,
    pub palette_items: Seq<PaletteItemView>,
}

impl AppView {
    /// The list that is shown: the last search result or the favorites.
    pub open spec fn visible(self) -> Seq<StationView> {
        match self.results_source {
            ResultsSource::Stations => self.filtered,
            ResultsSource::Favorites => self.favorites,
        }
    }

    /// The station under the selection.
    pub open spec fn selected(self) -> Option<StationView> {
        if self.selected_index < self.visible().len() {
            Some(self.visible()[self.selected_index as int])
        } else {
            None
        }
    }

    /// The station whose details are shown: the one that plays, else the selected one.
    pub open spec fn details(self) -> Option<StationView> {
        match self.now_playing {
            Some(s) => Some(s),
            None => self.selected(),
        }
    }

    /// The input that has the focus.
    pub open spec fn current_input(self) -> Seq<char> {
        match self.focus {
            Focus::Search => self.search_input,
            Focus::Slash => self.slash_input,
            Focus::Palette => self.palette_input,
        }
    }

    /// The invariant of a session: the selection is 0 or points into the visible list, no two
    /// favorites share an id, and the focus to return to from the palette is not the palette.
    pub open spec fn wf(self) -> bool {
        &&& self.selected_index == 0 || self.selected_index < self.visible().len()
        &&& distinct_ids(self.favorites)
        &&& self.focus_before_palette != Focus::Palette
    }

    /// The palette as it is shown for the palette input. An input that is longer than the
    /// matcher takes matches nothing.
    pub open spec fn palette_results(self) -> Seq<PaletteItemView> {
        if is_blank(self.palette_input) || within_limits(self.palette_items, self.palette_input) {
            fuzzy_ranked(self.palette_items, self.palette_input)
        } else {
            Seq::empty()
        }
    }

    /// The query that the session sends to the catalog.
    pub open spec fn query(self) -> StationSearchQueryView {
        StationSearchQueryView {
            query: self.search_input,
            filters: self.filters,
            sort: self.sort,
            limit: SEARCH_LIMIT as nat,
        }
    }

    pub open spec fn with_status(self, status: Seq<char>) -> AppView {
        AppView { status_message: status, ..self }
    }

    /// The state after an operation failed: the status reports the error.
    pub open spec fn failed(self, e: AppErrorView) -> AppView {
        self.with_status("Error: "@ + e.message())
    }

    /// The state with the selection brought into the visible list.
    pub open spec fn clamped(self) -> AppView {
        AppView {
            selected_index: clamped_index(self.selected_index, self.visible().len()),
            ..self
        }
    }

    /// The state after the focus moved to `focus`. A focus other than the palette is also the
    /// one to return to from the palette; a move into the palette remembers the focus that it
    /// leaves.
    pub open spec fn focused(self, focus: Focus) -> AppView {
        AppView {
            focus,
            focus_before_palette: if focus != Focus::Palette {
                focus
            } else if self.focus != Focus::Palette {
                self.focus
            } else {
                self.focus_before_palette
            },
            status_message: "Focus: "@ + focus.word(),
            ..self
        }
    }

    /// The state after the palette was opened or closed: opening remembers the focus, closing
    /// returns to it.
    pub open spec fn palette_toggled(self) -> AppView {
        if self.focus == Focus::Palette {
            AppView {
                focus: self.focus_before_palette,
                status_message: "Focus: "@ + self.focus_before_palette.word(),
                ..self
            }
        } else {
            AppView {
                focus_before_palette: self.focus,
                focus: Focus::Palette,
                palette_selected_index: 0,
                status_message: "Focus: Palette"@,
                ..self
            }
        }
    }

    /// The state after `/` was pressed: the command line has the focus, is the focus to return
    /// to from the palette, and starts with `/`; pressed there, it is typed.
    pub open spec fn slash_opened(self) -> AppView {
        if self.focus == Focus::Slash {
            AppView {
                slash_input: self.slash_input.push('/'),
                focus_before_palette: Focus::Slash,
                ..self
            }
        } else {
            AppView {
                focus: Focus::Slash,
                focus_before_palette: Focus::Slash,
                slash_input: if self.slash_input.len() == 0 {
                    seq!['/']
                } else {
                    self.slash_input
                },
                ..self
            }
        }
    }

    /// The state after the palette was dismissed; without the palette open nothing changes.
    pub open spec fn overlays_closed(self) -> AppView {
        if self.focus == Focus::Palette {
            AppView {
                focus: self.focus_before_palette,
                palette_input: Seq::empty(),
                palette_selected_index: 0,
                status_message: "Focus: "@ + self.focus_before_palette.word(),
                ..self
            }
        } else {
            self
        }
    }

    /// The state after a character was typed into the input that has the focus.
    pub open spec fn typed(self, c: char) -> AppView {
        match self.focus {
            Focus::Search => AppView {
                search_input: self.search_input.push(c),
                search_dirty: true,
                ..self
            },
            Focus::Slash => AppView { slash_input: self.slash_input.push(c), ..self },
            Focus::Palette => AppView {
                palette_input: self.palette_input.push(c),
                palette_selected_index: 0,
                ..self
            },
        }
    }

    /// The state after the last character of the input that has the focus was taken back.
    pub open spec fn erased(self) -> AppView {
        match self.focus {
            Focus::Search => AppView {
                search_input: without_last(self.search_input),
                search_dirty: true,
                ..self
            },
            Focus::Slash => AppView { slash_input: without_last(self.slash_input), ..self },
            Focus::Palette => AppView {
                palette_input: without_last(self.palette_input),
                palette_selected_index: 0,
                ..self
            },
        }
    }

    /// The state after the cursor moved one item on: in the palette its cursor, else the
    /// selection.
    pub open spec fn next_selected(self) -> AppView {
        if self.focus == Focus::Palette {
            AppView {
                palette_selected_index: advanced(
                    self.palette_selected_index,
                    self.palette_results().len(),
                ),
                ..self
            }
        } else {
            AppView {
                selected_index: advanced(self.selected_index, self.visible().len()),
                ..self
            }
        }
    }

    /// The state after the cursor moved one item back.
    pub open spec fn previous_selected(self) -> AppView {
        if self.focus == Focus::Palette {
            AppView {
                palette_selected_index: retreated(
                    self.palette_selected_index,
                    self.palette_results().len(),
                ),
                ..self
            }
        } else {
            AppView {
                selected_index: retreated(self.selected_index, self.visible().len()),
                ..self
            }
        }
    }

    /// The state with the station among the favorites: added at the end, unless a favorite has
    /// its id already.
    pub open spec fn with_favorite(self, s: StationView) -> AppView {
        if holds_id(self.favorites, s.station_uuid) {
            self
        } else {
            AppView { favorites: self.favorites.push(s), favorites_unsaved: true, ..self }
        }
    }

    /// The state without the favorites that have the id.
    pub open spec fn without_favorite(self, id: Seq<char>) -> AppView {
        AppView { favorites: without_id(self.favorites, id), favorites_unsaved: true, ..self }
    }

    /// `/fav`: the selected station becomes a favorite.
    pub open spec fn favorite_selected(self) -> (AppView, Result<(), AppErrorView>) {
        match self.selected() {
            Some(s) => (
                self.with_favorite(s).with_status("Favorited "@ + s.name),
                Ok(()),
            ),
            None => (
                self.failed(AppErrorView::NoStationSelected),
                Err(AppErrorView::NoStationSelected),
            ),
        }
    }

    /// `/unfav`: the selected station is a favorite no longer.
    pub open spec fn unfavorite_selected(self) -> (AppView, Result<(), AppErrorView>) {
        match self.selected() {
            Some(s) => (
                self.without_favorite(s.station_uuid).clamped().with_status(
                    "Unfavorited "@ + s.name,
                ),
                Ok(()),
            ),
            None => (
                self.failed(AppErrorView::NoStationSelected),
                Err(AppErrorView::NoStationSelected),
            ),
        }
    }

    /// The favorite key: the selected station changes sides.
    pub open spec fn favorite_toggled(self) -> (AppView, Result<(), AppErrorView>) {
        match self.selected() {
            Some(s) => if holds_id(self.favorites, s.station_uuid) {
                self.unfavorite_selected()
            } else {
                self.favorite_selected()
            },
            None => (
                self.failed(AppErrorView::NoStationSelected),
                Err(AppErrorView::NoStationSelected),
            ),
        }
    }

    /// `/favorites`: the favorites are shown.
    pub open spec fn showing_favorites(self) -> AppView {
        (AppView { results_source: ResultsSource::Favorites, ..self }).clamped().with_status(
            "Showing favorites ("@ + decimal_digits(self.favorites.len()) + ")"@,
        )
    }

    /// The station that a play target names in the visible list.
    pub open spec fn resolve(self, target: PlayTargetView) -> Result<StationView, AppErrorView> {
        match target {
            PlayTargetView::Selected => match self.selected() {
                Some(s) => Ok(s),
                None => Err(AppErrorView::NoStationSelected),
            },
            PlayTargetView::Index(n) => if self.visible().len() == 0 {
                Err(AppErrorView::NoStationsAvailable)
            } else if 1 <= n <= self.visible().len() {
                Ok(self.visible()[n - 1])
            } else {
                Err(AppErrorView::IndexOutOfRange(self.visible().len() as usize))
            },
            PlayTargetView::Query(text) => {
                let k = first_named(self.visible(), text);
                if k < self.visible().len() {
                    Ok(self.visible()[k])
                } else {
                    Err(AppErrorView::NoStationFound)
                }
            },
        }
    }

    /// The state after the player answered a call: success is shown and, for `play` and
    /// `stop`, changes what is playing; failure is shown and changes nothing else. Only a
    /// shutdown that failed is an error of the session, and only one that succeeded ends it.
    pub open spec fn after_playback(
        self,
        call: PlaybackCallView,
        outcome: Result<(), PlaybackErrorView>,
    ) -> (AppView, Result<(), AppErrorView>) {
        match call {
            PlaybackCallView::Play(s) => (
                match outcome {
                    Ok(_) => AppView {
                        now_playing: Some(s),
                        status_message: "Playing "@ + s.name,
                        ..self
                    },
                    Err(e) => self.with_status("Playback play failed: "@ + e.message()),
                },
                Ok(()),
            ),
            PlaybackCallView::Stop => (
                match outcome {
                    Ok(_) => AppView {
                        now_playing: None,
                        status_message: "Playback stopped"@,
                        ..self
                    },
                    Err(e) => self.with_status("Playback stop failed: "@ + e.message()),
                },
                Ok(()),
            ),
            PlaybackCallView::Pause => (
                match outcome {
                    Ok(_) => self.with_status("Playback paused"@),
                    Err(e) => self.with_status("Playback pause failed: "@ + e.message()),
                },
                Ok(()),
            ),
            PlaybackCallView::Resume => (
                match outcome {
                    Ok(_) => self.with_status("Playback resumed"@),
                    Err(e) => self.with_status("Playback resume failed: "@ + e.message()),
                },
                Ok(()),
            ),
            PlaybackCallView::SetVolume(v) => (
                match outcome {
                    Ok(_) => self.with_status(
                        "Volume set to "@ + decimal_digits(v as nat) + "%"@,
                    ),
                    Err(e) => self.with_status("Playback volume failed: "@ + e.message()),
                },
                Ok(()),
            ),
            PlaybackCallView::Shutdown => match outcome {
                Ok(_) => (
                    AppView {
                        running: false,
                        now_playing: None,
                        status_message: "Bye"@,
                        ..self
                    },
                    Ok(()),
                ),
                Err(e) => (
                    self.failed(AppErrorView::ShutdownFailed(e)),
                    Err(AppErrorView::ShutdownFailed(e)),
                ),
            },
        }
    }

    /// The state in which the catalog is asked: the cause has set the text, the filters or the
    /// order, and every search but the first shows the search results.
    pub open spec fn searching(self, cause: SearchCauseView) -> AppView {
        match cause {
            SearchCauseView::Startup => self,
            SearchCauseView::Typed => AppView { results_source: ResultsSource::Stations, ..self },
            SearchCauseView::Search(q) => AppView {
                search_input: q,
                results_source: ResultsSource::Stations,
                ..self
            },
            SearchCauseView::Filter(f) => AppView {
                filters: f,
                results_source: ResultsSource::Stations,
                ..self
            },
            SearchCauseView::ClearFilters => AppView {
                filters: StationFiltersView::none(),
                results_source: ResultsSource::Stations,
                ..self
            },
            SearchCauseView::Sort(s) => AppView {
                sort: s,
                results_source: ResultsSource::Stations,
                ..self
            },
        }
    }

    /// The status after a search that found `n` stations.
    pub open spec fn found_status(self, cause: SearchCauseView, n: nat) -> Seq<char> {
        match cause {
            SearchCauseView::Startup => "Loaded "@ + decimal_digits(n) + " stations"@,
            SearchCauseView::Typed => "Search refreshed ("@ + decimal_digits(n)
                + " results, sort="@ + self.sort.word() + ")"@,
            SearchCauseView::Search(_) => "Search applied ("@ + decimal_digits(n) + " results)"@,
            SearchCauseView::Filter(_) => "Filters applied ("@ + decimal_digits(n)
                + " results)"@,
            SearchCauseView::ClearFilters => "Filters cleared ("@ + decimal_digits(n)
                + " results)"@,
            SearchCauseView::Sort(s) => "Sort applied: "@ + s.word() + " ("@ + decimal_digits(n)
                + " results)"@,
        }
    }

    /// The state after the catalog answered: its stations replace the search results, the
    /// selection is brought into the list and the search text counts as submitted; a failure
    /// is reported and, but for the first search, is an error of the session.
    pub open spec fn after_search(
        self,
        cause: SearchCauseView,
        outcome: Result<Seq<StationView>, CatalogErrorView>,
    ) -> (AppView, Result<(), AppErrorView>) {
        match outcome {
            Ok(list) => (
                (AppView {
                    filtered: list,
                    search_dirty: if cause is Startup {
                        self.search_dirty
                    } else {
                        false
                    },
                    ..self
                }).clamped().with_status(self.found_status(cause, list.len())),
                Ok(()),
            ),
            Err(e) => {
                let error = AppErrorView::SearchFailed(self.search_input, self.sort, e);
                if cause is Startup {
                    (
                        self.clamped().with_status(
                            "Station discovery unavailable: "@ + error.message(),
                        ),
                        Ok(()),
                    )
                } else {
                    (self.clamped().failed(error), Err(error))
                }
            },
        }
    }

    /// The question that the session puts to the catalog for a cause: the query of the state
    /// in which the cause has set the text, the filters or the order.
    pub open spec fn planned_search(self, cause: SearchCauseView) -> CatalogCallView {
        CatalogCallView { cause, query: self.searching(cause).query() }
    }

    /// What a command asks of the outside in this state. `/play` calls the player with the
    /// station that its target names, and calls nothing where it names none; the other
    /// playback commands call the player's operation of their name, `/quit` its shutdown; the
    /// four search commands ask the catalog with the updated query; the rest asks nothing.
    pub open spec fn planned(self, command: SlashCommandView) -> PlannedView {
        match command {
            SlashCommandView::Play(target) => match self.resolve(target) {
                Ok(s) => PlannedView::Player(PlaybackCallView::Play(s)),
                Err(_) => PlannedView::Nothing,
            },
            SlashCommandView::Stop => PlannedView::Player(PlaybackCallView::Stop),
            SlashCommandView::Pause => PlannedView::Player(PlaybackCallView::Pause),
            SlashCommandView::Resume => PlannedView::Player(PlaybackCallView::Resume),
            SlashCommandView::Volume(v) => PlannedView::Player(PlaybackCallView::SetVolume(v)),
            SlashCommandView::Quit => PlannedView::Player(PlaybackCallView::Shutdown),
            SlashCommandView::Search(q) => PlannedView::Catalog(
                self.planned_search(SearchCauseView::Search(q)),
            ),
            SlashCommandView::Filter(f) => PlannedView::Catalog(
                self.planned_search(SearchCauseView::Filter(f)),
            ),
            SlashCommandView::ClearFilters => PlannedView::Catalog(
                self.planned_search(SearchCauseView::ClearFilters),
            ),
            SlashCommandView::Sort(s) => PlannedView::Catalog(
                self.planned_search(SearchCauseView::Sort(s)),
            ),
            SlashCommandView::Favorites => PlannedView::Nothing,
            SlashCommandView::Favorite => PlannedView::Nothing,
            SlashCommandView::Unfavorite => PlannedView::Nothing,
            SlashCommandView::Help => PlannedView::Nothing,
        }
    }

    /// What the enter key asks of the outside in this state: a search text that changed asks
    /// the catalog; otherwise the command that the key stands for decides, and a line that is
    /// no command, an action that is not known and a palette without an item at its cursor
    /// ask nothing.
    pub open spec fn planned_submit(self) -> PlannedView {
        match self.focus {
            Focus::Search => if self.search_dirty {
                PlannedView::Catalog(self.planned_search(SearchCauseView::Typed))
            } else {
                self.planned(SlashCommandView::Play(PlayTargetView::Selected))
            },
            Focus::Slash => match parse_line(self.slash_input) {
                Ok(command) => self.planned(command),
                Err(_) => PlannedView::Nothing,
            },
            Focus::Palette => {
                let results = self.palette_results();
                if self.palette_selected_index < results.len() {
                    match palette_command(results[self.palette_selected_index as int].action) {
                        Some(command) => self.planned(command),
                        None => PlannedView::Nothing,
                    }
                } else {
                    PlannedView::Nothing
                }
            },
        }
    }

    /// What the outside answered to a plan, applied to the session: the answer of the player
    /// where the player was called, the answer of the catalog where the catalog was asked.
    pub open spec fn after_plan(
        self,
        plan: PlannedView,
        playback: Result<(), PlaybackErrorView>,
        search: Result<Seq<StationView>, CatalogErrorView>,
    ) -> (AppView, Result<(), AppErrorView>) {
        match plan {
            PlannedView::Nothing => (self, Ok(())),
            PlannedView::Player(call) => self.after_playback(call, playback),
            PlannedView::Catalog(call) => self.searching(call.cause).after_search(
                call.cause,
                search,
            ),
        }
    }

    /// What a command does. `playback` is what the player answers where the command calls it,
    /// `search` what the catalog answers where the command asks it; a command makes at most
    /// one of the two calls.
    pub open spec fn execute(
        self,
        command: SlashCommandView,
        playback: Result<(), PlaybackErrorView>,
        search: Result<Seq<StationView>, CatalogErrorView>,
    ) -> (AppView, Result<(), AppErrorView>) {
        match command {
            SlashCommandView::Play(target) => match self.resolve(target) {
                Ok(s) => self.after_playback(PlaybackCallView::Play(s), playback),
                Err(e) => (self.failed(e), Err(e)),
            },
            SlashCommandView::Stop => self.after_playback(PlaybackCallView::Stop, playback),
            SlashCommandView::Pause => self.after_playback(PlaybackCallView::Pause, playback),
            SlashCommandView::Resume => self.after_playback(PlaybackCallView::Resume, playback),
            SlashCommandView::Volume(v) => self.after_playback(
                PlaybackCallView::SetVolume(v),
                playback,
            ),
            SlashCommandView::Quit => self.after_playback(PlaybackCallView::Shutdown, playback),
            SlashCommandView::Search(q) => self.searching(SearchCauseView::Search(q)).after_search(
                SearchCauseView::Search(q),
                search,
            ),
            SlashCommandView::Filter(f) => self.searching(SearchCauseView::Filter(f)).after_search(
                SearchCauseView::Filter(f),
                search,
            ),
            SlashCommandView::ClearFilters => self.searching(
                SearchCauseView::ClearFilters,
            ).after_search(SearchCauseView::ClearFilters, search),
            SlashCommandView::Sort(s) => self.searching(SearchCauseView::Sort(s)).after_search(
                SearchCauseView::Sort(s),
                search,
            ),
            SlashCommandView::Favorites => (self.showing_favorites(), Ok(())),
            SlashCommandView::Favorite => self.favorite_selected(),
            SlashCommandView::Unfavorite => self.unfavorite_selected(),
            SlashCommandView::Help => (self.with_status(help_text()), Ok(())),
        }
    }

    /// What a line of the command language does: it is parsed and executed, or reported as no
    /// command.
    pub open spec fn execute_line(
        self,
        line: Seq<char>,
        playback: Result<(), PlaybackErrorView>,
        search: Result<Seq<StationView>, CatalogErrorView>,
    ) -> (AppView, Result<(), AppErrorView>) {
        match parse_line(line) {
            Ok(command) => self.execute(command, playback, search),
            Err(e) => (self.failed(AppErrorView::Parse(e)), Err(AppErrorView::Parse(e))),
        }
    }

    /// What a palette action does.
    pub open spec fn execute_action(
        self,
        action: Seq<char>,
        playback: Result<(), PlaybackErrorView>,
        search: Result<Seq<StationView>, CatalogErrorView>,
    ) -> (AppView, Result<(), AppErrorView>) {
        match palette_command(action) {
            Some(command) => self.execute(command, playback, search),
            None => (
                self.failed(AppErrorView::UnsupportedPaletteAction(action)),
                Err(AppErrorView::UnsupportedPaletteAction(action)),
            ),
        }
    }

    /// What the enter key does. In the search input, a text that changed is searched for, and
    /// one that did not plays the selection. In the command line, the line is executed and
    /// cleared. In the palette, the item at the cursor is executed and the palette closed; with
    /// no item there, nothing changes but the status.
    pub open spec fn submit(
        self,
        playback: Result<(), PlaybackErrorView>,
        search: Result<Seq<StationView>, CatalogErrorView>,
    ) -> (AppView, Result<(), AppErrorView>) {
        match self.focus {
            Focus::Search => if self.search_dirty {
                self.searching(SearchCauseView::Typed).after_search(
                    SearchCauseView::Typed,
                    search,
                )
            } else {
                self.execute(
                    SlashCommandView::Play(PlayTargetView::Selected),
                    playback,
                    search,
                )
            },
            Focus::Slash => (AppView { slash_input: Seq::empty(), ..self }).execute_line(
                self.slash_input,
                playback,
                search,
            ),
            Focus::Palette => {
                let results = self.palette_results();
                if self.palette_selected_index < results.len() {
                    (AppView {
                        focus: self.focus_before_palette,
                        palette_input: Seq::empty(),
                        palette_selected_index: 0,
                        ..self
                    }).execute_action(
                        results[self.palette_selected_index as int].action,
                        playback,
                        search,
                    )
                } else {
                    (
                        self.failed(AppErrorView::NoPaletteMatch),
                        Err(AppErrorView::NoPaletteMatch),
                    )
                }
            },
        }
    }

    /// The state in which the enter key acts: the command line is cleared, the palette is
    /// closed where it shows an item at its cursor, and the search input stays as it is.
    pub open spec fn input_taken(self) -> AppView {
        match self.focus {
            Focus::Search => self,
            Focus::Slash => AppView { slash_input: Seq::empty(), ..self },
            Focus::Palette => if self.palette_selected_index < self.palette_results().len() {
                AppView {
                    focus: self.focus_before_palette,
                    palette_input: Seq::empty(),
                    palette_selected_index: 0,
                    ..self
                }
            } else {
                self
            },
        }
    }

    /// The state in which a session starts, before its first search.
    pub open spec fn initial(
        favorites: Seq<StationView>,
        sort: StationSort,
        filters: StationFiltersView,
    ) -> AppView {
        AppView {
            running: true,
            status_message: "Ready"@,
            selected_index: 0,
            focus: Focus::Search,
            search_input: Seq::empty(),
            slash_input: Seq::empty(),
            palette_input: Seq::empty(),
            focus_before_palette: Focus::Search,
            search_dirty: false,
            results_source: ResultsSource::Stations,
            palette_selected_index: 0,
            filtered: Seq::empty(),
            favorites: first_of_each_id(favorites),
            favorites_unsaved: false,
            filters,
            sort,
            now_playing: None,
            palette_items: default_palette(),
        }
    }
}

/// The text without its last character; the empty text stays empty.
pub open spec fn without_last(s: Seq<char>) -> Seq<char> {
    if s.len() > 0 {
        s.drop_last()
    } else {
        s
    }
}

/// One item of the palette.
pub open spec fn palette_entry(label: Seq<char>, action: Seq<char>) -> PaletteItemView {
    PaletteItemView { label, action }
}

/// The palette of a session.
pub open spec fn default_palette() -> Seq<PaletteItemView> {
    seq![
        palette_entry("Play selected station"@, "play"@),
        palette_entry("Show favorites"@, "favorites"@),
        palette_entry("Stop playback"@, "stop"@),
        palette_entry("Pause playback"@, "pause"@),
        palette_entry("Resume playback"@, "resume"@),
        palette_entry("Favorite selected station"@, "favorite"@),
        palette_entry("Unfavorite selected station"@, "unfavorite"@),
        palette_entry("Clear filters"@, "clear-filters"@),
        palette_entry("Sort by name"@, "sort-name"@),
        palette_entry("Sort by votes"@, "sort-votes"@),
        palette_entry("Sort by clicks"@, "sort-clicks"@),
        palette_entry("Sort by bitrate"@, "sort-bitrate"@),
        palette_entry("Show help"@, "help"@),
        palette_entry("Quit iradio"@, "quit"@),
    ]
}

fn entry(label: &str, action: &str) -> (r: PaletteItem)
    ensures
        r@ == palette_entry(label@, action@),
{
    PaletteItem { label: label.to_owned(), action: action.to_owned() }
}

/// The palette of a session.
pub fn default_palette_items() -> (r: Vec<PaletteItem>)
    ensures
        item_views(r@) == default_palette(),
{
    let mut r: Vec<PaletteItem> = Vec::new();
    r.push(entry("Play selected station", "play"));
    r.push(entry("Show favorites", "favorites"));
    r.push(entry("Stop playback", "stop"));
    r.push(entry("Pause playback", "pause"));
    r.push(entry("Resume playback", "resume"));
    r.push(entry("Favorite selected station", "favorite"));
    r.push(entry("Unfavorite selected station", "unfavorite"));
    r.push(entry("Clear filters", "clear-filters"));
    r.push(entry("Sort by name", "sort-name"));
    r.push(entry("Sort by votes", "sort-votes"));
    r.push(entry("Sort by clicks", "sort-clicks"));
    r.push(entry("Sort by bitrate", "sort-bitrate"));
    r.push(entry("Show help", "help"));
    r.push(entry("Quit iradio", "quit"));
    assert(item_views(r@) =~= default_palette());
    r
}

/// The word by which commands and messages call a sort field.
pub fn sort_label(sort: StationSort) -> (r: &'static str)
    ensures
        r@ == sort.word(),
{
    sort.label()
}

/// One of the built-in stations: an English station in MP3 at 128 kbit/s with two tags.
pub open spec fn builtin_station(
    id: Seq<char>,
    name: Seq<char>,
    url: Seq<char>,
    homepage: Seq<char>,
    tags: (Seq<char>, Seq<char>),
    country: Seq<char>,
    votes: u32,
    clicks: u32,
) -> StationView {
    StationView {
        station_uuid: id,
        name,
        url_resolved: url,
        homepage: Some(homepage),
        favicon: None,
        tags: seq![tags.0, tags.1],
        country: Some(country),
        country_code: None,
        language: Some("English"@),
        codec: Some("MP3"@),
        bitrate: Some(128u32),
        votes: Some(votes),
        click_count: Some(clicks),
    }
}

/// The stations that a session without a remote catalog can search.
pub open spec fn builtin_stations() -> Seq<StationView> {
    seq![
        builtin_station(
            "bbc-world-service"@,
            "BBC World Service"@,
            "http://stream.live.vc.bbcmedia.co.uk/bbc_world_service"@,
            "https://www.bbc.co.uk/worldserviceradio"@,
            ("news"@, "world"@),
            "United Kingdom"@,
            500,
            2000,
        ),
        builtin_station(
            "npr"@,
            "NPR"@,
            "https://npr-ice.streamguys1.com/live.mp3"@,
            "https://www.npr.org"@,
            ("news"@, "talk"@),
            "United States"@,
            700,
            3000,
        ),
        builtin_station(
            "soma-groove"@,
            "SomaFM Groove Salad"@,
            "https://ice2.somafm.com/groovesalad-128-mp3"@,
            "https://somafm.com/groovesalad/"@,
            ("ambient"@, "electronic"@),
            "United States"@,
            900,
            4000,
        ),
    ]
}

fn builtin(
    id: &str,
    name: &str,
    url: &str,
    homepage: &str,
    tags: (&str, &str),
    country: &str,
    votes: u32,
    clicks: u32,
) -> (r: Station)
    ensures
        r@ == builtin_station(
            id@,
            name@,
            url@,
            homepage@,
            (tags.0@, tags.1@),
            country@,
            votes,
            clicks,
        ),
{
    let mut both: Vec<String> = Vec::new();
    both.push(tags.0.to_owned());
    both.push(tags.1.to_owned());
    assert(crate::text::texts(both@) =~= seq![tags.0@, tags.1@]);
    Station {
        station_uuid: id.to_owned(),
        name: name.to_owned(),
        url_resolved: url.to_owned(),
        homepage: Some(homepage.to_owned()),
        favicon: None,
        tags: both,
        country: Some(country.to_owned()),
        country_code: None,
        language: Some("English".to_owned()),
        codec: Some("MP3".to_owned()),
        bitrate: Some(128),
        votes: Some(votes),
        click_count: Some(clicks),
    }
}

/// The stations that a session without a remote catalog can search.
pub fn default_stations() -> (r: Vec<Station>)
    ensures
        station_views(r@) == builtin_stations(),
{
    let mut r: Vec<Station> = Vec::new();
    r.push(
        builtin(
            "bbc-world-service",
            "BBC World Service",
            "http://stream.live.vc.bbcmedia.co.uk/bbc_world_service",
            "https://www.bbc.co.uk/worldserviceradio",
            ("news", "world"),
            "United Kingdom",
            500,
            2000,
        ),
    );
    r.push(
        builtin(
            "npr",
            "NPR",
            "https://npr-ice.streamguys1.com/live.mp3",
            "https://www.npr.org",
            ("news", "talk"),
            "United States",
            700,
            3000,
        ),
    );
    r.push(
        builtin(
            "soma-groove",
            "SomaFM Groove Salad",
            "https://ice2.somafm.com/groovesalad-128-mp3",
            "https://somafm.com/groovesalad/",
            ("ambient", "electronic"),
            "United States",
            900,
            4000,
        ),
    );
    assert(station_views(r@) =~= builtin_stations());
    r
}

/// What an optional reference to a station says.
pub open spec fn shown(o: Option<&Station>) -> Option<StationView> {
    match o {
        Some(s) => Some(s@),
        None => None,
    }
}

/// What the station that a play target names, or the error, says.
pub open spec fn resolved_view(r: Result<Station, AppError>) -> Result<StationView, AppErrorView> {
    match r {
        Ok(s) => Ok(s@),
        Err(e) => Err(e@),
    }
}

/// Of each id, only the first station stays: no two of them share an id.
pub proof fn lemma_first_of_each_id_distinct(list: Seq<StationView>)
    ensures
        distinct_ids(first_of_each_id(list)),
    decreases list.len(),
{
    if list.len() > 0 {
        lemma_first_of_each_id_distinct(list.drop_last());
    }
}

/// Removing an id takes nothing else away, adds nothing and keeps the ids distinct.
pub proof fn lemma_without_id(list: Seq<StationView>, id: Seq<char>)
    ensures
        !holds_id(without_id(list, id), id),
        forall|k: int|
            0 <= k < without_id(list, id).len() ==> list.contains(#[trigger] without_id(list, id)[k]),
        distinct_ids(list) ==> distinct_ids(without_id(list, id)),
        without_id(list, id).len() <= list.len(),
    decreases list.len(),
{
    if list.len() > 0 {
        let shorter = list.drop_last();
        lemma_without_id(shorter, id);
        let before = without_id(shorter, id);
        let now = without_id(list, id);
        assert forall|k: int| 0 <= k < now.len() implies list.contains(#[trigger] now[k]) by {
            if k < before.len() {
                assert(shorter.contains(before[k]));
                let j = choose|j: int| 0 <= j < shorter.len() && shorter[j] == before[k];
                assert(list[j] == now[k]);
            } else {
                assert(list[list.len() - 1] == now[k]);
            }
        }
        if distinct_ids(list) {
            assert(distinct_ids(shorter));
            assert forall|i: int, j: int| 0 <= i < j < now.len() implies (#[trigger] now[i]).station_uuid
                != (#[trigger] now[j]).station_uuid by {
                if j < before.len() {
                } else {
                    assert(shorter.contains(before[i]));
                    let m = choose|m: int| 0 <= m < shorter.len() && shorter[m] == before[i];
                    assert(list[m].station_uuid != list[list.len() - 1].station_uuid);
                }
            }
        }
    }
}

/// Removing an id that no station has changes nothing.
pub proof fn lemma_without_absent_id(list: Seq<StationView>, id: Seq<char>)
    requires
        !holds_id(list, id),
    ensures
        without_id(list, id) == list,
    decreases list.len(),
{
    if list.len() > 0 {
        let shorter = list.drop_last();
        assert forall|i: int| 0 <= i < shorter.len() implies (#[trigger] shorter[i]).station_uuid
            != id by {
            assert(list[i].station_uuid != id);
        }
        lemma_without_absent_id(shorter, id);
        assert(list[list.len() - 1].station_uuid != id);
        assert(without_id(list, id) =~= list);
    } else {
        assert(without_id(list, id) =~= list);
    }
}

/// Favoriting a station that is no favorite yet and unfavoriting it again leaves the favorites
/// as they were.
pub proof fn lemma_favorite_round_trip(v: AppView, s: StationView)
    requires
        !holds_id(v.favorites, s.station_uuid),
    ensures
        v.with_favorite(s).without_favorite(s.station_uuid).favorites == v.favorites,
{
    let added = v.favorites.push(s);
    assert(added.drop_last() =~= v.favorites);
    lemma_without_absent_id(v.favorites, s.station_uuid);
}

/// `/play <n>` with `n` from 1 to the length of the visible list plays the station at index
/// `n - 1` of that list, whichever list is shown.
pub proof fn lemma_play_index_resolves(v: AppView, n: nat)
    requires
        1 <= n <= v.visible().len(),
    ensures
        v.resolve(PlayTargetView::Index(n)) == Ok::<StationView, AppErrorView>(v.visible()[n - 1]),
        v.results_source == ResultsSource::Stations ==> v.visible() == v.filtered,
        v.results_source == ResultsSource::Favorites ==> v.visible() == v.favorites,
{
}

/// A command that asks something of the outside does what the answer to its plan says; a
/// command that asks nothing does the same whatever the outside would answer.
pub proof fn lemma_execute_follows_plan(
    v: AppView,
    command: SlashCommandView,
    playback: Result<(), PlaybackErrorView>,
    search: Result<Seq<StationView>, CatalogErrorView>,
)
    ensures
        !(v.planned(command) is Nothing) ==> v.execute(command, playback, search) == v.after_plan(
            v.planned(command),
            playback,
            search,
        ),
        v.planned(command) is Nothing ==> v.execute(command, playback, search) == v.execute(
            command,
            Ok(()),
            Ok(Seq::empty()),
        ),
        v.planned(command) matches PlannedView::Catalog(call) ==> call.query.limit == SEARCH_LIMIT,
{
}

/// The palette closes to the focus from which it was entered, however it was entered: by the
/// palette key, or by a step forward or back in the ring. Closing clears the palette and
/// leaves the other inputs as they are.
pub proof fn lemma_palette_returns(v: AppView)
    requires
        v.focus != Focus::Palette,
    ensures
        v.palette_toggled().focus == Focus::Palette,
        v.palette_toggled().overlays_closed().focus == v.focus,
        v.palette_toggled().palette_toggled().focus == v.focus,
        v.focused(Focus::Palette).overlays_closed().focus == v.focus,
        v.focus.next() == Focus::Palette ==> v.focused(v.focus.next()).overlays_closed().focus
            == v.focus,
        v.focus.previous() == Focus::Palette ==> v.focused(
            v.focus.previous(),
        ).overlays_closed().focus == v.focus,
        v.palette_toggled().overlays_closed().palette_input == Seq::<char>::empty(),
        v.palette_toggled().overlays_closed().palette_selected_index == 0,
        v.palette_toggled().overlays_closed().search_input == v.search_input,
        v.palette_toggled().overlays_closed().slash_input == v.slash_input,
        v.overlays_closed() == v,
{
}

/// After `/`, the palette closes to the command line, from wherever `/` was pressed.
pub proof fn lemma_palette_returns_to_command_line(v: AppView)
    ensures
        v.slash_opened().focus == Focus::Slash,
        v.slash_opened().focused(Focus::Palette).overlays_closed().focus == Focus::Slash,
        v.slash_opened().palette_toggled().overlays_closed().focus == Focus::Slash,
{
}

/// What the enter key asks of the outside does not depend on the command line or the palette
/// being cleared first: the plan reads the lists, the selection, the search text, the filters
/// and the order alone.
pub proof fn lemma_plan_reads(v: AppView, w: AppView, command: SlashCommandView)
    requires
        v.filtered == w.filtered,
        v.favorites == w.favorites,
        v.results_source == w.results_source,
        v.selected_index == w.selected_index,
        v.search_input == w.search_input,
        v.filters == w.filters,
        v.sort == w.sort,
    ensures
        v.planned(command) == w.planned(command),
{
}

/// The enter key does what the answer to its plan says, in the state in which the input was
/// taken; where it asks nothing, it does the same whatever the outside would answer.
pub proof fn lemma_submit_follows_plan(
    v: AppView,
    playback: Result<(), PlaybackErrorView>,
    search: Result<Seq<StationView>, CatalogErrorView>,
)
    ensures
        !(v.planned_submit() is Nothing) ==> v.submit(playback, search)
            == v.input_taken().after_plan(v.planned_submit(), playback, search),
        v.planned_submit() is Nothing ==> v.submit(playback, search) == v.submit(
            Ok(()),
            Ok(Seq::empty()),
        ),
{
    let taken = v.input_taken();
    match v.focus {
        Focus::Search => {
            if !v.search_dirty {
                let command = SlashCommandView::Play(PlayTargetView::Selected);
                lemma_execute_follows_plan(v, command, playback, search);
            }
        },
        Focus::Slash => {
            match parse_line(v.slash_input) {
                Ok(command) => {
                    lemma_plan_reads(v, taken, command);
                    lemma_execute_follows_plan(taken, command, playback, search);
                },
                Err(_) => {},
            }
        },
        Focus::Palette => {
            let results = v.palette_results();
            if v.palette_selected_index < results.len() {
                match palette_command(results[v.palette_selected_index as int].action) {
                    Some(command) => {
                        lemma_plan_reads(v, taken, command);
                        lemma_execute_follows_plan(taken, command, playback, search);
                    },
                    None => {},
                }
            }
        },
    }
}

/// The answer of the player changes neither the lists nor the selection.
pub proof fn lemma_after_playback_keeps_wf(
    v: AppView,
    call: PlaybackCallView,
    outcome: Result<(), PlaybackErrorView>,
)
    requires
        v.wf(),
    ensures
        v.after_playback(call, outcome).0.wf(),
{
    let next = v.after_playback(call, outcome).0;
    assert(next.favorites == v.favorites);
    assert(next.visible() == v.visible());
    assert(next.selected_index == v.selected_index);
    assert(next.focus_before_palette == v.focus_before_palette);
}

/// After the answer of the catalog the selection points into the list that is shown.
pub proof fn lemma_after_search_keeps_wf(
    v: AppView,
    cause: SearchCauseView,
    outcome: Result<Seq<StationView>, CatalogErrorView>,
)
    requires
        distinct_ids(v.favorites),
        v.focus_before_palette != Focus::Palette,
    ensures
        v.after_search(cause, outcome).0.wf(),
{
    let next = v.after_search(cause, outcome).0;
    assert(next.favorites == v.favorites);
    assert(next.focus_before_palette == v.focus_before_palette);
    assert(next.selected_index == clamped_index(v.selected_index, next.visible().len()));
}

/// A search keeps the invariant of the session, whatever its cause.
pub proof fn lemma_search_keeps_wf(
    v: AppView,
    cause: SearchCauseView,
    outcome: Result<Seq<StationView>, CatalogErrorView>,
)
    requires
        v.wf(),
    ensures
        v.searching(cause).after_search(cause, outcome).0.wf(),
{
    let asking = v.searching(cause);
    assert(asking.favorites == v.favorites);
    assert(asking.focus_before_palette == v.focus_before_palette);
    lemma_after_search_keeps_wf(asking, cause, outcome);
}

/// The favorite commands keep the invariant of the session.
pub proof fn lemma_favorites_keep_wf(v: AppView)
    requires
        v.wf(),
    ensures
        v.favorite_selected().0.wf(),
        v.unfavorite_selected().0.wf(),
        v.showing_favorites().wf(),
{
    match v.selected() {
        Some(s) => {
            lemma_without_id(v.favorites, s.station_uuid);
            let added = v.with_favorite(s);
            assert(distinct_ids(added.favorites));
            assert(added.visible().len() >= v.visible().len());
            let removed = v.without_favorite(s.station_uuid).clamped();
            assert(removed.favorites == without_id(v.favorites, s.station_uuid));
        },
        None => {},
    }
}

/// The line `/play <n>` with `n` from 1 to the length of the visible list, executed while the
/// player accepts, plays the station at index `n - 1` of that list.
pub proof fn lemma_play_line_plays_station(
    v: AppView,
    n: nat,
    search: Result<Seq<StationView>, CatalogErrorView>,
)
    requires
        1 <= n <= v.visible().len(),
        n <= usize::MAX,
    ensures
        v.execute_line("/play "@ + decimal_digits(n), Ok(()), search).0.now_playing == Some(
            v.visible()[n - 1],
        ),
        v.execute_line("/play "@ + decimal_digits(n), Ok(()), search).1 is Ok,
{
    lemma_parse_play_number(n);
    lemma_play_index_resolves(v, n);
}

/// The line `/play 0` fails in every state of the session, whatever the player and the
/// catalog would answer, and changes nothing but the status.
pub proof fn lemma_play_zero_fails(
    v: AppView,
    playback: Result<(), PlaybackErrorView>,
    search: Result<Seq<StationView>, CatalogErrorView>,
)
    ensures
        v.execute_line("/play 0"@, playback, search) == (
            v.failed(AppErrorView::Parse(ParseErrorView::ZeroPlayIndex)),
            Err::<(), AppErrorView>(AppErrorView::Parse(ParseErrorView::ZeroPlayIndex)),
        ),
{
    lemma_play_zero_is_refused();
}

/// Every command keeps the invariant of the session, whatever the player and the catalog
/// answer.
pub proof fn lemma_execute_keeps_wf(
    v: AppView,
    command: SlashCommandView,
    playback: Result<(), PlaybackErrorView>,
    search: Result<Seq<StationView>, CatalogErrorView>,
)
    requires
        v.wf(),
    ensures
        v.execute(command, playback, search).0.wf(),
{
    match command {
        SlashCommandView::Play(target) => {
            match v.resolve(target) {
                Ok(s) => {
                    lemma_after_playback_keeps_wf(v, PlaybackCallView::Play(s), playback);
                },
                Err(e) => {},
            }
        },
        SlashCommandView::Stop => {
            lemma_after_playback_keeps_wf(v, PlaybackCallView::Stop, playback);
        },
        SlashCommandView::Pause => {
            lemma_after_playback_keeps_wf(v, PlaybackCallView::Pause, playback);
        },
        SlashCommandView::Resume => {
            lemma_after_playback_keeps_wf(v, PlaybackCallView::Resume, playback);
        },
        SlashCommandView::Volume(value) => {
            lemma_after_playback_keeps_wf(v, PlaybackCallView::SetVolume(value), playback);
        },
        SlashCommandView::Quit => {
            lemma_after_playback_keeps_wf(v, PlaybackCallView::Shutdown, playback);
        },
        SlashCommandView::Search(q) => {
            lemma_search_keeps_wf(v, SearchCauseView::Search(q), search);
        },
        SlashCommandView::Filter(f) => {
            lemma_search_keeps_wf(v, SearchCauseView::Filter(f), search);
        },
        SlashCommandView::ClearFilters => {
            lemma_search_keeps_wf(v, SearchCauseView::ClearFilters, search);
        },
        SlashCommandView::Sort(s) => {
            lemma_search_keeps_wf(v, SearchCauseView::Sort(s), search);
        },
        SlashCommandView::Favorites => {
            lemma_favorites_keep_wf(v);
        },
        SlashCommandView::Favorite => {
            lemma_favorites_keep_wf(v);
        },
        SlashCommandView::Unfavorite => {
            lemma_favorites_keep_wf(v);
        },
        SlashCommandView::Help => {},
    }
}

/// The enter key keeps the invariant of the session.
pub proof fn lemma_submit_keeps_wf(
    v: AppView,
    playback: Result<(), PlaybackErrorView>,
    search: Result<Seq<StationView>, CatalogErrorView>,
)
    requires
        v.wf(),
    ensures
        v.submit(playback, search).0.wf(),
{
    match v.focus {
        Focus::Search => {
            if !v.search_dirty {
                lemma_execute_keeps_wf(
                    v,
                    SlashCommandView::Play(PlayTargetView::Selected),
                    playback,
                    search,
                );
            } else {
                lemma_search_keeps_wf(v, SearchCauseView::Typed, search);
            }
        },
        Focus::Slash => {
            let cleared = AppView { slash_input: Seq::empty(), ..v };
            match parse_line(v.slash_input) {
                Ok(command) => {
                    lemma_execute_keeps_wf(cleared, command, playback, search);
                },
                Err(_) => {},
            }
        },
        Focus::Palette => {
            let results = v.palette_results();
            if v.palette_selected_index < results.len() {
                let closed = AppView {
                    focus: v.focus_before_palette,
                    palette_input: Seq::empty(),
                    palette_selected_index: 0,
                    ..v
                };
                match palette_command(results[v.palette_selected_index as int].action) {
                    Some(command) => {
                        lemma_execute_keeps_wf(closed, command, playback, search);
                    },
                    None => {},
                }
            }
        },
    }
}

/// The favorite key keeps the invariant of the session.
pub proof fn lemma_favorite_toggled_keeps_wf(v: AppView)
    requires
        v.wf(),
    ensures
        v.favorite_toggled().0.wf(),
{
    lemma_favorites_keep_wf(v);
}

fn has_id(list: &Vec<Station>, id: &String) -> (r: bool)
    ensures
        r == holds_id(station_views(list@), id@),
{
    let mut i: usize = 0;
    while i < list.len()
        invariant
            i <= list.len(),
            forall|j: int| 0 <= j < i ==> (#[trigger] station_views(list@)[j]).station_uuid != id@,
        decreases list.len() - i,
    {
        if list[i].station_uuid == *id {
            assert(station_views(list@)[i as int].station_uuid == id@);
            return true;
        }
        i += 1;
    }
    false
}

fn first_of_each(list: &Vec<Station>) -> (r: Vec<Station>)
    ensures
        station_views(r@) == first_of_each_id(station_views(list@)),
{
    let ghost all = station_views(list@);
    let mut out: Vec<Station> = Vec::new();
    let mut i: usize = 0;
    assert(station_views(out@) =~= first_of_each_id(all.take(0)));
    while i < list.len()
        invariant
            i <= list.len(),
            all == station_views(list@),
            station_views(out@) == first_of_each_id(all.take(i as int)),
        decreases list.len() - i,
    {
        assert(all.take(i + 1).drop_last() =~= all.take(i as int));
        assert(all.take(i + 1).last() == list@[i as int]@);
        if !has_id(&out, &list[i].station_uuid) {
            let ghost before = station_views(out@);
            out.push(list[i].clone());
            assert(station_views(out@) =~= before.push(list@[i as int]@));
        }
        i += 1;
    }
    assert(all.take(list.len() as int) =~= all);
    out
}

fn remove_id(list: &Vec<Station>, id: &String) -> (r: Vec<Station>)
    ensures
        station_views(r@) == without_id(station_views(list@), id@),
{
    let ghost all = station_views(list@);
    let mut out: Vec<Station> = Vec::new();
    let mut i: usize = 0;
    assert(station_views(out@) =~= without_id(all.take(0), id@));
    while i < list.len()
        invariant
            i <= list.len(),
            all == station_views(list@),
            station_views(out@) == without_id(all.take(i as int), id@),
        decreases list.len() - i,
    {
        assert(all.take(i + 1).drop_last() =~= all.take(i as int));
        assert(all.take(i + 1).last() == list@[i as int]@);
        if !(list[i].station_uuid == *id) {
            let ghost before = station_views(out@);
            out.push(list[i].clone());
            assert(station_views(out@) =~= before.push(list@[i as int]@));
        }
        i += 1;
    }
    assert(all.take(list.len() as int) =~= all);
    out
}

fn without_last_char(s: &String) -> (r: String)
    ensures
        r@ == without_last(s@),
{
    let v = chars_of(s.as_str());
    if v.len() == 0 {
        return String::new();
    }
    let kept = subrange(&v, 0, v.len() - 1);
    assert(kept@ =~= v@.drop_last());
    string_of(&kept)
}

fn step_forward(index: usize, len: usize) -> (r: usize)
    ensures
        r == advanced(index as nat, len as nat),
{
    if len == 0 {
        index
    } else if index >= len - 1 {
        0
    } else {
        index + 1
    }
}

fn step_back(index: usize, len: usize) -> (r: usize)
    ensures
        r == retreated(index as nat, len as nat),
{
    if len == 0 {
        index
    } else if index == 0 || index > len {
        len - 1
    } else {
        index - 1
    }
}

/// The command that a palette action stands for.
pub fn command_for_action(action: &str) -> (r: Option<SlashCommand>)
    ensures
        match r {
            Some(c) => palette_command(action@) == Some(c@),
            None => palette_command(action@).is_none(),
        },
{
    let a = chars_of(action);
    if spells(&a, "play") {
        Some(SlashCommand::Play(PlayTarget::Selected))
    } else if spells(&a, "stop") {
        Some(SlashCommand::Stop)
    } else if spells(&a, "pause") {
        Some(SlashCommand::Pause)
    } else if spells(&a, "resume") {
        Some(SlashCommand::Resume)
    } else if spells(&a, "favorites") {
        Some(SlashCommand::Favorites)
    } else if spells(&a, "favorite") {
        Some(SlashCommand::Favorite)
    } else if spells(&a, "unfavorite") {
        Some(SlashCommand::Unfavorite)
    } else if spells(&a, "clear-filters") {
        Some(SlashCommand::ClearFilters)
    } else if spells(&a, "sort-name") {
        Some(SlashCommand::Sort(StationSort::Name))
    } else if spells(&a, "sort-votes") {
        Some(SlashCommand::Sort(StationSort::Votes))
    } else if spells(&a, "sort-clicks") {
        Some(SlashCommand::Sort(StationSort::Clicks))
    } else if spells(&a, "sort-bitrate") {
        Some(SlashCommand::Sort(StationSort::Bitrate))
    } else if spells(&a, "help") {
        Some(SlashCommand::Help)
    } else if spells(&a, "quit") {
        Some(SlashCommand::Quit)
    } else {
        None
    }
}

/// The command of the pause key for the state that the player reports.
pub fn pause_key_command(state: PlaybackState) -> (r: SlashCommand)
    ensures
        r@ == pause_key(state),
{
    match state {
        PlaybackState::Paused => SlashCommand::Resume,
        _ => SlashCommand::Pause,
    }
}

/// A session: its state, its player and its catalog.
pub struct App {
    pub running: bool,
    pub status_message: String,
    pub selected_index: usize,
    pub focus: Focus,
    pub search_input: String,
    pub slash_input: String,
    pub palette_input: String,
    focus_before_palette: Focus,
    search_dirty: bool,
    results_source: ResultsSource,
    palette_selected_index: usize,
    filtered: Vec<Station>,
    favorites: Vec<Station>,
    favorites_unsaved: bool,
    filters: StationFilters,
    sort: StationSort,
    now_playing: Option<Station>,
    palette_items: Vec<PaletteItem>,
    playback: Box<dyn PlaybackController>,
    station_catalog: Box<dyn StationCatalog>,
}

impl View for App {
    type V = AppView;

    closed spec fn view(&self) -> AppView {
        AppView {
            running: self.running,
            status_message: self.status_message@,
            selected_index: self.selected_index as nat,
            focus: self.focus,
            search_input: self.search_input@,
            slash_input: self.slash_input@,
            palette_input: self.palette_input@,
            focus_before_palette: self.focus_before_palette,
            search_dirty: self.search_dirty,
            results_source: self.results_source,
            palette_selected_index: self.palette_selected_index as nat,
            filtered: station_views(self.filtered@),
            favorites: station_views(self.favorites@),
            favorites_unsaved: self.favorites_unsaved,
            filters: self.filters@,
            sort: self.sort,
            now_playing: opt_station_view(self.now_playing),
            palette_items: item_views(self.palette_items@),
        }
    }
}

impl App {
    /// A session on the built-in stations.
    pub fn new(playback: Box<dyn PlaybackController>, favorites: Vec<Station>) -> (app: Self)
        ensures
            app@.wf(),
            exists|found: Result<Seq<StationView>, CatalogErrorView>|
                (#[trigger] AppView::initial(
                    station_views(favorites@),
                    StationSort::Votes,
                    StationFiltersView::none(),
                ).after_search(SearchCauseView::Startup, found)).0 == app@,
    {
        let catalog: Box<dyn StationCatalog> = Box::new(StaticCatalog::new(default_stations()));
        App::new_with_catalog(playback, favorites, catalog)
    }

    /// A session on the given catalog, ordered by votes and without filters.
    pub fn new_with_catalog(
        playback: Box<dyn PlaybackController>,
        favorites: Vec<Station>,
        station_catalog: Box<dyn StationCatalog>,
    ) -> (app: Self)
        ensures
            app@.wf(),
            exists|found: Result<Seq<StationView>, CatalogErrorView>|
                (#[trigger] AppView::initial(
                    station_views(favorites@),
                    StationSort::Votes,
                    StationFiltersView::none(),
                ).after_search(SearchCauseView::Startup, found)).0 == app@,
    {
        App::new_with_catalog_and_defaults(
            playback,
            favorites,
            station_catalog,
            AppDefaults::default(),
        )
    }

    /// A session on the given catalog: it starts from the favorites that were handed in, of
    /// each id the first, asks the catalog once and shows what came back.
    pub fn new_with_catalog_and_defaults(
        playback: Box<dyn PlaybackController>,
        favorites: Vec<Station>,
        station_catalog: Box<dyn StationCatalog>,
        defaults: AppDefaults,
    ) -> (app: Self)
        ensures
            app@.wf(),
            exists|found: Result<Seq<StationView>, CatalogErrorView>|
                (#[trigger] AppView::initial(
                    station_views(favorites@),
                    defaults.sort,
                    defaults.filters@,
                ).after_search(SearchCauseView::Startup, found)).0 == app@,
    {
        let kept = first_of_each(&favorites);
        proof {
            lemma_first_of_each_id_distinct(station_views(favorites@));
        }
        let mut app = App {
            running: true,
            status_message: "Ready".to_owned(),
            selected_index: 0,
            focus: Focus::Search,
            search_input: String::new(),
            slash_input: String::new(),
            palette_input: String::new(),
            focus_before_palette: Focus::Search,
            search_dirty: false,
            results_source: ResultsSource::Stations,
            palette_selected_index: 0,
            filtered: Vec::new(),
            favorites: kept,
            favorites_unsaved: false,
            filters: defaults.filters,
            sort: defaults.sort,
            now_playing: None,
            palette_items: default_palette_items(),
            playback,
            station_catalog,
        };
        let ghost start = app@;
        assert(start.filtered =~= Seq::<StationView>::empty());
        assert(start == AppView::initial(
            station_views(favorites@),
            defaults.sort,
            defaults.filters@,
        ));
        let _ = app.refresh_stations(SearchCause::Startup);
        app
    }

    /// Whether the session goes on.
    pub fn running(&self) -> (r: bool)
        ensures
            r == self@.running,
    {
        self.running
    }

    /// The line that reports the last outcome.
    pub fn status_message(&self) -> (r: &String)
        ensures
            r@ == self@.status_message,
    {
        &self.status_message
    }

    /// The index under the selection.
    pub fn selected_index(&self) -> (r: usize)
        ensures
            r == self@.selected_index,
    {
        self.selected_index
    }

    /// The input that receives the keys.
    pub fn focus(&self) -> (r: Focus)
        ensures
            r == self@.focus,
    {
        self.focus
    }

    /// The focus to which the palette closes.
    pub fn focus_before_palette(&self) -> (r: Focus)
        ensures
            r == self@.focus_before_palette,
    {
        self.focus_before_palette
    }

    /// The list that the selection points into.
    pub fn results_source(&self) -> (r: ResultsSource)
        ensures
            r == self@.results_source,
    {
        self.results_source
    }

    pub fn search_input(&self) -> (r: &String)
        ensures
            r@ == self@.search_input,
    {
        &self.search_input
    }

    pub fn slash_input(&self) -> (r: &String)
        ensures
            r@ == self@.slash_input,
    {
        &self.slash_input
    }

    pub fn palette_input(&self) -> (r: &String)
        ensures
            r@ == self@.palette_input,
    {
        &self.palette_input
    }

    pub fn visible_stations(&self) -> (r: &Vec<Station>)
        ensures
            station_views(r@) == self@.visible(),
    {
        match self.results_source {
            ResultsSource::Stations => &self.filtered,
            ResultsSource::Favorites => &self.favorites,
        }
    }

    pub fn selected_station(&self) -> (r: Option<&Station>)
        ensures
            shown(r) == self@.selected(),
    {
        let list = self.visible_stations();
        if self.selected_index < list.len() {
            Some(&list[self.selected_index])
        } else {
            None
        }
    }

    pub fn details_station(&self) -> (r: Option<&Station>)
        ensures
            shown(r) == self@.details(),
    {
        match &self.now_playing {
            Some(s) => Some(s),
            None => self.selected_station(),
        }
    }

    pub fn now_playing(&self) -> (r: Option<&Station>)
        ensures
            shown(r) == self@.now_playing,
    {
        match &self.now_playing {
            Some(s) => Some(s),
            None => None,
        }
    }

    /// The state that the player reports.
    pub fn playback_state(&self) -> PlaybackState {
        self.playback.state()
    }

    pub fn sort(&self) -> (r: StationSort)
        ensures
            r == self@.sort,
    {
        self.sort
    }

    pub fn filters(&self) -> (r: &StationFilters)
        ensures
            r@ == self@.filters,
    {
        &self.filters
    }

    /// The favorites, in the order in which they were added.
    pub fn favorites(&self) -> (r: &Vec<Station>)
        ensures
            station_views(r@) == self@.favorites,
    {
        &self.favorites
    }

    /// Whether the favorites changed since they were last written out.
    pub fn favorites_unsaved(&self) -> (r: bool)
        ensures
            r == self@.favorites_unsaved,
    {
        self.favorites_unsaved
    }

    /// Notes that the favorites were written out.
    pub fn favorites_saved(&mut self)
        ensures
            final(self)@ == (AppView { favorites_unsaved: false, ..old(self)@ }),
            old(self)@.wf() ==> final(self)@.wf(),
    {
        self.favorites_unsaved = false;
    }

    /// Shows a failure that the program around the session met, such as favorites that could
    /// not be written out.
    pub fn report_error(&mut self, message: &str)
        ensures
            final(self)@ == old(self)@.with_status("Error: "@ + message@),
            old(self)@.wf() ==> final(self)@.wf(),
    {
        self.status_message = concat("Error: ", message);
    }

    pub fn is_favorite(&self, station: &Station) -> (r: bool)
        ensures
            r == holds_id(self@.favorites, station@.station_uuid),
    {
        has_id(&self.favorites, &station.station_uuid)
    }

    pub fn current_input(&self) -> (r: String)
        ensures
            r@ == self@.current_input(),
    {
        match self.focus {
            Focus::Search => self.search_input.clone(),
            Focus::Slash => self.slash_input.clone(),
            Focus::Palette => self.palette_input.clone(),
        }
    }

    pub fn results_source_label(&self) -> (r: &'static str)
        ensures
            r@ == self@.results_source.word(),
    {
        self.results_source.label()
    }

    pub fn search_dirty(&self) -> (r: bool)
        ensures
            r == self@.search_dirty,
    {
        self.search_dirty
    }

    pub fn palette_selected_index(&self) -> (r: usize)
        ensures
            r == self@.palette_selected_index,
    {
        self.palette_selected_index
    }

    /// The first `limit` items of the palette as it is shown.
    pub fn palette_preview(&self, limit: usize) -> (r: Vec<PaletteItem>)
        ensures
            item_views(r@) == limited(self@.palette_results(), limit as nat),
    {
        let mut results = self.palette_results();
        if results.len() > limit {
            let ghost all = item_views(results@);
            results.truncate(limit);
            assert(item_views(results@) =~= all.take(limit as int));
        }
        results
    }

    /// The palette as it is shown for the palette input.
    pub fn palette_results(&self) -> (r: Vec<PaletteItem>)
        ensures
            item_views(r@) == self@.palette_results(),
    {
        match try_fuzzy_filter(self.palette_items.as_slice(), self.palette_input.as_str()) {
            Some(v) => v,
            None => {
                let v: Vec<PaletteItem> = Vec::new();
                assert(item_views(v@) =~= Seq::<PaletteItemView>::empty());
                v
            },
        }
    }

    pub fn toggle_focus(&mut self)
        ensures
            final(self)@ == old(self)@.focused(old(self)@.focus.next()),
            old(self)@.wf() ==> final(self)@.wf(),
    {
        let next = match self.focus {
            Focus::Search => Focus::Slash,
            Focus::Slash => Focus::Palette,
            Focus::Palette => Focus::Search,
        };
        self.set_focus(next);
    }

    pub fn toggle_focus_backward(&mut self)
        ensures
            final(self)@ == old(self)@.focused(old(self)@.focus.previous()),
            old(self)@.wf() ==> final(self)@.wf(),
    {
        let previous = match self.focus {
            Focus::Search => Focus::Palette,
            Focus::Slash => Focus::Search,
            Focus::Palette => Focus::Slash,
        };
        self.set_focus(previous);
    }

    pub fn toggle_palette(&mut self)
        ensures
            final(self)@ == old(self)@.palette_toggled(),
            old(self)@.wf() ==> final(self)@.wf(),
    {
        match self.focus {
            Focus::Palette => {
                self.focus = self.focus_before_palette;
                self.status_message = concat("Focus: ", self.focus.label());
            },
            _ => {
                self.focus_before_palette = self.focus;
                self.focus = Focus::Palette;
                self.palette_selected_index = 0;
                self.status_message = "Focus: Palette".to_owned();
            },
        }
    }

    pub fn open_slash_input(&mut self)
        ensures
            final(self)@ == old(self)@.slash_opened(),
            old(self)@.wf() ==> final(self)@.wf(),
    {
        self.focus_before_palette = Focus::Slash;
        match self.focus {
            Focus::Slash => {
                self.slash_input.push('/');
            },
            _ => {
                self.focus = Focus::Slash;
                if self.slash_input.as_str().unicode_len() == 0 {
                    self.slash_input.push('/');
                    assert(self.slash_input@ =~= seq!['/']);
                }
            },
        }
    }

    pub fn close_overlays(&mut self)
        ensures
            final(self)@ == old(self)@.overlays_closed(),
            old(self)@.wf() ==> final(self)@.wf(),
    {
        match self.focus {
            Focus::Palette => {
                self.focus = self.focus_before_palette;
                self.palette_input = String::new();
                self.palette_selected_index = 0;
                self.status_message = concat("Focus: ", self.focus.label());
            },
            _ => {},
        }
    }

    pub fn push_char(&mut self, c: char)
        ensures
            final(self)@ == old(self)@.typed(c),
            old(self)@.wf() ==> final(self)@.wf(),
    {
        match self.focus {
            Focus::Search => {
                self.search_input.push(c);
                self.search_dirty = true;
            },
            Focus::Slash => {
                self.slash_input.push(c);
            },
            Focus::Palette => {
                self.palette_input.push(c);
                self.palette_selected_index = 0;
            },
        }
    }

    pub fn backspace_input(&mut self)
        ensures
            final(self)@ == old(self)@.erased(),
            old(self)@.wf() ==> final(self)@.wf(),
    {
        match self.focus {
            Focus::Search => {
                self.search_input = without_last_char(&self.search_input);
                self.search_dirty = true;
            },
            Focus::Slash => {
                self.slash_input = without_last_char(&self.slash_input);
            },
            Focus::Palette => {
                self.palette_input = without_last_char(&self.palette_input);
                self.palette_selected_index = 0;
            },
        }
    }

    pub fn select_next(&mut self)
        ensures
            final(self)@ == old(self)@.next_selected(),
            old(self)@.wf() ==> final(self)@.wf(),
    {
        match self.focus {
            Focus::Palette => {
                let len = self.palette_results().len();
                self.palette_selected_index = step_forward(self.palette_selected_index, len);
            },
            _ => {
                let len = self.visible_stations().len();
                self.selected_index = step_forward(self.selected_index, len);
            },
        }
    }

    pub fn select_previous(&mut self)
        ensures
            final(self)@ == old(self)@.previous_selected(),
            old(self)@.wf() ==> final(self)@.wf(),
    {
        match self.focus {
            Focus::Palette => {
                let len = self.palette_results().len();
                self.palette_selected_index = step_back(self.palette_selected_index, len);
            },
            _ => {
                let len = self.visible_stations().len();
                self.selected_index = step_back(self.selected_index, len);
            },
        }
    }

    fn set_focus(&mut self, focus: Focus)
        ensures
            final(self)@ == old(self)@.focused(focus),
    {
        match focus {
            Focus::Palette => {
                match self.focus {
                    Focus::Palette => {},
                    left => {
                        self.focus_before_palette = left;
                    },
                }
            },
            _ => {
                self.focus_before_palette = focus;
            },
        }
        self.focus = focus;
        self.status_message = concat("Focus: ", focus.label());
    }

    fn clamp_selected_index(&mut self)
        ensures
            final(self)@ == old(self)@.clamped(),
    {
        let len = self.visible_stations().len();
        if len == 0 {
            self.selected_index = 0;
        } else if self.selected_index >= len {
            self.selected_index = len - 1;
        }
    }

    fn fail(&mut self, e: AppError) -> (r: Result<(), AppError>)
        ensures
            final(self)@ == old(self)@.failed(e@),
            done_view(r) == Err::<(), AppErrorView>(e@),
    {
        self.status_message = concat("Error: ", e.message().as_str());
        Err(e)
    }

    /// The station that a play target names in the visible list.
    pub fn station_for_play_target(&self, target: &PlayTarget) -> (r: Result<Station, AppError>)
        ensures
            resolved_view(r) == self@.resolve(target@),
    {
        match target {
            PlayTarget::Selected => match self.selected_station() {
                Some(s) => Ok(s.clone()),
                None => Err(AppError::NoStationSelected),
            },
            PlayTarget::Index(index) => {
                let stations = self.visible_stations();
                if stations.len() == 0 {
                    Err(AppError::NoStationsAvailable)
                } else if *index >= 1 && *index <= stations.len() {
                    Ok(stations[*index - 1].clone())
                } else {
                    Err(AppError::IndexOutOfRange(stations.len()))
                }
            },
            PlayTarget::Query(text) => {
                let stations = self.visible_stations();
                let wanted = chars_of(to_lowercase(text.as_str()).as_str());
                let ghost list = station_views(stations@);
                let mut i: usize = 0;
                assert(list.skip(0) =~= list);
                while i < stations.len()
                    invariant
                        i <= stations.len(),
                        list == station_views(stations@),
                        list == self@.visible(),
                        target@ == PlayTargetView::Query(text@),
                        wanted@ == lowercase(text@),
                        first_named(list, text@) == i + first_named(list.skip(i as int), text@),
                    decreases stations.len() - i,
                {
                    let name = chars_of(to_lowercase(stations[i].name.as_str()).as_str());
                    assert(list.skip(i as int)[0] == stations@[i as int]@);
                    if contains(&name, &wanted) {
                        assert(name_holds(list.skip(i as int)[0], text@));
                        assert(first_named(list.skip(i as int), text@) == 0);
                        return Ok(stations[i].clone());
                    }
                    assert(list.skip(i as int).drop_first() =~= list.skip(i + 1));
                    i += 1;
                }
                Err(AppError::NoStationFound)
            },
        }
    }

    /// What the session does once the player answered a call.
    pub fn apply_playback_outcome(
        &mut self,
        call: PlaybackCall,
        outcome: Result<(), PlaybackError>,
    ) -> (r: Result<(), AppError>)
        ensures
            (final(self)@, done_view(r)) == old(self)@.after_playback(call@, outcome_view(outcome)),
            old(self)@.wf() ==> final(self)@.wf(),
    {
        proof {
            if self@.wf() {
                lemma_after_playback_keeps_wf(self@, call@, outcome_view(outcome));
            }
        }
        match call {
            PlaybackCall::Play(station) => {
                match outcome {
                    Ok(()) => {
                        self.status_message = concat("Playing ", station.name.as_str());
                        self.now_playing = Some(station);
                    },
                    Err(e) => {
                        self.status_message = concat(
                            "Playback play failed: ",
                            e.message().as_str(),
                        );
                    },
                }
                Ok(())
            },
            PlaybackCall::Stop => {
                match outcome {
                    Ok(()) => {
                        self.now_playing = None;
                        self.status_message = "Playback stopped".to_owned();
                    },
                    Err(e) => {
                        self.status_message = concat(
                            "Playback stop failed: ",
                            e.message().as_str(),
                        );
                    },
                }
                Ok(())
            },
            PlaybackCall::Pause => {
                match outcome {
                    Ok(()) => {
                        self.status_message = "Playback paused".to_owned();
                    },
                    Err(e) => {
                        self.status_message = concat(
                            "Playback pause failed: ",
                            e.message().as_str(),
                        );
                    },
                }
                Ok(())
            },
            PlaybackCall::Resume => {
                match outcome {
                    Ok(()) => {
                        self.status_message = "Playback resumed".to_owned();
                    },
                    Err(e) => {
                        self.status_message = concat(
                            "Playback resume failed: ",
                            e.message().as_str(),
                        );
                    },
                }
                Ok(())
            },
            PlaybackCall::SetVolume(v) => {
                match outcome {
                    Ok(()) => {
                        self.status_message = concat3(
                            "Volume set to ",
                            decimal_string(v as u64).as_str(),
                            "%",
                        );
                    },
                    Err(e) => {
                        self.status_message = concat(
                            "Playback volume failed: ",
                            e.message().as_str(),
                        );
                    },
                }
                Ok(())
            },
            PlaybackCall::Shutdown => {
                match outcome {
                    Ok(()) => {
                        self.running = false;
                        self.now_playing = None;
                        self.status_message = "Bye".to_owned();
                        Ok(())
                    },
                    Err(e) => self.fail(AppError::ShutdownFailed(e)),
                }
            },
        }
    }

    fn found_message(&self, cause: &SearchCause, n: usize) -> (r: String)
        ensures
            r@ == self@.found_status(cause@, n as nat),
    {
        let count = decimal_string(n as u64);
        match cause {
            SearchCause::Startup => concat3("Loaded ", count.as_str(), " stations"),
            SearchCause::Typed => {
                let mut r = concat3("Search refreshed (", count.as_str(), " results, sort=");
                r.append(self.sort.label());
                r.append(")");
                r
            },
            SearchCause::Search(_) => concat3("Search applied (", count.as_str(), " results)"),
            SearchCause::Filter(_) => concat3("Filters applied (", count.as_str(), " results)"),
            SearchCause::ClearFilters => concat3(
                "Filters cleared (",
                count.as_str(),
                " results)",
            ),
            SearchCause::Sort(s) => {
                let mut r = concat3("Sort applied: ", s.label(), " (");
                r.append(count.as_str());
                r.append(" results)");
                r
            },
        }
    }

    /// What the session does once the catalog answered.
    pub fn apply_search_outcome(
        &mut self,
        cause: &SearchCause,
        outcome: Result<Vec<Station>, CatalogError>,
    ) -> (r: Result<(), AppError>)
        ensures
            (final(self)@, done_view(r)) == old(self)@.after_search(cause@, found_view(outcome)),
            old(self)@.wf() ==> final(self)@.wf(),
    {
        proof {
            if self@.wf() {
                lemma_after_search_keeps_wf(self@, cause@, found_view(outcome));
            }
        }
        match outcome {
            Ok(stations) => {
                let message = self.found_message(cause, stations.len());
                self.filtered = stations;
                match cause {
                    SearchCause::Startup => {},
                    _ => {
                        self.search_dirty = false;
                    },
                }
                self.clamp_selected_index();
                self.status_message = message;
                Ok(())
            },
            Err(e) => {
                let error = AppError::SearchFailed(self.search_input.clone(), self.sort, e);
                self.clamp_selected_index();
                match cause {
                    SearchCause::Startup => {
                        self.status_message = concat(
                            "Station discovery unavailable: ",
                            error.message().as_str(),
                        );
                        Ok(())
                    },
                    _ => self.fail(error),
                }
            },
        }
    }

    fn begin_search(&mut self, cause: &SearchCause)
        ensures
            final(self)@ == old(self)@.searching(cause@),
    {
        match cause {
            SearchCause::Startup => {},
            SearchCause::Typed => {
                self.results_source = ResultsSource::Stations;
            },
            SearchCause::Search(q) => {
                self.search_input = q.clone();
                self.results_source = ResultsSource::Stations;
            },
            SearchCause::Filter(f) => {
                self.filters = f.clone();
                self.results_source = ResultsSource::Stations;
            },
            SearchCause::ClearFilters => {
                self.filters = StationFilters::default();
                self.results_source = ResultsSource::Stations;
            },
            SearchCause::Sort(s) => {
                self.sort = *s;
                self.results_source = ResultsSource::Stations;
            },
        }
    }

    /// The query that the session sends to the catalog.
    pub fn current_query(&self) -> (r: StationSearchQuery)
        ensures
            r@ == self@.query(),
    {
        StationSearchQuery {
            query: self.search_input.clone(),
            filters: self.filters.clone(),
            sort: self.sort,
            limit: SEARCH_LIMIT,
        }
    }

    /// The question that the session puts to the catalog for a cause.
    pub fn planned_search(&self, cause: SearchCause) -> (r: CatalogCall)
        ensures
            r@ == self@.planned_search(cause@),
    {
        let query = match &cause {
            SearchCause::Startup => self.current_query(),
            SearchCause::Typed => self.current_query(),
            SearchCause::Search(q) => StationSearchQuery {
                query: q.clone(),
                filters: self.filters.clone(),
                sort: self.sort,
                limit: SEARCH_LIMIT,
            },
            SearchCause::Filter(f) => StationSearchQuery {
                query: self.search_input.clone(),
                filters: f.clone(),
                sort: self.sort,
                limit: SEARCH_LIMIT,
            },
            SearchCause::ClearFilters => StationSearchQuery {
                query: self.search_input.clone(),
                filters: StationFilters::default(),
                sort: self.sort,
                limit: SEARCH_LIMIT,
            },
            SearchCause::Sort(s) => StationSearchQuery {
                query: self.search_input.clone(),
                filters: self.filters.clone(),
                sort: *s,
                limit: SEARCH_LIMIT,
            },
        };
        CatalogCall { cause, query }
    }

    /// What a command asks of the outside in this state.
    pub fn planned_call(&self, command: &SlashCommand) -> (r: Planned)
        ensures
            r@ == self@.planned(command@),
    {
        match command {
            SlashCommand::Play(target) => match self.station_for_play_target(target) {
                Ok(station) => Planned::Player(PlaybackCall::Play(station)),
                Err(_) => Planned::Nothing,
            },
            SlashCommand::Stop => Planned::Player(PlaybackCall::Stop),
            SlashCommand::Pause => Planned::Player(PlaybackCall::Pause),
            SlashCommand::Resume => Planned::Player(PlaybackCall::Resume),
            SlashCommand::Volume(v) => Planned::Player(PlaybackCall::SetVolume(*v)),
            SlashCommand::Quit => Planned::Player(PlaybackCall::Shutdown),
            SlashCommand::Search(q) => Planned::Catalog(
                self.planned_search(SearchCause::Search(q.clone())),
            ),
            SlashCommand::Filter(f) => Planned::Catalog(
                self.planned_search(SearchCause::Filter(f.clone())),
            ),
            SlashCommand::ClearFilters => Planned::Catalog(
                self.planned_search(SearchCause::ClearFilters),
            ),
            SlashCommand::Sort(s) => Planned::Catalog(self.planned_search(SearchCause::Sort(*s))),
            SlashCommand::Favorites => Planned::Nothing,
            SlashCommand::Favorite => Planned::Nothing,
            SlashCommand::Unfavorite => Planned::Nothing,
            SlashCommand::Help => Planned::Nothing,
        }
    }

    /// What the enter key asks of the outside in this state.
    pub fn planned_submit(&self) -> (r: Planned)
        ensures
            r@ == self@.planned_submit(),
    {
        match self.focus {
            Focus::Search => {
                if self.search_dirty {
                    Planned::Catalog(self.planned_search(SearchCause::Typed))
                } else {
                    self.planned_call(&SlashCommand::Play(PlayTarget::Selected))
                }
            },
            Focus::Slash => match SlashCommand::parse(self.slash_input.as_str()) {
                Ok(command) => self.planned_call(&command),
                Err(_) => Planned::Nothing,
            },
            Focus::Palette => {
                let results = self.palette_results();
                if self.palette_selected_index < results.len() {
                    match command_for_action(results[self.palette_selected_index].action.as_str()) {
                        Some(command) => self.planned_call(&command),
                        None => Planned::Nothing,
                    }
                } else {
                    Planned::Nothing
                }
            },
        }
    }

    fn ask_catalog(&mut self, call: CatalogCall) -> (r: Result<(), AppError>)
        ensures
            exists|found: Result<Seq<StationView>, CatalogErrorView>|
                (#[trigger] old(self)@.searching(call@.cause).after_search(call@.cause, found))
                    == (final(self)@, done_view(r)),
    {
        self.begin_search(&call.cause);
        let outcome = self.station_catalog.search(&call.query);
        let ghost found = found_view(outcome);
        let r = self.apply_search_outcome(&call.cause, outcome);
        assert(old(self)@.searching(call@.cause).after_search(call@.cause, found) == (
            self@,
            done_view(r),
        ));
        r
    }

    fn refresh_stations(&mut self, cause: SearchCause) -> (r: Result<(), AppError>)
        ensures
            exists|found: Result<Seq<StationView>, CatalogErrorView>|
                (#[trigger] old(self)@.searching(cause@).after_search(cause@, found)) == (
                    final(self)@,
                    done_view(r),
                ),
    {
        let call = self.planned_search(cause);
        self.ask_catalog(call)
    }

    fn call_player(&mut self, call: PlaybackCall) -> (r: Result<(), AppError>)
        ensures
            exists|answer: Result<(), PlaybackErrorView>|
                (#[trigger] old(self)@.after_playback(call@, answer)) == (
                    final(self)@,
                    done_view(r),
                ),
    {
        let outcome = match &call {
            PlaybackCall::Play(station) => self.playback.play(station.url_resolved.as_str()),
            PlaybackCall::Stop => self.playback.stop(),
            PlaybackCall::Pause => self.playback.pause(),
            PlaybackCall::Resume => self.playback.resume(),
            PlaybackCall::SetVolume(v) => self.playback.set_volume(*v),
            PlaybackCall::Shutdown => self.playback.shutdown(),
        };
        let ghost answer = outcome_view(outcome);
        let r = self.apply_playback_outcome(call, outcome);
        assert(old(self)@.after_playback(call@, answer) == (self@, done_view(r)));
        r
    }

    fn carry_out(&mut self, plan: Planned) -> (r: Result<(), AppError>)
        ensures
            exists|
                playback: Result<(), PlaybackErrorView>,
                search: Result<Seq<StationView>, CatalogErrorView>,
            |
                (#[trigger] old(self)@.after_plan(plan@, playback, search)) == (
                    final(self)@,
                    done_view(r),
                ),
    {
        let ghost before = self@;
        let ghost asked = plan@;
        let ghost mut playback: Result<(), PlaybackErrorView> = Ok(());
        let ghost mut search: Result<Seq<StationView>, CatalogErrorView> = Ok(Seq::empty());
        let r = match plan {
            Planned::Nothing => Ok(()),
            Planned::Player(call) => {
                let r = self.call_player(call);
                proof {
                    playback = choose|answer: Result<(), PlaybackErrorView>|
                        (#[trigger] before.after_playback(call@, answer)) == (self@, done_view(r));
                }
                r
            },
            Planned::Catalog(call) => {
                let r = self.ask_catalog(call);
                proof {
                    search = choose|found: Result<Seq<StationView>, CatalogErrorView>|
                        (#[trigger] before.searching(call@.cause).after_search(
                            call@.cause,
                            found,
                        )) == (self@, done_view(r));
                }
                r
            },
        };
        assert(before.after_plan(asked, playback, search) == (self@, done_view(r)));
        r
    }

    fn local_command(&mut self, command: &SlashCommand) -> (r: Result<(), AppError>)
        requires
            old(self)@.planned(command@) is Nothing,
        ensures
            exists|
                playback: Result<(), PlaybackErrorView>,
                search: Result<Seq<StationView>, CatalogErrorView>,
            |
                (#[trigger] old(self)@.execute(command@, playback, search)) == (
                    final(self)@,
                    done_view(r),
                ),
    {
        let ghost before = self@;
        let r = match command {
            SlashCommand::Play(target) => match self.station_for_play_target(target) {
                Err(e) => self.fail(e),
                Ok(_) => Ok(()),
            },
            SlashCommand::Favorites => {
                let count = decimal_string(self.favorites.len() as u64);
                self.results_source = ResultsSource::Favorites;
                self.clamp_selected_index();
                self.status_message = concat3("Showing favorites (", count.as_str(), ")");
                Ok(())
            },
            SlashCommand::Favorite => self.favorite_selected(),
            SlashCommand::Unfavorite => self.unfavorite_selected(),
            _ => {
                self.status_message =
                    "Commands: /play /stop /pause /resume /volume /search /filter /clear-filters /sort /favorites /fav /unfav /quit".to_owned();
                Ok(())
            },
        };
        proof {
            let playback: Result<(), PlaybackErrorView> = Ok(());
            let search: Result<Seq<StationView>, CatalogErrorView> = Ok(Seq::empty());
            assert(before.execute(command@, playback, search) == (self@, done_view(r)));
        }
        r
    }

    /// Executes a command: what [`App::planned_call`] plans is asked of the outside, and the
    /// answer decides the rest.
    pub fn execute_command(&mut self, command: SlashCommand) -> (r: Result<(), AppError>)
        ensures
            exists|
                playback: Result<(), PlaybackErrorView>,
                search: Result<Seq<StationView>, CatalogErrorView>,
            |
                (#[trigger] old(self)@.execute(command@, playback, search)) == (
                    final(self)@,
                    done_view(r),
                ),
            old(self)@.planned(command@) is Nothing ==> (final(self)@, done_view(r)) == old(
                self,
            )@.execute(command@, Ok(()), Ok(Seq::empty())),
            old(self)@.planned(command@) matches PlannedView::Player(call) ==> exists|
                answer: Result<(), PlaybackErrorView>,
            |
                (#[trigger] old(self)@.after_playback(call, answer)) == (
                    final(self)@,
                    done_view(r),
                ),
            old(self)@.planned(command@) matches PlannedView::Catalog(call) ==> exists|
                found: Result<Seq<StationView>, CatalogErrorView>,
            |
                (#[trigger] old(self)@.searching(call.cause).after_search(call.cause, found)) == (
                    final(self)@,
                    done_view(r),
                ),
            old(self)@.wf() ==> final(self)@.wf(),
    {
        let ghost before = self@;
        let ghost said = command@;
        let plan = self.planned_call(&command);
        let ghost asked = plan@;
        let r = match plan {
            Planned::Nothing => self.local_command(&command),
            Planned::Player(call) => self.carry_out(Planned::Player(call)),
            Planned::Catalog(call) => self.carry_out(Planned::Catalog(call)),
        };
        proof {
            if !(asked is Nothing) {
                let (playback, search) = choose|
                    playback: Result<(), PlaybackErrorView>,
                    search: Result<Seq<StationView>, CatalogErrorView>,
                |
                    (#[trigger] before.after_plan(asked, playback, search)) == (
                        self@,
                        done_view(r),
                    );
                lemma_execute_follows_plan(before, said, playback, search);
                assert(before.execute(said, playback, search) == (self@, done_view(r)));
                match asked {
                    PlannedView::Player(call) => {
                        assert(before.after_playback(call, playback) == (self@, done_view(r)));
                    },
                    PlannedView::Catalog(call) => {
                        assert(before.searching(call.cause).after_search(call.cause, search) == (
                            self@,
                            done_view(r),
                        ));
                    },
                    PlannedView::Nothing => {},
                }
            } else {
                let (playback, search) = choose|
                    playback: Result<(), PlaybackErrorView>,
                    search: Result<Seq<StationView>, CatalogErrorView>,
                |
                    (#[trigger] before.execute(said, playback, search)) == (self@, done_view(r));
                lemma_execute_follows_plan(before, said, playback, search);
            }
            if before.wf() {
                let (playback, search) = choose|
                    playback: Result<(), PlaybackErrorView>,
                    search: Result<Seq<StationView>, CatalogErrorView>,
                |
                    (#[trigger] before.execute(said, playback, search)) == (self@, done_view(r));
                lemma_execute_keeps_wf(before, said, playback, search);
            }
        }
        r
    }

    fn favorite_selected(&mut self) -> (r: Result<(), AppError>)
        ensures
            (final(self)@, done_view(r)) == old(self)@.favorite_selected(),
    {
        let station = match self.selected_station() {
            Some(s) => s.clone(),
            None => {
                return self.fail(AppError::NoStationSelected);
            },
        };
        self.status_message = concat("Favorited ", station.name.as_str());
        if !has_id(&self.favorites, &station.station_uuid) {
            let ghost before = station_views(self.favorites@);
            self.favorites.push(station);
            self.favorites_unsaved = true;
            assert(station_views(self.favorites@) =~= before.push(station@));
        }
        Ok(())
    }

    fn unfavorite_selected(&mut self) -> (r: Result<(), AppError>)
        ensures
            (final(self)@, done_view(r)) == old(self)@.unfavorite_selected(),
    {
        let station = match self.selected_station() {
            Some(s) => s.clone(),
            None => {
                return self.fail(AppError::NoStationSelected);
            },
        };
        self.favorites = remove_id(&self.favorites, &station.station_uuid);
        self.favorites_unsaved = true;
        self.clamp_selected_index();
        self.status_message = concat("Unfavorited ", station.name.as_str());
        Ok(())
    }

    /// The favorite key: the selected station becomes a favorite, or stops being one.
    pub fn toggle_selected_favorite(&mut self) -> (r: Result<(), AppError>)
        ensures
            (final(self)@, done_view(r)) == old(self)@.favorite_toggled(),
            old(self)@.wf() ==> final(self)@.wf(),
    {
        proof {
            if self@.wf() {
                lemma_favorite_toggled_keeps_wf(self@);
            }
        }
        let is_favorite = match self.selected_station() {
            Some(s) => has_id(&self.favorites, &s.station_uuid),
            None => {
                return self.fail(AppError::NoStationSelected);
            },
        };
        if is_favorite {
            self.unfavorite_selected()
        } else {
            self.favorite_selected()
        }
    }

    fn execute_slash(&mut self, input: &str) -> (r: Result<(), AppError>)
        ensures
            exists|
                playback: Result<(), PlaybackErrorView>,
                search: Result<Seq<StationView>, CatalogErrorView>,
            |
                (#[trigger] old(self)@.execute_line(input@, playback, search)) == (
                    final(self)@,
                    done_view(r),
                ),
    {
        let ghost before = self@;
        match SlashCommand::parse(input) {
            Ok(command) => {
                let r = self.execute_command(command);
                proof {
                    let (playback, search) = choose|
                        playback: Result<(), PlaybackErrorView>,
                        search: Result<Seq<StationView>, CatalogErrorView>,
                    |
                        (#[trigger] before.execute(command@, playback, search)) == (
                            self@,
                            done_view(r),
                        );
                    assert(before.execute_line(input@, playback, search) == (
                        self@,
                        done_view(r),
                    ));
                }
                r
            },
            Err(e) => {
                let r = self.fail(AppError::Parse(e));
                proof {
                    let playback: Result<(), PlaybackErrorView> = Ok(());
                    let search: Result<Seq<StationView>, CatalogErrorView> = Ok(Seq::empty());
                    assert(before.execute_line(input@, playback, search) == (
                        self@,
                        done_view(r),
                    ));
                }
                r
            },
        }
    }

    fn execute_palette_action(&mut self, action: &str) -> (r: Result<(), AppError>)
        ensures
            exists|
                playback: Result<(), PlaybackErrorView>,
                search: Result<Seq<StationView>, CatalogErrorView>,
            |
                (#[trigger] old(self)@.execute_action(action@, playback, search)) == (
                    final(self)@,
                    done_view(r),
                ),
    {
        let ghost before = self@;
        match command_for_action(action) {
            Some(command) => {
                let r = self.execute_command(command);
                proof {
                    let (playback, search) = choose|
                        playback: Result<(), PlaybackErrorView>,
                        search: Result<Seq<StationView>, CatalogErrorView>,
                    |
                        (#[trigger] before.execute(command@, playback, search)) == (
                            self@,
                            done_view(r),
                        );
                    assert(before.execute_action(action@, playback, search) == (
                        self@,
                        done_view(r),
                    ));
                }
                r
            },
            None => {
                let r = self.fail(AppError::UnsupportedPaletteAction(action.to_owned()));
                proof {
                    let playback: Result<(), PlaybackErrorView> = Ok(());
                    let search: Result<Seq<StationView>, CatalogErrorView> = Ok(Seq::empty());
                    assert(before.execute_action(action@, playback, search) == (
                        self@,
                        done_view(r),
                    ));
                }
                r
            },
        }
    }

    /// The enter key.
    pub fn submit_current_input(&mut self) -> (r: Result<(), AppError>)
        ensures
            exists|
                playback: Result<(), PlaybackErrorView>,
                search: Result<Seq<StationView>, CatalogErrorView>,
            |
                (#[trigger] old(self)@.submit(playback, search)) == (final(self)@, done_view(r)),
            old(self)@.planned_submit() is Nothing ==> (final(self)@, done_view(r)) == old(
                self,
            )@.submit(Ok(()), Ok(Seq::empty())),
            old(self)@.planned_submit() matches PlannedView::Player(call) ==> exists|
                answer: Result<(), PlaybackErrorView>,
            |
                (#[trigger] old(self)@.input_taken().after_playback(call, answer)) == (
                    final(self)@,
                    done_view(r),
                ),
            old(self)@.planned_submit() matches PlannedView::Catalog(call) ==> exists|
                found: Result<Seq<StationView>, CatalogErrorView>,
            |
                (#[trigger] old(self)@.input_taken().searching(call.cause).after_search(
                    call.cause,
                    found,
                )) == (final(self)@, done_view(r)),
            old(self)@.wf() ==> final(self)@.wf(),
    {
        let ghost before = self@;
        let ghost mut playback: Result<(), PlaybackErrorView> = Ok(());
        let ghost mut search: Result<Seq<StationView>, CatalogErrorView> = Ok(Seq::empty());
        let r = match self.focus {
            Focus::Search => {
                if self.search_dirty {
                    let r = self.refresh_stations(SearchCause::Typed);
                    proof {
                        search = choose|found: Result<Seq<StationView>, CatalogErrorView>|
                            (#[trigger] before.searching(SearchCauseView::Typed).after_search(
                                SearchCauseView::Typed,
                                found,
                            )) == (self@, done_view(r));
                    }
                    r
                } else {
                    let command = SlashCommand::Play(PlayTarget::Selected);
                    let r = self.execute_command(command);
                    proof {
                        let (p, s) = choose|
                            p: Result<(), PlaybackErrorView>,
                            s: Result<Seq<StationView>, CatalogErrorView>,
                        |
                            (#[trigger] before.execute(command@, p, s)) == (self@, done_view(r));
                        playback = p;
                        search = s;
                    }
                    r
                }
            },
            Focus::Slash => {
                let line = self.slash_input.clone();
                self.slash_input = String::new();
                let ghost cleared = self@;
                let r = self.execute_slash(line.as_str());
                proof {
                    let (p, s) = choose|
                        p: Result<(), PlaybackErrorView>,
                        s: Result<Seq<StationView>, CatalogErrorView>,
                    |
                        (#[trigger] cleared.execute_line(line@, p, s)) == (self@, done_view(r));
                    playback = p;
                    search = s;
                }
                r
            },
            Focus::Palette => {
                let results = self.palette_results();
                if self.palette_selected_index < results.len() {
                    let action = results[self.palette_selected_index].action.clone();
                    assert(action@ == before.palette_results()[before.palette_selected_index as int].action);
                    self.focus = self.focus_before_palette;
                    self.palette_input = String::new();
                    self.palette_selected_index = 0;
                    let ghost closed = self@;
                    let r = self.execute_palette_action(action.as_str());
                    proof {
                        let (p, s) = choose|
                            p: Result<(), PlaybackErrorView>,
                            s: Result<Seq<StationView>, CatalogErrorView>,
                        |
                            (#[trigger] closed.execute_action(action@, p, s)) == (
                                self@,
                                done_view(r),
                            );
                        playback = p;
                        search = s;
                    }
                    r
                } else {
                    self.fail(AppError::NoPaletteMatch)
                }
            },
        };
        proof {
            assert(before.submit(playback, search) == (self@, done_view(r)));
            lemma_submit_follows_plan(before, playback, search);
            match before.planned_submit() {
                PlannedView::Player(call) => {
                    assert(before.input_taken().after_playback(call, playback) == (
                        self@,
                        done_view(r),
                    ));
                },
                PlannedView::Catalog(call) => {
                    assert(before.input_taken().searching(call.cause).after_search(
                        call.cause,
                        search,
                    ) == (self@, done_view(r)));
                },
                PlannedView::Nothing => {},
            }
            if before.wf() {
                lemma_submit_keeps_wf(before, playback, search);
            }
        }
        r
    }

    /// The stop key.
    pub fn stop_playback(&mut self) -> (r: Result<(), AppError>)
        ensures
            exists|
                playback: Result<(), PlaybackErrorView>,
                search: Result<Seq<StationView>, CatalogErrorView>,
            |
                (#[trigger] old(self)@.execute(SlashCommandView::Stop, playback, search)) == (
                    final(self)@,
                    done_view(r),
                ),
            exists|answer: Result<(), PlaybackErrorView>|
                (#[trigger] old(self)@.after_playback(PlaybackCallView::Stop, answer)) == (
                    final(self)@,
                    done_view(r),
                ),
            old(self)@.wf() ==> final(self)@.wf(),
    {
        self.execute_command(SlashCommand::Stop)
    }

    /// The pause key: the command of [`pause_key_command`] for the state that the player
    /// reports.
    pub fn pause_or_resume(&mut self) -> (r: Result<(), AppError>)
        ensures
            exists|
                state: PlaybackState,
                playback: Result<(), PlaybackErrorView>,
                search: Result<Seq<StationView>, CatalogErrorView>,
            |
                (#[trigger] old(self)@.execute(pause_key(state), playback, search)) == (
                    final(self)@,
                    done_view(r),
                ),
            old(self)@.wf() ==> final(self)@.wf(),
    {
        let ghost before = self@;
        let state = self.playback_state();
        let command = pause_key_command(state);
        let r = self.execute_command(command);
        proof {
            let (playback, search) = choose|
                playback: Result<(), PlaybackErrorView>,
                search: Result<Seq<StationView>, CatalogErrorView>,
            |
                (#[trigger] before.execute(pause_key(state), playback, search)) == (
                    self@,
                    done_view(r),
                );
            assert(before.execute(pause_key(state), playback, search) == (self@, done_view(r)));
        }
        r
    }

    /// The quit key.
    pub fn request_quit(&mut self) -> (r: Result<(), AppError>)
        ensures
            exists|
                playback: Result<(), PlaybackErrorView>,
                search: Result<Seq<StationView>, CatalogErrorView>,
            |
                (#[trigger] old(self)@.execute(SlashCommandView::Quit, playback, search)) == (
                    final(self)@,
                    done_view(r),
                ),
            exists|answer: Result<(), PlaybackErrorView>|
                (#[trigger] old(self)@.after_playback(PlaybackCallView::Shutdown, answer)) == (
                    final(self)@,
                    done_view(r),
                ),
            old(self)@.wf() ==> final(self)@.wf(),
    {
        self.execute_command(SlashCommand::Quit)
    }

    /// Shuts the player down, whatever the session shows.
    pub fn shutdown_playback(&mut self) -> (r: Result<(), PlaybackError>)
        ensures
            final(self)@ == old(self)@,
    {
        self.playback.shutdown()
    }
}

} // verus!
