//! The application state and its elementary mutations.
//!
//! `App` owns every mutable value of the dashboard: the active tab and
//! input mode, the station catalog, the selected station with its
//! departure list, the redraw flag, the status line, and — for search —
//! the query text, the cursor into it and the derived result list. All
//! mutation happens through the methods here and through the transition
//! function in `update`, sequentially, in the single consumer of the
//! event stream.

use vstd::prelude::*;

use crate::api::{DepartureInfo, DepartureInfoV, FetchError, Station, StationV};
use crate::search::spec_filter;
use crate::selection::{selection_in_bounds, SelectionState};

verus! {

/// The two mutually exclusive top-level views.
#[derive(Clone, Copy, PartialEq, Eq, Structural, Debug)]
pub enum AppTabs {
    HomeTab,
    StationTab,
}

/// The two mutually exclusive input-interpretation contexts.
#[derive(Clone, Copy, PartialEq, Eq, Structural, Debug)]
pub enum AppMode {
    Normal,
    Search,
}

/// Which tab the tab key switches to.
pub open spec fn spec_toggle_tab(t: AppTabs) -> AppTabs {
    match t {
        AppTabs::HomeTab => AppTabs::StationTab,
        AppTabs::StationTab => AppTabs::HomeTab,
    }
}

/// Status line shown while the station catalog loads.
pub open spec fn status_loading() -> Seq<char> {
    "Loading stations..."@
}

/// Status line set when a station is chosen from the station list.
pub open spec fn status_fetching() -> Seq<char> {
    "Fetching departures"@
}

/// Status line set when a station is chosen from the search results.
pub open spec fn status_fetching_search() -> Seq<char> {
    "Fetching departures from search"@
}

/// Status line set when a departure fetch fails.
pub open spec fn status_fetch_failed() -> Seq<char> {
    "Failed to fetch departures"@
}

/// Mathematical image of the whole application state.
#[verifier::ext_equal]
pub struct AppV {
    pub selected_tab: AppTabs,
    pub should_quit: bool,
    pub stations: Seq<StationV>,
    pub selected_station: Option<StationV>,
    pub departures: Seq<DepartureInfoV>,
    pub should_redraw: bool,
    pub status: Seq<char>,
    pub scroll_state: Option<int>,
    pub app_mode: AppMode,
    pub query: Seq<char>,
    pub cursor_position: int,
    pub suggested_stations: Seq<StationV>,
    pub search_scroll_state: Option<int>,
}

impl AppV {
    /// Invariant kept by every transition: both selection cursors point
    /// into their list (if anywhere), the cursor sits inside the query,
    /// in search mode the result list is exactly the filtered catalog,
    /// and in normal mode no query state lingers.
    pub open spec fn wf(self) -> bool {
        &&& selection_in_bounds(self.scroll_state, self.stations.len() as int)
        &&& selection_in_bounds(self.search_scroll_state, self.suggested_stations.len() as int)
        &&& 0 <= self.cursor_position <= self.query.len()
        &&& (self.app_mode is Search ==> self.suggested_stations == spec_filter(
            self.stations,
            self.query,
        ))
        &&& (self.app_mode is Normal ==> self.query.len() == 0 && self.cursor_position == 0
            && self.suggested_stations.len() == 0 && self.search_scroll_state is None)
    }
}

/// All state of the dashboard. The catalog is loaded once and only
/// read afterwards; departures are replaced wholesale on every refresh;
/// the redraw flag is the single authority for repainting.
pub struct App {
    pub selected_tab: AppTabs,
    pub should_quit: bool,
    pub stations: Vec<Station>,
    pub selected_station: Option<Station>,
    pub departures: Vec<DepartureInfo>,
    pub should_redraw: bool,
    pub status: String,
    pub scroll_state: SelectionState,
    pub app_mode: AppMode,
    pub query: Vec<char>,
    pub cursor_position: usize,
    pub suggested_stations: Vec<Station>,
    pub search_scroll_state: SelectionState,
}

impl View for App {
    type V = AppV;

    open spec fn view(&self) -> AppV {
        AppV {
            selected_tab: self.selected_tab,
            should_quit: self.should_quit,
            stations: self.stations.deep_view(),
            selected_station: self.selected_station.deep_view(),
            departures: self.departures.deep_view(),
            should_redraw: self.should_redraw,
            status: self.status@,
            scroll_state: self.scroll_state@,
            app_mode: self.app_mode,
            query: self.query@,
            cursor_position: self.cursor_position as int,
            suggested_stations: self.suggested_stations.deep_view(),
            search_scroll_state: self.search_scroll_state@,
        }
    }
}

/// Cursor clamped into `[0, len]`.
pub open spec fn spec_clamp(pos: int, len: int) -> int {
    if pos > len {
        len
    } else {
        pos
    }
}

/// Where the cursor lands after moving one place left.
pub open spec fn spec_cursor_left(c: int, len: int) -> int {
    spec_clamp(if c == 0 { 0 } else { c - 1 }, len)
}

/// Where the cursor lands after moving one place right.
pub open spec fn spec_cursor_right(c: int, len: int) -> int {
    spec_clamp(if c < len { c + 1 } else { c }, len)
}

/// What selecting from the station list does: the highlighted station
/// (if any) becomes the selected station, the status line announces the
/// fetch, the view switches to the departures tab.
pub open spec fn spec_select_station(s: AppV) -> AppV {
    AppV {
        selected_station: match s.scroll_state {
            Some(i) => Some(s.stations[i]),
            None => None,
        },
        status: status_fetching(),
        selected_tab: AppTabs::HomeTab,
        should_redraw: true,
        ..s
    }
}

/// What selecting from the search results does: the highlighted result
/// (if any) becomes the selected station and every piece of query state
/// is discarded while the view returns to normal mode on the departures
/// tab.
pub open spec fn spec_select_searched(s: AppV) -> AppV {
    AppV {
        selected_station: match s.search_scroll_state {
            Some(i) => Some(s.suggested_stations[i]),
            None => None,
        },
        status: status_fetching_search(),
        suggested_stations: Seq::empty(),
        selected_tab: AppTabs::HomeTab,
        app_mode: AppMode::Normal,
        query: Seq::empty(),
        cursor_position: 0,
        search_scroll_state: None,
        ..s
    }
}

/// What applying a fetch outcome does: with no station selected nothing
/// changes; a successful fetch replaces the departure list wholesale; a
/// failed fetch empties it and reports the failure in the status line.
pub open spec fn spec_apply_departures(s: AppV, fetched: Option<Seq<DepartureInfoV>>) -> AppV {
    if s.selected_station is None {
        s
    } else {
        match fetched {
            Some(deps) => AppV { departures: deps, ..s },
            None => AppV { departures: Seq::empty(), status: status_fetch_failed(), ..s },
        }
    }
}

impl App {
    /// Fresh state over the given catalog: normal mode, departures tab,
    /// nothing selected, nothing fetched yet, one initial repaint due.
    pub fn new(stations: Vec<Station>) -> (app: App)
        ensures
            app@ == (AppV {
                selected_tab: AppTabs::HomeTab,
                should_quit: false,
                stations: stations.deep_view(),
                selected_station: None,
                departures: Seq::empty(),
                should_redraw: true,
                status: status_loading(),
                scroll_state: None,
                app_mode: AppMode::Normal,
                query: Seq::empty(),
                cursor_position: 0,
                suggested_stations: Seq::empty(),
                search_scroll_state: None,
            }),
            app@.wf(),
    {
        App {
            selected_tab: AppTabs::HomeTab,
            should_quit: false,
            stations,
            selected_station: None,
            departures: Vec::new(),
            should_redraw: true,
            status: "Loading stations...".to_string(),
            scroll_state: SelectionState::new(),
            app_mode: AppMode::Normal,
            query: Vec::new(),
            cursor_position: 0,
            suggested_stations: Vec::new(),
            search_scroll_state: SelectionState::new(),
        }
    }

    /// Raise the terminate flag; the main loop exits before its next
    /// iteration.
    pub fn quit(&mut self)
        ensures
            final(self)@ == (AppV { should_quit: true, ..old(self)@ }),
    {
        self.should_quit = true;
    }

    /// Move the station-list highlight one entry down, wrapping at the
    /// end of the catalog.
    pub fn increment_station(&mut self)
        ensures
            final(self)@ == (AppV {
                scroll_state: crate::selection::spec_advance(
                    old(self)@.scroll_state,
                    old(self)@.stations.len() as int,
                ),
                ..old(self)@
            }),
    {
        let n = self.stations.len();
        self.scroll_state.advance(n);
    }

    /// Move the station-list highlight one entry up, wrapping at the
    /// start of the catalog.
    pub fn decrement_station(&mut self)
        ensures
            final(self)@ == (AppV {
                scroll_state: crate::selection::spec_retreat(
                    old(self)@.scroll_state,
                    old(self)@.stations.len() as int,
                ),
                ..old(self)@
            }),
    {
        let n = self.stations.len();
        self.scroll_state.retreat(n);
    }

    /// Swap between the departures tab and the station-list tab.
    pub fn toggle_tabs(&mut self)
        ensures
            final(self)@ == (AppV {
                selected_tab: spec_toggle_tab(old(self)@.selected_tab),
                ..old(self)@
            }),
    {
        match self.selected_tab {
            AppTabs::HomeTab => self.selected_tab = AppTabs::StationTab,
            AppTabs::StationTab => self.selected_tab = AppTabs::HomeTab,
        }
    }

    /// Apply the outcome of a departure fetch for the selected station.
    /// Failure is never fatal: the list degrades to empty and the status
    /// line reports it.
    pub fn update_departures(&mut self, fetched: Result<Vec<DepartureInfo>, FetchError>)
        ensures
            final(self)@ == spec_apply_departures(
                old(self)@,
                match fetched {
                    Ok(deps) => Some(deps.deep_view()),
                    Err(_) => None,
                },
            ),
    {
        if self.selected_station.is_some() {
            match fetched {
                Ok(deps) => {
                    self.departures = deps;
                },
                Err(_) => {
                    self.departures = Vec::new();
                    self.status = "Failed to fetch departures".to_string();
                },
            }
        }
    }

    /// Copy the station under the station-list highlight (if any) into
    /// the selected station and prepare for its departure fetch.
    pub fn select_station(&mut self)
        requires
            selection_in_bounds(old(self)@.scroll_state, old(self)@.stations.len() as int),
        ensures
            final(self)@ == spec_select_station(old(self)@),
    {
        self.selected_station = match self.scroll_state.selected() {
            Some(i) => Some(self.stations[i].clone()),
            None => None,
        };
        self.status = "Fetching departures".to_string();
        self.selected_tab = AppTabs::HomeTab;
        self.should_redraw = true;
    }

    /// Move the cursor one place left in the query, stopping at 0.
    pub fn move_cursor_left(&mut self)
        ensures
            final(self)@ == (AppV {
                cursor_position: spec_cursor_left(
                    old(self)@.cursor_position,
                    old(self)@.query.len() as int,
                ),
                ..old(self)@
            }),
    {
        let moved: usize = if self.cursor_position == 0 {
            0
        } else {
            self.cursor_position - 1
        };
        self.cursor_position = self.clamp_cursor(moved);
    }

    /// Move the cursor one place right in the query, stopping at its
    /// end.
    pub fn move_cursor_right(&mut self)
        ensures
            final(self)@ == (AppV {
                cursor_position: spec_cursor_right(
                    old(self)@.cursor_position,
                    old(self)@.query.len() as int,
                ),
                ..old(self)@
            }),
    {
        let moved: usize = if self.cursor_position < self.query.len() {
            self.cursor_position + 1
        } else {
            self.cursor_position
        };
        self.cursor_position = self.clamp_cursor(moved);
    }

    /// Insert a character at the cursor and advance the cursor past it.
    pub fn enter_char(&mut self, new_char: char)
        requires
            old(self)@.cursor_position <= old(self)@.query.len(),
        ensures
            final(self)@ == (AppV {
                query: old(self)@.query.insert(old(self)@.cursor_position, new_char),
                cursor_position: old(self)@.cursor_position + 1,
                ..old(self)@
            }),
    {
        self.query.insert(self.cursor_position, new_char);
        self.move_cursor_right();
    }

    /// Delete the character left of the cursor; at position 0 the query
    /// is left alone.
    pub fn delete_char(&mut self)
        requires
            old(self)@.cursor_position <= old(self)@.query.len(),
        ensures
            final(self)@ == (AppV {
                query: if old(self)@.cursor_position == 0 {
                    old(self)@.query
                } else {
                    old(self)@.query.remove(old(self)@.cursor_position - 1)
                },
                cursor_position: spec_cursor_left(
                    old(self)@.cursor_position,
                    if old(self)@.cursor_position == 0 {
                        old(self)@.query.len() as int
                    } else {
                        old(self)@.query.len() - 1
                    },
                ),
                ..old(self)@
            }),
    {
        let is_not_cursor_leftmost = self.cursor_position != 0;
        if is_not_cursor_leftmost {
            let from_left_to_current_index = self.cursor_position - 1;
            self.query.remove(from_left_to_current_index);
            self.move_cursor_left();
        }
    }

    /// The given position clamped into the query: never past its end.
    pub fn clamp_cursor(&self, new_cursor_pos: usize) -> (r: usize)
        ensures
            r as int == spec_clamp(new_cursor_pos as int, self@.query.len() as int),
    {
        if new_cursor_pos > self.query.len() {
            self.query.len()
        } else {
            new_cursor_pos
        }
    }

    /// Put the cursor back at the start of the query.
    pub fn reset_cursor(&mut self)
        ensures
            final(self)@ == (AppV { cursor_position: 0, ..old(self)@ }),
    {
        self.cursor_position = 0;
    }

    /// Move the search-result highlight one entry down, wrapping at the
    /// end; on an empty result list nothing gets selected.
    pub fn scroll_down(&mut self)
        ensures
            final(self)@ == (AppV {
                search_scroll_state: crate::selection::spec_advance(
                    old(self)@.search_scroll_state,
                    old(self)@.suggested_stations.len() as int,
                ),
                ..old(self)@
            }),
    {
        let n = self.suggested_stations.len();
        self.search_scroll_state.advance(n);
    }

    /// Move the search-result highlight one entry up, wrapping at the
    /// start; on an empty result list nothing gets selected.
    pub fn scroll_up(&mut self)
        ensures
            final(self)@ == (AppV {
                search_scroll_state: crate::selection::spec_retreat(
                    old(self)@.search_scroll_state,
                    old(self)@.suggested_stations.len() as int,
                ),
                ..old(self)@
            }),
    {
        let n = self.suggested_stations.len();
        self.search_scroll_state.retreat(n);
    }

    /// Copy the search result under the highlight (if any) into the
    /// selected station, discard all query state and return to normal
    /// mode on the departures tab.
    pub fn select_searched_station(&mut self)
        requires
            selection_in_bounds(
                old(self)@.search_scroll_state,
                old(self)@.suggested_stations.len() as int,
            ),
        ensures
            final(self)@ == spec_select_searched(old(self)@),
    {
        self.selected_station = match self.search_scroll_state.selected() {
            Some(i) => Some(self.suggested_stations[i].clone()),
            None => None,
        };
        self.status = "Fetching departures from search".to_string();
        self.suggested_stations = Vec::new();
        self.selected_tab = AppTabs::HomeTab;
        self.app_mode = AppMode::Normal;
        self.query = Vec::new();
        self.reset_cursor();
        self.search_scroll_state = SelectionState::new();
    }
}

} // verus!
