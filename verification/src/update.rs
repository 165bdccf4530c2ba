//! The transition function of the application state machine.
//!
//! Transitions are keyed by the pair of input mode and incoming key.
//! `spec_update` is the mathematical table: it maps a state and a key to
//! the successor state together with a flag saying whether a departure
//! fetch is owed for the selected station. `update` is the executable
//! transition and returns exactly that flag; the caller performs the
//! fetch and hands its outcome to `App::update_departures`. A transition
//! that changes nothing visible leaves the redraw flag alone.

use vstd::prelude::*;

use crate::app::{
    spec_cursor_left, spec_cursor_right, spec_select_searched, spec_select_station,
    spec_toggle_tab, App, AppMode, AppV,
};
use crate::event::{Event, KeyCode, KeyEvent};
use crate::search::{filter_stations, spec_filter};
use crate::selection::{
    lemma_selection_in_bounds, spec_advance, spec_retreat, SelectionState,
};

verus! {

/// Successor state and fetch flag for a key arriving in normal mode.
pub open spec fn spec_update_normal(s: AppV, k: KeyEvent) -> (AppV, bool) {
    if k.code == KeyCode::Char('q') {
        (AppV { should_quit: true, ..s }, false)
    } else if k.code == KeyCode::Char('s') {
        (
            AppV {
                app_mode: AppMode::Search,
                query: Seq::empty(),
                cursor_position: 0,
                suggested_stations: spec_filter(s.stations, Seq::empty()),
                search_scroll_state: None,
                should_redraw: true,
                ..s
            },
            false,
        )
    } else if k.code == KeyCode::Char('r') {
        (AppV { should_redraw: true, ..s }, s.selected_station is Some)
    } else if k.code == KeyCode::Down {
        let ns = spec_advance(s.scroll_state, s.stations.len() as int);
        (
            AppV {
                scroll_state: ns,
                should_redraw: s.should_redraw || ns != s.scroll_state,
                ..s
            },
            false,
        )
    } else if k.code == KeyCode::Up {
        let ns = spec_retreat(s.scroll_state, s.stations.len() as int);
        (
            AppV {
                scroll_state: ns,
                should_redraw: s.should_redraw || ns != s.scroll_state,
                ..s
            },
            false,
        )
    } else if k.code == KeyCode::Enter {
        if s.scroll_state is Some {
            (spec_select_station(s), true)
        } else {
            (s, false)
        }
    } else if k.code == KeyCode::Tab {
        (
            AppV {
                selected_tab: spec_toggle_tab(s.selected_tab),
                should_redraw: true,
                ..s
            },
            false,
        )
    } else if k.ctrl && (k.code == KeyCode::Char('c') || k.code == KeyCode::Char('C')) {
        (AppV { should_quit: true, ..s }, false)
    } else {
        (s, false)
    }
}

/// Successor state and fetch flag for a key arriving in search mode.
pub open spec fn spec_update_search(s: AppV, k: KeyEvent) -> (AppV, bool) {
    if k.code == KeyCode::Enter {
        if s.search_scroll_state is Some {
            (AppV { should_redraw: true, ..spec_select_searched(s) }, true)
        } else {
            (s, false)
        }
    } else if k.code == KeyCode::Backspace {
        if s.cursor_position == 0 {
            (
                AppV {
                    search_scroll_state: None,
                    should_redraw: s.should_redraw || s.search_scroll_state is Some,
                    ..s
                },
                false,
            )
        } else {
            let q2 = s.query.remove(s.cursor_position - 1);
            (
                AppV {
                    query: q2,
                    cursor_position: s.cursor_position - 1,
                    suggested_stations: spec_filter(s.stations, q2),
                    search_scroll_state: None,
                    should_redraw: true,
                    ..s
                },
                false,
            )
        }
    } else if k.code == KeyCode::Down {
        let ns = spec_advance(s.search_scroll_state, s.suggested_stations.len() as int);
        (
            AppV {
                search_scroll_state: ns,
                should_redraw: s.should_redraw || ns != s.search_scroll_state,
                ..s
            },
            false,
        )
    } else if k.code == KeyCode::Up {
        let ns = spec_retreat(s.search_scroll_state, s.suggested_stations.len() as int);
        (
            AppV {
                search_scroll_state: ns,
                should_redraw: s.should_redraw || ns != s.search_scroll_state,
                ..s
            },
            false,
        )
    } else if k.code == KeyCode::Left {
        let c2 = spec_cursor_left(s.cursor_position, s.query.len() as int);
        (
            AppV {
                cursor_position: c2,
                should_redraw: s.should_redraw || c2 != s.cursor_position,
                ..s
            },
            false,
        )
    } else if k.code == KeyCode::Right {
        let c2 = spec_cursor_right(s.cursor_position, s.query.len() as int);
        (
            AppV {
                cursor_position: c2,
                should_redraw: s.should_redraw || c2 != s.cursor_position,
                ..s
            },
            false,
        )
    } else if k.code == KeyCode::Esc {
        (
            AppV {
                app_mode: AppMode::Normal,
                query: Seq::empty(),
                cursor_position: 0,
                suggested_stations: Seq::empty(),
                search_scroll_state: None,
                should_redraw: true,
                ..s
            },
            false,
        )
    } else if k.ctrl {
        if k.code == KeyCode::Char('c') || k.code == KeyCode::Char('C') {
            (AppV { should_quit: true, ..s }, false)
        } else {
            (s, false)
        }
    } else {
        match k.code {
            KeyCode::Char(c) => {
                let q2 = s.query.insert(s.cursor_position, c);
                (
                    AppV {
                        query: q2,
                        cursor_position: s.cursor_position + 1,
                        suggested_stations: spec_filter(s.stations, q2),
                        search_scroll_state: None,
                        should_redraw: true,
                        ..s
                    },
                    false,
                )
            },
            _ => (s, false),
        }
    }
}

/// The full transition table, keyed by the active mode.
pub open spec fn spec_update(s: AppV, k: KeyEvent) -> (AppV, bool) {
    match s.app_mode {
        AppMode::Normal => spec_update_normal(s, k),
        AppMode::Search => spec_update_search(s, k),
    }
}

/// Law: every transition keeps the state well formed. In particular
/// both selection cursors stay inside their lists, whatever sequence of
/// keys arrives.
pub proof fn lemma_update_preserves_wf(s: AppV, k: KeyEvent)
    requires
        s.wf(),
    ensures
        spec_update(s, k).0.wf(),
{
    match s.app_mode {
        AppMode::Normal => {
            lemma_selection_in_bounds(s.scroll_state, s.stations.len() as int);
        },
        AppMode::Search => {
            lemma_selection_in_bounds(s.search_scroll_state, s.suggested_stations.len() as int);
        },
    }
}

/// Law: the station catalog is loaded once and never mutated
/// afterwards: no key transition and no fetch outcome touches it.
pub proof fn lemma_catalog_never_changes(
    s: AppV,
    k: KeyEvent,
    fetched: Option<Seq<crate::api::DepartureInfoV>>,
)
    ensures
        spec_update(s, k).0.stations == s.stations,
        crate::app::spec_apply_departures(s, fetched).stations == s.stations,
{
}

/// Law: the terminate flag is never taken back: once a quit key was
/// consumed, every later transition leaves it raised.
pub proof fn lemma_quit_is_permanent(s: AppV, k: KeyEvent)
    requires
        s.should_quit,
    ensures
        spec_update(s, k).0.should_quit,
{
}

/// Law: editing the query — inserting a character or deleting one with
/// backspace — always resets the search-result selection to unselected.
pub proof fn lemma_query_edit_resets_selection(s: AppV, k: KeyEvent)
    requires
        s.wf(),
        s.app_mode is Search,
        !k.ctrl,
        (k.code matches KeyCode::Char(_)) || k.code == KeyCode::Backspace,
    ensures
        spec_update(s, k).0.search_scroll_state is None,
{
}

/// Law: a transition that changes no field besides the redraw flag
/// never sets the redraw flag. The two exceptions named in the premise
/// are deliberate: in normal mode the reload key always requests a
/// repaint even with no station selected, and selecting the already
/// selected station repeats a fetch and repaints.
pub proof fn lemma_noop_never_redraws(s: AppV, k: KeyEvent)
    requires
        s.wf(),
        !(s.app_mode is Normal && (k.code == KeyCode::Enter || k.code == KeyCode::Char('r'))),
    ensures
        (AppV { should_redraw: s.should_redraw, ..spec_update(s, k).0 }) == s ==> spec_update(
            s,
            k,
        ).0.should_redraw == s.should_redraw,
{
    let s2 = spec_update(s, k).0;
    if (AppV { should_redraw: s.should_redraw, ..s2 }) == s {
        match s.app_mode {
            AppMode::Normal => {},
            AppMode::Search => {
                if k.code == KeyCode::Backspace && s.cursor_position != 0 {
                    assert(s2.query.len() != s.query.len());
                } else if !(k.code == KeyCode::Enter || k.code == KeyCode::Backspace || k.code
                    == KeyCode::Down || k.code == KeyCode::Up || k.code == KeyCode::Left || k.code
                    == KeyCode::Right || k.code == KeyCode::Esc) && !k.ctrl {
                    match k.code {
                        KeyCode::Char(c) => {
                            assert(s2.query.len() != s.query.len());
                        },
                        _ => {},
                    }
                }
            },
        }
    }
}

/// Mathematical image of an optional index.
pub open spec fn opt_index_view(a: Option<usize>) -> Option<int> {
    match a {
        Some(i) => Some(i as int),
        None => None,
    }
}

/// Whether two optional indices are the same position.
fn option_index_eq(a: Option<usize>, b: Option<usize>) -> (r: bool)
    ensures
        r == (opt_index_view(a) == opt_index_view(b)),
{
    match (a, b) {
        (None, None) => true,
        (Some(x), Some(y)) => x == y,
        _ => false,
    }
}

/// Apply one key press to the state, as the transition table
/// `spec_update` prescribes. Returns whether the caller owes a
/// departure fetch for the now selected station; the outcome of that
/// fetch goes to `App::update_departures`.
pub fn update(app: &mut App, key_event: KeyEvent) -> (fetch: bool)
    requires
        old(app)@.wf(),
    ensures
        final(app)@ == spec_update(old(app)@, key_event).0,
        fetch == spec_update(old(app)@, key_event).1,
        final(app)@.wf(),
{
    proof {
        lemma_update_preserves_wf(old(app)@, key_event);
    }
    let mut fetch_flag: bool = false;
    match app.app_mode {
        AppMode::Normal => {
            if key_event.code == KeyCode::Char('q') {
                app.quit();
            } else if key_event.code == KeyCode::Char('s') {
                app.app_mode = AppMode::Search;
                app.query = Vec::new();
                app.reset_cursor();
                app.suggested_stations = filter_stations(&app.stations, &app.query);
                app.search_scroll_state = SelectionState::new();
                app.should_redraw = true;
            } else if key_event.code == KeyCode::Char('r') {
                fetch_flag = app.selected_station.is_some();
                app.should_redraw = true;
            } else if key_event.code == KeyCode::Down {
                let prev = app.scroll_state.selected();
                app.increment_station();
                if !option_index_eq(prev, app.scroll_state.selected()) {
                    app.should_redraw = true;
                }
            } else if key_event.code == KeyCode::Up {
                let prev = app.scroll_state.selected();
                app.decrement_station();
                if !option_index_eq(prev, app.scroll_state.selected()) {
                    app.should_redraw = true;
                }
            } else if key_event.code == KeyCode::Enter {
                if app.scroll_state.selected().is_some() {
                    app.select_station();
                    fetch_flag = true;
                }
            } else if key_event.code == KeyCode::Tab {
                app.toggle_tabs();
                app.should_redraw = true;
            } else if key_event.ctrl && (key_event.code == KeyCode::Char('c') || key_event.code
                == KeyCode::Char('C')) {
                app.quit();
            }
        },
        AppMode::Search => {
            if key_event.code == KeyCode::Enter {
                if app.search_scroll_state.selected().is_some() {
                    app.select_searched_station();
                    app.should_redraw = true;
                    fetch_flag = true;
                }
            } else if key_event.code == KeyCode::Backspace {
                let had_selection = app.search_scroll_state.selected().is_some();
                app.search_scroll_state = SelectionState::new();
                if app.cursor_position != 0 {
                    app.delete_char();
                    app.suggested_stations = filter_stations(&app.stations, &app.query);
                    app.should_redraw = true;
                } else {
                    if had_selection {
                        app.should_redraw = true;
                    }
                }
            } else if key_event.code == KeyCode::Down {
                let prev = app.search_scroll_state.selected();
                app.scroll_down();
                if !option_index_eq(prev, app.search_scroll_state.selected()) {
                    app.should_redraw = true;
                }
            } else if key_event.code == KeyCode::Up {
                let prev = app.search_scroll_state.selected();
                app.scroll_up();
                if !option_index_eq(prev, app.search_scroll_state.selected()) {
                    app.should_redraw = true;
                }
            } else if key_event.code == KeyCode::Left {
                let prev = app.cursor_position;
                app.move_cursor_left();
                if app.cursor_position != prev {
                    app.should_redraw = true;
                }
            } else if key_event.code == KeyCode::Right {
                let prev = app.cursor_position;
                app.move_cursor_right();
                if app.cursor_position != prev {
                    app.should_redraw = true;
                }
            } else if key_event.code == KeyCode::Esc {
                app.app_mode = AppMode::Normal;
                app.query = Vec::new();
                app.reset_cursor();
                app.suggested_stations = Vec::new();
                app.search_scroll_state = SelectionState::new();
                app.should_redraw = true;
            } else if key_event.ctrl {
                if key_event.code == KeyCode::Char('c') || key_event.code == KeyCode::Char('C') {
                    app.quit();
                }
            } else {
                match key_event.code {
                    KeyCode::Char(to_insert) => {
                        app.search_scroll_state = SelectionState::new();
                        app.enter_char(to_insert);
                        app.suggested_stations = filter_stations(&app.stations, &app.query);
                        app.should_redraw = true;
                    },
                    _ => {},
                }
            }
        },
    }
    proof {
        assert(app@ =~= spec_update(old(app)@, key_event).0);
    }
    fetch_flag
}

/// Consume one item of the merged event stream. A tick changes nothing
/// — it exists only to bound input-polling latency; a key press goes
/// through the transition table.
pub fn handle_event(app: &mut App, event: Event) -> (fetch: bool)
    requires
        old(app)@.wf(),
    ensures
        match event {
            Event::Tick => final(app)@ == old(app)@ && !fetch,
            Event::Key(k) => final(app)@ == spec_update(old(app)@, k).0 && fetch == spec_update(
                old(app)@,
                k,
            ).1,
        },
        final(app)@.wf(),
{
    match event {
        Event::Tick => false,
        Event::Key(k) => update(app, k),
    }
}

} // verus!
