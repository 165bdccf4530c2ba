use mvg_fahrinfo::api::{DepartureInfo, FetchError, Station};
use mvg_fahrinfo::app::{App, AppMode, AppTabs};
use mvg_fahrinfo::event::{Event, KeyCode, KeyEvent};
use mvg_fahrinfo::update::{handle_event, update};

fn station(name: &str, id: &str) -> Station {
    Station {
        name: name.to_string(),
        place: "München".to_string(),
        id: id.to_string(),
        diva_id: 7,
        abbreviation: Some("HB".to_string()),
        tariff_zones: "m".to_string(),
        products: vec!["UBAHN".to_string(), "SBAHN".to_string()],
        latitude: 48_140_000,
        longitude: 11_560_000,
    }
}

fn departure(label: &str, dest: &str) -> DepartureInfo {
    DepartureInfo {
        planned_departure_time: 1_700_000_000_000,
        realtime: true,
        delay_in_minutes: Some(1),
        realtime_departure_time: 1_700_000_060_000,
        transport_type: "UBAHN".to_string(),
        label: label.to_string(),
        diva_id: "010U8".to_string(),
        network: "swm".to_string(),
        train_type: String::new(),
        destination: dest.to_string(),
        cancelled: false,
        sev: false,
        platform: Some(2),
        messages: vec![],
        banner_hash: String::new(),
        occupancy: "UNKNOWN".to_string(),
        stop_point_global_id: "de:09162:6:52:52".to_string(),
    }
}

fn two_station_app() -> App {
    App::new(vec![
        station("Hauptbahnhof", "de:09162:1"),
        station("Ostbahnhof", "de:09162:2"),
    ])
}

fn press(app: &mut App, code: KeyCode) -> bool {
    update(app, KeyEvent { code, ctrl: false })
}

fn suggested_names(app: &App) -> Vec<String> {
    app.suggested_stations.iter().map(|s| s.name.clone()).collect()
}

#[test]
fn new_app_starts_clean() {
    let app = two_station_app();
    assert_eq!(app.selected_tab, AppTabs::HomeTab);
    assert_eq!(app.app_mode, AppMode::Normal);
    assert!(!app.should_quit);
    assert!(app.should_redraw);
    assert!(app.selected_station.is_none());
    assert!(app.departures.is_empty());
    assert_eq!(app.status, "Loading stations...");
    assert_eq!(app.scroll_state.selected(), None);
    assert!(app.query.is_empty());
    assert_eq!(app.cursor_position, 0);
}

#[test]
fn quit_key_sets_terminate_flag() {
    let mut app = two_station_app();
    let fetch = press(&mut app, KeyCode::Char('q'));
    assert!(app.should_quit);
    assert!(!fetch);
}

#[test]
fn ctrl_c_quits_in_both_modes() {
    let mut app = two_station_app();
    update(&mut app, KeyEvent { code: KeyCode::Char('c'), ctrl: true });
    assert!(app.should_quit);

    let mut app2 = two_station_app();
    press(&mut app2, KeyCode::Char('s'));
    assert_eq!(app2.app_mode, AppMode::Search);
    update(&mut app2, KeyEvent { code: KeyCode::Char('C'), ctrl: true });
    assert!(app2.should_quit);
}

#[test]
fn plain_c_does_not_quit() {
    let mut app = two_station_app();
    press(&mut app, KeyCode::Char('c'));
    assert!(!app.should_quit);
}

#[test]
fn tab_key_swaps_tabs() {
    let mut app = two_station_app();
    app.should_redraw = false;
    press(&mut app, KeyCode::Tab);
    assert_eq!(app.selected_tab, AppTabs::StationTab);
    assert!(app.should_redraw);
    press(&mut app, KeyCode::Tab);
    assert_eq!(app.selected_tab, AppTabs::HomeTab);
}

#[test]
fn down_and_up_wrap_over_station_list() {
    let mut app = two_station_app();
    press(&mut app, KeyCode::Down);
    assert_eq!(app.scroll_state.selected(), Some(0));
    press(&mut app, KeyCode::Down);
    assert_eq!(app.scroll_state.selected(), Some(1));
    press(&mut app, KeyCode::Down);
    assert_eq!(app.scroll_state.selected(), Some(0));
    press(&mut app, KeyCode::Up);
    assert_eq!(app.scroll_state.selected(), Some(1));
}

#[test]
fn down_on_empty_catalog_is_harmless() {
    let mut app = App::new(vec![]);
    app.should_redraw = false;
    let fetch = press(&mut app, KeyCode::Down);
    assert_eq!(app.scroll_state.selected(), None);
    assert!(!fetch);
    assert!(!app.should_redraw);
}

#[test]
fn unknown_key_changes_nothing_twice() {
    let mut app = two_station_app();
    app.should_redraw = false;
    for _ in 0..2 {
        let fetch = press(&mut app, KeyCode::Char('x'));
        assert!(!fetch);
        assert!(!app.should_redraw);
        assert!(!app.should_quit);
        assert_eq!(app.selected_tab, AppTabs::HomeTab);
        assert_eq!(app.app_mode, AppMode::Normal);
        assert_eq!(app.scroll_state.selected(), None);
        assert!(app.selected_station.is_none());
        assert!(app.departures.is_empty());
        assert!(app.query.is_empty());
        assert_eq!(app.status, "Loading stations...");
    }
}

#[test]
fn tick_changes_nothing() {
    let mut app = two_station_app();
    app.should_redraw = false;
    let fetch = handle_event(&mut app, Event::Tick);
    assert!(!fetch);
    assert!(!app.should_redraw);
    assert_eq!(app.app_mode, AppMode::Normal);
    assert!(app.query.is_empty());
}

#[test]
fn reload_with_no_station_stays_empty_and_redraws() {
    let mut app = two_station_app();
    app.should_redraw = false;
    let fetch = press(&mut app, KeyCode::Char('r'));
    assert!(!fetch);
    assert!(app.departures.is_empty());
    assert!(app.selected_station.is_none());
    assert!(app.should_redraw);
}

#[test]
fn synthetic_reload_behaves_like_reload_key() {
    let mut app = two_station_app();
    app.should_redraw = false;
    let fetch = handle_event(&mut app, Event::Key(KeyEvent::synthetic_reload()));
    assert!(!fetch);
    assert!(app.should_redraw);
}

#[test]
fn reload_with_station_requests_fetch() {
    let mut app = two_station_app();
    press(&mut app, KeyCode::Down);
    let fetch = press(&mut app, KeyCode::Enter);
    assert!(fetch);
    let again = press(&mut app, KeyCode::Char('r'));
    assert!(again);
}

#[test]
fn enter_without_selection_is_a_noop() {
    let mut app = two_station_app();
    app.should_redraw = false;
    let fetch = press(&mut app, KeyCode::Enter);
    assert!(!fetch);
    assert!(app.selected_station.is_none());
    assert!(!app.should_redraw);
    assert_eq!(app.status, "Loading stations...");
}

#[test]
fn enter_selects_highlighted_station() {
    let mut app = two_station_app();
    press(&mut app, KeyCode::Down);
    press(&mut app, KeyCode::Down);
    press(&mut app, KeyCode::Tab);
    assert_eq!(app.selected_tab, AppTabs::StationTab);
    let fetch = press(&mut app, KeyCode::Enter);
    assert!(fetch);
    assert_eq!(app.selected_station.as_ref().unwrap().name, "Ostbahnhof");
    assert_eq!(app.selected_tab, AppTabs::HomeTab);
    assert_eq!(app.status, "Fetching departures");
}

#[test]
fn successful_fetch_replaces_departures() {
    let mut app = two_station_app();
    press(&mut app, KeyCode::Down);
    let fetch = press(&mut app, KeyCode::Enter);
    assert!(fetch);
    app.update_departures(Ok(vec![
        departure("U5", "Laimer Platz"),
        departure("U8", "Messestadt Ost"),
    ]));
    assert_eq!(app.departures.len(), 2);
    assert_eq!(app.departures[0].label, "U5");
    assert_eq!(app.departures[1].destination, "Messestadt Ost");
    app.update_departures(Ok(vec![departure("U3", "Moosach")]));
    assert_eq!(app.departures.len(), 1);
    assert_eq!(app.departures[0].label, "U3");
}

#[test]
fn failed_fetch_empties_list_and_reports() {
    let mut app = two_station_app();
    press(&mut app, KeyCode::Down);
    let fetch = press(&mut app, KeyCode::Enter);
    assert!(fetch);
    app.update_departures(Ok(vec![departure("U5", "Laimer Platz")]));
    assert_eq!(app.departures.len(), 1);
    app.update_departures(Err(FetchError));
    assert!(app.selected_station.is_some());
    assert!(app.departures.is_empty());
    assert_eq!(app.status, "Failed to fetch departures");
    assert_eq!(app.selected_tab, AppTabs::HomeTab);
}

#[test]
fn fetch_outcome_without_selection_changes_nothing() {
    let mut app = two_station_app();
    app.update_departures(Err(FetchError));
    assert!(app.departures.is_empty());
    assert_eq!(app.status, "Loading stations...");
}

#[test]
fn search_mode_opens_with_full_catalog_suggested() {
    let mut app = two_station_app();
    press(&mut app, KeyCode::Char('s'));
    assert_eq!(app.app_mode, AppMode::Search);
    assert!(app.query.is_empty());
    assert_eq!(app.cursor_position, 0);
    assert_eq!(suggested_names(&app), vec!["Hauptbahnhof", "Ostbahnhof"]);
    assert_eq!(app.search_scroll_state.selected(), None);
}

#[test]
fn typing_ost_narrows_to_ostbahnhof() {
    let mut app = two_station_app();
    press(&mut app, KeyCode::Char('s'));
    press(&mut app, KeyCode::Char('O'));
    assert_eq!(suggested_names(&app), vec!["Hauptbahnhof", "Ostbahnhof"]);
    assert_eq!(app.search_scroll_state.selected(), None);
    press(&mut app, KeyCode::Char('s'));
    assert_eq!(suggested_names(&app), vec!["Ostbahnhof"]);
    assert_eq!(app.search_scroll_state.selected(), None);
    press(&mut app, KeyCode::Char('t'));
    assert_eq!(suggested_names(&app), vec!["Ostbahnhof"]);
    assert_eq!(app.search_scroll_state.selected(), None);
    assert_eq!(app.query.iter().collect::<String>(), "Ost");
    assert_eq!(app.cursor_position, 3);
}

#[test]
fn query_edits_reset_result_selection() {
    let mut app = two_station_app();
    press(&mut app, KeyCode::Char('s'));
    press(&mut app, KeyCode::Down);
    assert_eq!(app.search_scroll_state.selected(), Some(0));
    press(&mut app, KeyCode::Char('O'));
    assert_eq!(app.search_scroll_state.selected(), None);
    press(&mut app, KeyCode::Down);
    assert_eq!(app.search_scroll_state.selected(), Some(0));
    press(&mut app, KeyCode::Backspace);
    assert_eq!(app.search_scroll_state.selected(), None);
}

#[test]
fn backspace_deletes_left_of_cursor_and_refilters() {
    let mut app = two_station_app();
    press(&mut app, KeyCode::Char('s'));
    press(&mut app, KeyCode::Char('O'));
    press(&mut app, KeyCode::Char('s'));
    assert_eq!(suggested_names(&app), vec!["Ostbahnhof"]);
    press(&mut app, KeyCode::Backspace);
    assert_eq!(app.query.iter().collect::<String>(), "O");
    assert_eq!(app.cursor_position, 1);
    assert_eq!(suggested_names(&app), vec!["Hauptbahnhof", "Ostbahnhof"]);
}

#[test]
fn backspace_at_start_keeps_query() {
    let mut app = two_station_app();
    press(&mut app, KeyCode::Char('s'));
    press(&mut app, KeyCode::Char('O'));
    press(&mut app, KeyCode::Left);
    assert_eq!(app.cursor_position, 0);
    app.should_redraw = false;
    press(&mut app, KeyCode::Backspace);
    assert_eq!(app.query.iter().collect::<String>(), "O");
    assert_eq!(app.cursor_position, 0);
    assert!(!app.should_redraw);
}

#[test]
fn cursor_moves_clamp_to_query() {
    let mut app = two_station_app();
    press(&mut app, KeyCode::Char('s'));
    press(&mut app, KeyCode::Char('a'));
    press(&mut app, KeyCode::Char('b'));
    assert_eq!(app.cursor_position, 2);
    press(&mut app, KeyCode::Right);
    assert_eq!(app.cursor_position, 2);
    press(&mut app, KeyCode::Left);
    assert_eq!(app.cursor_position, 1);
    press(&mut app, KeyCode::Left);
    assert_eq!(app.cursor_position, 0);
    app.should_redraw = false;
    press(&mut app, KeyCode::Left);
    assert_eq!(app.cursor_position, 0);
    assert!(!app.should_redraw);
}

#[test]
fn insert_in_the_middle_of_the_query() {
    let mut app = two_station_app();
    press(&mut app, KeyCode::Char('s'));
    press(&mut app, KeyCode::Char('O'));
    press(&mut app, KeyCode::Char('t'));
    press(&mut app, KeyCode::Left);
    press(&mut app, KeyCode::Char('s'));
    assert_eq!(app.query.iter().collect::<String>(), "Ost");
    assert_eq!(app.cursor_position, 2);
    assert_eq!(suggested_names(&app), vec!["Ostbahnhof"]);
}

#[test]
fn printable_q_is_inserted_not_quit() {
    let mut app = two_station_app();
    press(&mut app, KeyCode::Char('s'));
    press(&mut app, KeyCode::Char('q'));
    assert!(!app.should_quit);
    assert_eq!(app.query.iter().collect::<String>(), "q");
}

#[test]
fn search_down_up_wrap_over_results() {
    let mut app = two_station_app();
    press(&mut app, KeyCode::Char('s'));
    press(&mut app, KeyCode::Down);
    assert_eq!(app.search_scroll_state.selected(), Some(0));
    press(&mut app, KeyCode::Down);
    assert_eq!(app.search_scroll_state.selected(), Some(1));
    press(&mut app, KeyCode::Down);
    assert_eq!(app.search_scroll_state.selected(), Some(0));
    press(&mut app, KeyCode::Up);
    assert_eq!(app.search_scroll_state.selected(), Some(1));
}

#[test]
fn search_down_with_no_results_is_noop() {
    let mut app = two_station_app();
    press(&mut app, KeyCode::Char('s'));
    press(&mut app, KeyCode::Char('z'));
    press(&mut app, KeyCode::Char('z'));
    assert!(app.suggested_stations.is_empty());
    app.should_redraw = false;
    press(&mut app, KeyCode::Down);
    assert_eq!(app.search_scroll_state.selected(), None);
    assert!(!app.should_redraw);
}

#[test]
fn escape_discards_query_state() {
    let mut app = two_station_app();
    press(&mut app, KeyCode::Char('s'));
    press(&mut app, KeyCode::Char('O'));
    press(&mut app, KeyCode::Esc);
    assert_eq!(app.app_mode, AppMode::Normal);
    assert!(app.query.is_empty());
    assert_eq!(app.cursor_position, 0);
    assert!(app.suggested_stations.is_empty());
    assert_eq!(app.search_scroll_state.selected(), None);
}

#[test]
fn search_enter_without_selection_is_noop() {
    let mut app = two_station_app();
    press(&mut app, KeyCode::Char('s'));
    app.should_redraw = false;
    let fetch = press(&mut app, KeyCode::Enter);
    assert!(!fetch);
    assert_eq!(app.app_mode, AppMode::Search);
    assert!(app.selected_station.is_none());
    assert!(!app.should_redraw);
}

#[test]
fn selecting_a_search_result_returns_to_normal() {
    let mut app = two_station_app();
    press(&mut app, KeyCode::Char('s'));
    press(&mut app, KeyCode::Char('O'));
    press(&mut app, KeyCode::Char('s'));
    press(&mut app, KeyCode::Char('t'));
    press(&mut app, KeyCode::Down);
    assert_eq!(app.search_scroll_state.selected(), Some(0));
    let fetch = press(&mut app, KeyCode::Enter);
    assert!(fetch);
    assert_eq!(app.selected_station.as_ref().unwrap().name, "Ostbahnhof");
    assert_eq!(app.app_mode, AppMode::Normal);
    assert_eq!(app.selected_tab, AppTabs::HomeTab);
    assert_eq!(app.status, "Fetching departures from search");
    assert!(app.query.is_empty());
    assert_eq!(app.cursor_position, 0);
    assert!(app.suggested_stations.is_empty());
    assert_eq!(app.search_scroll_state.selected(), None);
}

#[test]
fn selecting_station_whose_fetch_fails() {
    let mut app = two_station_app();
    press(&mut app, KeyCode::Down);
    let fetch = press(&mut app, KeyCode::Enter);
    assert!(fetch);
    assert_eq!(app.selected_station.as_ref().unwrap().name, "Hauptbahnhof");
    app.update_departures(Err(FetchError));
    assert!(app.selected_station.is_some());
    assert!(app.departures.is_empty());
    assert_eq!(app.status, "Failed to fetch departures");
    assert_eq!(app.selected_tab, AppTabs::HomeTab);
}

#[test]
fn station_list_cursor_survives_search() {
    let mut app = two_station_app();
    press(&mut app, KeyCode::Down);
    press(&mut app, KeyCode::Down);
    assert_eq!(app.scroll_state.selected(), Some(1));
    press(&mut app, KeyCode::Char('s'));
    press(&mut app, KeyCode::Down);
    press(&mut app, KeyCode::Esc);
    assert_eq!(app.scroll_state.selected(), Some(1));
}
