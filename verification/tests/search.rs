use mvg_fahrinfo::api::Station;
use mvg_fahrinfo::search::{filter_stations, lower_char, name_contains};

fn station(name: &str) -> Station {
    Station {
        name: name.to_string(),
        place: "München".to_string(),
        id: format!("de:09162:{}", name.len()),
        diva_id: 1,
        abbreviation: None,
        tariff_zones: "m".to_string(),
        products: vec!["UBAHN".to_string()],
        latitude: 48_139_510,
        longitude: 11_566_130,
    }
}

fn names(v: &[Station]) -> Vec<String> {
    v.iter().map(|s| s.name.clone()).collect()
}

fn chars(q: &str) -> Vec<char> {
    q.chars().collect()
}

#[test]
fn lower_char_maps_ascii_only() {
    assert_eq!(lower_char('A'), 'a');
    assert_eq!(lower_char('Z'), 'z');
    assert_eq!(lower_char('m'), 'm');
    assert_eq!(lower_char('Ü'), 'Ü');
    assert_eq!(lower_char('1'), '1');
}

#[test]
fn name_contains_plain_substring() {
    assert!(name_contains("Hauptbahnhof", &chars("bahnhof")));
    assert!(name_contains("Hauptbahnhof", &chars("Haupt")));
    assert!(!name_contains("Hauptbahnhof", &chars("Ost")));
}

#[test]
fn name_contains_ignores_ascii_case() {
    assert!(name_contains("München Hbf", &chars("HBF")));
    assert!(name_contains("München Hbf", &chars("hbf")));
    assert!(name_contains("OSTBAHNHOF", &chars("ostbahn")));
}

#[test]
fn name_contains_empty_query_matches_everything() {
    assert!(name_contains("Hauptbahnhof", &chars("")));
    assert!(name_contains("", &chars("")));
}

#[test]
fn name_contains_query_longer_than_name() {
    assert!(!name_contains("Ost", &chars("Ostbahnhof")));
}

#[test]
fn filter_keeps_catalog_order() {
    let catalog = vec![
        station("Hauptbahnhof"),
        station("Ostbahnhof"),
        station("Marienplatz"),
        station("Westbahnhof"),
    ];
    let hits = filter_stations(&catalog, &chars("bahnhof"));
    assert_eq!(
        names(&hits),
        vec!["Hauptbahnhof", "Ostbahnhof", "Westbahnhof"]
    );
}

#[test]
fn filter_empty_query_returns_whole_catalog() {
    let catalog = vec![station("Hauptbahnhof"), station("Ostbahnhof")];
    let hits = filter_stations(&catalog, &chars(""));
    assert_eq!(names(&hits), vec!["Hauptbahnhof", "Ostbahnhof"]);
}

#[test]
fn filter_is_case_insensitive_for_ascii() {
    let catalog = vec![station("München Hbf")];
    let hits = filter_stations(&catalog, &chars("HBF"));
    assert_eq!(names(&hits), vec!["München Hbf"]);
    let hits2 = filter_stations(&catalog, &chars("Mün"));
    assert_eq!(names(&hits2), vec!["München Hbf"]);
}

#[test]
fn filter_with_no_match_is_empty() {
    let catalog = vec![station("Hauptbahnhof"), station("Ostbahnhof")];
    let hits = filter_stations(&catalog, &chars("Sendling"));
    assert!(hits.is_empty());
}

#[test]
fn filter_of_empty_catalog_is_empty() {
    let catalog: Vec<Station> = vec![];
    let hits = filter_stations(&catalog, &chars("x"));
    assert!(hits.is_empty());
}
