use arriva::date::travel_date;
use arriva::event::Key;
use arriva::expeditions::Expedition;
use arriva::flow::{App, Phase};
use arriva::stops::Stop;

fn stop(id: usize, name: &str) -> Stop {
    Stop::new(id, name.to_string(), name.to_string(), 1, Some(43.0f64.to_bits()), None, None, Some((-8.4f64).to_bits()))
}

fn catalogue() -> Vec<Stop> {
    vec![stop(5274, "Estacion de Coruna"), stop(4802, "Laracha"), stop(5714, "Carballo")]
}

fn trip(name: &str) -> Expedition {
    Expedition::new(name.to_string(), "08:00".to_string(), "09:00".to_string(), 100)
}

#[test]
fn commit_without_navigation_stays_choosing_origin() {
    let mut app = App::new(catalogue());
    app.handle_key(Key::Enter);
    assert_eq!(app.phase(), Phase::ChoosingOrigin);
    assert!(app.origin().is_none());
    assert!(app.destination().is_none());
}

#[test]
fn down_then_commit_chooses_first_stop() {
    let mut app = App::new(catalogue());
    app.handle_key(Key::Down);
    app.handle_key(Key::Enter);
    assert_eq!(app.phase(), Phase::ChoosingDestination);
    assert_eq!(app.origin(), Some(&catalogue()[0]));
    assert!(app.destination().is_none());
}

#[test]
fn full_selection_reaches_ready() {
    let mut app = App::new(catalogue());
    app.handle_key(Key::Down);
    app.handle_key(Key::Down);
    app.handle_key(Key::Enter);
    assert_eq!(app.from_stops().selected(), Some(1));
    assert_eq!(app.to_stops().selected(), None);
    app.handle_key(Key::Up);
    app.handle_key(Key::Enter);
    assert_eq!(app.phase(), Phase::Ready);
    assert_eq!(app.origin(), Some(&catalogue()[1]));
    assert_eq!(app.destination(), Some(&catalogue()[0]));
}

#[test]
fn quit_ends_in_any_phase() {
    let mut app = App::new(catalogue());
    assert!(!app.exit_requested());
    app.handle_key(Key::Quit);
    assert!(app.exit_requested());
    assert_eq!(app.phase(), Phase::ChoosingOrigin);
}

#[test]
fn empty_catalogue_cannot_be_committed() {
    let mut app = App::new(Vec::new());
    app.handle_key(Key::Down);
    app.handle_key(Key::Enter);
    assert_eq!(app.phase(), Phase::ChoosingOrigin);
}

#[test]
fn query_is_handed_out_once_when_ready() {
    let mut app = App::new(catalogue());
    assert!(app.pending_query(Some("19-04-2024".to_string())).is_none());
    app.handle_key(Key::Down);
    app.handle_key(Key::Enter);
    app.handle_key(Key::Down);
    app.handle_key(Key::Down);
    app.handle_key(Key::Enter);
    let query = app.pending_query(Some("19-04-2024".to_string())).unwrap();
    assert_eq!(query.from, 5274);
    assert_eq!(query.to, 4802);
    assert_eq!(query.date, "19-04-2024");
    assert!(app.pending_query(Some("19-04-2024".to_string())).is_none());
}

#[test]
fn query_defaults_to_today() {
    let mut app = App::new(catalogue());
    for key in [Key::Down, Key::Enter, Key::Down, Key::Enter] {
        app.handle_key(key);
    }
    let query = app.pending_query(None).unwrap();
    let date: Vec<char> = query.date.chars().collect();
    assert!(date.len() >= 10);
    assert_eq!(date[2], '-');
    assert_eq!(date[5], '-');
    assert!(date[0].is_ascii_digit() && date[1].is_ascii_digit() && date[3].is_ascii_digit() && date[4].is_ascii_digit());
}

#[test]
fn travel_date_keeps_a_given_date() {
    assert_eq!(travel_date(Some("01-02-2030".to_string())), "01-02-2030");
}

#[test]
fn trips_load_only_when_ready_and_navigate_together() {
    let mut app = App::new(catalogue());
    app.load_trips(vec![trip("A")], vec![trip("B")]);
    assert!(app.trips().is_none());
    for key in [Key::Down, Key::Enter, Key::Down, Key::Enter] {
        app.handle_key(key);
    }
    app.load_trips(vec![trip("A1"), trip("A2")], vec![trip("B1")]);
    app.handle_key(Key::Down);
    app.handle_key(Key::Down);
    let (outward, back) = app.trips().unwrap();
    assert_eq!(outward.items().len(), 2);
    assert_eq!(outward.selected(), Some(1));
    assert_eq!(back.selected(), Some(0));
    app.handle_key(Key::Enter);
    assert_eq!(app.phase(), Phase::Ready);
}
