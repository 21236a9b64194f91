use padenc_api::content_service::{ContentService, OutputType};
use padenc_api::models::{AppState, Item, Program, Station, Track};

fn track(id: u128, title: &str, artist: Option<&str>, expires_at: Option<i64>) -> Track {
    Track {
        id,
        item: Item {
            title: title.to_string(),
            artist: artist.map(|a| a.to_string()),
        },
        expires_at,
        image: None,
    }
}

fn program(id: u128, name: &str, expires_at: Option<i64>) -> Program {
    Program {
        id,
        name: name.to_string(),
        expires_at,
        image: None,
    }
}

fn station(id: u128, name: &str) -> Station {
    Station {
        id,
        name: name.to_string(),
        image: None,
    }
}

fn state(track: Option<Track>, program: Option<Program>) -> AppState {
    AppState {
        track,
        program,
        station: Some(station(9, "Radio One")),
        dl_plus_item_toggle: false,
    }
}

#[test]
fn live_track_wins_over_everything() {
    let mut s = state(
        Some(track(1, "SOS", Some("Abba"), Some(100))),
        Some(program(2, "Morning Show", Some(100))),
    );
    let kind = ContentService::get_active_output_type(&mut s, 50);
    assert!(matches!(kind, OutputType::Track));
    assert!(s.track.is_some());
    assert!(s.program.is_some());
}

#[test]
fn expired_track_falls_through_to_program() {
    let mut s = state(
        Some(track(1, "SOS", Some("Abba"), Some(100))),
        Some(program(2, "Morning Show", Some(200))),
    );
    let kind = ContentService::get_active_output_type(&mut s, 150);
    assert!(matches!(kind, OutputType::Program));
}

#[test]
fn expired_track_and_program_fall_through_to_station() {
    let mut s = state(
        Some(track(1, "SOS", Some("Abba"), Some(100))),
        Some(program(2, "Morning Show", Some(100))),
    );
    let kind = ContentService::get_active_output_type(&mut s, 100);
    assert!(matches!(kind, OutputType::Station));
}

#[test]
fn empty_slots_resolve_to_station() {
    let mut s = state(None, None);
    let kind = ContentService::get_active_output_type(&mut s, 0);
    assert!(matches!(kind, OutputType::Station));
}

#[test]
fn track_without_expiry_selected_indefinitely() {
    let mut s = state(Some(track(1, "SOS", None, None)), None);
    let kind = ContentService::get_active_output_type(&mut s, i64::MAX);
    assert!(matches!(kind, OutputType::Track));
}

#[test]
fn program_without_expiry_selected_indefinitely() {
    let mut s = state(None, Some(program(2, "Morning Show", None)));
    let kind = ContentService::get_active_output_type(&mut s, i64::MAX);
    assert!(matches!(kind, OutputType::Program));
}

#[test]
fn expiry_equal_to_now_is_expired() {
    let mut s = state(Some(track(1, "SOS", Some("Abba"), Some(100))), None);
    let kind = ContentService::get_active_output_type(&mut s, 100);
    assert!(matches!(kind, OutputType::Station));
    assert!(s.track.is_none());
}

#[test]
fn expiry_just_after_now_is_still_valid() {
    let mut s = state(Some(track(1, "SOS", Some("Abba"), Some(101))), None);
    let kind = ContentService::get_active_output_type(&mut s, 100);
    assert!(matches!(kind, OutputType::Track));
    assert!(s.track.is_some());
}

#[test]
fn resolving_clears_expired_track_slot() {
    let mut s = state(Some(track(1, "SOS", Some("Abba"), Some(100))), None);
    ContentService::get_active_output_type(&mut s, 200);
    assert!(s.track.is_none());
}

#[test]
fn resolving_clears_expired_program_slot() {
    let mut s = state(None, Some(program(2, "Morning Show", Some(100))));
    ContentService::get_active_output_type(&mut s, 200);
    assert!(s.program.is_none());
}

#[test]
fn live_track_shields_expired_program_from_clearing() {
    let mut s = state(
        Some(track(1, "SOS", Some("Abba"), None)),
        Some(program(2, "Morning Show", Some(100))),
    );
    ContentService::get_active_output_type(&mut s, 200);
    assert!(s.program.is_some());
}

#[test]
fn commands_replace_whole_slots() {
    let mut s = state(None, None);
    s.set_track(track(7, "Waterloo", Some("Abba"), None));
    assert_eq!(s.track.as_ref().unwrap().id, 7);
    assert_eq!(s.track.as_ref().unwrap().item.title, "Waterloo");
    s.clear_track();
    assert!(s.track.is_none());
    s.set_program(program(8, "Evening Show", Some(10)));
    assert_eq!(s.program.as_ref().unwrap().name, "Evening Show");
    s.clear_program();
    assert!(s.program.is_none());
}
