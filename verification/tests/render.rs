use padenc_api::dls_service::DlsService;
use padenc_api::file_service::{FileService, OutputType};
use padenc_api::models::{AppState, Config, Item, Station, Track};

#[test]
fn track_render_is_byte_offset_correct() {
    let out = DlsService::generate_track_content("Abba", "SOS", 1);
    assert_eq!(
        out,
        "##### parameters { #####\n\
         DL_PLUS=1\n\
         DL_PLUS_TAG=4 0 4\n\
         DL_PLUS_TAG=1 7 3\n\
         DL_PLUS_ITEM_RUNNING=1\n\
         DL_PLUS_ITEM_TOGGLE=1\n\
         ##### parameters } #####\n\
         Abba - SOS"
    );
}

#[test]
fn track_render_counts_bytes_not_characters() {
    // Two characters, four UTF-8 bytes: offsets and lengths are bytes.
    let out = DlsService::generate_track_content("Üü", "Å", 0);
    assert_eq!(
        out,
        "##### parameters { #####\n\
         DL_PLUS=1\n\
         DL_PLUS_TAG=4 0 4\n\
         DL_PLUS_TAG=1 7 2\n\
         DL_PLUS_ITEM_RUNNING=1\n\
         DL_PLUS_ITEM_TOGGLE=0\n\
         ##### parameters } #####\n\
         Üü - Å"
    );
}

#[test]
fn empty_artist_emits_single_title_tag_at_offset_zero() {
    let out = DlsService::generate_track_content("", "SOS", 0);
    assert_eq!(
        out,
        "##### parameters { #####\n\
         DL_PLUS=1\n\
         DL_PLUS_TAG=1 0 3\n\
         DL_PLUS_ITEM_RUNNING=1\n\
         DL_PLUS_ITEM_TOGGLE=0\n\
         ##### parameters } #####\n\
         SOS"
    );
    assert_eq!(out.matches("DL_PLUS_TAG=").count(), 1);
}

#[test]
fn program_render_has_program_tag_and_no_running_item() {
    let out = DlsService::generate_program_content("Morning Show", 1);
    assert_eq!(
        out,
        "##### parameters { #####\n\
         DL_PLUS=1\n\
         DL_PLUS_TAG=33 0 12\n\
         DL_PLUS_ITEM_RUNNING=0\n\
         DL_PLUS_ITEM_TOGGLE=1\n\
         ##### parameters } #####\n\
         Morning Show"
    );
}

#[test]
fn station_render_has_station_tag() {
    let out = DlsService::generate_station_content("Radio One", 0);
    assert_eq!(
        out,
        "##### parameters { #####\n\
         DL_PLUS=1\n\
         DL_PLUS_TAG=32 0 9\n\
         DL_PLUS_ITEM_RUNNING=0\n\
         DL_PLUS_ITEM_TOGGLE=0\n\
         ##### parameters } #####\n\
         Radio One"
    );
}

#[test]
fn render_output_flips_toggle_on_every_call() {
    let mut s = AppState {
        track: None,
        program: None,
        station: Some(Station {
            id: 9,
            name: "Radio One".to_string(),
            image: None,
        }),
        dl_plus_item_toggle: false,
    };
    let first = DlsService::render_output(&mut s, 0);
    assert!(s.dl_plus_item_toggle);
    assert!(first.contains("DL_PLUS_ITEM_TOGGLE=1\n"));
    let second = DlsService::render_output(&mut s, 0);
    assert!(!s.dl_plus_item_toggle);
    assert!(second.contains("DL_PLUS_ITEM_TOGGLE=0\n"));
}

#[test]
fn render_output_uses_resolved_slot() {
    let mut s = AppState {
        track: Some(Track {
            id: 1,
            item: Item {
                title: "SOS".to_string(),
                artist: Some("Abba".to_string()),
            },
            expires_at: Some(100),
            image: None,
        }),
        program: None,
        station: Some(Station {
            id: 9,
            name: "Radio One".to_string(),
            image: None,
        }),
        dl_plus_item_toggle: false,
    };
    // Track expired at 100: the render falls back to the station and
    // the slot is cleared.
    let out = DlsService::render_output(&mut s, 100);
    assert!(out.ends_with("Radio One"));
    assert!(s.track.is_none());
}

#[test]
fn update_output_file_renders_station_for_empty_store() {
    let mut s = AppState {
        track: None,
        program: None,
        station: Some(Station {
            id: 9,
            name: "Radio One".to_string(),
            image: None,
        }),
        dl_plus_item_toggle: false,
    };
    let out = DlsService::update_output_file(&mut s);
    assert_eq!(
        out,
        "##### parameters { #####\n\
         DL_PLUS=1\n\
         DL_PLUS_TAG=32 0 9\n\
         DL_PLUS_ITEM_RUNNING=0\n\
         DL_PLUS_ITEM_TOGGLE=1\n\
         ##### parameters } #####\n\
         Radio One"
    );
    assert!(s.dl_plus_item_toggle);
}

#[test]
fn plain_track_render_keeps_artist_tag_for_empty_artist() {
    let out = FileService::generate_track_content("", "SOS");
    assert_eq!(
        out,
        "##### parameters { #####\nDL_PLUS=1\nDL_PLUS_TAG=4 0 0\nDL_PLUS_TAG=1 3 3\n##### parameters } #####\n - SOS"
    );
}

#[test]
fn plain_selection_reads_the_store_without_clearing_it() {
    let config = Config {
        station_name: "Radio One".to_string(),
        api_key: "SECRET-REDACTED".to_string(),
        default_station_image: None,
    };
    let mut s = AppState {
        track: Some(Track {
            id: 1,
            item: Item {
                title: "SOS".to_string(),
                artist: None,
            },
            expires_at: Some(100),
            image: None,
        }),
        program: None,
        station: None,
        dl_plus_item_toggle: false,
    };
    let selected = FileService::determine_output_type(&s, &config, 50);
    match selected {
        OutputType::Track(artist, title) => {
            assert_eq!(artist, "");
            assert_eq!(title, "SOS");
        },
        _ => panic!("a live track must be selected"),
    }
    let fallback = FileService::determine_output_type(&s, &config, 100);
    match fallback {
        OutputType::Station(name) => assert_eq!(name, "Radio One"),
        _ => panic!("an expired track must fall through to the station"),
    }
    // Selection does not clear the expired slot.
    assert!(s.track.is_some());
    s.track = None;
}

#[test]
fn plain_file_content_dispatches_by_payload() {
    let track = OutputType::Track("Abba".to_string(), "SOS".to_string());
    assert_eq!(
        FileService::generate_file_content(&track),
        "##### parameters { #####\n\
         DL_PLUS=1\n\
         DL_PLUS_TAG=4 0 4\n\
         DL_PLUS_TAG=1 7 3\n\
         ##### parameters } #####\n\
         Abba - SOS"
    );
    let program = OutputType::Program("Morning Show".to_string());
    assert_eq!(
        FileService::generate_file_content(&program),
        "##### parameters { #####\n\
         DL_PLUS=1\n\
         DL_PLUS_TAG=33 0 12\n\
         ##### parameters } #####\n\
         Morning Show"
    );
    let station = OutputType::Station("Radio One".to_string());
    assert_eq!(
        FileService::generate_file_content(&station),
        "##### parameters { #####\n\
         DL_PLUS=1\n\
         DL_PLUS_TAG=32 0 9\n\
         ##### parameters } #####\n\
         Radio One"
    );
}
