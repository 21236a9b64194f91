use padenc_api::content_service::OutputType;
use padenc_api::errors::ServiceError;
use padenc_api::models::{AppState, Image, Item, Program, Station, Track};
use padenc_api::mot_service::MotService;

fn image(path: &str) -> Image {
    Image {
        content_type: Some("image/png".to_string()),
        path: Some(path.to_string()),
        filename: Some(path.rsplit('/').next().unwrap().to_string()),
    }
}

fn state(
    track_image: Option<Image>,
    program_image: Option<Image>,
    station_image: Option<Image>,
) -> AppState {
    AppState {
        track: Some(Track {
            id: 1,
            item: Item {
                title: "SOS".to_string(),
                artist: None,
            },
            expires_at: None,
            image: track_image,
        }),
        program: Some(Program {
            id: 2,
            name: "Morning Show".to_string(),
            expires_at: None,
            image: program_image,
        }),
        station: Some(Station {
            id: 9,
            name: "Radio One".to_string(),
            image: station_image,
        }),
        dl_plus_item_toggle: false,
    }
}

#[test]
fn image_type_validation_accepts_only_jpeg_and_png() {
    assert!(MotService::is_valid_image_type("image/jpeg"));
    assert!(MotService::is_valid_image_type("image/png"));
    assert!(!MotService::is_valid_image_type("image/gif"));
    assert!(!MotService::is_valid_image_type("image/JPEG"));
    assert!(!MotService::is_valid_image_type(""));
}

#[test]
fn image_file_names_are_recognized_by_extension() {
    assert!(MotService::is_image_file("/tmp/padenc/images/a.jpg"));
    assert!(MotService::is_image_file("/tmp/padenc/images/a.JPEG"));
    assert!(MotService::is_image_file("photo.Png"));
    assert!(!MotService::is_image_file("/tmp/padenc/images/a.txt"));
    assert!(!MotService::is_image_file("/tmp/padenc/images/jpg"));
    assert!(!MotService::is_image_file("/tmp/padenc/images/.jpg"));
    assert!(!MotService::is_image_file("archive.tar.gz"));
    assert!(!MotService::is_image_file(""));
}

#[test]
fn mime_type_detection_follows_the_extension() {
    assert_eq!(MotService::detect_mime_type("a.jpg").unwrap(), "image/jpeg");
    assert_eq!(MotService::detect_mime_type("a.jpeg").unwrap(), "image/jpeg");
    assert_eq!(MotService::detect_mime_type("a.JPG").unwrap(), "image/jpeg");
    assert_eq!(MotService::detect_mime_type("b.png").unwrap(), "image/png");
    assert!(matches!(
        MotService::detect_mime_type("b.gif"),
        Err(ServiceError::Validation(_))
    ));
    assert!(matches!(
        MotService::detect_mime_type("noextension"),
        Err(ServiceError::Validation(_))
    ));
}

#[test]
fn stored_image_filename_is_hyphenated_uuid_and_extension() {
    let id: u128 = 0x00112233445566778899aabbccddeeff;
    assert_eq!(
        MotService::make_image_filename(id, "image/png").unwrap(),
        "00112233-4455-6677-8899-aabbccddeeff.png"
    );
    assert_eq!(
        MotService::make_image_filename(id, "image/jpeg").unwrap(),
        "00112233-4455-6677-8899-aabbccddeeff.jpg"
    );
    assert_eq!(
        MotService::make_image_filename(0, "image/png").unwrap(),
        "00000000-0000-0000-0000-000000000000.png"
    );
    assert!(matches!(
        MotService::make_image_filename(id, "image/gif"),
        Err(ServiceError::Validation(_))
    ));
}

#[test]
fn fresh_upload_names_are_unique_and_well_formed() {
    let a = MotService::fresh_image_filename("image/png").unwrap();
    let b = MotService::fresh_image_filename("image/png").unwrap();
    assert_eq!(a.len(), 40);
    assert!(a.ends_with(".png"));
    for (i, c) in a[..36].chars().enumerate() {
        if i == 8 || i == 13 || i == 18 || i == 23 {
            assert_eq!(c, '-');
        } else {
            assert!(c.is_ascii_hexdigit() && !c.is_ascii_uppercase());
        }
    }
    assert_ne!(a, b);
    let j = MotService::fresh_image_filename("image/jpeg").unwrap();
    assert!(j.ends_with(".jpg"));
    assert!(matches!(
        MotService::fresh_image_filename("text/plain"),
        Err(ServiceError::Validation(_))
    ));
}

#[test]
fn track_image_is_used_when_present() {
    let s = state(Some(image("/pool/t.png")), Some(image("/pool/p.png")), None);
    let img = MotService::get_active_image_with_fallback(&s, &OutputType::Track).unwrap();
    assert_eq!(img.path.as_deref(), Some("/pool/t.png"));
}

#[test]
fn track_without_image_falls_back_to_program_image() {
    let s = state(None, Some(image("/pool/x.png")), Some(image("/pool/y.png")));
    let img = MotService::get_active_image_with_fallback(&s, &OutputType::Track).unwrap();
    assert_eq!(img.path.as_deref(), Some("/pool/x.png"));
}

#[test]
fn track_and_program_without_image_fall_back_to_station_image() {
    let s = state(None, None, Some(image("/pool/y.png")));
    let img = MotService::get_active_image_with_fallback(&s, &OutputType::Track).unwrap();
    assert_eq!(img.path.as_deref(), Some("/pool/y.png"));
}

#[test]
fn program_without_image_falls_back_to_station_image() {
    let s = state(Some(image("/pool/t.png")), None, Some(image("/pool/y.png")));
    let img = MotService::get_active_image_with_fallback(&s, &OutputType::Program).unwrap();
    assert_eq!(img.path.as_deref(), Some("/pool/y.png"));
}

#[test]
fn no_image_anywhere_yields_none() {
    let s = state(None, None, None);
    assert!(MotService::get_active_image_with_fallback(&s, &OutputType::Track).is_none());
    assert!(MotService::get_active_image_with_fallback(&s, &OutputType::Station).is_none());
}

#[test]
fn mot_plan_names_the_copied_file() {
    let mut s = state(Some(image("/pool/t.png")), None, None);
    let plan = MotService::plan_mot_update(&mut s, 0).unwrap();
    assert_eq!(plan.0, "/pool/t.png");
    assert_eq!(plan.1, "t.png");
}

#[test]
fn mot_plan_is_empty_without_an_image() {
    let mut s = state(None, None, None);
    assert!(MotService::plan_mot_update(&mut s, 0).is_none());
}

#[test]
fn cleanup_deletes_unreferenced_image_and_keeps_referenced_ones() {
    let mut s = state(Some(image("/pool/t.png")), Some(image("/pool/p.png")), None);
    let pool = vec![
        "/pool/t.png".to_string(),
        "/pool/p.png".to_string(),
        "/pool/orphan.png".to_string(),
        "/pool/notes.txt".to_string(),
    ];
    let doomed = MotService::cleanup_expired_images(&mut s, 0, &pool);
    assert_eq!(doomed, vec!["/pool/orphan.png".to_string()]);
}

#[test]
fn cleanup_keeps_reference_that_expires_later_in_the_same_tick() {
    // The track is still valid at the instant of reconciliation, even
    // though it expires one step later: its image survives.
    let mut s = state(Some(image("/pool/t.png")), None, None);
    s.track.as_mut().unwrap().expires_at = Some(100);
    let pool = vec!["/pool/t.png".to_string()];
    let doomed = MotService::cleanup_expired_images(&mut s, 99, &pool);
    assert!(doomed.is_empty());
}

#[test]
fn cleanup_uses_post_resolution_state() {
    // The track is already expired at the instant of reconciliation:
    // resolution clears it first, so its image is an orphan.
    let mut s = state(Some(image("/pool/t.png")), None, None);
    s.track.as_mut().unwrap().expires_at = Some(100);
    let pool = vec!["/pool/t.png".to_string()];
    let doomed = MotService::cleanup_expired_images(&mut s, 100, &pool);
    assert_eq!(doomed, vec!["/pool/t.png".to_string()]);
    assert!(s.track.is_none());
}
