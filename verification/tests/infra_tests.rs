use event_sourcing::infra::claims::JwtUserClaims;
use event_sourcing::infra::dto::{MediumItemType, MediumItemTypeDto, MediumType, MediumTypeDto};
use event_sourcing::infra::exif::{
    additional_fields, convert_exif, has_camera_info, is_extracted_key, parse_exif_date, ExifEntry, ExifField,
};
use event_sourcing::infra::storable::{
    persist_failure, serialize_failure, stored_version, stream_key_of, MediumEvent, MediumEventTypes,
    MetadataEvent, MetadataEventTypes, PersistFailure, StorableEvent, TaskEvent, TaskEventTypes, UserEvent,
    UserEventTypes,
};

fn claims() -> JwtUserClaims {
    JwtUserClaims {
        sub: uuid::Uuid::from_u128(0x1234),
        email: Some("a@b.c".to_string()),
        name: Some("Name".to_string()),
        given_name: Some("Given".to_string()),
        preferred_username: None,
        nickname: Some("nick".to_string()),
        quota: Some(byte_unit::Byte::from_u64(1024)),
    }
}

#[test]
fn username_prefers_preferred_then_nickname() {
    let mut c = claims();
    assert_eq!(c.get_username(), Some("nick".to_string()));
    c.preferred_username = Some("pref".to_string());
    assert_eq!(c.get_username(), Some("pref".to_string()));
    c.preferred_username = None;
    c.nickname = None;
    assert_eq!(c.get_username(), Some("Name".to_string()));
    c.name = None;
    assert_eq!(c.get_username(), Some("Given".to_string()));
    c.given_name = None;
    assert_eq!(c.get_username(), None);
    assert_eq!(c.user_id(), uuid::Uuid::from_u128(0x1234));
}

#[test]
fn medium_type_round_trips_through_dto() {
    let all = [
        MediumType::Photo,
        MediumType::Video,
        MediumType::LivePhoto,
        MediumType::Vector,
        MediumType::Sequence,
        MediumType::Gif,
        MediumType::Other,
    ];
    for mt in all {
        let dto: MediumTypeDto = mt.into();
        let back: MediumType = dto.into();
        assert_eq!(back, mt);
    }
    assert_eq!(MediumTypeDto::from(MediumType::LivePhoto), MediumTypeDto::LivePhoto);
    assert_eq!(MediumItemTypeDto::from(MediumItemType::Sidecar), MediumItemTypeDto::Sidecar);
}

#[test]
fn storable_event_names() {
    let id = 0x0123_4567_89ab_cdef_0123_4567_89ab_cdefu128;
    let e = MediumEvent::MediumItemCreated { medium_id: id };
    assert_eq!(MediumEvent::aggregate_type(), "Medium");
    assert_eq!(e.event_type_name(), MediumEventTypes::MEDIUM_ITEM_CREATED);
    assert_eq!(e.event_type_name(), "MediumItemCreated");
    assert_eq!(e.aggregate_id(), "01234567-89ab-cdef-0123-456789abcdef");
    assert_eq!(stream_key_of(&e), "Medium-01234567-89ab-cdef-0123-456789abcdef");
    assert_eq!(MediumEvent::all_event_types(), vec!["MediumCreated", "MediumItemCreated", "MediumUpdated"]);
    assert_eq!(UserEvent::all_event_types().len(), 5);
    assert_eq!(UserEvent::QuotaReleased { user_id: 1 }.event_type_name(), UserEventTypes::QUOTA_RELEASED);
    assert_eq!(MetadataEvent::Extracted { medium_id: 1 }.event_type_name(), MetadataEventTypes::EXTRACTED);
    assert_eq!(MetadataEvent::all_event_types()[0], "MetadataExtractionStarted");
    assert_eq!(TaskEvent::TaskFailed { task_id: 1 }.event_type_name(), TaskEventTypes::TASK_FAILED);
    assert_eq!(TaskEvent::aggregate_type(), "Task");
    assert_eq!(UserEvent::UserCreated { user_id: 255 }.aggregate_id(), "00000000-0000-0000-0000-0000000000ff");
}

#[test]
fn persist_failures() {
    match persist_failure(true, "Medium-abc", -3, "dup") {
        PersistFailure::Conflict { message } => {
            assert_eq!(message, "Concurrency conflict on stream 'Medium-abc' at version -3")
        }
        other => panic!("unexpected {:?}", other),
    }
    match persist_failure(false, "Medium-abc", 4, "disk full") {
        PersistFailure::Internal { message } => assert_eq!(message, "Failed to persist event: disk full"),
        other => panic!("unexpected {:?}", other),
    }
    match serialize_failure("bad") {
        PersistFailure::Internal { message } => assert_eq!(message, "Failed to serialize event: bad"),
        other => panic!("unexpected {:?}", other),
    }
    assert_eq!(stored_version(41), 42);
}

fn text(key: &str, value: &str) -> ExifEntry {
    ExifEntry {
        key: key.to_string(),
        field: ExifField { text: Some(value.to_string()), number: None, raw_number: None },
    }
}

fn number(key: &str, value: u64, raw: Option<u64>) -> ExifEntry {
    ExifEntry { key: key.to_string(), field: ExifField { text: None, number: Some(value), raw_number: raw } }
}

#[test]
fn camera_info_needs_make_model_or_capture_time() {
    assert!(!has_camera_info(&vec![text("FileType", "JPEG")]));
    assert!(has_camera_info(&vec![text("Model", "X100")]));
    assert!(has_camera_info(&vec![text("SubSecDateTimeOriginal", "2024:01:15 14:30:45.12+01:00")]));
}

#[test]
fn extracted_keys_are_not_additional() {
    assert!(is_extracted_key("GPSLatitude"));
    assert!(!is_extracted_key("Artist"));
    let exif = vec![text("Artist", "Me"), text("Make", "Fuji"), number("Rating", 5, None), text("Copyright", "c")];
    let extra = additional_fields(&exif);
    assert_eq!(extra, vec![("Artist".to_string(), "Me".to_string()), ("Copyright".to_string(), "c".to_string())]);
}

#[test]
fn exif_dates_parse_with_and_without_offset() {
    let plain = parse_exif_date("2024:01:15 14:30:45").unwrap();
    assert_eq!(plain.seconds, 1705329045);
    assert_eq!(plain.offset_seconds, 0);
    let zoned = parse_exif_date("2024:01:15 14:30:45.5+01:00").unwrap();
    assert_eq!(zoned.seconds, 1705329045 - 3600);
    assert_eq!(zoned.nanos, 500_000_000);
    assert_eq!(zoned.offset_seconds, 3600);
    assert!(parse_exif_date("not a date").is_none());
}

#[test]
fn convert_exif_fills_integer_and_text_fields() {
    let exif = vec![
        text("MIMEType", "image/jpeg"),
        number("FileSize", 0, Some(2048)),
        text("FileModifyDate", "2024:01:15 14:30:45"),
        text("Make", "Fujifilm"),
        number("ISO", 65536 + 200, None),
        text("Flash", "Off, Did not fire"),
        number("ImageWidth", (1u64 << 32) + 6000, None),
        number("ImageHeight", 4000, None),
        number("Orientation", 0, Some(6)),
        text("Artist", "Me"),
    ];
    let summary = convert_exif(&exif, uuid::Uuid::from_u128(7));
    assert_eq!(summary.mime_type, "image/jpeg");
    assert_eq!(summary.file_size, 2048);
    assert_eq!(summary.file_modified_at.unwrap().seconds, 1705329045);
    let camera = summary.camera.unwrap();
    assert_eq!(camera.make.as_deref(), Some("Fujifilm"));
    assert_eq!(camera.model, None);
    assert_eq!(camera.iso, Some(200));
    assert_eq!(camera.flash, Some(false));
    assert_eq!(summary.width, Some(6000));
    assert_eq!(summary.height, Some(4000));
    assert_eq!(summary.orientation, Some(6));
    assert_eq!(summary.additional, vec![("Artist".to_string(), "Me".to_string())]);
}

#[test]
fn convert_exif_defaults() {
    let exif = vec![text("MIMEType", "not a mime"), text("Flash", "Fired")];
    let summary = convert_exif(&exif, uuid::Uuid::from_u128(7));
    assert_eq!(summary.mime_type, "application/octet-stream");
    assert_eq!(summary.file_size, 0);
    assert!(summary.camera.is_none());
    let empty = convert_exif(&Vec::new(), uuid::Uuid::from_u128(7));
    assert_eq!(empty.mime_type, "application/octet-stream");
    assert!(empty.width.is_none());
}

#[test]
fn convert_exif_normalises_media_type() {
    let summary = convert_exif(&vec![text("MIMEType", "Image/JPEG")], uuid::Uuid::from_u128(7));
    assert_eq!(summary.mime_type, "image/jpeg");
}

#[test]
fn convert_exif_keeps_medium_and_falls_back_to_date_time_original() {
    let medium_id = uuid::Uuid::from_u128(0x1234);
    let exif = vec![text("Make", "Canon"), text("DateTimeOriginal", "2024:01:15 14:30:45")];
    let summary = convert_exif(&exif, medium_id);
    assert_eq!(summary.medium_id, medium_id);
    let camera = summary.camera.unwrap();
    assert_eq!(camera.make.as_deref(), Some("Canon"));
    assert_eq!(camera.model, None);
    let capture = camera.capture_date.unwrap();
    assert_eq!(capture.seconds, 1705329045);
    assert_eq!(capture.offset_seconds, 0);
    assert_eq!(camera.modified_date, None);
    assert_eq!(camera.lens_make, None);
    assert_eq!(camera.iso, None);
    assert_eq!(camera.flash, None);
    assert!(summary.additional.is_empty());
}
