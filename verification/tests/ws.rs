use leafcast::sysinfo::SysInfo;
use leafcast::ws::{on_event, on_text, TextAction, WsAction, WsEvent};
use leafcast::ws_messages::{
    classify_message, photo_timestamp, webp_data_uri, ErrorData, MessageValues, ParsedMessage, Photo,
    StructuredMessage,
};
use leafcast::zone::CivilTime;

fn message(data: Option<ParsedMessage>, error: Option<&str>, unique: &str) -> StructuredMessage {
    StructuredMessage {
        data,
        error: error.map(|e| ErrorData::Something(String::from(e))),
        unique: String::from(unique),
    }
}

#[test]
fn classify_requests() {
    match classify_message(Some(message(Some(ParsedMessage::Photo), None, "unique_hex_string")), None) {
        Some(MessageValues::Valid(ParsedMessage::Photo, unique)) => assert_eq!(unique, "unique_hex_string"),
        _ => unreachable!("Shouldn't have matched this"),
    }
    match classify_message(Some(message(Some(ParsedMessage::ForceUpdate), None, "u")), None) {
        Some(MessageValues::Valid(ParsedMessage::ForceUpdate, unique)) => assert_eq!(unique, "u"),
        _ => unreachable!("Shouldn't have matched this"),
    }
    match classify_message(Some(message(Some(ParsedMessage::Photo), Some("bad"), "u")), None) {
        Some(MessageValues::Invalid(ErrorData::Something(text))) => assert_eq!(text, "bad"),
        _ => unreachable!("Shouldn't have matched this"),
    }
    assert!(classify_message(Some(message(None, None, "u")), None).is_none());
    assert!(classify_message(None, None).is_none());
    assert!(matches!(
        classify_message(None, Some(ErrorData::Something(String::from("e")))),
        Some(MessageValues::Invalid(_))
    ));
}

#[test]
fn text_actions() {
    match on_text(Some(MessageValues::Valid(ParsedMessage::ForceUpdate, String::from("u")))) {
        TextAction::SendPhoto { take_photo, unique, cache } => {
            assert!(take_photo);
            assert_eq!(unique, "u");
            assert_eq!(cache, Some(true));
        }
        _ => unreachable!("Shouldn't have matched this"),
    }
    match on_text(Some(MessageValues::Valid(ParsedMessage::Photo, String::from("v")))) {
        TextAction::SendPhoto { take_photo, .. } => assert!(!take_photo),
        _ => unreachable!("Shouldn't have matched this"),
    }
    assert!(matches!(on_text(None), TextAction::Nothing));
    assert!(matches!(
        on_text(Some(MessageValues::Invalid(ErrorData::Something(String::new())))),
        TextAction::LogError(_)
    ));
    assert!(matches!(on_event(WsEvent::Close), WsAction::CloseAndStop));
    assert!(matches!(on_event(WsEvent::Other), WsAction::Ignore));
    assert!(matches!(on_event(WsEvent::Text(String::from("t"))), WsAction::HandleText(t) if t == "t"));
}

#[test]
fn photo_response() {
    assert_eq!(webp_data_uri(b""), "data:image/webp;base64,");
    assert_eq!(webp_data_uri(b"f"), "data:image/webp;base64,Zg==");
    assert_eq!(webp_data_uri(b"fo"), "data:image/webp;base64,Zm8=");
    assert_eq!(webp_data_uri(b"foobar"), "data:image/webp;base64,Zm9vYmFy");
    assert_eq!(webp_data_uri(&[0xfb, 0xff]), "data:image/webp;base64,+/8=");
    let time = CivilTime { year: 2024, month: 3, day: 5, hour: 7, minute: 8, second: 9, weekday: 2 };
    assert_eq!(photo_timestamp(&time), "Tuesday 2024-03-05 @ 07:08:09");
    let info = SysInfo::new(&None, None, None, 0, 0, "0.1.0");
    let photo = Photo::new(b"abc", &time, (3, 10), info);
    assert_eq!(photo.image, "data:image/webp;base64,YWJj");
    assert_eq!(photo.timestamp, "Tuesday 2024-03-05 @ 07:08:09");
    assert_eq!((photo.size_converted, photo.size_original), (3, 10));
    assert_eq!(photo.pi_info.internal_ip, "N/A");
}
