use plurk::error::PlurkError;
use plurk::frame::{strip_frame, wrap_frame};

#[test]
fn frame_round_trip() {
    let payload = r#"{"new_offset": 7, "data": null}"#;
    let framed = wrap_frame(payload);
    assert_eq!(framed, r#"CometChannel.scriptCallback({"new_offset": 7, "data": null});"#);
    assert_eq!(strip_frame(&framed).unwrap(), payload);
}

#[test]
fn frame_round_trip_empty_payload() {
    let framed = wrap_frame("");
    assert_eq!(framed, "CometChannel.scriptCallback();");
    assert_eq!(strip_frame(&framed).unwrap(), "");
}

#[test]
fn frame_missing_wrapper_is_rejected() {
    let body = r#"{"new_offset": 7, "data": null}"#;
    match strip_frame(body) {
        Err(PlurkError::InvalidCometData(s)) => assert_eq!(s, body),
        other => panic!("unexpected {:?}", other),
    }
}

#[test]
fn frame_malformed_trailer_is_rejected() {
    let body = r#"CometChannel.scriptCallback({"new_offset": 7})"#;
    assert!(matches!(strip_frame(body), Err(PlurkError::InvalidCometData(_))));
    let body = r#"CometChannel.scriptCallback({"new_offset": 7}));x"#;
    assert!(matches!(strip_frame(body), Err(PlurkError::InvalidCometData(_))));
}

#[test]
fn frame_too_short_is_rejected() {
    assert!(matches!(strip_frame(");"), Err(PlurkError::InvalidCometData(_))));
    assert!(matches!(strip_frame(""), Err(PlurkError::InvalidCometData(_))));
}
