use plurk::content::{permalink, CometContent, CometContentUnit, PlurkUser};
use plurk::error::PlurkError;
use plurk::time::Timestamp;

fn plurk_json(id: u64) -> String {
    format!(
        r#"{{"plurk_id":{},"owner_id":7,"user_id":7,"posted":"Fri, 05 Jun 2009 23:07:13 GMT","content":"<b>hi</b>","content_raw":"**hi**","qualifier":"says","lang":"en"}}"#,
        id
    )
}

fn new_plurk_event(id: u64) -> String {
    format!(
        r#"{{"type":"new_plurk","plurk_id":{},"owner_id":7,"user_id":7,"posted":"Fri, 05 Jun 2009 23:07:13 GMT","content":"<b>hi</b>","content_raw":"**hi**","qualifier":"says","favorers":[]}}"#,
        id
    )
}

#[test]
fn decode_single_new_plurk() {
    let payload = format!(r#"{{"new_offset": 42, "data": [{}]}}"#, new_plurk_event(100));
    let content = CometContent::decode(&payload).unwrap();
    assert_eq!(content.new_offset, 42);
    let data = content.data.unwrap();
    assert_eq!(data.len(), 1);
    match &data[0] {
        CometContentUnit::Plurk(p) => {
            assert_eq!(p.plurk_id, 100);
            assert_eq!(p.owner_id, 7);
            assert_eq!(p.content_raw, "**hi**");
            assert_eq!(p.qualifier, "says");
            assert_eq!(p.posted, Timestamp { seconds: 1244243233, utc_offset: 0 });
        }
        other => panic!("unexpected {:?}", other),
    }
}

#[test]
fn decode_unknown_tag_fails_whole_batch() {
    let payload = format!(
        r#"{{"new_offset": 42, "data": [{}, {{"type":"unknown_tag","x":1}}]}}"#,
        new_plurk_event(100)
    );
    match CometContent::decode(&payload) {
        Err(PlurkError::InvalidCometPayload(s)) => assert_eq!(s, payload),
        other => panic!("unexpected {:?}", other),
    }
}

#[test]
fn decode_malformed_event_fails_whole_batch() {
    let payload = format!(
        r#"{{"new_offset": 42, "data": [{}, {{"type":"new_plurk","plurk_id":-1}}]}}"#,
        new_plurk_event(100)
    );
    assert!(matches!(CometContent::decode(&payload), Err(PlurkError::InvalidCometPayload(_))));
}

#[test]
fn decode_null_and_missing_data() {
    let c = CometContent::decode(r#"{"new_offset": -3, "data": null}"#).unwrap();
    assert_eq!(c.new_offset, -3);
    assert!(c.data.is_none());
    let c = CometContent::decode(r#"{"new_offset": 5}"#).unwrap();
    assert_eq!(c.new_offset, 5);
    assert!(c.data.is_none());
    let c = CometContent::decode(r#"{"new_offset": 5, "data": []}"#).unwrap();
    assert_eq!(c.data.unwrap().len(), 0);
}

#[test]
fn decode_rejects_bad_payloads() {
    for p in [
        r#"{"data": null}"#,
        r#"{"new_offset": "5"}"#,
        r#"{"new_offset": 1.5}"#,
        r#"{"new_offset": 5, "data": 3}"#,
        r#"[1, 2]"#,
        r#"not json"#,
    ] {
        assert!(matches!(CometContent::decode(p), Err(PlurkError::InvalidCometPayload(_))), "{}", p);
    }
}

#[test]
fn decode_notification() {
    let c = CometContent::decode(
        r#"{"new_offset": 9, "data": [{"type":"update_notification","counts":{"noti":3,"req":1}}]}"#,
    )
    .unwrap();
    match &c.data.unwrap()[0] {
        CometContentUnit::Notification { counts } => {
            assert_eq!(counts.noti, 3);
            assert_eq!(counts.req, 1);
        }
        other => panic!("unexpected {:?}", other),
    }
}

#[test]
fn decode_response_and_find_responder() {
    let event = format!(
        r#"{{"type":"new_response","plurk_id":100,"plurk":{},"response":{{"id":5,"plurk_id":100,"user_id":99,"posted":"Tue, 01 Mar 2022 10:00:00 +0800","content":"ok","content_raw":"ok","qualifier":":","lang":"en"}},"response_count":4,"user":{{"99":{{"id":99,"nick_name":"bob","display_name":"Bob"}},"7":{{"id":7,"nick_name":"amy","display_name":"Amy"}}}}}}"#,
        plurk_json(100)
    );
    let payload = format!(r#"{{"new_offset": 1, "data": [{}]}}"#, event);
    let data = CometContent::decode(&payload).unwrap().data.unwrap();
    let unit = &data[0];
    match unit {
        CometContentUnit::Response { plurk_id, plurk_data, response, response_count, user } => {
            assert_eq!(*plurk_id, 100);
            assert_eq!(plurk_data.plurk_id, 100);
            assert_eq!(response.id, 5);
            assert_eq!(response.posted, Timestamp { seconds: 1646100000, utc_offset: 28800 });
            assert_eq!(*response_count, 4);
            assert_eq!(user.len(), 2);
        }
        other => panic!("unexpected {:?}", other),
    }
    let who = unit.responder().unwrap();
    assert_eq!(who.display_name, "Bob");
    assert_eq!(who.id, 99);
}

#[test]
fn decode_rejects_bad_date() {
    let event = r#"{"type":"new_plurk","plurk_id":1,"owner_id":7,"user_id":7,"posted":"yesterday","content":"","content_raw":"","qualifier":""}"#;
    let payload = format!(r#"{{"new_offset": 1, "data": [{}]}}"#, event);
    assert!(matches!(CometContent::decode(&payload), Err(PlurkError::InvalidCometPayload(_))));
}

#[test]
fn unit_from_json_checks_type() {
    assert!(CometContentUnit::from_json(&new_plurk_event(3)).is_some());
    assert!(CometContentUnit::from_json(&plurk_json(3)).is_none());
    let unit = CometContentUnit::from_json(&new_plurk_event(3)).unwrap();
    assert!(unit.responder().is_none());
}

#[test]
fn permalink_uses_base36() {
    assert_eq!(permalink(1234567890), "https://www.plurk.com/p/kf12oi");
}

#[test]
fn profile_and_descriptions() {
    let u = PlurkUser::from_profile(
        r#"{"user_info":{"id":7,"nick_name":"amy","display_name":"Amy","karma":10.5},"friends_count":3}"#,
    )
    .unwrap();
    assert_eq!(u.describe(), "PlurkUser amy(7) aka. Amy");
    assert!(matches!(PlurkUser::from_profile(r#"{"id":7}"#), Err(PlurkError::ParseError(_))));
    let unit = CometContentUnit::from_json(&new_plurk_event(1234567890)).unwrap();
    match unit {
        CometContentUnit::Plurk(p) => assert_eq!(
            p.describe(),
            "Plurk ==> https://www.plurk.com/p/kf12oi\n7 says\n**hi**\n"
        ),
        other => panic!("unexpected {:?}", other),
    }
}
