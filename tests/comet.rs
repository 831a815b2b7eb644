use plurk::comet::{PlurkComet, UserChannel};
use plurk::error::PlurkError;

const SERVER: &str = "https://comet03.plurk.com/comet/1235515351741/?channel=generic-4-f733d8522327edf87b4d1651e6395a6cca0807a0&offset=0";

#[test]
fn negotiate_from_server_url() {
    let c = PlurkComet::new(SERVER).unwrap();
    assert_eq!(c.base_url(), "https://comet03.plurk.com/comet/1235515351741/comet");
    assert_eq!(c.channel(), "generic-4-f733d8522327edf87b4d1651e6395a6cca0807a0");
    assert_eq!(c.offset(), 0);
}

#[test]
fn negotiate_decodes_query_fields() {
    let c = PlurkComet::new("https://comet.example.com/a/b?offset=-5&channel=x%20y").unwrap();
    assert_eq!(c.channel(), "x y");
    assert_eq!(c.offset(), -5);
    assert_eq!(c.base_url(), "https://comet.example.com/a/comet");
}

#[test]
fn negotiate_without_query_fails() {
    let url = "https://comet03.plurk.com/comet/1235515351741/";
    match PlurkComet::new(url) {
        Err(PlurkError::InvalidUrl(s)) => assert_eq!(s, url),
        other => panic!("unexpected {:?}", other),
    }
}

#[test]
fn negotiate_with_bad_url_or_fields_fails() {
    assert!(matches!(PlurkComet::new("not a url"), Err(PlurkError::ParseError(_))));
    assert!(matches!(
        PlurkComet::new("https://comet.example.com/?channel=abc"),
        Err(PlurkError::ParseError(_))
    ));
    assert!(matches!(
        PlurkComet::new("https://comet.example.com/?channel=abc&offset=soon"),
        Err(PlurkError::ParseError(_))
    ));
}

#[test]
fn channel_from_query_pairs() {
    let pairs = vec![
        ("channel".to_string(), "generic-1".to_string()),
        ("offset".to_string(), "17".to_string()),
    ];
    let c = PlurkComet::from_query(&pairs, "https://c.example.com/comet".to_string()).unwrap();
    assert_eq!(c.channel(), "generic-1");
    assert_eq!(c.offset(), 17);
    let missing = vec![("channel".to_string(), "generic-1".to_string())];
    assert!(matches!(
        PlurkComet::from_query(&missing, String::new()),
        Err(PlurkError::ParseError(_))
    ));
}

#[test]
fn negotiate_from_channel_body() {
    let body = format!(r#"{{"comet_server": "{}", "channel_name": "generic-4-f733"}}"#, SERVER);
    let u = UserChannel::from_json(&body).unwrap();
    assert_eq!(u.channel_name, "generic-4-f733");
    let c = PlurkComet::from_channel_body(&body).unwrap();
    assert_eq!(c.offset(), 0);
    assert!(matches!(
        PlurkComet::from_channel_body(r#"{"comet_server": 5}"#),
        Err(PlurkError::ParseError(_))
    ));
}

#[test]
fn poll_and_knock_urls() {
    let c = PlurkComet::new(SERVER).unwrap();
    assert_eq!(
        c.poll_url().unwrap(),
        "https://comet03.plurk.com/comet/1235515351741/comet?channel=generic-4-f733d8522327edf87b4d1651e6395a6cca0807a0&offset=0"
    );
    assert_eq!(
        c.knock_url().unwrap(),
        "https://www.plurk.com/_comet/generic?channel=generic-4-f733d8522327edf87b4d1651e6395a6cca0807a0"
    );
}

#[test]
fn poll_adopts_server_offset() {
    let mut c = PlurkComet::new(SERVER).unwrap();
    let body = r#"CometChannel.scriptCallback({"new_offset": 12, "data": null});"#;
    let data = c.poll_once_mut(body).unwrap();
    assert!(data.is_none());
    assert_eq!(c.offset(), 12);
    assert!(c.poll_url().unwrap().ends_with("&offset=12"));
    let body = r#"CometChannel.scriptCallback({"new_offset": 3});"#;
    c.poll_once_mut(body).unwrap();
    assert_eq!(c.offset(), 3);
}

#[test]
fn poll_without_wrapper_keeps_offset() {
    let mut c = PlurkComet::new(SERVER).unwrap();
    c.poll_once_mut(r#"CometChannel.scriptCallback({"new_offset": 12});"#).unwrap();
    let body = r#"{"new_offset": 99, "data": null}"#;
    match c.poll_once_mut(body) {
        Err(PlurkError::InvalidCometData(s)) => assert_eq!(s, body),
        other => panic!("unexpected {:?}", other),
    }
    assert_eq!(c.offset(), 12);
}

#[test]
fn poll_with_bad_payload_keeps_offset() {
    let mut c = PlurkComet::new(SERVER).unwrap();
    let body = r#"CometChannel.scriptCallback({"new_offset": 99, "data": [{"type":"unknown_tag"}]});"#;
    match c.poll_once_mut(body) {
        Err(PlurkError::InvalidCometPayload(s)) => {
            assert_eq!(s, r#"{"new_offset": 99, "data": [{"type":"unknown_tag"}]}"#)
        }
        other => panic!("unexpected {:?}", other),
    }
    assert_eq!(c.offset(), 0);
}

#[test]
fn query_decodes_framed_payload() {
    let c = PlurkComet::query(r#"CometChannel.scriptCallback({"new_offset": 42, "data": []});"#).unwrap();
    assert_eq!(c.new_offset, 42);
}

#[test]
fn describe_channel() {
    let c = PlurkComet::new("https://c.example.com/x?channel=ch&offset=-2").unwrap();
    assert_eq!(
        c.describe(),
        "<Comet>:\n\tBase Url: https://c.example.com/comet\n\tChannel: ch\n\tOffset: -2"
    );
}
