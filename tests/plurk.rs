use plurk::error::PlurkError;
use plurk::plurk::{Plurk, PlurkKeys};

#[test]
fn token_needs_both_parts() {
    let p = Plurk::new("ck".to_string(), "cs".to_string(), Some("tk".to_string()), Some("ts".to_string()));
    assert!(p.has_token());
    assert_eq!(p.usable_token().unwrap().key, "tk");
    let p = Plurk::new("ck".to_string(), "cs".to_string(), Some("tk".to_string()), None);
    assert!(!p.has_token());
    assert!(p.oauth_token.is_none());
    let p = Plurk {
        consumer: PlurkKeys { key: "ck".to_string(), secret: "cs".to_string() },
        oauth_token: Some(PlurkKeys { key: "tk".to_string(), secret: String::new() }),
    };
    assert!(!p.has_token());
    assert!(p.usable_token().is_none());
}

#[test]
fn set_token_grants() {
    let mut p = Plurk::new("ck".to_string(), "cs".to_string(), None, None);
    p.set_token("a".to_string(), "b".to_string());
    assert!(p.has_token());
    assert_eq!(p.consumer.key, "ck");
}

#[test]
fn endpoints() {
    assert_eq!(Plurk::cmd("/APP/Users/me"), "https://www.plurk.com/APP/Users/me");
    assert_eq!(
        Plurk::authorize_url("xyz"),
        "https://www.plurk.com/OAuth/authorize?oauth_token=xyz"
    );
}

#[test]
fn error_messages() {
    assert_eq!(PlurkError::UrlError.describe(), "url error");
    assert_eq!(PlurkError::InvalidUrl("u".to_string()).describe(), "Invalid url: u");
    assert_eq!(
        PlurkError::InvalidCometData("x".to_string()).describe(),
        "Invalid comet data: x"
    );
}
