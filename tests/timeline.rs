use plurk::content::find_user;
use plurk::error::PlurkError;
use plurk::timeline::Timeline;

#[test]
fn timeline_with_posts_and_authors() {
    let body = r#"{"plurks":[{"plurk_id":1,"owner_id":7,"user_id":7,"posted":"Fri, 05 Jun 2009 23:07:13 GMT","content":"a","content_raw":"a","qualifier":"says"}],"plurk_users":{"7":{"id":7,"nick_name":"amy","display_name":"Amy","karma":99.5}}}"#;
    let t = Timeline::from_json(body).unwrap();
    let plurks = t.plurks.unwrap();
    assert_eq!(plurks.len(), 1);
    let users = t.plurk_users.unwrap();
    assert_eq!(find_user(&users, plurks[0].owner_id).unwrap().display_name, "Amy");
    assert!(find_user(&users, 8).is_none());
}

#[test]
fn timeline_with_nothing() {
    let t = Timeline::from_json(r#"{"plurks": null}"#).unwrap();
    assert!(t.plurks.is_none());
    assert!(t.plurk_users.is_none());
}

#[test]
fn timeline_rejects_malformed_post() {
    assert!(matches!(
        Timeline::from_json(r#"{"plurks":[{"plurk_id":1}]}"#),
        Err(PlurkError::ParseError(_))
    ));
    assert!(matches!(Timeline::from_json("[]"), Err(PlurkError::ParseError(_))));
}
