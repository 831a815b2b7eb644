use plurk::comet::PlurkComet;
use plurk::content::CometContentUnit;
use plurk::error::PlurkError;
use plurk::poll_loop::{CometLoop, LoopAction, LoopEvent};

fn fresh_loop() -> CometLoop {
    CometLoop::new(PlurkComet::new("https://c.example.com/x?channel=ch&offset=5").unwrap())
}

const ONE_PLURK: &str = r#"CometChannel.scriptCallback({"new_offset": 6, "data": [{"type":"new_plurk","plurk_id":100,"owner_id":1,"user_id":1,"posted":"Fri, 05 Jun 2009 23:07:13 GMT","content":"a","content_raw":"a","qualifier":"says"}]});"#;

#[test]
fn knock_on_twelfth_iteration() {
    let mut l = fresh_loop();
    for i in 1..=11u8 {
        assert!(!l.begin_iteration());
        assert_eq!(l.count(), i);
    }
    assert!(l.begin_iteration());
    assert_eq!(l.count(), 0);
    for _ in 0..11 {
        assert!(!l.begin_iteration());
    }
    assert!(l.begin_iteration());
}

#[test]
fn idle_poll_changes_only_counter() {
    let mut l = fresh_loop();
    assert!(!l.begin_iteration());
    let body = r#"CometChannel.scriptCallback({"new_offset": 5, "data": null});"#;
    match l.handle(LoopEvent::PollAnswered(body.to_string())) {
        LoopAction::Deliver(units) => assert!(units.is_empty()),
        other => panic!("unexpected {:?}", other),
    }
    assert_eq!(l.comet().offset(), 5);
    assert_eq!(l.comet().channel(), "ch");
    assert_eq!(l.count(), 1);
    assert!(!l.is_stopped());
}

#[test]
fn answer_delivers_events_and_moves_cursor() {
    let mut l = fresh_loop();
    l.begin_iteration();
    match l.handle(LoopEvent::PollAnswered(ONE_PLURK.to_string())) {
        LoopAction::Deliver(units) => {
            assert_eq!(units.len(), 1);
            assert!(matches!(&units[0], CometContentUnit::Plurk(p) if p.plurk_id == 100));
        }
        other => panic!("unexpected {:?}", other),
    }
    assert_eq!(l.comet().offset(), 6);
}

#[test]
fn errors_are_reported_and_loop_goes_on() {
    let mut l = fresh_loop();
    match l.handle(LoopEvent::PollFailed("timed out".to_string())) {
        LoopAction::Report(PlurkError::ReqwestError(m)) => assert_eq!(m, "timed out"),
        other => panic!("unexpected {:?}", other),
    }
    match l.handle(LoopEvent::PollAnswered("<html>".to_string())) {
        LoopAction::Report(PlurkError::InvalidCometData(_)) => {}
        other => panic!("unexpected {:?}", other),
    }
    assert_eq!(l.comet().offset(), 5);
    assert!(!l.is_stopped());
    assert!(matches!(
        l.handle(LoopEvent::PollAnswered(ONE_PLURK.to_string())),
        LoopAction::Deliver(_)
    ));
}

#[test]
fn cancellation_stops_for_good() {
    let mut l = fresh_loop();
    l.begin_iteration();
    assert!(matches!(l.handle(LoopEvent::Cancelled), LoopAction::Stop));
    assert!(l.is_stopped());
    assert!(matches!(
        l.handle(LoopEvent::PollAnswered(ONE_PLURK.to_string())),
        LoopAction::Stop
    ));
    assert_eq!(l.comet().offset(), 5);
    for _ in 0..20 {
        assert!(!l.begin_iteration());
    }
    assert_eq!(l.count(), 1);
}
