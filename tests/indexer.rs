use rtp::factory::sub_account;
use rtp::indexer::{event_payload, resume_height, timestamp_ms, NewBank, RtpEvent, RtpEventKind, Watcher};

#[test]
fn event_lines_yield_their_payload() {
    assert_eq!(
        event_payload("  EVENT_JSON: {\"standard\":\"rtp\"} \n"),
        Some("{\"standard\":\"rtp\"}".to_string())
    );
    assert_eq!(event_payload("EVENT_JSON:"), Some(String::new()));
    assert_eq!(event_payload("log: EVENT_JSON:{}"), None);
    assert_eq!(event_payload("EVENT"), None);
    assert_eq!(event_payload(""), None);
}

#[test]
fn resumption_follows_the_cursor() {
    assert_eq!(resume_height(41, 100), 42);
    assert_eq!(resume_height(0, 100), 100);
}

#[test]
fn timestamps_become_milliseconds() {
    assert_eq!(timestamp_ms(1_704_980_135_044_123_456), 1_704_980_135_044);
}

#[test]
fn watcher_follows_new_banks() {
    let factory = "factory.near".to_string();
    let mut w = Watcher::new(factory.clone(), &vec!["aa".to_string()]);
    assert!(w.accepts(&factory, true));
    assert!(!w.accepts(&factory, false));
    assert!(w.accepts(&"aa.factory.near".to_string(), true));
    assert!(!w.accepts(&"bb.factory.near".to_string(), true));
    w.observe(&RtpEvent {
        version: "1.0.0".to_string(),
        event_kind: RtpEventKind::NewBank(NewBank { bank: "B".to_string(), bank_id: "bb".to_string() }),
    });
    assert!(w.accepts(&sub_account(&"bb".to_string(), &factory), true));
}
