use chat_relay::hub::Envelope;
use chat_relay::hub::Hub;
use chat_relay::hub::Receive;
use chat_relay::HUB_CAPACITY;

fn env(text: &str, origin: u64) -> Envelope {
    Envelope { text: String::from(text), origin }
}

#[test]
fn fresh_cursor_sees_no_history() {
    let mut hub = Hub::new(HUB_CAPACITY);
    hub.publish(env("before", 1));
    let mut cursor = hub.subscribe();
    match hub.recv(&mut cursor) {
        Receive::Pending => {}
        _ => panic!("a new cursor starts at the tail and must not see history"),
    }
}

#[test]
fn delivery_in_publish_order() {
    let mut hub = Hub::new(HUB_CAPACITY);
    let mut cursor = hub.subscribe();
    hub.publish(env("first", 1));
    hub.publish(env("second", 2));
    match hub.recv(&mut cursor) {
        Receive::Msg(e) => {
            assert_eq!(e.text, "first");
            assert_eq!(e.origin, 1);
        }
        _ => panic!("expected the first envelope"),
    }
    match hub.recv(&mut cursor) {
        Receive::Msg(e) => {
            assert_eq!(e.text, "second");
            assert_eq!(e.origin, 2);
        }
        _ => panic!("expected the second envelope"),
    }
    match hub.recv(&mut cursor) {
        Receive::Pending => {}
        _ => panic!("expected nothing further"),
    }
}

#[test]
fn publish_with_zero_subscribers_succeeds() {
    let mut hub = Hub::new(HUB_CAPACITY);
    hub.publish(env("unobserved", 1));
}

#[test]
fn lagged_reports_skipped_count_and_resumes_at_oldest() {
    let mut hub = Hub::new(4);
    let mut cursor = hub.subscribe();
    for i in 0..7u64 {
        hub.publish(env(&format!("m{}", i), 1));
    }
    // 7 published, 4 buffered: m0..m2 were overwritten.
    match hub.recv(&mut cursor) {
        Receive::Lagged(n) => assert_eq!(n, 3),
        _ => panic!("expected Lagged once"),
    }
    match hub.recv(&mut cursor) {
        Receive::Msg(e) => assert_eq!(e.text, "m3"),
        _ => panic!("expected the oldest still-buffered envelope"),
    }
}

#[test]
fn lagged_is_reported_only_once() {
    let mut hub = Hub::new(2);
    let mut cursor = hub.subscribe();
    for i in 0..5u64 {
        hub.publish(env(&format!("m{}", i), 1));
    }
    match hub.recv(&mut cursor) {
        Receive::Lagged(n) => assert_eq!(n, 3),
        _ => panic!("expected Lagged"),
    }
    match hub.recv(&mut cursor) {
        Receive::Msg(e) => assert_eq!(e.text, "m3"),
        _ => panic!("expected m3"),
    }
    match hub.recv(&mut cursor) {
        Receive::Msg(e) => assert_eq!(e.text, "m4"),
        _ => panic!("expected m4"),
    }
}

#[test]
fn slow_subscriber_does_not_disturb_current_one() {
    let mut hub = Hub::new(2);
    let mut slow = hub.subscribe();
    let mut current = hub.subscribe();
    for i in 0..6u64 {
        hub.publish(env(&format!("m{}", i), 1));
        // `current` keeps up; `slow` never reads.
        match hub.recv(&mut current) {
            Receive::Msg(e) => assert_eq!(e.text, format!("m{}", i)),
            _ => panic!("the current cursor must receive every envelope"),
        }
    }
    // `current` saw everything in order with no lag; `slow` lags alone.
    match hub.recv(&mut slow) {
        Receive::Lagged(n) => assert_eq!(n, 4),
        _ => panic!("the idle cursor alone fell behind"),
    }
}

#[test]
fn closed_hub_drains_then_reports_closed() {
    let mut hub = Hub::new(HUB_CAPACITY);
    let mut cursor = hub.subscribe();
    hub.publish(env("last", 1));
    hub.close();
    match hub.recv(&mut cursor) {
        Receive::Msg(e) => assert_eq!(e.text, "last"),
        _ => panic!("a buffered envelope is still delivered after close"),
    }
    match hub.recv(&mut cursor) {
        Receive::Closed => {}
        _ => panic!("a drained cursor on a closed hub reports Closed"),
    }
}

#[test]
fn duplicate_preserves_text_and_origin() {
    let e = env("copy me", 9);
    let d = e.duplicate();
    assert_eq!(d.text, "copy me");
    assert_eq!(d.origin, 9);
}
