use chat_relay::handler::fresh_identity;
use chat_relay::handler::handler_step;
use chat_relay::handler::HandlerAction;
use chat_relay::handler::HandlerEvent;
use chat_relay::handler::HandlerState;
use chat_relay::hub::Envelope;
use chat_relay::hub::Receive;

fn env(text: &str, origin: u64) -> Envelope {
    Envelope { text: String::from(text), origin }
}

#[test]
fn inbound_line_is_published() {
    let (st, act) = handler_step(
        HandlerState::Active,
        1,
        HandlerEvent::InboundLine(String::from("hello")),
    );
    assert_eq!(st, HandlerState::Active);
    match act {
        HandlerAction::Publish(l) => assert_eq!(l, "hello"),
        _ => panic!("an inbound line must be published"),
    }
}

#[test]
fn own_envelope_is_discarded() {
    let (st, act) = handler_step(
        HandlerState::Active,
        1,
        HandlerEvent::Delivery(Receive::Msg(env("hello", 1))),
    );
    assert_eq!(st, HandlerState::Active);
    match act {
        HandlerAction::Continue => {}
        _ => panic!("a handler never writes its own envelope back"),
    }
}

#[test]
fn foreign_envelope_is_written_out() {
    let (st, act) = handler_step(
        HandlerState::Active,
        1,
        HandlerEvent::Delivery(Receive::Msg(env("hello", 2))),
    );
    assert_eq!(st, HandlerState::Active);
    match act {
        HandlerAction::WriteLine(l) => assert_eq!(l, "hello"),
        _ => panic!("an envelope from another origin must be written out"),
    }
}

#[test]
fn lag_is_absorbed_silently() {
    let (st, act) = handler_step(
        HandlerState::Active,
        1,
        HandlerEvent::Delivery(Receive::Lagged(5)),
    );
    assert_eq!(st, HandlerState::Active);
    match act {
        HandlerAction::Continue => {}
        _ => panic!("Lagged is never surfaced"),
    }
}

#[test]
fn end_of_stream_terminates() {
    let (st, act) = handler_step(HandlerState::Active, 1, HandlerEvent::InboundEnd);
    assert_eq!(st, HandlerState::Terminating);
    assert!(matches!(act, HandlerAction::Stop));
}

#[test]
fn write_failure_terminates() {
    let (st, act) = handler_step(HandlerState::Active, 1, HandlerEvent::WriteFailed);
    assert_eq!(st, HandlerState::Terminating);
    assert!(matches!(act, HandlerAction::Stop));
}

#[test]
fn hub_closure_terminates() {
    let (st, act) = handler_step(
        HandlerState::Active,
        1,
        HandlerEvent::Delivery(Receive::Closed),
    );
    assert_eq!(st, HandlerState::Terminating);
    assert!(matches!(act, HandlerAction::Stop));
}

#[test]
fn terminating_becomes_closed() {
    let (st, act) = handler_step(HandlerState::Terminating, 1, HandlerEvent::InboundEnd);
    assert_eq!(st, HandlerState::Closed);
    assert!(matches!(act, HandlerAction::Stop));
    let (st2, act2) = handler_step(HandlerState::Closed, 1, HandlerEvent::InboundEnd);
    assert_eq!(st2, HandlerState::Closed);
    assert!(matches!(act2, HandlerAction::Continue));
}

#[test]
fn fresh_identity_never_repeats() {
    let mut counter: u64 = 0;
    let a = fresh_identity(&mut counter);
    let b = fresh_identity(&mut counter);
    let c = fresh_identity(&mut counter);
    assert_eq!((a, b, c), (0, 1, 2));
    assert_eq!(counter, 3);
}
