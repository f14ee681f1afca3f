use activity::client::DiscordSDK;
use activity::errors::{Error, TransportError};
use activity::events::{EventBody, EventType};
use activity::handle::{
    dispatch_event, DispatchOutcome, SubscriptionState, UnsubscribeRequest,
};
use activity::types::{SdkConfiguration, SpeakingStartEvent, SpeakingStopEvent};
use activity::wire::WireValue;

fn s(x: &str) -> String {
    x.to_owned()
}

fn text(x: &str) -> WireValue {
    WireValue::Text(s(x))
}

fn obj(fields: Vec<(&str, WireValue)>) -> WireValue {
    WireValue::Obj(fields.into_iter().map(|(k, v)| (s(k), v)).collect())
}

fn sdk() -> DiscordSDK {
    DiscordSDK::new(
        s("client"),
        s("instance"),
        s("desktop"),
        Some(s("guild")),
        Some(s("123")),
        SdkConfiguration { disable_console_log_override: true },
    )
}

#[test]
fn release_issues_exactly_one_unsubscribe() {
    let sdk = sdk();
    let mut sub = sdk
        .subscribe_response::<SpeakingStartEvent>(Ok(()))
        .expect("subscribe succeeded");
    assert_eq!(sub.event_type(), EventType::SpeakingStart);
    assert_eq!(sub.state(), SubscriptionState::Active);

    let first = sub.release();
    assert_eq!(first, Some(UnsubscribeRequest { tag: EventType::SpeakingStart }));
    assert_eq!(sub.state(), SubscriptionState::Released);

    let second = sub.release();
    assert_eq!(second, None);
    assert_eq!(sub.state(), SubscriptionState::Released);
}

#[test]
fn unsubscribe_after_release_is_lifecycle_error() {
    let sdk = sdk();
    let mut sub = sdk
        .subscribe_response::<SpeakingStopEvent>(Ok(()))
        .expect("subscribe succeeded");
    let _ = sub.release();
    match sub.unsubscribe_request() {
        Err(e) => assert!(e.is_lifecycle()),
        Ok(_) => panic!("a released handle must not reach the transport"),
    }
}

#[test]
fn explicit_unsubscribe_then_release_is_quiet() {
    let sdk = sdk();
    let mut sub = sdk
        .subscribe_response::<SpeakingStartEvent>(Ok(()))
        .expect("subscribe succeeded");
    let req = sub.unsubscribe_request().expect("active handle may unsubscribe");
    assert_eq!(req.tag, EventType::SpeakingStart);
    sub.unsubscribe_complete(Ok(())).expect("transport acknowledged");
    assert_eq!(sub.state(), SubscriptionState::Unsubscribed);

    // the scope-exit release after an explicit unsubscribe fires nothing
    assert_eq!(sub.release(), None);
    assert_eq!(sub.state(), SubscriptionState::Released);
}

#[test]
fn failed_unsubscribe_keeps_the_handle_active() {
    let sdk = sdk();
    let mut sub = sdk
        .subscribe_response::<SpeakingStartEvent>(Ok(()))
        .expect("subscribe succeeded");
    let _ = sub.unsubscribe_request().expect("active handle may unsubscribe");
    let err = sub
        .unsubscribe_complete(Err(TransportError { message: s("gone") }))
        .expect_err("failure is surfaced");
    match err {
        Error::Transport(te) => assert_eq!(te.message, "gone"),
        _ => panic!("a transport failure is reported as such"),
    }
    assert_eq!(sub.state(), SubscriptionState::Active);
}

#[test]
fn unsubscribe_complete_on_released_handle_is_lifecycle_error() {
    let sdk = sdk();
    let mut sub = sdk
        .subscribe_response::<SpeakingStartEvent>(Ok(()))
        .expect("subscribe succeeded");
    let _ = sub.release();
    let err = sub.unsubscribe_complete(Ok(())).expect_err("handle is gone");
    assert!(err.is_lifecycle());
    assert_eq!(sub.state(), SubscriptionState::Released);
}

#[test]
fn subscribe_failure_registers_nothing() {
    let sdk = sdk();
    let err = sdk
        .subscribe_response::<SpeakingStartEvent>(Err(TransportError { message: s("down") }))
        .expect_err("transport failure is surfaced");
    match err {
        Error::Transport(te) => assert_eq!(te.message, "down"),
        _ => panic!("a transport failure is reported as such"),
    }
}

#[test]
fn dispatch_delivers_well_shaped_payloads() {
    let sdk = sdk();
    let sub = sdk
        .subscribe_response::<SpeakingStartEvent>(Ok(()))
        .expect("subscribe succeeded");
    let payload = obj(vec![("channel_id", text("123")), ("user_id", text("42"))]);
    match dispatch_event(&sub, &payload) {
        DispatchOutcome::Deliver(EventBody::SpeakingStart(e)) => {
            assert_eq!(e.channel_id, "123");
            assert_eq!(e.user_id, "42");
        },
        _ => panic!("a well-shaped payload is delivered"),
    }
    assert!(sub.is_active());
}

#[test]
fn decode_failure_does_not_disturb_other_subscriptions() {
    let sdk = sdk();
    let start = sdk
        .subscribe_response::<SpeakingStartEvent>(Ok(()))
        .expect("subscribe succeeded");
    let stop = sdk
        .subscribe_response::<SpeakingStopEvent>(Ok(()))
        .expect("subscribe succeeded");

    // a payload of the wrong shape for the first subscription
    let bad = obj(vec![("channel_id", WireValue::UInt(3))]);
    match dispatch_event(&start, &bad) {
        DispatchOutcome::Report(e) => assert!(e.is_decode()),
        DispatchOutcome::Deliver(_) => panic!("handler must not be invoked"),
    }
    assert!(start.is_active());
    assert!(stop.is_active());

    // the other subscription still delivers
    let good = obj(vec![("channel_id", text("123")), ("user_id", text("42"))]);
    match dispatch_event(&stop, &good) {
        DispatchOutcome::Deliver(EventBody::SpeakingStop(e)) => {
            assert_eq!(e.channel_id, "123");
        },
        _ => panic!("a well-shaped payload is delivered"),
    }
}

#[test]
fn client_level_unsubscribe_round_trip() {
    let sdk = sdk();
    let req = sdk.unsubscribe_request(&EventType::ThermalStateUpdate);
    assert_eq!(req.tag, EventType::ThermalStateUpdate);
    assert!(sdk.unsubscribe_response(Ok(())).is_ok());
    let err = sdk
        .unsubscribe_response(Err(TransportError { message: s("down") }))
        .expect_err("failure surfaced");
    assert!(err.is_transport());
}

#[test]
fn ready_forwards_the_transport_outcome() {
    let sdk = sdk();
    assert!(sdk.ready_response(Ok(())).is_ok());
    let err = sdk
        .ready_response(Err(TransportError { message: s("not ready") }))
        .expect_err("failure surfaced");
    assert!(err.is_transport());
}
