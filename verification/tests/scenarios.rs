use activity::client::DiscordSDK;
use activity::handle::{dispatch_event, DispatchOutcome};
use activity::types::{
    AuthenticateArgs, AuthorizeArgs, SdkConfiguration, SubscribeArgs, VoiceStateUpdateEvent,
};
use activity::events::EventType;
use activity::wire::WireValue;

fn s(x: &str) -> String {
    x.to_owned()
}

fn text(x: &str) -> WireValue {
    WireValue::Text(s(x))
}

fn obj(fields: Vec<(&str, WireValue)>) -> WireValue {
    WireValue::Obj(fields.into_iter().map(|(k, v)| (s(k), v)).collect())
}

fn sdk() -> DiscordSDK {
    DiscordSDK::new(
        s("client"),
        s("instance"),
        s("desktop"),
        None,
        Some(s("123")),
        SdkConfiguration { disable_console_log_override: false },
    )
}

fn field<'a>(v: &'a WireValue, key: &str) -> &'a WireValue {
    match v {
        WireValue::Obj(fields) => {
            for (k, w) in fields {
                if k == key {
                    return w;
                }
            }
            panic!("field {} not found", key);
        },
        _ => panic!("not an object"),
    }
}

#[test]
fn authorize_against_fake_transport() {
    let sdk = sdk();
    let args = AuthorizeArgs {
        client_id: s("C"),
        response_type: s("code"),
        state: s(""),
        prompt: s("none"),
        scope: vec![s("identify")],
    };
    let req = sdk.authorize_request(&args);
    assert_eq!(req.command, "authorize");
    let sent = req.args.expect("authorize carries arguments");
    assert_eq!(field(&sent, "client_id"), &text("C"));
    assert_eq!(field(&sent, "response_type"), &text("code"));
    assert_eq!(field(&sent, "state"), &text(""));
    assert_eq!(field(&sent, "prompt"), &text("none"));
    assert_eq!(field(&sent, "scope"), &WireValue::Arr(vec![text("identify")]));

    let outcome = Ok(obj(vec![("code", text("abc"))]));
    let res = sdk.authorize_response(outcome).expect("well-shaped response decodes");
    assert_eq!(res.code, "abc");
}

#[test]
fn authenticate_against_fake_transport() {
    let sdk = sdk();
    let req = sdk.authenticate_request(&AuthenticateArgs { access_token: s("abc") });
    assert_eq!(req.command, "authenticate");
    let sent = req.args.expect("authenticate carries arguments");
    assert_eq!(field(&sent, "access_token"), &text("abc"));

    let payload = obj(vec![
        ("access_token", text("abc")),
        ("scopes", WireValue::Arr(vec![text("identify")])),
        ("expires", text("2024-01-01T00:00:00Z")),
        (
            "user",
            obj(vec![
                ("id", text("42")),
                ("username", text("someone")),
                ("discriminator", text("0001")),
            ]),
        ),
        (
            "application",
            obj(vec![
                ("id", text("7")),
                ("name", text("app")),
                ("description", text("an app")),
            ]),
        ),
    ]);
    let res = sdk.authenticate_response(Ok(payload)).expect("payload decodes");
    assert_eq!(res.access_token, "abc");
    assert_eq!(res.scopes, vec![s("identify")]);
    assert_eq!(res.expires, "2024-01-01T00:00:00Z");
    assert_eq!(res.user.id, "42");
    assert_eq!(res.user.username, "someone");
    assert_eq!(res.user.discriminator, "0001");
    assert_eq!(res.user.avatar, None);
    assert_eq!(res.user.public_flags, 0);
    assert_eq!(res.user.flags, 0);
    assert_eq!(res.user.premium_type, 0);
    assert_eq!(res.user.global_name, None);
    assert!(!res.user.bot);
    assert_eq!(res.application.id, "7");
    assert_eq!(res.application.name, "app");
    assert_eq!(res.application.description, "an app");
    assert_eq!(res.application.icon, None);
}

#[test]
fn voice_state_update_with_missing_mute_is_reported() {
    let sdk = sdk();
    let args = SubscribeArgs::channel_id("123");
    let req = sdk.subscribe_request::<VoiceStateUpdateEvent>(&args);
    assert_eq!(req.tag, EventType::VoiceStateUpdate);
    assert_eq!(field(&req.args, "channel_id"), &text("123"));

    let sub = sdk
        .subscribe_response::<VoiceStateUpdateEvent>(Ok(()))
        .expect("subscribe succeeded");
    assert!(sub.is_active());

    let payload = obj(vec![
        (
            "voice_state",
            obj(vec![
                ("mute", WireValue::Bool(false)),
                ("deaf", WireValue::Bool(false)),
                ("self_mute", WireValue::Bool(false)),
                ("self_deaf", WireValue::Bool(false)),
                ("suppress", WireValue::Bool(false)),
            ]),
        ),
        (
            "user",
            obj(vec![
                ("id", text("42")),
                ("username", text("someone")),
                ("discriminator", text("0001")),
            ]),
        ),
        ("volume", WireValue::UInt(100)),
        // the required `mute` field is missing
    ]);
    match dispatch_event(&sub, &payload) {
        DispatchOutcome::Report(e) => assert!(e.is_decode()),
        DispatchOutcome::Deliver(_) => panic!("handler must not be invoked"),
    }
    assert!(sub.is_active());
}
