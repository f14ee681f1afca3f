use activity::client::DiscordSDK;
use activity::errors::{Error, TransportError};
use activity::events::{EventBody, EventType};
use activity::types::{
    Activity, ActivityInstanceParticipantsUpdateEvent, CaputeLogArgs, ErrorEvent,
    OpenShareMomentDialogArgs, SdkConfiguration, SetActivityArgs, SetConfigArgs,
    SetOrientationLockStateArgs, ThermalStateUpdateEvent,
};
use activity::wire::WireValue;

fn s(x: &str) -> String {
    x.to_owned()
}

fn text(x: &str) -> WireValue {
    WireValue::Text(s(x))
}

fn obj(fields: Vec<(&str, WireValue)>) -> WireValue {
    WireValue::Obj(fields.into_iter().map(|(k, v)| (s(k), v)).collect())
}

fn field<'a>(v: &'a WireValue, key: &str) -> &'a WireValue {
    match v {
        WireValue::Obj(fields) => {
            for (k, w) in fields {
                if k == key {
                    return w;
                }
            }
            panic!("field {} not found", key);
        },
        _ => panic!("not an object"),
    }
}

fn sdk() -> DiscordSDK {
    DiscordSDK::new(
        s("client"),
        s("instance"),
        s("ios"),
        None,
        None,
        SdkConfiguration { disable_console_log_override: false },
    )
}

#[test]
fn identity_snapshot_is_exposed_unchanged() {
    let sdk = DiscordSDK::new(
        s("c1"),
        s("i1"),
        s("desktop"),
        Some(s("g1")),
        Some(s("ch1")),
        SdkConfiguration { disable_console_log_override: true },
    );
    assert_eq!(sdk.client_id(), "c1");
    assert_eq!(sdk.instance_id(), "i1");
    assert_eq!(sdk.platform(), "desktop");
    assert_eq!(sdk.guild_id(), Some(s("g1")));
    assert_eq!(sdk.channel_id(), Some(s("ch1")));
    assert!(sdk.configuration().disable_console_log_override);
}

#[test]
fn event_tags_match_the_wire_contract() {
    assert_eq!(EventType::Ready.as_str(), "READY");
    assert_eq!(EventType::Error.as_str(), "ERROR");
    assert_eq!(EventType::VoiceStateUpdate.as_str(), "VOICE_STATE_UPDATE");
    assert_eq!(EventType::SpeakingStart.as_str(), "SPEAKING_START");
    assert_eq!(EventType::SpeakingStop.as_str(), "SPEAKING_STOP");
    assert_eq!(EventType::ActivityLayoutModeUpdate.as_str(), "ACTIVITY_LAYOUT_MODE_UPDATE");
    assert_eq!(EventType::OrientationUpdate.as_str(), "ORIENTATION_UPDATE");
    assert_eq!(EventType::CurrentUserUpdate.as_str(), "CURRENT_USER_UPDATE");
    assert_eq!(EventType::CurrentGuildMemberUpdate.as_str(), "CURRENT_GUILD_MEMBER_UPDATE");
    assert_eq!(EventType::ThermalStateUpdate.as_str(), "THERMAL_STATE_UPDATE");
    assert_eq!(
        EventType::ActivityInstanceParticipantsUpdate.as_str(),
        "ACTIVITY_INSTANCE_PARTICIPANTS_UPDATE"
    );
}

#[test]
fn command_names_match_the_wire_contract() {
    let sdk = sdk();
    assert_eq!(sdk.capture_log_request(&CaputeLogArgs { level: s("info"), message: s("m") })
        .command, "captureLog");
    assert_eq!(sdk.encourage_hardware_acceleration_request().command,
        "encourageHardwareAcceleration");
    assert_eq!(sdk.get_channel_permissions_request().command, "getChannelPermissions");
    assert_eq!(sdk.get_instance_connected_participants_request().command,
        "getInstanceConnectedParticipants");
    assert_eq!(sdk.get_platform_behaviors_request().command, "getPlatformBehaviors");
    assert_eq!(sdk.initiate_image_upload_request().command, "initiateImageUpload");
    assert_eq!(sdk.open_invite_dialog_request().command, "openInviteDialog");
    assert_eq!(sdk.user_settings_get_locale_request().command, "userSettingsGetLocale");
    assert_eq!(sdk.set_activity_request(&SetActivityArgs { activity: Activity {} }).command,
        "setActivity");
}

#[test]
fn no_argument_commands_carry_none() {
    let sdk = sdk();
    assert!(sdk.open_invite_dialog_request().args.is_none());
    assert!(sdk.get_platform_behaviors_request().args.is_none());
}

#[test]
fn renamed_wire_fields_are_bit_exact() {
    let sdk = sdk();
    let share = sdk
        .open_share_moment_dialog_request(&OpenShareMomentDialogArgs { media_url: s("m://u") });
    assert_eq!(share.command, "openShareMomentDialog");
    let sent = share.args.expect("carries arguments");
    assert_eq!(field(&sent, "mediaUrl"), &text("m://u"));

    let cfg = sdk.set_config_request(&SetConfigArgs { user_interactive_pip: true });
    let sent = cfg.args.expect("carries arguments");
    assert_eq!(field(&sent, "user_interactive_pip"), &WireValue::Bool(true));
}

#[test]
fn orientation_lock_state_encodes_all_three_fields() {
    let sdk = sdk();
    let req = sdk.set_orientation_lock_state_request(&SetOrientationLockStateArgs {
        lock_state: s("portrait"),
        picture_in_picture_lock_state: s("landscape"),
        grid_lock_state: s("unlocked"),
    });
    assert_eq!(req.command, "setOrientationLockState");
    let sent = req.args.expect("carries arguments");
    assert_eq!(field(&sent, "lock_state"), &text("portrait"));
    assert_eq!(field(&sent, "picture_in_picture_lock_state"), &text("landscape"));
    assert_eq!(field(&sent, "grid_lock_state"), &text("unlocked"));
}

#[test]
fn transport_failure_and_decode_failure_are_distinct() {
    let sdk = sdk();
    let transport = sdk
        .get_channel_permissions_response(Err(TransportError { message: s("down") }))
        .expect_err("failure surfaced");
    assert!(transport.is_transport());
    assert!(!transport.is_decode());

    let decode = sdk
        .get_channel_permissions_response(Ok(text("not an object")))
        .expect_err("shape mismatch surfaced");
    assert!(decode.is_decode());
    assert!(!decode.is_transport());

    match transport {
        Error::Transport(te) => assert_eq!(te.message, "down"),
        _ => panic!("transport failure keeps the host's message"),
    }
}

#[test]
fn unit_commands_succeed_on_acknowledgement() {
    let sdk = sdk();
    assert!(sdk.capture_log_response(Ok(())).is_ok());
    assert!(sdk.encourage_hardware_acceleration_response(Ok(())).is_ok());
    assert!(sdk.open_invite_dialog_response(Ok(())).is_ok());
    assert!(sdk.set_activity_response(Ok(())).is_ok());
    assert!(sdk.set_config_response(Ok(())).is_ok());
    assert!(sdk.set_orientation_lock_state_response(Ok(())).is_ok());
    assert!(sdk.open_share_moment_dialog_response(Ok(())).is_ok());
    assert!(sdk.open_external_link_response(Ok(())).is_ok());
}

#[test]
fn participants_decode_into_typed_users() {
    let sdk = sdk();
    let payload = obj(vec![(
        "participants",
        WireValue::Arr(vec![
            obj(vec![
                ("id", text("1")),
                ("username", text("a")),
                ("discriminator", text("0001")),
            ]),
            obj(vec![
                ("id", text("2")),
                ("username", text("b")),
                ("discriminator", text("0002")),
                ("bot", WireValue::Bool(true)),
            ]),
        ]),
    )]);
    let res = sdk
        .get_instance_connected_participants_response(Ok(payload))
        .expect("decodes");
    assert_eq!(res.participants.len(), 2);
    assert_eq!(res.participants[0].id, "1");
    assert!(res.participants[1].bot);

    let bad = obj(vec![(
        "participants",
        WireValue::Arr(vec![obj(vec![("id", text("1"))])]),
    )]);
    let err = sdk
        .get_instance_connected_participants_response(Ok(bad))
        .expect_err("one malformed participant fails the decode");
    assert!(err.is_decode());
}

#[test]
fn event_bodies_report_their_tag() {
    let body = EventBody::ThermalStateUpdate(ThermalStateUpdateEvent { thermal_state: 2 });
    assert_eq!(body.tag(), EventType::ThermalStateUpdate);
    let body = EventBody::Error(ErrorEvent { code: 4000, message: s("bad") });
    assert_eq!(body.tag(), EventType::Error);
    let body = EventBody::ActivityInstanceParticipantsUpdate(
        ActivityInstanceParticipantsUpdateEvent { participants: vec![] },
    );
    assert_eq!(body.tag(), EventType::ActivityInstanceParticipantsUpdate);
}
