use activity::codec::{
    decode_authorize_args, decode_channel, decode_current_guild_member_update_event,
    decode_current_user_update_event, decode_error_event, decode_get_channel_permissions_res,
    decode_get_platform_behaviors_res, decode_member, decode_open_external_link_res,
    decode_ready_event, decode_user, decode_user_settings_get_locale_res,
    decode_voice_state_update_event, decode_voice_state_update_pan, encode_authorize_args,
    encode_member, encode_user, encode_voice_state_update_event, encode_voice_state_update_pan,
};
use activity::types::{
    AuthorizeArgs, Member, MemberAvatarDecorationData, User, VoiceState, VoiceStateUpdateEvent,
    VoiceStateUpdatePan,
};
use activity::wire::WireValue;

fn s(x: &str) -> String {
    x.to_owned()
}

fn text(x: &str) -> WireValue {
    WireValue::Text(s(x))
}

fn obj(fields: Vec<(&str, WireValue)>) -> WireValue {
    WireValue::Obj(fields.into_iter().map(|(k, v)| (s(k), v)).collect())
}

fn full_user() -> User {
    User {
        id: s("42"),
        username: s("someone"),
        discriminator: s("0001"),
        avatar: Some(s("a0")),
        public_flags: 64,
        flags: 64,
        premium_type: 2,
        global_name: Some(s("Some One")),
        bot: true,
    }
}

fn bare_user() -> User {
    User {
        id: s("43"),
        username: s("other"),
        discriminator: s("0002"),
        avatar: None,
        public_flags: 0,
        flags: 0,
        premium_type: 0,
        global_name: None,
        bot: false,
    }
}

#[test]
fn user_round_trips_with_all_fields() {
    let u = full_user();
    let decoded = decode_user(&encode_user(&u)).expect("encoded form decodes");
    assert_eq!(decoded, u);
}

#[test]
fn user_round_trips_with_absent_optional_fields() {
    let u = bare_user();
    let decoded = decode_user(&encode_user(&u)).expect("encoded form decodes");
    assert_eq!(decoded, u);
}

#[test]
fn user_defaults_apply_when_fields_are_absent() {
    let v = obj(vec![
        ("id", text("1")),
        ("username", text("u")),
        ("discriminator", text("0")),
    ]);
    let u = decode_user(&v).expect("required fields suffice");
    assert_eq!(u.public_flags, 0);
    assert_eq!(u.flags, 0);
    assert_eq!(u.premium_type, 0);
    assert_eq!(u.avatar, None);
    assert_eq!(u.global_name, None);
    assert!(!u.bot);
}

#[test]
fn user_rejects_missing_required_field() {
    let v = obj(vec![("id", text("1")), ("username", text("u"))]);
    let e = decode_user(&v).expect_err("discriminator is required");
    assert_eq!(e.field, "discriminator");
}

#[test]
fn user_rejects_mistyped_field() {
    let v = obj(vec![
        ("id", WireValue::UInt(1)),
        ("username", text("u")),
        ("discriminator", text("0")),
    ]);
    assert!(decode_user(&v).is_err());
}

#[test]
fn user_rejects_out_of_range_premium_type() {
    let v = obj(vec![
        ("id", text("1")),
        ("username", text("u")),
        ("discriminator", text("0")),
        ("premium_type", WireValue::UInt(999)),
    ]);
    assert!(decode_user(&v).is_err());
}

#[test]
fn user_tolerates_unknown_fields() {
    let v = obj(vec![
        ("id", text("1")),
        ("username", text("u")),
        ("discriminator", text("0")),
        ("something_else", text("ignored")),
    ]);
    assert!(decode_user(&v).is_ok());
}

#[test]
fn user_accepts_null_for_optional_fields() {
    let v = obj(vec![
        ("id", text("1")),
        ("username", text("u")),
        ("discriminator", text("0")),
        ("avatar", WireValue::Null),
        ("global_name", WireValue::Null),
    ]);
    let u = decode_user(&v).expect("null optionals decode");
    assert_eq!(u.avatar, None);
    assert_eq!(u.global_name, None);
}

#[test]
fn authorize_args_round_trip() {
    let a = AuthorizeArgs {
        client_id: s("C"),
        response_type: s("code"),
        state: s(""),
        prompt: s("none"),
        scope: vec![s("identify"), s("guilds")],
    };
    let decoded = decode_authorize_args(&encode_authorize_args(&a)).expect("decodes");
    assert_eq!(decoded, a);
}

#[test]
fn voice_state_update_round_trips_with_pan() {
    let e = VoiceStateUpdateEvent {
        voice_state: VoiceState {
            mute: false,
            deaf: true,
            self_mute: false,
            self_deaf: false,
            suppress: true,
        },
        user: bare_user(),
        nick: Some(s("nick")),
        volume: 150,
        mute: false,
        pan: Some(VoiceStateUpdatePan {
            left: f64::to_bits(0.25),
            right: f64::to_bits(0.75),
        }),
    };
    let decoded =
        decode_voice_state_update_event(&encode_voice_state_update_event(&e)).expect("decodes");
    assert_eq!(decoded, e);
    let pan = decoded.pan.unwrap();
    assert_eq!(f64::from_bits(pan.left), 0.25);
    assert_eq!(f64::from_bits(pan.right), 0.75);
}

#[test]
fn voice_state_update_round_trips_without_pan() {
    let e = VoiceStateUpdateEvent {
        voice_state: VoiceState {
            mute: false,
            deaf: false,
            self_mute: false,
            self_deaf: false,
            suppress: false,
        },
        user: bare_user(),
        nick: None,
        volume: 0,
        mute: true,
        pan: None,
    };
    let decoded =
        decode_voice_state_update_event(&encode_voice_state_update_event(&e)).expect("decodes");
    assert_eq!(decoded, e);
}

#[test]
fn pan_round_trips_bit_exactly() {
    let p = VoiceStateUpdatePan { left: f64::to_bits(-1.0), right: f64::to_bits(0.1) };
    let decoded =
        decode_voice_state_update_pan(&encode_voice_state_update_pan(&p)).expect("decodes");
    assert_eq!(decoded, p);
}

#[test]
fn channel_permissions_default_to_zero() {
    let res = decode_get_channel_permissions_res(&obj(vec![])).expect("empty object decodes");
    assert_eq!(res.permissions, 0);
    let res = decode_get_channel_permissions_res(&obj(vec![(
        "permissions",
        WireValue::UInt(1 << 40),
    )]))
    .expect("decodes");
    assert_eq!(res.permissions, 1 << 40);
}

#[test]
fn platform_behaviors_optional_flag() {
    let absent = decode_get_platform_behaviors_res(&obj(vec![])).expect("decodes");
    assert_eq!(absent.ios_keyboard_resizes_view, None);
    let present = decode_get_platform_behaviors_res(&obj(vec![(
        "iosKeyboardResizesView",
        WireValue::Bool(true),
    )]))
    .expect("decodes");
    assert_eq!(present.ios_keyboard_resizes_view, Some(true));
}

#[test]
fn open_external_link_opened_defaults_to_false() {
    let res = decode_open_external_link_res(&obj(vec![])).expect("decodes");
    assert!(!res.opened);
}

#[test]
fn ready_event_decodes_and_checks_version_range() {
    let good = obj(vec![
        ("v", WireValue::UInt(1)),
        (
            "config",
            obj(vec![
                ("cdn_host", text("cdn")),
                ("api_endpoint", text("api")),
                ("environment", text("production")),
            ]),
        ),
    ]);
    let e = decode_ready_event(&good).expect("decodes");
    assert_eq!(e.v, 1);
    assert_eq!(e.config.environment, "production");

    let bad = obj(vec![
        ("v", WireValue::UInt(300)),
        (
            "config",
            obj(vec![
                ("cdn_host", text("cdn")),
                ("api_endpoint", text("api")),
                ("environment", text("production")),
            ]),
        ),
    ]);
    assert!(decode_ready_event(&bad).is_err());
}

#[test]
fn member_round_trips_with_nested_decoration() {
    let m = Member {
        user_id: s("42"),
        guild_id: s("7"),
        nick: Some(s("nick")),
        avatar: None,
        color_string: Some(s("#ff0000")),
        avatar_decoration_data: Some(MemberAvatarDecorationData {
            asset: s("asset0"),
            sku_id: None,
        }),
    };
    let decoded = decode_member(&encode_member(&m)).expect("decodes");
    assert_eq!(decoded, m);

    let bare = Member {
        user_id: s("42"),
        guild_id: s("7"),
        nick: None,
        avatar: None,
        color_string: None,
        avatar_decoration_data: None,
    };
    let decoded = decode_member(&encode_member(&bare)).expect("decodes");
    assert_eq!(decoded, bare);
}

#[test]
fn flattened_events_decode_from_the_inner_shape() {
    let v = obj(vec![
        ("id", text("1")),
        ("username", text("u")),
        ("discriminator", text("0")),
    ]);
    let e = decode_current_user_update_event(&v).expect("a user object is the payload");
    assert_eq!(e.user.id, "1");

    let v = obj(vec![("user_id", text("1")), ("guild_id", text("2"))]);
    let e = decode_current_guild_member_update_event(&v).expect("a member object is the payload");
    assert_eq!(e.member.user_id, "1");
    assert_eq!(e.member.guild_id, "2");
    assert_eq!(e.member.avatar_decoration_data, None);
}

#[test]
fn error_event_carries_code_and_message() {
    let v = obj(vec![("code", WireValue::UInt(4006)), ("message", text("not authenticated"))]);
    let e = decode_error_event(&v).expect("decodes");
    assert_eq!(e.code, 4006);
    assert_eq!(e.message, "not authenticated");

    let bad = obj(vec![("code", text("4006")), ("message", text("no"))]);
    assert!(decode_error_event(&bad).is_err());
}

#[test]
fn unspecified_shapes_accept_any_object() {
    assert!(decode_channel(&obj(vec![("anything", text("at all"))])).is_ok());
    assert!(decode_channel(&WireValue::Null).is_err());
    assert!(decode_user_settings_get_locale_res(&obj(vec![])).is_ok());
    assert!(decode_user_settings_get_locale_res(&text("nope")).is_err());
}
