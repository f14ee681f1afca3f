use vstd::prelude::*;

use crate::errors::DecodeError;
use crate::types::{
    Activity,
    ActivityInstanceParticipantsUpdateEvent,
    ActivityInstanceParticipantsUpdateEventView,
    ActivityLayoutModeUpdateEvent,
    ActivityLayoutModeUpdateEventView,
    ActivityView,
    Application,
    ApplicationView,
    AuthenticateArgs,
    AuthenticateArgsView,
    AuthenticateRes,
    AuthenticateResView,
    AuthorizeArgs,
    AuthorizeArgsView,
    AuthorizeRes,
    AuthorizeResView,
    CaputeLogArgs,
    CaputeLogArgsView,
    Channel,
    ChannelView,
    CurrentGuildMemberUpdateEvent,
    CurrentGuildMemberUpdateEventView,
    CurrentUserUpdateEvent,
    CurrentUserUpdateEventView,
    ErrorEvent,
    ErrorEventView,
    GetChannelArgs,
    GetChannelArgsView,
    GetChannelPermissionsRes,
    GetChannelPermissionsResView,
    GetChannelRes,
    GetChannelResView,
    GetInstanceConnectedParticipantsRes,
    GetInstanceConnectedParticipantsResView,
    GetPlatformBehaviorsRes,
    GetPlatformBehaviorsResView,
    InitiateImageUploadRes,
    InitiateImageUploadResView,
    Member,
    MemberAvatarDecorationData,
    MemberAvatarDecorationDataView,
    MemberView,
    OpenExternalLinkArgs,
    OpenExternalLinkArgsView,
    OpenExternalLinkRes,
    OpenExternalLinkResView,
    OpenShareMomentDialogArgs,
    OpenShareMomentDialogArgsView,
    OrientationUpdateEvent,
    OrientationUpdateEventView,
    ReadyEvent,
    ReadyEventConfig,
    ReadyEventConfigView,
    ReadyEventView,
    SdkConfiguration,
    SdkConfigurationView,
    SetActivityArgs,
    SetActivityArgsView,
    SetConfigArgs,
    SetConfigArgsView,
    SetOrientationLockStateArgs,
    SetOrientationLockStateArgsView,
    SpeakingStartEvent,
    SpeakingStartEventView,
    SpeakingStopEvent,
    SpeakingStopEventView,
    SubscribeArgs,
    SubscribeArgsView,
    ThermalStateUpdateEvent,
    ThermalStateUpdateEventView,
    User,
    UserSettingsGetLocaleRes,
    UserSettingsGetLocaleResView,
    UserView,
    VoiceState,
    VoiceStateUpdateEvent,
    VoiceStateUpdateEventView,
    VoiceStateUpdatePan,
    VoiceStateUpdatePanView,
    VoiceStateView,
};
use crate::wire::{
    WireVal, WireValue, obj_get, pairs_view, views_of, opt_str_view, field_is_some, field_val,
    field_is_text, field_text, field_is_uint, field_uint, dflt_uint_ok, dflt_uint, field_is_bool,
    field_bool, dflt_bool_ok, dflt_bool, opt_text_ok, opt_text, opt_bool_ok, opt_bool,
    field_is_float, field_float, field_is_text_arr, field_text_arr, lookup, get_text, get_uint,
    get_dflt_uint, get_bool, get_dflt_bool, get_opt_text, get_opt_bool, get_float, get_req,
    get_text_arr, lemma_obj_view_full, lemma_arr_view_full,
};

verus! {

/// The wire form of an optional text value: nulled out when absent.
pub open spec fn wire_of_opt_text(o: Option<Seq<char>>) -> WireVal {
    match o {
        Some(s) => WireVal::Text(s),
        None => WireVal::Null,
    }
}

/// Encodes an optional string as its wire form.
pub fn encode_opt_text(o: &Option<String>) -> (r: WireValue)
    ensures
        r@ == wire_of_opt_text(opt_str_view(*o)),
{
    match o {
        Some(s) => WireValue::Text(s.clone()),
        None => WireValue::Null,
    }
}

/// The wire form of an optional boolean: nulled out when absent.
pub open spec fn wire_of_opt_bool(o: Option<bool>) -> WireVal {
    match o {
        Some(b) => WireVal::Bool(b),
        None => WireVal::Null,
    }
}

/// Encodes an optional boolean as its wire form.
pub fn encode_opt_bool(o: &Option<bool>) -> (r: WireValue)
    ensures
        r@ == wire_of_opt_bool(*o),
{
    match o {
        Some(b) => WireValue::Bool(*b),
        None => WireValue::Null,
    }
}

/// The wire form of a sequence of text values.
pub open spec fn wire_of_texts(ts: Seq<Seq<char>>) -> WireVal {
    WireVal::Arr(Seq::new(ts.len(), |i: int| WireVal::Text(ts[i])))
}

/// Encodes a list of strings as a wire array of text values.
pub fn encode_texts(ts: &Vec<String>) -> (r: WireValue)
    ensures
        r@ == wire_of_texts(views_of(ts@)),
{
    let mut items: Vec<WireValue> = Vec::new();
    let mut i: usize = 0;
    while i < ts.len()
        invariant
            0 <= i <= ts@.len(),
            items@.len() == i,
            forall|j: int| 0 <= j < i ==> items@[j]@ == WireVal::Text(ts@[j]@),
        decreases ts@.len() - i,
    {
        items.push(WireValue::Text(ts[i].clone()));
        i = i + 1;
    }
    let r = WireValue::Arr(items);
    proof {
        lemma_arr_view_full(r->Arr_0);
        assert(r@->Arr_0 =~~= wire_of_texts(views_of(ts@))->Arr_0);
    }
    r
}

/// The canonical wire form of this shape.
pub open spec fn wire_of_user(x: UserView) -> WireVal {
    WireVal::Obj(
        seq![
            ("id"@, WireVal::Text(x.id)),
            ("username"@, WireVal::Text(x.username)),
            ("discriminator"@, WireVal::Text(x.discriminator)),
            ("avatar"@, wire_of_opt_text(x.avatar)),
            ("public_flags"@, WireVal::UInt(x.public_flags)),
            ("flags"@, WireVal::UInt(x.flags)),
            ("premium_type"@, WireVal::UInt(x.premium_type as u64)),
            ("global_name"@, wire_of_opt_text(x.global_name)),
            ("bot"@, WireVal::Bool(x.bot)),
        ],
    )
}

/// When a wire value has this shape.
pub open spec fn wf_user(v: WireVal) -> bool {
    &&& v is Obj
    &&& field_is_text(v->Obj_0, "id"@)
    &&& field_is_text(v->Obj_0, "username"@)
    &&& field_is_text(v->Obj_0, "discriminator"@)
    &&& opt_text_ok(v->Obj_0, "avatar"@)
    &&& dflt_uint_ok(v->Obj_0, "public_flags"@)
    &&& dflt_uint_ok(v->Obj_0, "flags"@)
    &&& dflt_uint_ok(v->Obj_0, "premium_type"@)
    &&& dflt_uint(v->Obj_0, "premium_type"@) <= 255
    &&& opt_text_ok(v->Obj_0, "global_name"@)
    &&& dflt_bool_ok(v->Obj_0, "bot"@)
}

/// The value a well-formed wire value of this shape denotes.
pub open spec fn parse_user(v: WireVal) -> UserView {
    UserView {
        id: field_text(v->Obj_0, "id"@),
        username: field_text(v->Obj_0, "username"@),
        discriminator: field_text(v->Obj_0, "discriminator"@),
        avatar: opt_text(v->Obj_0, "avatar"@),
        public_flags: dflt_uint(v->Obj_0, "public_flags"@),
        flags: dflt_uint(v->Obj_0, "flags"@),
        premium_type: dflt_uint(v->Obj_0, "premium_type"@) as u8,
        global_name: opt_text(v->Obj_0, "global_name"@),
        bot: dflt_bool(v->Obj_0, "bot"@),
    }
}

/// Encodes the value as its canonical wire form.
pub fn encode_user(x: &User) -> (r: WireValue)
    ensures
        r@ == wire_of_user(x@),
{
    let mut fields: Vec<(String, WireValue)> = Vec::new();
    fields.push(("id".to_owned(), WireValue::Text(x.id.clone())));
    fields.push(("username".to_owned(), WireValue::Text(x.username.clone())));
    fields.push(("discriminator".to_owned(), WireValue::Text(x.discriminator.clone())));
    fields.push(("avatar".to_owned(), encode_opt_text(&x.avatar)));
    fields.push(("public_flags".to_owned(), WireValue::UInt(x.public_flags)));
    fields.push(("flags".to_owned(), WireValue::UInt(x.flags)));
    fields.push(("premium_type".to_owned(), WireValue::UInt(x.premium_type as u64)));
    fields.push(("global_name".to_owned(), encode_opt_text(&x.global_name)));
    fields.push(("bot".to_owned(), WireValue::Bool(x.bot)));
    let r = WireValue::Obj(fields);
    proof {
        lemma_obj_view_full(r->Obj_0);
        assert(r@->Obj_0 =~~= wire_of_user(x@)->Obj_0);
    }
    r
}

/// Decodes a value of this shape from a wire value.
pub fn decode_user(v: &WireValue) -> (r: Result<User, DecodeError>)
    ensures
        r is Ok <==> wf_user(v@),
        r matches Ok(x) ==> x@ == parse_user(v@),
{
    let fields = match v {
        WireValue::Obj(fields) => fields,
        _ => { return Err(DecodeError { field: "user".to_owned() }); },
    };
    proof {
        lemma_obj_view_full(*fields);
        assert(v@ == WireVal::Obj(pairs_view(fields@)));
    }
    let id = get_text(fields, "id")?;
    let username = get_text(fields, "username")?;
    let discriminator = get_text(fields, "discriminator")?;
    let avatar = get_opt_text(fields, "avatar")?;
    let public_flags = get_dflt_uint(fields, "public_flags")?;
    let flags = get_dflt_uint(fields, "flags")?;
    let premium_type_raw = get_dflt_uint(fields, "premium_type")?;
    if premium_type_raw > 255 {
        return Err(DecodeError { field: "premium_type".to_owned() });
    }
    let global_name = get_opt_text(fields, "global_name")?;
    let bot = get_dflt_bool(fields, "bot")?;
    Ok(
        User {
            id,
            username,
            discriminator,
            avatar,
            public_flags,
            flags,
            premium_type: premium_type_raw as u8,
            global_name,
            bot,
        },
    )
}

/// Round trip: decoding the canonical wire form of any value of this
/// shape yields that value back, absent optional fields included.
pub proof fn lemma_user_round_trip(x: UserView)
    ensures
        wf_user(wire_of_user(x)),
        parse_user(wire_of_user(x)) == x,
{
    reveal_strlit("id");
    reveal_strlit("username");
    reveal_strlit("discriminator");
    reveal_strlit("avatar");
    reveal_strlit("public_flags");
    reveal_strlit("flags");
    reveal_strlit("premium_type");
    reveal_strlit("global_name");
    reveal_strlit("bot");
    reveal_with_fuel(obj_get, 11);
    assert("id"@.len() == 2);
    assert("username"@.len() == 8);
    assert("discriminator"@.len() == 13);
    assert("avatar"@.len() == 6);
    assert("public_flags"@.len() == 12);
    assert("flags"@.len() == 5);
    assert("premium_type"@.len() == 12);
    assert("global_name"@.len() == 11);
    assert("bot"@.len() == 3);
    assert("public_flags"@[1] != "premium_type"@[1]);
    assert(parse_user(wire_of_user(x)) =~~= x);
}

/// The wire form of a sequence of users.
pub open spec fn wire_of_user_arr(s: Seq<UserView>) -> WireVal {
    WireVal::Arr(Seq::new(s.len(), |i: int| wire_of_user(s[i])))
}

/// When a wire value is an array of well-formed users.
pub open spec fn wf_user_arr(v: WireVal) -> bool {
    &&& v is Arr
    &&& forall|i: int| 0 <= i < v->Arr_0.len() ==> wf_user(#[trigger] v->Arr_0[i])
}

/// The users a well-formed wire array denotes.
pub open spec fn parse_user_arr(v: WireVal) -> Seq<UserView> {
    match v {
        WireVal::Arr(items) => Seq::new(items.len(), |i: int| parse_user(items[i])),
        _ => Seq::empty(),
    }
}

/// Encodes a list of users as a wire array.
pub fn encode_user_arr(users: &Vec<User>) -> (r: WireValue)
    ensures
        r@ == wire_of_user_arr(views_of(users@)),
{
    let mut items: Vec<WireValue> = Vec::new();
    let mut i: usize = 0;
    while i < users.len()
        invariant
            0 <= i <= users@.len(),
            items@.len() == i,
            forall|j: int| 0 <= j < i ==> items@[j]@ == wire_of_user(users@[j]@),
        decreases users@.len() - i,
    {
        items.push(encode_user(&users[i]));
        i = i + 1;
    }
    let r = WireValue::Arr(items);
    proof {
        lemma_arr_view_full(r->Arr_0);
        assert(r@->Arr_0 =~~= wire_of_user_arr(views_of(users@))->Arr_0);
    }
    r
}

/// Decodes a wire array of users.
pub fn decode_user_arr(v: &WireValue) -> (r: Result<Vec<User>, DecodeError>)
    ensures
        r is Ok <==> wf_user_arr(v@),
        r matches Ok(users) ==> views_of(users@) == parse_user_arr(v@),
{
    let items = match v {
        WireValue::Arr(items) => items,
        _ => { return Err(DecodeError { field: "participants".to_owned() }); },
    };
    let ghost gitems = match v@ {
        WireVal::Arr(g) => g,
        _ => Seq::empty(),
    };
    proof {
        lemma_arr_view_full(*items);
        assert(views_of(items@).subrange(0, items@.len() as int) =~= views_of(items@));
        assert(gitems =~= Seq::new(items@.len(), |i: int| items@[i]@));
    }
    let mut users: Vec<User> = Vec::new();
    let mut i: usize = 0;
    while i < items.len()
        invariant
            0 <= i <= items@.len(),
            gitems == Seq::new(items@.len(), |i: int| items@[i]@),
            v@ == WireVal::Arr(gitems),
            forall|j: int| 0 <= j < i ==> wf_user(#[trigger] gitems[j]),
            users@.len() == i,
            forall|j: int| 0 <= j < i ==> users@[j]@ == parse_user(gitems[j]),
        decreases items@.len() - i,
    {
        proof {
            assert(gitems[i as int] == items@[i as int]@);
        }
        let user = match decode_user(&items[i]) {
            Ok(u) => u,
            Err(e) => {
                proof {
                    assert(v@->Arr_0 == gitems);
                    assert((i as int) < gitems.len());
                    assert(!wf_user(gitems[i as int]));
                    assert(wf_user_arr(v@) ==> wf_user(gitems[i as int]));
                }
                return Err(e);
            },
        };
        users.push(user);
        i = i + 1;
    }
    proof {
        assert(views_of(users@) =~= parse_user_arr(v@));
    }
    Ok(users)
}

/// Round trip for arrays of users.
pub proof fn lemma_user_arr_round_trip(s: Seq<UserView>)
    ensures
        wf_user_arr(wire_of_user_arr(s)),
        parse_user_arr(wire_of_user_arr(s)) == s,
{
    let items = Seq::new(s.len(), |i: int| wire_of_user(s[i]));
    assert forall|i: int| 0 <= i < items.len() implies wf_user(#[trigger] items[i]) by {
        lemma_user_round_trip(s[i]);
    }
    assert forall|i: int| 0 <= i < s.len() implies parse_user_arr(wire_of_user_arr(s))[i]
        == s[i] by {
        lemma_user_round_trip(s[i]);
    }
    assert(parse_user_arr(wire_of_user_arr(s)) =~= s);
}

/// The canonical wire form of this shape.
pub open spec fn wire_of_member_avatar_decoration_data(x: MemberAvatarDecorationDataView) -> WireVal {
    WireVal::Obj(
        seq![
            ("asset"@, WireVal::Text(x.asset)),
            ("sku_id"@, wire_of_opt_text(x.sku_id)),
        ],
    )
}

/// When a wire value has this shape.
pub open spec fn wf_member_avatar_decoration_data(v: WireVal) -> bool {
    &&& v is Obj
    &&& field_is_text(v->Obj_0, "asset"@)
    &&& opt_text_ok(v->Obj_0, "sku_id"@)
}

/// The value a well-formed wire value of this shape denotes.
pub open spec fn parse_member_avatar_decoration_data(v: WireVal) -> MemberAvatarDecorationDataView {
    MemberAvatarDecorationDataView {
        asset: field_text(v->Obj_0, "asset"@),
        sku_id: opt_text(v->Obj_0, "sku_id"@),
    }
}

/// Encodes the value as its canonical wire form.
pub fn encode_member_avatar_decoration_data(x: &MemberAvatarDecorationData) -> (r: WireValue)
    ensures
        r@ == wire_of_member_avatar_decoration_data(x@),
{
    let mut fields: Vec<(String, WireValue)> = Vec::new();
    fields.push(("asset".to_owned(), WireValue::Text(x.asset.clone())));
    fields.push(("sku_id".to_owned(), encode_opt_text(&x.sku_id)));
    let r = WireValue::Obj(fields);
    proof {
        lemma_obj_view_full(r->Obj_0);
        assert(r@->Obj_0 =~~= wire_of_member_avatar_decoration_data(x@)->Obj_0);
    }
    r
}

/// Decodes a value of this shape from a wire value.
pub fn decode_member_avatar_decoration_data(v: &WireValue) -> (r: Result<MemberAvatarDecorationData, DecodeError>)
    ensures
        r is Ok <==> wf_member_avatar_decoration_data(v@),
        r matches Ok(x) ==> x@ == parse_member_avatar_decoration_data(v@),
{
    let fields = match v {
        WireValue::Obj(fields) => fields,
        _ => { return Err(DecodeError { field: "member_avatar_decoration_data".to_owned() }); },
    };
    proof {
        lemma_obj_view_full(*fields);
        assert(v@ == WireVal::Obj(pairs_view(fields@)));
    }
    let asset = get_text(fields, "asset")?;
    let sku_id = get_opt_text(fields, "sku_id")?;
    Ok(
        MemberAvatarDecorationData {
            asset,
            sku_id,
        },
    )
}

/// Round trip: decoding the canonical wire form of any value of this
/// shape yields that value back, absent optional fields included.
pub proof fn lemma_member_avatar_decoration_data_round_trip(x: MemberAvatarDecorationDataView)
    ensures
        wf_member_avatar_decoration_data(wire_of_member_avatar_decoration_data(x)),
        parse_member_avatar_decoration_data(wire_of_member_avatar_decoration_data(x)) == x,
{
    reveal_strlit("asset");
    reveal_strlit("sku_id");
    reveal_with_fuel(obj_get, 4);
    assert("asset"@.len() == 5);
    assert("sku_id"@.len() == 6);
    assert(parse_member_avatar_decoration_data(wire_of_member_avatar_decoration_data(x)) =~~= x);
}

/// The canonical wire form of this shape.
pub open spec fn wire_of_member(x: MemberView) -> WireVal {
    WireVal::Obj(
        seq![
            ("user_id"@, WireVal::Text(x.user_id)),
            ("guild_id"@, WireVal::Text(x.guild_id)),
            ("nick"@, wire_of_opt_text(x.nick)),
            ("avatar"@, wire_of_opt_text(x.avatar)),
            ("color_string"@, wire_of_opt_text(x.color_string)),
            ("avatar_decoration_data"@, match x.avatar_decoration_data { Some(y) => wire_of_member_avatar_decoration_data(y), None => WireVal::Null }),
        ],
    )
}

/// When a wire value has this shape.
pub open spec fn wf_member(v: WireVal) -> bool {
    &&& v is Obj
    &&& field_is_text(v->Obj_0, "user_id"@)
    &&& field_is_text(v->Obj_0, "guild_id"@)
    &&& opt_text_ok(v->Obj_0, "nick"@)
    &&& opt_text_ok(v->Obj_0, "avatar"@)
    &&& opt_text_ok(v->Obj_0, "color_string"@)
    &&& (match obj_get(v->Obj_0, "avatar_decoration_data"@) {
        None => true,
        Some(WireVal::Null) => true,
        Some(w) => wf_member_avatar_decoration_data(w),
    })
}

/// The value a well-formed wire value of this shape denotes.
pub open spec fn parse_member(v: WireVal) -> MemberView {
    MemberView {
        user_id: field_text(v->Obj_0, "user_id"@),
        guild_id: field_text(v->Obj_0, "guild_id"@),
        nick: opt_text(v->Obj_0, "nick"@),
        avatar: opt_text(v->Obj_0, "avatar"@),
        color_string: opt_text(v->Obj_0, "color_string"@),
        avatar_decoration_data: (match obj_get(v->Obj_0, "avatar_decoration_data"@) {
            Some(WireVal::Null) => None,
            Some(w) => Some(parse_member_avatar_decoration_data(w)),
            None => None,
        }),
    }
}

/// Encodes the value as its canonical wire form.
pub fn encode_member(x: &Member) -> (r: WireValue)
    ensures
        r@ == wire_of_member(x@),
{
    let mut fields: Vec<(String, WireValue)> = Vec::new();
    fields.push(("user_id".to_owned(), WireValue::Text(x.user_id.clone())));
    fields.push(("guild_id".to_owned(), WireValue::Text(x.guild_id.clone())));
    fields.push(("nick".to_owned(), encode_opt_text(&x.nick)));
    fields.push(("avatar".to_owned(), encode_opt_text(&x.avatar)));
    fields.push(("color_string".to_owned(), encode_opt_text(&x.color_string)));
    let avatar_decoration_data_w = match &x.avatar_decoration_data {
        Some(y) => encode_member_avatar_decoration_data(y),
        None => WireValue::Null,
    };
    fields.push(("avatar_decoration_data".to_owned(), avatar_decoration_data_w));
    let r = WireValue::Obj(fields);
    proof {
        lemma_obj_view_full(r->Obj_0);
        assert(r@->Obj_0 =~~= wire_of_member(x@)->Obj_0);
    }
    r
}

/// Decodes a value of this shape from a wire value.
pub fn decode_member(v: &WireValue) -> (r: Result<Member, DecodeError>)
    ensures
        r is Ok <==> wf_member(v@),
        r matches Ok(x) ==> x@ == parse_member(v@),
{
    let fields = match v {
        WireValue::Obj(fields) => fields,
        _ => { return Err(DecodeError { field: "member".to_owned() }); },
    };
    proof {
        lemma_obj_view_full(*fields);
        assert(v@ == WireVal::Obj(pairs_view(fields@)));
    }
    let user_id = get_text(fields, "user_id")?;
    let guild_id = get_text(fields, "guild_id")?;
    let nick = get_opt_text(fields, "nick")?;
    let avatar = get_opt_text(fields, "avatar")?;
    let color_string = get_opt_text(fields, "color_string")?;
    let avatar_decoration_data = match lookup(fields, "avatar_decoration_data") {
        None => None,
        Some(WireValue::Null) => None,
        Some(w) => Some(decode_member_avatar_decoration_data(w)?),
    };
    Ok(
        Member {
            user_id,
            guild_id,
            nick,
            avatar,
            color_string,
            avatar_decoration_data,
        },
    )
}

/// Round trip: decoding the canonical wire form of any value of this
/// shape yields that value back, absent optional fields included.
pub proof fn lemma_member_round_trip(x: MemberView)
    ensures
        wf_member(wire_of_member(x)),
        parse_member(wire_of_member(x)) == x,
{
    reveal_strlit("user_id");
    reveal_strlit("guild_id");
    reveal_strlit("nick");
    reveal_strlit("avatar");
    reveal_strlit("color_string");
    reveal_strlit("avatar_decoration_data");
    reveal_with_fuel(obj_get, 8);
    assert("user_id"@.len() == 7);
    assert("guild_id"@.len() == 8);
    assert("nick"@.len() == 4);
    assert("avatar"@.len() == 6);
    assert("color_string"@.len() == 12);
    assert("avatar_decoration_data"@.len() == 22);
    if let Some(y) = x.avatar_decoration_data {
        lemma_member_avatar_decoration_data_round_trip(y);
    }
    assert(parse_member(wire_of_member(x)) =~~= x);
}

/// The canonical wire form of this shape.
pub open spec fn wire_of_application(x: ApplicationView) -> WireVal {
    WireVal::Obj(
        seq![
            ("id"@, WireVal::Text(x.id)),
            ("name"@, WireVal::Text(x.name)),
            ("description"@, WireVal::Text(x.description)),
            ("icon"@, wire_of_opt_text(x.icon)),
        ],
    )
}

/// When a wire value has this shape.
pub open spec fn wf_application(v: WireVal) -> bool {
    &&& v is Obj
    &&& field_is_text(v->Obj_0, "id"@)
    &&& field_is_text(v->Obj_0, "name"@)
    &&& field_is_text(v->Obj_0, "description"@)
    &&& opt_text_ok(v->Obj_0, "icon"@)
}

/// The value a well-formed wire value of this shape denotes.
pub open spec fn parse_application(v: WireVal) -> ApplicationView {
    ApplicationView {
        id: field_text(v->Obj_0, "id"@),
        name: field_text(v->Obj_0, "name"@),
        description: field_text(v->Obj_0, "description"@),
        icon: opt_text(v->Obj_0, "icon"@),
    }
}

/// Encodes the value as its canonical wire form.
pub fn encode_application(x: &Application) -> (r: WireValue)
    ensures
        r@ == wire_of_application(x@),
{
    let mut fields: Vec<(String, WireValue)> = Vec::new();
    fields.push(("id".to_owned(), WireValue::Text(x.id.clone())));
    fields.push(("name".to_owned(), WireValue::Text(x.name.clone())));
    fields.push(("description".to_owned(), WireValue::Text(x.description.clone())));
    fields.push(("icon".to_owned(), encode_opt_text(&x.icon)));
    let r = WireValue::Obj(fields);
    proof {
        lemma_obj_view_full(r->Obj_0);
        assert(r@->Obj_0 =~~= wire_of_application(x@)->Obj_0);
    }
    r
}

/// Decodes a value of this shape from a wire value.
pub fn decode_application(v: &WireValue) -> (r: Result<Application, DecodeError>)
    ensures
        r is Ok <==> wf_application(v@),
        r matches Ok(x) ==> x@ == parse_application(v@),
{
    let fields = match v {
        WireValue::Obj(fields) => fields,
        _ => { return Err(DecodeError { field: "application".to_owned() }); },
    };
    proof {
        lemma_obj_view_full(*fields);
        assert(v@ == WireVal::Obj(pairs_view(fields@)));
    }
    let id = get_text(fields, "id")?;
    let name = get_text(fields, "name")?;
    let description = get_text(fields, "description")?;
    let icon = get_opt_text(fields, "icon")?;
    Ok(
        Application {
            id,
            name,
            description,
            icon,
        },
    )
}

/// Round trip: decoding the canonical wire form of any value of this
/// shape yields that value back, absent optional fields included.
pub proof fn lemma_application_round_trip(x: ApplicationView)
    ensures
        wf_application(wire_of_application(x)),
        parse_application(wire_of_application(x)) == x,
{
    reveal_strlit("id");
    reveal_strlit("name");
    reveal_strlit("description");
    reveal_strlit("icon");
    reveal_with_fuel(obj_get, 6);
    assert("id"@.len() == 2);
    assert("name"@.len() == 4);
    assert("description"@.len() == 11);
    assert("icon"@.len() == 4);
    assert("name"@[0] != "icon"@[0]);
    assert(parse_application(wire_of_application(x)) =~~= x);
}

/// The canonical wire form of this shape: an empty object.
pub open spec fn wire_of_channel(x: ChannelView) -> WireVal {
    WireVal::Obj(Seq::empty())
}

/// Any object decodes to this shape; its fields are left to the host.
pub open spec fn wf_channel(v: WireVal) -> bool {
    v is Obj
}

pub open spec fn parse_channel(v: WireVal) -> ChannelView {
    ChannelView {}
}

pub fn encode_channel(x: &Channel) -> (r: WireValue)
    ensures
        r@ == wire_of_channel(x@),
{
    let fields: Vec<(String, WireValue)> = Vec::new();
    let r = WireValue::Obj(fields);
    proof {
        lemma_obj_view_full(r->Obj_0);
        assert(r@->Obj_0 =~= wire_of_channel(x@)->Obj_0);
    }
    r
}

pub fn decode_channel(v: &WireValue) -> (r: Result<Channel, DecodeError>)
    ensures
        r is Ok <==> wf_channel(v@),
        r matches Ok(x) ==> x@ == parse_channel(v@),
{
    match v {
        WireValue::Obj(_) => Ok(Channel {}),
        _ => Err(DecodeError { field: "channel".to_owned() }),
    }
}

/// Round trip: decoding the canonical wire form yields the value back.
pub proof fn lemma_channel_round_trip(x: ChannelView)
    ensures
        wf_channel(wire_of_channel(x)),
        parse_channel(wire_of_channel(x)) == x,
{
}

/// The canonical wire form of this shape: an empty object.
pub open spec fn wire_of_activity(x: ActivityView) -> WireVal {
    WireVal::Obj(Seq::empty())
}

/// Any object decodes to this shape; its fields are left to the host.
pub open spec fn wf_activity(v: WireVal) -> bool {
    v is Obj
}

pub open spec fn parse_activity(v: WireVal) -> ActivityView {
    ActivityView {}
}

pub fn encode_activity(x: &Activity) -> (r: WireValue)
    ensures
        r@ == wire_of_activity(x@),
{
    let fields: Vec<(String, WireValue)> = Vec::new();
    let r = WireValue::Obj(fields);
    proof {
        lemma_obj_view_full(r->Obj_0);
        assert(r@->Obj_0 =~= wire_of_activity(x@)->Obj_0);
    }
    r
}

pub fn decode_activity(v: &WireValue) -> (r: Result<Activity, DecodeError>)
    ensures
        r is Ok <==> wf_activity(v@),
        r matches Ok(x) ==> x@ == parse_activity(v@),
{
    match v {
        WireValue::Obj(_) => Ok(Activity {}),
        _ => Err(DecodeError { field: "activity".to_owned() }),
    }
}

/// Round trip: decoding the canonical wire form yields the value back.
pub proof fn lemma_activity_round_trip(x: ActivityView)
    ensures
        wf_activity(wire_of_activity(x)),
        parse_activity(wire_of_activity(x)) == x,
{
}

/// The canonical wire form of this shape.
pub open spec fn wire_of_sdk_configuration(x: SdkConfigurationView) -> WireVal {
    WireVal::Obj(
        seq![
            ("disableConsoleLogOverride"@, WireVal::Bool(x.disable_console_log_override)),
        ],
    )
}

/// When a wire value has this shape.
pub open spec fn wf_sdk_configuration(v: WireVal) -> bool {
    &&& v is Obj
    &&& field_is_bool(v->Obj_0, "disableConsoleLogOverride"@)
}

/// The value a well-formed wire value of this shape denotes.
pub open spec fn parse_sdk_configuration(v: WireVal) -> SdkConfigurationView {
    SdkConfigurationView {
        disable_console_log_override: field_bool(v->Obj_0, "disableConsoleLogOverride"@),
    }
}

/// Encodes the value as its canonical wire form.
pub fn encode_sdk_configuration(x: &SdkConfiguration) -> (r: WireValue)
    ensures
        r@ == wire_of_sdk_configuration(x@),
{
    let mut fields: Vec<(String, WireValue)> = Vec::new();
    fields.push(("disableConsoleLogOverride".to_owned(), WireValue::Bool(x.disable_console_log_override)));
    let r = WireValue::Obj(fields);
    proof {
        lemma_obj_view_full(r->Obj_0);
        assert(r@->Obj_0 =~~= wire_of_sdk_configuration(x@)->Obj_0);
    }
    r
}

/// Decodes a value of this shape from a wire value.
pub fn decode_sdk_configuration(v: &WireValue) -> (r: Result<SdkConfiguration, DecodeError>)
    ensures
        r is Ok <==> wf_sdk_configuration(v@),
        r matches Ok(x) ==> x@ == parse_sdk_configuration(v@),
{
    let fields = match v {
        WireValue::Obj(fields) => fields,
        _ => { return Err(DecodeError { field: "sdk_configuration".to_owned() }); },
    };
    proof {
        lemma_obj_view_full(*fields);
        assert(v@ == WireVal::Obj(pairs_view(fields@)));
    }
    let disable_console_log_override = get_bool(fields, "disableConsoleLogOverride")?;
    Ok(
        SdkConfiguration {
            disable_console_log_override,
        },
    )
}

/// Round trip: decoding the canonical wire form of any value of this
/// shape yields that value back, absent optional fields included.
pub proof fn lemma_sdk_configuration_round_trip(x: SdkConfigurationView)
    ensures
        wf_sdk_configuration(wire_of_sdk_configuration(x)),
        parse_sdk_configuration(wire_of_sdk_configuration(x)) == x,
{
    reveal_strlit("disableConsoleLogOverride");
    reveal_with_fuel(obj_get, 3);
    assert("disableConsoleLogOverride"@.len() == 25);
    assert(parse_sdk_configuration(wire_of_sdk_configuration(x)) =~~= x);
}

/// The canonical wire form of this shape.
pub open spec fn wire_of_authorize_args(x: AuthorizeArgsView) -> WireVal {
    WireVal::Obj(
        seq![
            ("client_id"@, WireVal::Text(x.client_id)),
            ("response_type"@, WireVal::Text(x.response_type)),
            ("state"@, WireVal::Text(x.state)),
            ("prompt"@, WireVal::Text(x.prompt)),
            ("scope"@, wire_of_texts(x.scope)),
        ],
    )
}

/// When a wire value has this shape.
pub open spec fn wf_authorize_args(v: WireVal) -> bool {
    &&& v is Obj
    &&& field_is_text(v->Obj_0, "client_id"@)
    &&& field_is_text(v->Obj_0, "response_type"@)
    &&& field_is_text(v->Obj_0, "state"@)
    &&& field_is_text(v->Obj_0, "prompt"@)
    &&& field_is_text_arr(v->Obj_0, "scope"@)
}

/// The value a well-formed wire value of this shape denotes.
pub open spec fn parse_authorize_args(v: WireVal) -> AuthorizeArgsView {
    AuthorizeArgsView {
        client_id: field_text(v->Obj_0, "client_id"@),
        response_type: field_text(v->Obj_0, "response_type"@),
        state: field_text(v->Obj_0, "state"@),
        prompt: field_text(v->Obj_0, "prompt"@),
        scope: field_text_arr(v->Obj_0, "scope"@),
    }
}

/// Encodes the value as its canonical wire form.
pub fn encode_authorize_args(x: &AuthorizeArgs) -> (r: WireValue)
    ensures
        r@ == wire_of_authorize_args(x@),
{
    let mut fields: Vec<(String, WireValue)> = Vec::new();
    fields.push(("client_id".to_owned(), WireValue::Text(x.client_id.clone())));
    fields.push(("response_type".to_owned(), WireValue::Text(x.response_type.clone())));
    fields.push(("state".to_owned(), WireValue::Text(x.state.clone())));
    fields.push(("prompt".to_owned(), WireValue::Text(x.prompt.clone())));
    fields.push(("scope".to_owned(), encode_texts(&x.scope)));
    let r = WireValue::Obj(fields);
    proof {
        lemma_obj_view_full(r->Obj_0);
        assert(r@->Obj_0 =~~= wire_of_authorize_args(x@)->Obj_0);
    }
    r
}

/// Decodes a value of this shape from a wire value.
pub fn decode_authorize_args(v: &WireValue) -> (r: Result<AuthorizeArgs, DecodeError>)
    ensures
        r is Ok <==> wf_authorize_args(v@),
        r matches Ok(x) ==> x@ == parse_authorize_args(v@),
{
    let fields = match v {
        WireValue::Obj(fields) => fields,
        _ => { return Err(DecodeError { field: "authorize_args".to_owned() }); },
    };
    proof {
        lemma_obj_view_full(*fields);
        assert(v@ == WireVal::Obj(pairs_view(fields@)));
    }
    let client_id = get_text(fields, "client_id")?;
    let response_type = get_text(fields, "response_type")?;
    let state = get_text(fields, "state")?;
    let prompt = get_text(fields, "prompt")?;
    let scope = get_text_arr(fields, "scope")?;
    Ok(
        AuthorizeArgs {
            client_id,
            response_type,
            state,
            prompt,
            scope,
        },
    )
}

/// Round trip: decoding the canonical wire form of any value of this
/// shape yields that value back, absent optional fields included.
pub proof fn lemma_authorize_args_round_trip(x: AuthorizeArgsView)
    ensures
        wf_authorize_args(wire_of_authorize_args(x)),
        parse_authorize_args(wire_of_authorize_args(x)) == x,
{
    reveal_strlit("client_id");
    reveal_strlit("response_type");
    reveal_strlit("state");
    reveal_strlit("prompt");
    reveal_strlit("scope");
    reveal_with_fuel(obj_get, 7);
    assert("client_id"@.len() == 9);
    assert("response_type"@.len() == 13);
    assert("state"@.len() == 5);
    assert("prompt"@.len() == 6);
    assert("scope"@.len() == 5);
    assert("state"@[1] != "scope"@[1]);
    assert(parse_authorize_args(wire_of_authorize_args(x)) =~~= x);
}

/// The canonical wire form of this shape.
pub open spec fn wire_of_authorize_res(x: AuthorizeResView) -> WireVal {
    WireVal::Obj(
        seq![
            ("code"@, WireVal::Text(x.code)),
        ],
    )
}

/// When a wire value has this shape.
pub open spec fn wf_authorize_res(v: WireVal) -> bool {
    &&& v is Obj
    &&& field_is_text(v->Obj_0, "code"@)
}

/// The value a well-formed wire value of this shape denotes.
pub open spec fn parse_authorize_res(v: WireVal) -> AuthorizeResView {
    AuthorizeResView {
        code: field_text(v->Obj_0, "code"@),
    }
}

/// Encodes the value as its canonical wire form.
pub fn encode_authorize_res(x: &AuthorizeRes) -> (r: WireValue)
    ensures
        r@ == wire_of_authorize_res(x@),
{
    let mut fields: Vec<(String, WireValue)> = Vec::new();
    fields.push(("code".to_owned(), WireValue::Text(x.code.clone())));
    let r = WireValue::Obj(fields);
    proof {
        lemma_obj_view_full(r->Obj_0);
        assert(r@->Obj_0 =~~= wire_of_authorize_res(x@)->Obj_0);
    }
    r
}

/// Decodes a value of this shape from a wire value.
pub fn decode_authorize_res(v: &WireValue) -> (r: Result<AuthorizeRes, DecodeError>)
    ensures
        r is Ok <==> wf_authorize_res(v@),
        r matches Ok(x) ==> x@ == parse_authorize_res(v@),
{
    let fields = match v {
        WireValue::Obj(fields) => fields,
        _ => { return Err(DecodeError { field: "authorize_res".to_owned() }); },
    };
    proof {
        lemma_obj_view_full(*fields);
        assert(v@ == WireVal::Obj(pairs_view(fields@)));
    }
    let code = get_text(fields, "code")?;
    Ok(
        AuthorizeRes {
            code,
        },
    )
}

/// Round trip: decoding the canonical wire form of any value of this
/// shape yields that value back, absent optional fields included.
pub proof fn lemma_authorize_res_round_trip(x: AuthorizeResView)
    ensures
        wf_authorize_res(wire_of_authorize_res(x)),
        parse_authorize_res(wire_of_authorize_res(x)) == x,
{
    reveal_strlit("code");
    reveal_with_fuel(obj_get, 3);
    assert("code"@.len() == 4);
    assert(parse_authorize_res(wire_of_authorize_res(x)) =~~= x);
}

/// The canonical wire form of this shape.
pub open spec fn wire_of_authenticate_args(x: AuthenticateArgsView) -> WireVal {
    WireVal::Obj(
        seq![
            ("access_token"@, WireVal::Text(x.access_token)),
        ],
    )
}

/// When a wire value has this shape.
pub open spec fn wf_authenticate_args(v: WireVal) -> bool {
    &&& v is Obj
    &&& field_is_text(v->Obj_0, "access_token"@)
}

/// The value a well-formed wire value of this shape denotes.
pub open spec fn parse_authenticate_args(v: WireVal) -> AuthenticateArgsView {
    AuthenticateArgsView {
        access_token: field_text(v->Obj_0, "access_token"@),
    }
}

/// Encodes the value as its canonical wire form.
pub fn encode_authenticate_args(x: &AuthenticateArgs) -> (r: WireValue)
    ensures
        r@ == wire_of_authenticate_args(x@),
{
    let mut fields: Vec<(String, WireValue)> = Vec::new();
    fields.push(("access_token".to_owned(), WireValue::Text(x.access_token.clone())));
    let r = WireValue::Obj(fields);
    proof {
        lemma_obj_view_full(r->Obj_0);
        assert(r@->Obj_0 =~~= wire_of_authenticate_args(x@)->Obj_0);
    }
    r
}

/// Decodes a value of this shape from a wire value.
pub fn decode_authenticate_args(v: &WireValue) -> (r: Result<AuthenticateArgs, DecodeError>)
    ensures
        r is Ok <==> wf_authenticate_args(v@),
        r matches Ok(x) ==> x@ == parse_authenticate_args(v@),
{
    let fields = match v {
        WireValue::Obj(fields) => fields,
        _ => { return Err(DecodeError { field: "authenticate_args".to_owned() }); },
    };
    proof {
        lemma_obj_view_full(*fields);
        assert(v@ == WireVal::Obj(pairs_view(fields@)));
    }
    let access_token = get_text(fields, "access_token")?;
    Ok(
        AuthenticateArgs {
            access_token,
        },
    )
}

/// Round trip: decoding the canonical wire form of any value of this
/// shape yields that value back, absent optional fields included.
pub proof fn lemma_authenticate_args_round_trip(x: AuthenticateArgsView)
    ensures
        wf_authenticate_args(wire_of_authenticate_args(x)),
        parse_authenticate_args(wire_of_authenticate_args(x)) == x,
{
    reveal_strlit("access_token");
    reveal_with_fuel(obj_get, 3);
    assert("access_token"@.len() == 12);
    assert(parse_authenticate_args(wire_of_authenticate_args(x)) =~~= x);
}

/// The canonical wire form of this shape.
pub open spec fn wire_of_authenticate_res(x: AuthenticateResView) -> WireVal {
    WireVal::Obj(
        seq![
            ("access_token"@, WireVal::Text(x.access_token)),
            ("scopes"@, wire_of_texts(x.scopes)),
            ("expires"@, WireVal::Text(x.expires)),
            ("user"@, wire_of_user(x.user)),
            ("application"@, wire_of_application(x.application)),
        ],
    )
}

/// When a wire value has this shape.
pub open spec fn wf_authenticate_res(v: WireVal) -> bool {
    &&& v is Obj
    &&& field_is_text(v->Obj_0, "access_token"@)
    &&& field_is_text_arr(v->Obj_0, "scopes"@)
    &&& field_is_text(v->Obj_0, "expires"@)
    &&& field_is_some(v->Obj_0, "user"@)
    &&& wf_user(field_val(v->Obj_0, "user"@))
    &&& field_is_some(v->Obj_0, "application"@)
    &&& wf_application(field_val(v->Obj_0, "application"@))
}

/// The value a well-formed wire value of this shape denotes.
pub open spec fn parse_authenticate_res(v: WireVal) -> AuthenticateResView {
    AuthenticateResView {
        access_token: field_text(v->Obj_0, "access_token"@),
        scopes: field_text_arr(v->Obj_0, "scopes"@),
        expires: field_text(v->Obj_0, "expires"@),
        user: parse_user(field_val(v->Obj_0, "user"@)),
        application: parse_application(field_val(v->Obj_0, "application"@)),
    }
}

/// Encodes the value as its canonical wire form.
pub fn encode_authenticate_res(x: &AuthenticateRes) -> (r: WireValue)
    ensures
        r@ == wire_of_authenticate_res(x@),
{
    let mut fields: Vec<(String, WireValue)> = Vec::new();
    fields.push(("access_token".to_owned(), WireValue::Text(x.access_token.clone())));
    fields.push(("scopes".to_owned(), encode_texts(&x.scopes)));
    fields.push(("expires".to_owned(), WireValue::Text(x.expires.clone())));
    fields.push(("user".to_owned(), encode_user(&x.user)));
    fields.push(("application".to_owned(), encode_application(&x.application)));
    let r = WireValue::Obj(fields);
    proof {
        lemma_obj_view_full(r->Obj_0);
        assert(r@->Obj_0 =~~= wire_of_authenticate_res(x@)->Obj_0);
    }
    r
}

/// Decodes a value of this shape from a wire value.
pub fn decode_authenticate_res(v: &WireValue) -> (r: Result<AuthenticateRes, DecodeError>)
    ensures
        r is Ok <==> wf_authenticate_res(v@),
        r matches Ok(x) ==> x@ == parse_authenticate_res(v@),
{
    let fields = match v {
        WireValue::Obj(fields) => fields,
        _ => { return Err(DecodeError { field: "authenticate_res".to_owned() }); },
    };
    proof {
        lemma_obj_view_full(*fields);
        assert(v@ == WireVal::Obj(pairs_view(fields@)));
    }
    let access_token = get_text(fields, "access_token")?;
    let scopes = get_text_arr(fields, "scopes")?;
    let expires = get_text(fields, "expires")?;
    let user_val = get_req(fields, "user")?;
    let user = decode_user(user_val)?;
    let application_val = get_req(fields, "application")?;
    let application = decode_application(application_val)?;
    Ok(
        AuthenticateRes {
            access_token,
            scopes,
            expires,
            user,
            application,
        },
    )
}

/// Round trip: decoding the canonical wire form of any value of this
/// shape yields that value back, absent optional fields included.
pub proof fn lemma_authenticate_res_round_trip(x: AuthenticateResView)
    ensures
        wf_authenticate_res(wire_of_authenticate_res(x)),
        parse_authenticate_res(wire_of_authenticate_res(x)) == x,
{
    reveal_strlit("access_token");
    reveal_strlit("scopes");
    reveal_strlit("expires");
    reveal_strlit("user");
    reveal_strlit("application");
    reveal_with_fuel(obj_get, 7);
    assert("access_token"@.len() == 12);
    assert("scopes"@.len() == 6);
    assert("expires"@.len() == 7);
    assert("user"@.len() == 4);
    assert("application"@.len() == 11);
    lemma_user_round_trip(x.user);
    lemma_application_round_trip(x.application);
    assert(parse_authenticate_res(wire_of_authenticate_res(x)) =~~= x);
}

/// The canonical wire form of this shape.
pub open spec fn wire_of_capute_log_args(x: CaputeLogArgsView) -> WireVal {
    WireVal::Obj(
        seq![
            ("level"@, WireVal::Text(x.level)),
            ("message"@, WireVal::Text(x.message)),
        ],
    )
}

/// When a wire value has this shape.
pub open spec fn wf_capute_log_args(v: WireVal) -> bool {
    &&& v is Obj
    &&& field_is_text(v->Obj_0, "level"@)
    &&& field_is_text(v->Obj_0, "message"@)
}

/// The value a well-formed wire value of this shape denotes.
pub open spec fn parse_capute_log_args(v: WireVal) -> CaputeLogArgsView {
    CaputeLogArgsView {
        level: field_text(v->Obj_0, "level"@),
        message: field_text(v->Obj_0, "message"@),
    }
}

/// Encodes the value as its canonical wire form.
pub fn encode_capute_log_args(x: &CaputeLogArgs) -> (r: WireValue)
    ensures
        r@ == wire_of_capute_log_args(x@),
{
    let mut fields: Vec<(String, WireValue)> = Vec::new();
    fields.push(("level".to_owned(), WireValue::Text(x.level.clone())));
    fields.push(("message".to_owned(), WireValue::Text(x.message.clone())));
    let r = WireValue::Obj(fields);
    proof {
        lemma_obj_view_full(r->Obj_0);
        assert(r@->Obj_0 =~~= wire_of_capute_log_args(x@)->Obj_0);
    }
    r
}

/// Decodes a value of this shape from a wire value.
pub fn decode_capute_log_args(v: &WireValue) -> (r: Result<CaputeLogArgs, DecodeError>)
    ensures
        r is Ok <==> wf_capute_log_args(v@),
        r matches Ok(x) ==> x@ == parse_capute_log_args(v@),
{
    let fields = match v {
        WireValue::Obj(fields) => fields,
        _ => { return Err(DecodeError { field: "capute_log_args".to_owned() }); },
    };
    proof {
        lemma_obj_view_full(*fields);
        assert(v@ == WireVal::Obj(pairs_view(fields@)));
    }
    let level = get_text(fields, "level")?;
    let message = get_text(fields, "message")?;
    Ok(
        CaputeLogArgs {
            level,
            message,
        },
    )
}

/// Round trip: decoding the canonical wire form of any value of this
/// shape yields that value back, absent optional fields included.
pub proof fn lemma_capute_log_args_round_trip(x: CaputeLogArgsView)
    ensures
        wf_capute_log_args(wire_of_capute_log_args(x)),
        parse_capute_log_args(wire_of_capute_log_args(x)) == x,
{
    reveal_strlit("level");
    reveal_strlit("message");
    reveal_with_fuel(obj_get, 4);
    assert("level"@.len() == 5);
    assert("message"@.len() == 7);
    assert(parse_capute_log_args(wire_of_capute_log_args(x)) =~~= x);
}

/// The canonical wire form of this shape.
pub open spec fn wire_of_get_channel_args(x: GetChannelArgsView) -> WireVal {
    WireVal::Obj(
        seq![
            ("channel_id"@, WireVal::Text(x.channel_id)),
        ],
    )
}

/// When a wire value has this shape.
pub open spec fn wf_get_channel_args(v: WireVal) -> bool {
    &&& v is Obj
    &&& field_is_text(v->Obj_0, "channel_id"@)
}

/// The value a well-formed wire value of this shape denotes.
pub open spec fn parse_get_channel_args(v: WireVal) -> GetChannelArgsView {
    GetChannelArgsView {
        channel_id: field_text(v->Obj_0, "channel_id"@),
    }
}

/// Encodes the value as its canonical wire form.
pub fn encode_get_channel_args(x: &GetChannelArgs) -> (r: WireValue)
    ensures
        r@ == wire_of_get_channel_args(x@),
{
    let mut fields: Vec<(String, WireValue)> = Vec::new();
    fields.push(("channel_id".to_owned(), WireValue::Text(x.channel_id.clone())));
    let r = WireValue::Obj(fields);
    proof {
        lemma_obj_view_full(r->Obj_0);
        assert(r@->Obj_0 =~~= wire_of_get_channel_args(x@)->Obj_0);
    }
    r
}

/// Decodes a value of this shape from a wire value.
pub fn decode_get_channel_args(v: &WireValue) -> (r: Result<GetChannelArgs, DecodeError>)
    ensures
        r is Ok <==> wf_get_channel_args(v@),
        r matches Ok(x) ==> x@ == parse_get_channel_args(v@),
{
    let fields = match v {
        WireValue::Obj(fields) => fields,
        _ => { return Err(DecodeError { field: "get_channel_args".to_owned() }); },
    };
    proof {
        lemma_obj_view_full(*fields);
        assert(v@ == WireVal::Obj(pairs_view(fields@)));
    }
    let channel_id = get_text(fields, "channel_id")?;
    Ok(
        GetChannelArgs {
            channel_id,
        },
    )
}

/// Round trip: decoding the canonical wire form of any value of this
/// shape yields that value back, absent optional fields included.
pub proof fn lemma_get_channel_args_round_trip(x: GetChannelArgsView)
    ensures
        wf_get_channel_args(wire_of_get_channel_args(x)),
        parse_get_channel_args(wire_of_get_channel_args(x)) == x,
{
    reveal_strlit("channel_id");
    reveal_with_fuel(obj_get, 3);
    assert("channel_id"@.len() == 10);
    assert(parse_get_channel_args(wire_of_get_channel_args(x)) =~~= x);
}

/// The canonical wire form: the inner shape, flattened.
pub open spec fn wire_of_get_channel_res(x: GetChannelResView) -> WireVal {
    wire_of_channel(x.channel)
}

pub open spec fn wf_get_channel_res(v: WireVal) -> bool {
    wf_channel(v)
}

pub open spec fn parse_get_channel_res(v: WireVal) -> GetChannelResView {
    GetChannelResView { channel: parse_channel(v) }
}

pub fn encode_get_channel_res(x: &GetChannelRes) -> (r: WireValue)
    ensures
        r@ == wire_of_get_channel_res(x@),
{
    encode_channel(&x.channel)
}

pub fn decode_get_channel_res(v: &WireValue) -> (r: Result<GetChannelRes, DecodeError>)
    ensures
        r is Ok <==> wf_get_channel_res(v@),
        r matches Ok(x) ==> x@ == parse_get_channel_res(v@),
{
    let channel = decode_channel(v)?;
    Ok(GetChannelRes { channel })
}

/// Round trip: decoding the canonical wire form yields the value back.
pub proof fn lemma_get_channel_res_round_trip(x: GetChannelResView)
    ensures
        wf_get_channel_res(wire_of_get_channel_res(x)),
        parse_get_channel_res(wire_of_get_channel_res(x)) == x,
{
    lemma_channel_round_trip(x.channel);
}

/// The canonical wire form of this shape.
pub open spec fn wire_of_get_channel_permissions_res(x: GetChannelPermissionsResView) -> WireVal {
    WireVal::Obj(
        seq![
            ("permissions"@, WireVal::UInt(x.permissions)),
        ],
    )
}

/// When a wire value has this shape.
pub open spec fn wf_get_channel_permissions_res(v: WireVal) -> bool {
    &&& v is Obj
    &&& dflt_uint_ok(v->Obj_0, "permissions"@)
}

/// The value a well-formed wire value of this shape denotes.
pub open spec fn parse_get_channel_permissions_res(v: WireVal) -> GetChannelPermissionsResView {
    GetChannelPermissionsResView {
        permissions: dflt_uint(v->Obj_0, "permissions"@),
    }
}

/// Encodes the value as its canonical wire form.
pub fn encode_get_channel_permissions_res(x: &GetChannelPermissionsRes) -> (r: WireValue)
    ensures
        r@ == wire_of_get_channel_permissions_res(x@),
{
    let mut fields: Vec<(String, WireValue)> = Vec::new();
    fields.push(("permissions".to_owned(), WireValue::UInt(x.permissions)));
    let r = WireValue::Obj(fields);
    proof {
        lemma_obj_view_full(r->Obj_0);
        assert(r@->Obj_0 =~~= wire_of_get_channel_permissions_res(x@)->Obj_0);
    }
    r
}

/// Decodes a value of this shape from a wire value.
pub fn decode_get_channel_permissions_res(v: &WireValue) -> (r: Result<GetChannelPermissionsRes, DecodeError>)
    ensures
        r is Ok <==> wf_get_channel_permissions_res(v@),
        r matches Ok(x) ==> x@ == parse_get_channel_permissions_res(v@),
{
    let fields = match v {
        WireValue::Obj(fields) => fields,
        _ => { return Err(DecodeError { field: "get_channel_permissions_res".to_owned() }); },
    };
    proof {
        lemma_obj_view_full(*fields);
        assert(v@ == WireVal::Obj(pairs_view(fields@)));
    }
    let permissions = get_dflt_uint(fields, "permissions")?;
    Ok(
        GetChannelPermissionsRes {
            permissions,
        },
    )
}

/// Round trip: decoding the canonical wire form of any value of this
/// shape yields that value back, absent optional fields included.
pub proof fn lemma_get_channel_permissions_res_round_trip(x: GetChannelPermissionsResView)
    ensures
        wf_get_channel_permissions_res(wire_of_get_channel_permissions_res(x)),
        parse_get_channel_permissions_res(wire_of_get_channel_permissions_res(x)) == x,
{
    reveal_strlit("permissions");
    reveal_with_fuel(obj_get, 3);
    assert("permissions"@.len() == 11);
    assert(parse_get_channel_permissions_res(wire_of_get_channel_permissions_res(x)) =~~= x);
}

/// The canonical wire form of this shape.
pub open spec fn wire_of_get_instance_connected_participants_res(x: GetInstanceConnectedParticipantsResView) -> WireVal {
    WireVal::Obj(
        seq![
            ("participants"@, wire_of_user_arr(x.participants)),
        ],
    )
}

/// When a wire value has this shape.
pub open spec fn wf_get_instance_connected_participants_res(v: WireVal) -> bool {
    &&& v is Obj
    &&& field_is_some(v->Obj_0, "participants"@)
    &&& wf_user_arr(field_val(v->Obj_0, "participants"@))
}

/// The value a well-formed wire value of this shape denotes.
pub open spec fn parse_get_instance_connected_participants_res(v: WireVal) -> GetInstanceConnectedParticipantsResView {
    GetInstanceConnectedParticipantsResView {
        participants: parse_user_arr(field_val(v->Obj_0, "participants"@)),
    }
}

/// Encodes the value as its canonical wire form.
pub fn encode_get_instance_connected_participants_res(x: &GetInstanceConnectedParticipantsRes) -> (r: WireValue)
    ensures
        r@ == wire_of_get_instance_connected_participants_res(x@),
{
    let mut fields: Vec<(String, WireValue)> = Vec::new();
    fields.push(("participants".to_owned(), encode_user_arr(&x.participants)));
    let r = WireValue::Obj(fields);
    proof {
        lemma_obj_view_full(r->Obj_0);
        assert(r@->Obj_0 =~~= wire_of_get_instance_connected_participants_res(x@)->Obj_0);
    }
    r
}

/// Decodes a value of this shape from a wire value.
pub fn decode_get_instance_connected_participants_res(v: &WireValue) -> (r: Result<GetInstanceConnectedParticipantsRes, DecodeError>)
    ensures
        r is Ok <==> wf_get_instance_connected_participants_res(v@),
        r matches Ok(x) ==> x@ == parse_get_instance_connected_participants_res(v@),
{
    let fields = match v {
        WireValue::Obj(fields) => fields,
        _ => { return Err(DecodeError { field: "get_instance_connected_participants_res".to_owned() }); },
    };
    proof {
        lemma_obj_view_full(*fields);
        assert(v@ == WireVal::Obj(pairs_view(fields@)));
    }
    let participants_val = get_req(fields, "participants")?;
    let participants = decode_user_arr(participants_val)?;
    Ok(
        GetInstanceConnectedParticipantsRes {
            participants,
        },
    )
}

/// Round trip: decoding the canonical wire form of any value of this
/// shape yields that value back, absent optional fields included.
pub proof fn lemma_get_instance_connected_participants_res_round_trip(x: GetInstanceConnectedParticipantsResView)
    ensures
        wf_get_instance_connected_participants_res(wire_of_get_instance_connected_participants_res(x)),
        parse_get_instance_connected_participants_res(wire_of_get_instance_connected_participants_res(x)) == x,
{
    reveal_strlit("participants");
    reveal_with_fuel(obj_get, 3);
    assert("participants"@.len() == 12);
    lemma_user_arr_round_trip(x.participants);
    assert(parse_get_instance_connected_participants_res(wire_of_get_instance_connected_participants_res(x)) =~~= x);
}

/// The canonical wire form of this shape.
pub open spec fn wire_of_get_platform_behaviors_res(x: GetPlatformBehaviorsResView) -> WireVal {
    WireVal::Obj(
        seq![
            ("iosKeyboardResizesView"@, wire_of_opt_bool(x.ios_keyboard_resizes_view)),
        ],
    )
}

/// When a wire value has this shape.
pub open spec fn wf_get_platform_behaviors_res(v: WireVal) -> bool {
    &&& v is Obj
    &&& opt_bool_ok(v->Obj_0, "iosKeyboardResizesView"@)
}

/// The value a well-formed wire value of this shape denotes.
pub open spec fn parse_get_platform_behaviors_res(v: WireVal) -> GetPlatformBehaviorsResView {
    GetPlatformBehaviorsResView {
        ios_keyboard_resizes_view: opt_bool(v->Obj_0, "iosKeyboardResizesView"@),
    }
}

/// Encodes the value as its canonical wire form.
pub fn encode_get_platform_behaviors_res(x: &GetPlatformBehaviorsRes) -> (r: WireValue)
    ensures
        r@ == wire_of_get_platform_behaviors_res(x@),
{
    let mut fields: Vec<(String, WireValue)> = Vec::new();
    fields.push(("iosKeyboardResizesView".to_owned(), encode_opt_bool(&x.ios_keyboard_resizes_view)));
    let r = WireValue::Obj(fields);
    proof {
        lemma_obj_view_full(r->Obj_0);
        assert(r@->Obj_0 =~~= wire_of_get_platform_behaviors_res(x@)->Obj_0);
    }
    r
}

/// Decodes a value of this shape from a wire value.
pub fn decode_get_platform_behaviors_res(v: &WireValue) -> (r: Result<GetPlatformBehaviorsRes, DecodeError>)
    ensures
        r is Ok <==> wf_get_platform_behaviors_res(v@),
        r matches Ok(x) ==> x@ == parse_get_platform_behaviors_res(v@),
{
    let fields = match v {
        WireValue::Obj(fields) => fields,
        _ => { return Err(DecodeError { field: "get_platform_behaviors_res".to_owned() }); },
    };
    proof {
        lemma_obj_view_full(*fields);
        assert(v@ == WireVal::Obj(pairs_view(fields@)));
    }
    let ios_keyboard_resizes_view = get_opt_bool(fields, "iosKeyboardResizesView")?;
    Ok(
        GetPlatformBehaviorsRes {
            ios_keyboard_resizes_view,
        },
    )
}

/// Round trip: decoding the canonical wire form of any value of this
/// shape yields that value back, absent optional fields included.
pub proof fn lemma_get_platform_behaviors_res_round_trip(x: GetPlatformBehaviorsResView)
    ensures
        wf_get_platform_behaviors_res(wire_of_get_platform_behaviors_res(x)),
        parse_get_platform_behaviors_res(wire_of_get_platform_behaviors_res(x)) == x,
{
    reveal_strlit("iosKeyboardResizesView");
    reveal_with_fuel(obj_get, 3);
    assert("iosKeyboardResizesView"@.len() == 22);
    assert(parse_get_platform_behaviors_res(wire_of_get_platform_behaviors_res(x)) =~~= x);
}

/// The canonical wire form of this shape.
pub open spec fn wire_of_initiate_image_upload_res(x: InitiateImageUploadResView) -> WireVal {
    WireVal::Obj(
        seq![
            ("image_url"@, WireVal::Text(x.image_url)),
        ],
    )
}

/// When a wire value has this shape.
pub open spec fn wf_initiate_image_upload_res(v: WireVal) -> bool {
    &&& v is Obj
    &&& field_is_text(v->Obj_0, "image_url"@)
}

/// The value a well-formed wire value of this shape denotes.
pub open spec fn parse_initiate_image_upload_res(v: WireVal) -> InitiateImageUploadResView {
    InitiateImageUploadResView {
        image_url: field_text(v->Obj_0, "image_url"@),
    }
}

/// Encodes the value as its canonical wire form.
pub fn encode_initiate_image_upload_res(x: &InitiateImageUploadRes) -> (r: WireValue)
    ensures
        r@ == wire_of_initiate_image_upload_res(x@),
{
    let mut fields: Vec<(String, WireValue)> = Vec::new();
    fields.push(("image_url".to_owned(), WireValue::Text(x.image_url.clone())));
    let r = WireValue::Obj(fields);
    proof {
        lemma_obj_view_full(r->Obj_0);
        assert(r@->Obj_0 =~~= wire_of_initiate_image_upload_res(x@)->Obj_0);
    }
    r
}

/// Decodes a value of this shape from a wire value.
pub fn decode_initiate_image_upload_res(v: &WireValue) -> (r: Result<InitiateImageUploadRes, DecodeError>)
    ensures
        r is Ok <==> wf_initiate_image_upload_res(v@),
        r matches Ok(x) ==> x@ == parse_initiate_image_upload_res(v@),
{
    let fields = match v {
        WireValue::Obj(fields) => fields,
        _ => { return Err(DecodeError { field: "initiate_image_upload_res".to_owned() }); },
    };
    proof {
        lemma_obj_view_full(*fields);
        assert(v@ == WireVal::Obj(pairs_view(fields@)));
    }
    let image_url = get_text(fields, "image_url")?;
    Ok(
        InitiateImageUploadRes {
            image_url,
        },
    )
}

/// Round trip: decoding the canonical wire form of any value of this
/// shape yields that value back, absent optional fields included.
pub proof fn lemma_initiate_image_upload_res_round_trip(x: InitiateImageUploadResView)
    ensures
        wf_initiate_image_upload_res(wire_of_initiate_image_upload_res(x)),
        parse_initiate_image_upload_res(wire_of_initiate_image_upload_res(x)) == x,
{
    reveal_strlit("image_url");
    reveal_with_fuel(obj_get, 3);
    assert("image_url"@.len() == 9);
    assert(parse_initiate_image_upload_res(wire_of_initiate_image_upload_res(x)) =~~= x);
}

/// The canonical wire form of this shape.
pub open spec fn wire_of_open_external_link_args(x: OpenExternalLinkArgsView) -> WireVal {
    WireVal::Obj(
        seq![
            ("url"@, WireVal::Text(x.url)),
        ],
    )
}

/// When a wire value has this shape.
pub open spec fn wf_open_external_link_args(v: WireVal) -> bool {
    &&& v is Obj
    &&& field_is_text(v->Obj_0, "url"@)
}

/// The value a well-formed wire value of this shape denotes.
pub open spec fn parse_open_external_link_args(v: WireVal) -> OpenExternalLinkArgsView {
    OpenExternalLinkArgsView {
        url: field_text(v->Obj_0, "url"@),
    }
}

/// Encodes the value as its canonical wire form.
pub fn encode_open_external_link_args(x: &OpenExternalLinkArgs) -> (r: WireValue)
    ensures
        r@ == wire_of_open_external_link_args(x@),
{
    let mut fields: Vec<(String, WireValue)> = Vec::new();
    fields.push(("url".to_owned(), WireValue::Text(x.url.clone())));
    let r = WireValue::Obj(fields);
    proof {
        lemma_obj_view_full(r->Obj_0);
        assert(r@->Obj_0 =~~= wire_of_open_external_link_args(x@)->Obj_0);
    }
    r
}

/// Decodes a value of this shape from a wire value.
pub fn decode_open_external_link_args(v: &WireValue) -> (r: Result<OpenExternalLinkArgs, DecodeError>)
    ensures
        r is Ok <==> wf_open_external_link_args(v@),
        r matches Ok(x) ==> x@ == parse_open_external_link_args(v@),
{
    let fields = match v {
        WireValue::Obj(fields) => fields,
        _ => { return Err(DecodeError { field: "open_external_link_args".to_owned() }); },
    };
    proof {
        lemma_obj_view_full(*fields);
        assert(v@ == WireVal::Obj(pairs_view(fields@)));
    }
    let url = get_text(fields, "url")?;
    Ok(
        OpenExternalLinkArgs {
            url,
        },
    )
}

/// Round trip: decoding the canonical wire form of any value of this
/// shape yields that value back, absent optional fields included.
pub proof fn lemma_open_external_link_args_round_trip(x: OpenExternalLinkArgsView)
    ensures
        wf_open_external_link_args(wire_of_open_external_link_args(x)),
        parse_open_external_link_args(wire_of_open_external_link_args(x)) == x,
{
    reveal_strlit("url");
    reveal_with_fuel(obj_get, 3);
    assert("url"@.len() == 3);
    assert(parse_open_external_link_args(wire_of_open_external_link_args(x)) =~~= x);
}

/// The canonical wire form of this shape.
pub open spec fn wire_of_open_external_link_res(x: OpenExternalLinkResView) -> WireVal {
    WireVal::Obj(
        seq![
            ("opened"@, WireVal::Bool(x.opened)),
        ],
    )
}

/// When a wire value has this shape.
pub open spec fn wf_open_external_link_res(v: WireVal) -> bool {
    &&& v is Obj
    &&& dflt_bool_ok(v->Obj_0, "opened"@)
}

/// The value a well-formed wire value of this shape denotes.
pub open spec fn parse_open_external_link_res(v: WireVal) -> OpenExternalLinkResView {
    OpenExternalLinkResView {
        opened: dflt_bool(v->Obj_0, "opened"@),
    }
}

/// Encodes the value as its canonical wire form.
pub fn encode_open_external_link_res(x: &OpenExternalLinkRes) -> (r: WireValue)
    ensures
        r@ == wire_of_open_external_link_res(x@),
{
    let mut fields: Vec<(String, WireValue)> = Vec::new();
    fields.push(("opened".to_owned(), WireValue::Bool(x.opened)));
    let r = WireValue::Obj(fields);
    proof {
        lemma_obj_view_full(r->Obj_0);
        assert(r@->Obj_0 =~~= wire_of_open_external_link_res(x@)->Obj_0);
    }
    r
}

/// Decodes a value of this shape from a wire value.
pub fn decode_open_external_link_res(v: &WireValue) -> (r: Result<OpenExternalLinkRes, DecodeError>)
    ensures
        r is Ok <==> wf_open_external_link_res(v@),
        r matches Ok(x) ==> x@ == parse_open_external_link_res(v@),
{
    let fields = match v {
        WireValue::Obj(fields) => fields,
        _ => { return Err(DecodeError { field: "open_external_link_res".to_owned() }); },
    };
    proof {
        lemma_obj_view_full(*fields);
        assert(v@ == WireVal::Obj(pairs_view(fields@)));
    }
    let opened = get_dflt_bool(fields, "opened")?;
    Ok(
        OpenExternalLinkRes {
            opened,
        },
    )
}

/// Round trip: decoding the canonical wire form of any value of this
/// shape yields that value back, absent optional fields included.
pub proof fn lemma_open_external_link_res_round_trip(x: OpenExternalLinkResView)
    ensures
        wf_open_external_link_res(wire_of_open_external_link_res(x)),
        parse_open_external_link_res(wire_of_open_external_link_res(x)) == x,
{
    reveal_strlit("opened");
    reveal_with_fuel(obj_get, 3);
    assert("opened"@.len() == 6);
    assert(parse_open_external_link_res(wire_of_open_external_link_res(x)) =~~= x);
}

/// The canonical wire form of this shape.
pub open spec fn wire_of_open_share_moment_dialog_args(x: OpenShareMomentDialogArgsView) -> WireVal {
    WireVal::Obj(
        seq![
            ("mediaUrl"@, WireVal::Text(x.media_url)),
        ],
    )
}

/// When a wire value has this shape.
pub open spec fn wf_open_share_moment_dialog_args(v: WireVal) -> bool {
    &&& v is Obj
    &&& field_is_text(v->Obj_0, "mediaUrl"@)
}

/// The value a well-formed wire value of this shape denotes.
pub open spec fn parse_open_share_moment_dialog_args(v: WireVal) -> OpenShareMomentDialogArgsView {
    OpenShareMomentDialogArgsView {
        media_url: field_text(v->Obj_0, "mediaUrl"@),
    }
}

/// Encodes the value as its canonical wire form.
pub fn encode_open_share_moment_dialog_args(x: &OpenShareMomentDialogArgs) -> (r: WireValue)
    ensures
        r@ == wire_of_open_share_moment_dialog_args(x@),
{
    let mut fields: Vec<(String, WireValue)> = Vec::new();
    fields.push(("mediaUrl".to_owned(), WireValue::Text(x.media_url.clone())));
    let r = WireValue::Obj(fields);
    proof {
        lemma_obj_view_full(r->Obj_0);
        assert(r@->Obj_0 =~~= wire_of_open_share_moment_dialog_args(x@)->Obj_0);
    }
    r
}

/// Decodes a value of this shape from a wire value.
pub fn decode_open_share_moment_dialog_args(v: &WireValue) -> (r: Result<OpenShareMomentDialogArgs, DecodeError>)
    ensures
        r is Ok <==> wf_open_share_moment_dialog_args(v@),
        r matches Ok(x) ==> x@ == parse_open_share_moment_dialog_args(v@),
{
    let fields = match v {
        WireValue::Obj(fields) => fields,
        _ => { return Err(DecodeError { field: "open_share_moment_dialog_args".to_owned() }); },
    };
    proof {
        lemma_obj_view_full(*fields);
        assert(v@ == WireVal::Obj(pairs_view(fields@)));
    }
    let media_url = get_text(fields, "mediaUrl")?;
    Ok(
        OpenShareMomentDialogArgs {
            media_url,
        },
    )
}

/// Round trip: decoding the canonical wire form of any value of this
/// shape yields that value back, absent optional fields included.
pub proof fn lemma_open_share_moment_dialog_args_round_trip(x: OpenShareMomentDialogArgsView)
    ensures
        wf_open_share_moment_dialog_args(wire_of_open_share_moment_dialog_args(x)),
        parse_open_share_moment_dialog_args(wire_of_open_share_moment_dialog_args(x)) == x,
{
    reveal_strlit("mediaUrl");
    reveal_with_fuel(obj_get, 3);
    assert("mediaUrl"@.len() == 8);
    assert(parse_open_share_moment_dialog_args(wire_of_open_share_moment_dialog_args(x)) =~~= x);
}

/// The canonical wire form of this shape.
pub open spec fn wire_of_set_activity_args(x: SetActivityArgsView) -> WireVal {
    WireVal::Obj(
        seq![
            ("activity"@, wire_of_activity(x.activity)),
        ],
    )
}

/// When a wire value has this shape.
pub open spec fn wf_set_activity_args(v: WireVal) -> bool {
    &&& v is Obj
    &&& field_is_some(v->Obj_0, "activity"@)
    &&& wf_activity(field_val(v->Obj_0, "activity"@))
}

/// The value a well-formed wire value of this shape denotes.
pub open spec fn parse_set_activity_args(v: WireVal) -> SetActivityArgsView {
    SetActivityArgsView {
        activity: parse_activity(field_val(v->Obj_0, "activity"@)),
    }
}

/// Encodes the value as its canonical wire form.
pub fn encode_set_activity_args(x: &SetActivityArgs) -> (r: WireValue)
    ensures
        r@ == wire_of_set_activity_args(x@),
{
    let mut fields: Vec<(String, WireValue)> = Vec::new();
    fields.push(("activity".to_owned(), encode_activity(&x.activity)));
    let r = WireValue::Obj(fields);
    proof {
        lemma_obj_view_full(r->Obj_0);
        assert(r@->Obj_0 =~~= wire_of_set_activity_args(x@)->Obj_0);
    }
    r
}

/// Decodes a value of this shape from a wire value.
pub fn decode_set_activity_args(v: &WireValue) -> (r: Result<SetActivityArgs, DecodeError>)
    ensures
        r is Ok <==> wf_set_activity_args(v@),
        r matches Ok(x) ==> x@ == parse_set_activity_args(v@),
{
    let fields = match v {
        WireValue::Obj(fields) => fields,
        _ => { return Err(DecodeError { field: "set_activity_args".to_owned() }); },
    };
    proof {
        lemma_obj_view_full(*fields);
        assert(v@ == WireVal::Obj(pairs_view(fields@)));
    }
    let activity_val = get_req(fields, "activity")?;
    let activity = decode_activity(activity_val)?;
    Ok(
        SetActivityArgs {
            activity,
        },
    )
}

/// Round trip: decoding the canonical wire form of any value of this
/// shape yields that value back, absent optional fields included.
pub proof fn lemma_set_activity_args_round_trip(x: SetActivityArgsView)
    ensures
        wf_set_activity_args(wire_of_set_activity_args(x)),
        parse_set_activity_args(wire_of_set_activity_args(x)) == x,
{
    reveal_strlit("activity");
    reveal_with_fuel(obj_get, 3);
    assert("activity"@.len() == 8);
    lemma_activity_round_trip(x.activity);
    assert(parse_set_activity_args(wire_of_set_activity_args(x)) =~~= x);
}

/// The canonical wire form of this shape.
pub open spec fn wire_of_set_config_args(x: SetConfigArgsView) -> WireVal {
    WireVal::Obj(
        seq![
            ("user_interactive_pip"@, WireVal::Bool(x.user_interactive_pip)),
        ],
    )
}

/// When a wire value has this shape.
pub open spec fn wf_set_config_args(v: WireVal) -> bool {
    &&& v is Obj
    &&& field_is_bool(v->Obj_0, "user_interactive_pip"@)
}

/// The value a well-formed wire value of this shape denotes.
pub open spec fn parse_set_config_args(v: WireVal) -> SetConfigArgsView {
    SetConfigArgsView {
        user_interactive_pip: field_bool(v->Obj_0, "user_interactive_pip"@),
    }
}

/// Encodes the value as its canonical wire form.
pub fn encode_set_config_args(x: &SetConfigArgs) -> (r: WireValue)
    ensures
        r@ == wire_of_set_config_args(x@),
{
    let mut fields: Vec<(String, WireValue)> = Vec::new();
    fields.push(("user_interactive_pip".to_owned(), WireValue::Bool(x.user_interactive_pip)));
    let r = WireValue::Obj(fields);
    proof {
        lemma_obj_view_full(r->Obj_0);
        assert(r@->Obj_0 =~~= wire_of_set_config_args(x@)->Obj_0);
    }
    r
}

/// Decodes a value of this shape from a wire value.
pub fn decode_set_config_args(v: &WireValue) -> (r: Result<SetConfigArgs, DecodeError>)
    ensures
        r is Ok <==> wf_set_config_args(v@),
        r matches Ok(x) ==> x@ == parse_set_config_args(v@),
{
    let fields = match v {
        WireValue::Obj(fields) => fields,
        _ => { return Err(DecodeError { field: "set_config_args".to_owned() }); },
    };
    proof {
        lemma_obj_view_full(*fields);
        assert(v@ == WireVal::Obj(pairs_view(fields@)));
    }
    let user_interactive_pip = get_bool(fields, "user_interactive_pip")?;
    Ok(
        SetConfigArgs {
            user_interactive_pip,
        },
    )
}

/// Round trip: decoding the canonical wire form of any value of this
/// shape yields that value back, absent optional fields included.
pub proof fn lemma_set_config_args_round_trip(x: SetConfigArgsView)
    ensures
        wf_set_config_args(wire_of_set_config_args(x)),
        parse_set_config_args(wire_of_set_config_args(x)) == x,
{
    reveal_strlit("user_interactive_pip");
    reveal_with_fuel(obj_get, 3);
    assert("user_interactive_pip"@.len() == 20);
    assert(parse_set_config_args(wire_of_set_config_args(x)) =~~= x);
}

/// The canonical wire form of this shape.
pub open spec fn wire_of_set_orientation_lock_state_args(x: SetOrientationLockStateArgsView) -> WireVal {
    WireVal::Obj(
        seq![
            ("lock_state"@, WireVal::Text(x.lock_state)),
            ("picture_in_picture_lock_state"@, WireVal::Text(x.picture_in_picture_lock_state)),
            ("grid_lock_state"@, WireVal::Text(x.grid_lock_state)),
        ],
    )
}

/// When a wire value has this shape.
pub open spec fn wf_set_orientation_lock_state_args(v: WireVal) -> bool {
    &&& v is Obj
    &&& field_is_text(v->Obj_0, "lock_state"@)
    &&& field_is_text(v->Obj_0, "picture_in_picture_lock_state"@)
    &&& field_is_text(v->Obj_0, "grid_lock_state"@)
}

/// The value a well-formed wire value of this shape denotes.
pub open spec fn parse_set_orientation_lock_state_args(v: WireVal) -> SetOrientationLockStateArgsView {
    SetOrientationLockStateArgsView {
        lock_state: field_text(v->Obj_0, "lock_state"@),
        picture_in_picture_lock_state: field_text(v->Obj_0, "picture_in_picture_lock_state"@),
        grid_lock_state: field_text(v->Obj_0, "grid_lock_state"@),
    }
}

/// Encodes the value as its canonical wire form.
pub fn encode_set_orientation_lock_state_args(x: &SetOrientationLockStateArgs) -> (r: WireValue)
    ensures
        r@ == wire_of_set_orientation_lock_state_args(x@),
{
    let mut fields: Vec<(String, WireValue)> = Vec::new();
    fields.push(("lock_state".to_owned(), WireValue::Text(x.lock_state.clone())));
    fields.push(("picture_in_picture_lock_state".to_owned(), WireValue::Text(x.picture_in_picture_lock_state.clone())));
    fields.push(("grid_lock_state".to_owned(), WireValue::Text(x.grid_lock_state.clone())));
    let r = WireValue::Obj(fields);
    proof {
        lemma_obj_view_full(r->Obj_0);
        assert(r@->Obj_0 =~~= wire_of_set_orientation_lock_state_args(x@)->Obj_0);
    }
    r
}

/// Decodes a value of this shape from a wire value.
pub fn decode_set_orientation_lock_state_args(v: &WireValue) -> (r: Result<SetOrientationLockStateArgs, DecodeError>)
    ensures
        r is Ok <==> wf_set_orientation_lock_state_args(v@),
        r matches Ok(x) ==> x@ == parse_set_orientation_lock_state_args(v@),
{
    let fields = match v {
        WireValue::Obj(fields) => fields,
        _ => { return Err(DecodeError { field: "set_orientation_lock_state_args".to_owned() }); },
    };
    proof {
        lemma_obj_view_full(*fields);
        assert(v@ == WireVal::Obj(pairs_view(fields@)));
    }
    let lock_state = get_text(fields, "lock_state")?;
    let picture_in_picture_lock_state = get_text(fields, "picture_in_picture_lock_state")?;
    let grid_lock_state = get_text(fields, "grid_lock_state")?;
    Ok(
        SetOrientationLockStateArgs {
            lock_state,
            picture_in_picture_lock_state,
            grid_lock_state,
        },
    )
}

/// Round trip: decoding the canonical wire form of any value of this
/// shape yields that value back, absent optional fields included.
pub proof fn lemma_set_orientation_lock_state_args_round_trip(x: SetOrientationLockStateArgsView)
    ensures
        wf_set_orientation_lock_state_args(wire_of_set_orientation_lock_state_args(x)),
        parse_set_orientation_lock_state_args(wire_of_set_orientation_lock_state_args(x)) == x,
{
    reveal_strlit("lock_state");
    reveal_strlit("picture_in_picture_lock_state");
    reveal_strlit("grid_lock_state");
    reveal_with_fuel(obj_get, 5);
    assert("lock_state"@.len() == 10);
    assert("picture_in_picture_lock_state"@.len() == 29);
    assert("grid_lock_state"@.len() == 15);
    assert(parse_set_orientation_lock_state_args(wire_of_set_orientation_lock_state_args(x)) =~~= x);
}

/// The canonical wire form of this shape: an empty object.
pub open spec fn wire_of_user_settings_get_locale_res(x: UserSettingsGetLocaleResView) -> WireVal {
    WireVal::Obj(Seq::empty())
}

/// Any object decodes to this shape; its fields are left to the host.
pub open spec fn wf_user_settings_get_locale_res(v: WireVal) -> bool {
    v is Obj
}

pub open spec fn parse_user_settings_get_locale_res(v: WireVal) -> UserSettingsGetLocaleResView {
    UserSettingsGetLocaleResView {}
}

pub fn encode_user_settings_get_locale_res(x: &UserSettingsGetLocaleRes) -> (r: WireValue)
    ensures
        r@ == wire_of_user_settings_get_locale_res(x@),
{
    let fields: Vec<(String, WireValue)> = Vec::new();
    let r = WireValue::Obj(fields);
    proof {
        lemma_obj_view_full(r->Obj_0);
        assert(r@->Obj_0 =~= wire_of_user_settings_get_locale_res(x@)->Obj_0);
    }
    r
}

pub fn decode_user_settings_get_locale_res(v: &WireValue) -> (r: Result<UserSettingsGetLocaleRes, DecodeError>)
    ensures
        r is Ok <==> wf_user_settings_get_locale_res(v@),
        r matches Ok(x) ==> x@ == parse_user_settings_get_locale_res(v@),
{
    match v {
        WireValue::Obj(_) => Ok(UserSettingsGetLocaleRes {}),
        _ => Err(DecodeError { field: "user_settings_get_locale_res".to_owned() }),
    }
}

/// Round trip: decoding the canonical wire form yields the value back.
pub proof fn lemma_user_settings_get_locale_res_round_trip(x: UserSettingsGetLocaleResView)
    ensures
        wf_user_settings_get_locale_res(wire_of_user_settings_get_locale_res(x)),
        parse_user_settings_get_locale_res(wire_of_user_settings_get_locale_res(x)) == x,
{
}

/// The canonical wire form of this shape.
pub open spec fn wire_of_ready_event_config(x: ReadyEventConfigView) -> WireVal {
    WireVal::Obj(
        seq![
            ("cdn_host"@, WireVal::Text(x.cdn_host)),
            ("api_endpoint"@, WireVal::Text(x.api_endpoint)),
            ("environment"@, WireVal::Text(x.environment)),
        ],
    )
}

/// When a wire value has this shape.
pub open spec fn wf_ready_event_config(v: WireVal) -> bool {
    &&& v is Obj
    &&& field_is_text(v->Obj_0, "cdn_host"@)
    &&& field_is_text(v->Obj_0, "api_endpoint"@)
    &&& field_is_text(v->Obj_0, "environment"@)
}

/// The value a well-formed wire value of this shape denotes.
pub open spec fn parse_ready_event_config(v: WireVal) -> ReadyEventConfigView {
    ReadyEventConfigView {
        cdn_host: field_text(v->Obj_0, "cdn_host"@),
        api_endpoint: field_text(v->Obj_0, "api_endpoint"@),
        environment: field_text(v->Obj_0, "environment"@),
    }
}

/// Encodes the value as its canonical wire form.
pub fn encode_ready_event_config(x: &ReadyEventConfig) -> (r: WireValue)
    ensures
        r@ == wire_of_ready_event_config(x@),
{
    let mut fields: Vec<(String, WireValue)> = Vec::new();
    fields.push(("cdn_host".to_owned(), WireValue::Text(x.cdn_host.clone())));
    fields.push(("api_endpoint".to_owned(), WireValue::Text(x.api_endpoint.clone())));
    fields.push(("environment".to_owned(), WireValue::Text(x.environment.clone())));
    let r = WireValue::Obj(fields);
    proof {
        lemma_obj_view_full(r->Obj_0);
        assert(r@->Obj_0 =~~= wire_of_ready_event_config(x@)->Obj_0);
    }
    r
}

/// Decodes a value of this shape from a wire value.
pub fn decode_ready_event_config(v: &WireValue) -> (r: Result<ReadyEventConfig, DecodeError>)
    ensures
        r is Ok <==> wf_ready_event_config(v@),
        r matches Ok(x) ==> x@ == parse_ready_event_config(v@),
{
    let fields = match v {
        WireValue::Obj(fields) => fields,
        _ => { return Err(DecodeError { field: "ready_event_config".to_owned() }); },
    };
    proof {
        lemma_obj_view_full(*fields);
        assert(v@ == WireVal::Obj(pairs_view(fields@)));
    }
    let cdn_host = get_text(fields, "cdn_host")?;
    let api_endpoint = get_text(fields, "api_endpoint")?;
    let environment = get_text(fields, "environment")?;
    Ok(
        ReadyEventConfig {
            cdn_host,
            api_endpoint,
            environment,
        },
    )
}

/// Round trip: decoding the canonical wire form of any value of this
/// shape yields that value back, absent optional fields included.
pub proof fn lemma_ready_event_config_round_trip(x: ReadyEventConfigView)
    ensures
        wf_ready_event_config(wire_of_ready_event_config(x)),
        parse_ready_event_config(wire_of_ready_event_config(x)) == x,
{
    reveal_strlit("cdn_host");
    reveal_strlit("api_endpoint");
    reveal_strlit("environment");
    reveal_with_fuel(obj_get, 5);
    assert("cdn_host"@.len() == 8);
    assert("api_endpoint"@.len() == 12);
    assert("environment"@.len() == 11);
    assert(parse_ready_event_config(wire_of_ready_event_config(x)) =~~= x);
}

/// The canonical wire form of this shape.
pub open spec fn wire_of_ready_event(x: ReadyEventView) -> WireVal {
    WireVal::Obj(
        seq![
            ("v"@, WireVal::UInt(x.v as u64)),
            ("config"@, wire_of_ready_event_config(x.config)),
        ],
    )
}

/// When a wire value has this shape.
pub open spec fn wf_ready_event(v: WireVal) -> bool {
    &&& v is Obj
    &&& field_is_uint(v->Obj_0, "v"@)
    &&& field_uint(v->Obj_0, "v"@) <= 255
    &&& field_is_some(v->Obj_0, "config"@)
    &&& wf_ready_event_config(field_val(v->Obj_0, "config"@))
}

/// The value a well-formed wire value of this shape denotes.
pub open spec fn parse_ready_event(v: WireVal) -> ReadyEventView {
    ReadyEventView {
        v: field_uint(v->Obj_0, "v"@) as u8,
        config: parse_ready_event_config(field_val(v->Obj_0, "config"@)),
    }
}

/// Encodes the value as its canonical wire form.
pub fn encode_ready_event(x: &ReadyEvent) -> (r: WireValue)
    ensures
        r@ == wire_of_ready_event(x@),
{
    let mut fields: Vec<(String, WireValue)> = Vec::new();
    fields.push(("v".to_owned(), WireValue::UInt(x.v as u64)));
    fields.push(("config".to_owned(), encode_ready_event_config(&x.config)));
    let r = WireValue::Obj(fields);
    proof {
        lemma_obj_view_full(r->Obj_0);
        assert(r@->Obj_0 =~~= wire_of_ready_event(x@)->Obj_0);
    }
    r
}

/// Decodes a value of this shape from a wire value.
pub fn decode_ready_event(v: &WireValue) -> (r: Result<ReadyEvent, DecodeError>)
    ensures
        r is Ok <==> wf_ready_event(v@),
        r matches Ok(x) ==> x@ == parse_ready_event(v@),
{
    let fields = match v {
        WireValue::Obj(fields) => fields,
        _ => { return Err(DecodeError { field: "ready_event".to_owned() }); },
    };
    proof {
        lemma_obj_view_full(*fields);
        assert(v@ == WireVal::Obj(pairs_view(fields@)));
    }
    let v_raw = get_uint(fields, "v")?;
    if v_raw > 255 {
        return Err(DecodeError { field: "v".to_owned() });
    }
    let config_val = get_req(fields, "config")?;
    let config = decode_ready_event_config(config_val)?;
    Ok(
        ReadyEvent {
            v: v_raw as u8,
            config,
        },
    )
}

/// Round trip: decoding the canonical wire form of any value of this
/// shape yields that value back, absent optional fields included.
pub proof fn lemma_ready_event_round_trip(x: ReadyEventView)
    ensures
        wf_ready_event(wire_of_ready_event(x)),
        parse_ready_event(wire_of_ready_event(x)) == x,
{
    reveal_strlit("v");
    reveal_strlit("config");
    reveal_with_fuel(obj_get, 4);
    assert("v"@.len() == 1);
    assert("config"@.len() == 6);
    lemma_ready_event_config_round_trip(x.config);
    assert(parse_ready_event(wire_of_ready_event(x)) =~~= x);
}

/// The canonical wire form of this shape.
pub open spec fn wire_of_error_event(x: ErrorEventView) -> WireVal {
    WireVal::Obj(
        seq![
            ("code"@, WireVal::UInt(x.code)),
            ("message"@, WireVal::Text(x.message)),
        ],
    )
}

/// When a wire value has this shape.
pub open spec fn wf_error_event(v: WireVal) -> bool {
    &&& v is Obj
    &&& field_is_uint(v->Obj_0, "code"@)
    &&& field_is_text(v->Obj_0, "message"@)
}

/// The value a well-formed wire value of this shape denotes.
pub open spec fn parse_error_event(v: WireVal) -> ErrorEventView {
    ErrorEventView {
        code: field_uint(v->Obj_0, "code"@),
        message: field_text(v->Obj_0, "message"@),
    }
}

/// Encodes the value as its canonical wire form.
pub fn encode_error_event(x: &ErrorEvent) -> (r: WireValue)
    ensures
        r@ == wire_of_error_event(x@),
{
    let mut fields: Vec<(String, WireValue)> = Vec::new();
    fields.push(("code".to_owned(), WireValue::UInt(x.code)));
    fields.push(("message".to_owned(), WireValue::Text(x.message.clone())));
    let r = WireValue::Obj(fields);
    proof {
        lemma_obj_view_full(r->Obj_0);
        assert(r@->Obj_0 =~~= wire_of_error_event(x@)->Obj_0);
    }
    r
}

/// Decodes a value of this shape from a wire value.
pub fn decode_error_event(v: &WireValue) -> (r: Result<ErrorEvent, DecodeError>)
    ensures
        r is Ok <==> wf_error_event(v@),
        r matches Ok(x) ==> x@ == parse_error_event(v@),
{
    let fields = match v {
        WireValue::Obj(fields) => fields,
        _ => { return Err(DecodeError { field: "error_event".to_owned() }); },
    };
    proof {
        lemma_obj_view_full(*fields);
        assert(v@ == WireVal::Obj(pairs_view(fields@)));
    }
    let code = get_uint(fields, "code")?;
    let message = get_text(fields, "message")?;
    Ok(
        ErrorEvent {
            code,
            message,
        },
    )
}

/// Round trip: decoding the canonical wire form of any value of this
/// shape yields that value back, absent optional fields included.
pub proof fn lemma_error_event_round_trip(x: ErrorEventView)
    ensures
        wf_error_event(wire_of_error_event(x)),
        parse_error_event(wire_of_error_event(x)) == x,
{
    reveal_strlit("code");
    reveal_strlit("message");
    reveal_with_fuel(obj_get, 4);
    assert("code"@.len() == 4);
    assert("message"@.len() == 7);
    assert(parse_error_event(wire_of_error_event(x)) =~~= x);
}

/// The canonical wire form of this shape.
pub open spec fn wire_of_voice_state(x: VoiceStateView) -> WireVal {
    WireVal::Obj(
        seq![
            ("mute"@, WireVal::Bool(x.mute)),
            ("deaf"@, WireVal::Bool(x.deaf)),
            ("self_mute"@, WireVal::Bool(x.self_mute)),
            ("self_deaf"@, WireVal::Bool(x.self_deaf)),
            ("suppress"@, WireVal::Bool(x.suppress)),
        ],
    )
}

/// When a wire value has this shape.
pub open spec fn wf_voice_state(v: WireVal) -> bool {
    &&& v is Obj
    &&& field_is_bool(v->Obj_0, "mute"@)
    &&& field_is_bool(v->Obj_0, "deaf"@)
    &&& field_is_bool(v->Obj_0, "self_mute"@)
    &&& field_is_bool(v->Obj_0, "self_deaf"@)
    &&& field_is_bool(v->Obj_0, "suppress"@)
}

/// The value a well-formed wire value of this shape denotes.
pub open spec fn parse_voice_state(v: WireVal) -> VoiceStateView {
    VoiceStateView {
        mute: field_bool(v->Obj_0, "mute"@),
        deaf: field_bool(v->Obj_0, "deaf"@),
        self_mute: field_bool(v->Obj_0, "self_mute"@),
        self_deaf: field_bool(v->Obj_0, "self_deaf"@),
        suppress: field_bool(v->Obj_0, "suppress"@),
    }
}

/// Encodes the value as its canonical wire form.
pub fn encode_voice_state(x: &VoiceState) -> (r: WireValue)
    ensures
        r@ == wire_of_voice_state(x@),
{
    let mut fields: Vec<(String, WireValue)> = Vec::new();
    fields.push(("mute".to_owned(), WireValue::Bool(x.mute)));
    fields.push(("deaf".to_owned(), WireValue::Bool(x.deaf)));
    fields.push(("self_mute".to_owned(), WireValue::Bool(x.self_mute)));
    fields.push(("self_deaf".to_owned(), WireValue::Bool(x.self_deaf)));
    fields.push(("suppress".to_owned(), WireValue::Bool(x.suppress)));
    let r = WireValue::Obj(fields);
    proof {
        lemma_obj_view_full(r->Obj_0);
        assert(r@->Obj_0 =~~= wire_of_voice_state(x@)->Obj_0);
    }
    r
}

/// Decodes a value of this shape from a wire value.
pub fn decode_voice_state(v: &WireValue) -> (r: Result<VoiceState, DecodeError>)
    ensures
        r is Ok <==> wf_voice_state(v@),
        r matches Ok(x) ==> x@ == parse_voice_state(v@),
{
    let fields = match v {
        WireValue::Obj(fields) => fields,
        _ => { return Err(DecodeError { field: "voice_state".to_owned() }); },
    };
    proof {
        lemma_obj_view_full(*fields);
        assert(v@ == WireVal::Obj(pairs_view(fields@)));
    }
    let mute = get_bool(fields, "mute")?;
    let deaf = get_bool(fields, "deaf")?;
    let self_mute = get_bool(fields, "self_mute")?;
    let self_deaf = get_bool(fields, "self_deaf")?;
    let suppress = get_bool(fields, "suppress")?;
    Ok(
        VoiceState {
            mute,
            deaf,
            self_mute,
            self_deaf,
            suppress,
        },
    )
}

/// Round trip: decoding the canonical wire form of any value of this
/// shape yields that value back, absent optional fields included.
pub proof fn lemma_voice_state_round_trip(x: VoiceStateView)
    ensures
        wf_voice_state(wire_of_voice_state(x)),
        parse_voice_state(wire_of_voice_state(x)) == x,
{
    reveal_strlit("mute");
    reveal_strlit("deaf");
    reveal_strlit("self_mute");
    reveal_strlit("self_deaf");
    reveal_strlit("suppress");
    reveal_with_fuel(obj_get, 7);
    assert("mute"@.len() == 4);
    assert("deaf"@.len() == 4);
    assert("self_mute"@.len() == 9);
    assert("self_deaf"@.len() == 9);
    assert("suppress"@.len() == 8);
    assert("mute"@[0] != "deaf"@[0]);
    assert("self_mute"@[5] != "self_deaf"@[5]);
    assert(parse_voice_state(wire_of_voice_state(x)) =~~= x);
}

/// The canonical wire form of this shape.
pub open spec fn wire_of_voice_state_update_pan(x: VoiceStateUpdatePanView) -> WireVal {
    WireVal::Obj(
        seq![
            ("left"@, WireVal::Float(x.left)),
            ("right"@, WireVal::Float(x.right)),
        ],
    )
}

/// When a wire value has this shape.
pub open spec fn wf_voice_state_update_pan(v: WireVal) -> bool {
    &&& v is Obj
    &&& field_is_float(v->Obj_0, "left"@)
    &&& field_is_float(v->Obj_0, "right"@)
}

/// The value a well-formed wire value of this shape denotes.
pub open spec fn parse_voice_state_update_pan(v: WireVal) -> VoiceStateUpdatePanView {
    VoiceStateUpdatePanView {
        left: field_float(v->Obj_0, "left"@),
        right: field_float(v->Obj_0, "right"@),
    }
}

/// Encodes the value as its canonical wire form.
pub fn encode_voice_state_update_pan(x: &VoiceStateUpdatePan) -> (r: WireValue)
    ensures
        r@ == wire_of_voice_state_update_pan(x@),
{
    let mut fields: Vec<(String, WireValue)> = Vec::new();
    fields.push(("left".to_owned(), WireValue::Float(x.left)));
    fields.push(("right".to_owned(), WireValue::Float(x.right)));
    let r = WireValue::Obj(fields);
    proof {
        lemma_obj_view_full(r->Obj_0);
        assert(r@->Obj_0 =~~= wire_of_voice_state_update_pan(x@)->Obj_0);
    }
    r
}

/// Decodes a value of this shape from a wire value.
pub fn decode_voice_state_update_pan(v: &WireValue) -> (r: Result<VoiceStateUpdatePan, DecodeError>)
    ensures
        r is Ok <==> wf_voice_state_update_pan(v@),
        r matches Ok(x) ==> x@ == parse_voice_state_update_pan(v@),
{
    let fields = match v {
        WireValue::Obj(fields) => fields,
        _ => { return Err(DecodeError { field: "voice_state_update_pan".to_owned() }); },
    };
    proof {
        lemma_obj_view_full(*fields);
        assert(v@ == WireVal::Obj(pairs_view(fields@)));
    }
    let left = get_float(fields, "left")?;
    let right = get_float(fields, "right")?;
    Ok(
        VoiceStateUpdatePan {
            left,
            right,
        },
    )
}

/// Round trip: decoding the canonical wire form of any value of this
/// shape yields that value back, absent optional fields included.
pub proof fn lemma_voice_state_update_pan_round_trip(x: VoiceStateUpdatePanView)
    ensures
        wf_voice_state_update_pan(wire_of_voice_state_update_pan(x)),
        parse_voice_state_update_pan(wire_of_voice_state_update_pan(x)) == x,
{
    reveal_strlit("left");
    reveal_strlit("right");
    reveal_with_fuel(obj_get, 4);
    assert("left"@.len() == 4);
    assert("right"@.len() == 5);
    assert(parse_voice_state_update_pan(wire_of_voice_state_update_pan(x)) =~~= x);
}

/// The canonical wire form of this shape.
pub open spec fn wire_of_voice_state_update_event(x: VoiceStateUpdateEventView) -> WireVal {
    WireVal::Obj(
        seq![
            ("voice_state"@, wire_of_voice_state(x.voice_state)),
            ("user"@, wire_of_user(x.user)),
            ("nick"@, wire_of_opt_text(x.nick)),
            ("volume"@, WireVal::UInt(x.volume as u64)),
            ("mute"@, WireVal::Bool(x.mute)),
            ("pan"@, match x.pan { Some(y) => wire_of_voice_state_update_pan(y), None => WireVal::Null }),
        ],
    )
}

/// When a wire value has this shape.
pub open spec fn wf_voice_state_update_event(v: WireVal) -> bool {
    &&& v is Obj
    &&& field_is_some(v->Obj_0, "voice_state"@)
    &&& wf_voice_state(field_val(v->Obj_0, "voice_state"@))
    &&& field_is_some(v->Obj_0, "user"@)
    &&& wf_user(field_val(v->Obj_0, "user"@))
    &&& opt_text_ok(v->Obj_0, "nick"@)
    &&& field_is_uint(v->Obj_0, "volume"@)
    &&& field_uint(v->Obj_0, "volume"@) <= 4294967295
    &&& field_is_bool(v->Obj_0, "mute"@)
    &&& (match obj_get(v->Obj_0, "pan"@) {
        None => true,
        Some(WireVal::Null) => true,
        Some(w) => wf_voice_state_update_pan(w),
    })
}

/// The value a well-formed wire value of this shape denotes.
pub open spec fn parse_voice_state_update_event(v: WireVal) -> VoiceStateUpdateEventView {
    VoiceStateUpdateEventView {
        voice_state: parse_voice_state(field_val(v->Obj_0, "voice_state"@)),
        user: parse_user(field_val(v->Obj_0, "user"@)),
        nick: opt_text(v->Obj_0, "nick"@),
        volume: field_uint(v->Obj_0, "volume"@) as u32,
        mute: field_bool(v->Obj_0, "mute"@),
        pan: (match obj_get(v->Obj_0, "pan"@) {
            Some(WireVal::Null) => None,
            Some(w) => Some(parse_voice_state_update_pan(w)),
            None => None,
        }),
    }
}

/// Encodes the value as its canonical wire form.
pub fn encode_voice_state_update_event(x: &VoiceStateUpdateEvent) -> (r: WireValue)
    ensures
        r@ == wire_of_voice_state_update_event(x@),
{
    let mut fields: Vec<(String, WireValue)> = Vec::new();
    fields.push(("voice_state".to_owned(), encode_voice_state(&x.voice_state)));
    fields.push(("user".to_owned(), encode_user(&x.user)));
    fields.push(("nick".to_owned(), encode_opt_text(&x.nick)));
    fields.push(("volume".to_owned(), WireValue::UInt(x.volume as u64)));
    fields.push(("mute".to_owned(), WireValue::Bool(x.mute)));
    let pan_w = match &x.pan {
        Some(y) => encode_voice_state_update_pan(y),
        None => WireValue::Null,
    };
    fields.push(("pan".to_owned(), pan_w));
    let r = WireValue::Obj(fields);
    proof {
        lemma_obj_view_full(r->Obj_0);
        assert(r@->Obj_0 =~~= wire_of_voice_state_update_event(x@)->Obj_0);
    }
    r
}

/// Decodes a value of this shape from a wire value.
pub fn decode_voice_state_update_event(v: &WireValue) -> (r: Result<VoiceStateUpdateEvent, DecodeError>)
    ensures
        r is Ok <==> wf_voice_state_update_event(v@),
        r matches Ok(x) ==> x@ == parse_voice_state_update_event(v@),
{
    let fields = match v {
        WireValue::Obj(fields) => fields,
        _ => { return Err(DecodeError { field: "voice_state_update_event".to_owned() }); },
    };
    proof {
        lemma_obj_view_full(*fields);
        assert(v@ == WireVal::Obj(pairs_view(fields@)));
    }
    let voice_state_val = get_req(fields, "voice_state")?;
    let voice_state = decode_voice_state(voice_state_val)?;
    let user_val = get_req(fields, "user")?;
    let user = decode_user(user_val)?;
    let nick = get_opt_text(fields, "nick")?;
    let volume_raw = get_uint(fields, "volume")?;
    if volume_raw > 4294967295 {
        return Err(DecodeError { field: "volume".to_owned() });
    }
    let mute = get_bool(fields, "mute")?;
    let pan = match lookup(fields, "pan") {
        None => None,
        Some(WireValue::Null) => None,
        Some(w) => Some(decode_voice_state_update_pan(w)?),
    };
    Ok(
        VoiceStateUpdateEvent {
            voice_state,
            user,
            nick,
            volume: volume_raw as u32,
            mute,
            pan,
        },
    )
}

/// Round trip: decoding the canonical wire form of any value of this
/// shape yields that value back, absent optional fields included.
pub proof fn lemma_voice_state_update_event_round_trip(x: VoiceStateUpdateEventView)
    ensures
        wf_voice_state_update_event(wire_of_voice_state_update_event(x)),
        parse_voice_state_update_event(wire_of_voice_state_update_event(x)) == x,
{
    reveal_strlit("voice_state");
    reveal_strlit("user");
    reveal_strlit("nick");
    reveal_strlit("volume");
    reveal_strlit("mute");
    reveal_strlit("pan");
    reveal_with_fuel(obj_get, 8);
    assert("voice_state"@.len() == 11);
    assert("user"@.len() == 4);
    assert("nick"@.len() == 4);
    assert("volume"@.len() == 6);
    assert("mute"@.len() == 4);
    assert("pan"@.len() == 3);
    assert("user"@[0] != "nick"@[0]);
    assert("user"@[0] != "mute"@[0]);
    assert("nick"@[0] != "mute"@[0]);
    lemma_voice_state_round_trip(x.voice_state);
    lemma_user_round_trip(x.user);
    if let Some(y) = x.pan {
        lemma_voice_state_update_pan_round_trip(y);
    }
    assert(parse_voice_state_update_event(wire_of_voice_state_update_event(x)) =~~= x);
}

/// The canonical wire form of this shape.
pub open spec fn wire_of_speaking_start_event(x: SpeakingStartEventView) -> WireVal {
    WireVal::Obj(
        seq![
            ("channel_id"@, WireVal::Text(x.channel_id)),
            ("user_id"@, WireVal::Text(x.user_id)),
        ],
    )
}

/// When a wire value has this shape.
pub open spec fn wf_speaking_start_event(v: WireVal) -> bool {
    &&& v is Obj
    &&& field_is_text(v->Obj_0, "channel_id"@)
    &&& field_is_text(v->Obj_0, "user_id"@)
}

/// The value a well-formed wire value of this shape denotes.
pub open spec fn parse_speaking_start_event(v: WireVal) -> SpeakingStartEventView {
    SpeakingStartEventView {
        channel_id: field_text(v->Obj_0, "channel_id"@),
        user_id: field_text(v->Obj_0, "user_id"@),
    }
}

/// Encodes the value as its canonical wire form.
pub fn encode_speaking_start_event(x: &SpeakingStartEvent) -> (r: WireValue)
    ensures
        r@ == wire_of_speaking_start_event(x@),
{
    let mut fields: Vec<(String, WireValue)> = Vec::new();
    fields.push(("channel_id".to_owned(), WireValue::Text(x.channel_id.clone())));
    fields.push(("user_id".to_owned(), WireValue::Text(x.user_id.clone())));
    let r = WireValue::Obj(fields);
    proof {
        lemma_obj_view_full(r->Obj_0);
        assert(r@->Obj_0 =~~= wire_of_speaking_start_event(x@)->Obj_0);
    }
    r
}

/// Decodes a value of this shape from a wire value.
pub fn decode_speaking_start_event(v: &WireValue) -> (r: Result<SpeakingStartEvent, DecodeError>)
    ensures
        r is Ok <==> wf_speaking_start_event(v@),
        r matches Ok(x) ==> x@ == parse_speaking_start_event(v@),
{
    let fields = match v {
        WireValue::Obj(fields) => fields,
        _ => { return Err(DecodeError { field: "speaking_start_event".to_owned() }); },
    };
    proof {
        lemma_obj_view_full(*fields);
        assert(v@ == WireVal::Obj(pairs_view(fields@)));
    }
    let channel_id = get_text(fields, "channel_id")?;
    let user_id = get_text(fields, "user_id")?;
    Ok(
        SpeakingStartEvent {
            channel_id,
            user_id,
        },
    )
}

/// Round trip: decoding the canonical wire form of any value of this
/// shape yields that value back, absent optional fields included.
pub proof fn lemma_speaking_start_event_round_trip(x: SpeakingStartEventView)
    ensures
        wf_speaking_start_event(wire_of_speaking_start_event(x)),
        parse_speaking_start_event(wire_of_speaking_start_event(x)) == x,
{
    reveal_strlit("channel_id");
    reveal_strlit("user_id");
    reveal_with_fuel(obj_get, 4);
    assert("channel_id"@.len() == 10);
    assert("user_id"@.len() == 7);
    assert(parse_speaking_start_event(wire_of_speaking_start_event(x)) =~~= x);
}

/// The canonical wire form of this shape.
pub open spec fn wire_of_speaking_stop_event(x: SpeakingStopEventView) -> WireVal {
    WireVal::Obj(
        seq![
            ("channel_id"@, WireVal::Text(x.channel_id)),
            ("user_id"@, WireVal::Text(x.user_id)),
        ],
    )
}

/// When a wire value has this shape.
pub open spec fn wf_speaking_stop_event(v: WireVal) -> bool {
    &&& v is Obj
    &&& field_is_text(v->Obj_0, "channel_id"@)
    &&& field_is_text(v->Obj_0, "user_id"@)
}

/// The value a well-formed wire value of this shape denotes.
pub open spec fn parse_speaking_stop_event(v: WireVal) -> SpeakingStopEventView {
    SpeakingStopEventView {
        channel_id: field_text(v->Obj_0, "channel_id"@),
        user_id: field_text(v->Obj_0, "user_id"@),
    }
}

/// Encodes the value as its canonical wire form.
pub fn encode_speaking_stop_event(x: &SpeakingStopEvent) -> (r: WireValue)
    ensures
        r@ == wire_of_speaking_stop_event(x@),
{
    let mut fields: Vec<(String, WireValue)> = Vec::new();
    fields.push(("channel_id".to_owned(), WireValue::Text(x.channel_id.clone())));
    fields.push(("user_id".to_owned(), WireValue::Text(x.user_id.clone())));
    let r = WireValue::Obj(fields);
    proof {
        lemma_obj_view_full(r->Obj_0);
        assert(r@->Obj_0 =~~= wire_of_speaking_stop_event(x@)->Obj_0);
    }
    r
}

/// Decodes a value of this shape from a wire value.
pub fn decode_speaking_stop_event(v: &WireValue) -> (r: Result<SpeakingStopEvent, DecodeError>)
    ensures
        r is Ok <==> wf_speaking_stop_event(v@),
        r matches Ok(x) ==> x@ == parse_speaking_stop_event(v@),
{
    let fields = match v {
        WireValue::Obj(fields) => fields,
        _ => { return Err(DecodeError { field: "speaking_stop_event".to_owned() }); },
    };
    proof {
        lemma_obj_view_full(*fields);
        assert(v@ == WireVal::Obj(pairs_view(fields@)));
    }
    let channel_id = get_text(fields, "channel_id")?;
    let user_id = get_text(fields, "user_id")?;
    Ok(
        SpeakingStopEvent {
            channel_id,
            user_id,
        },
    )
}

/// Round trip: decoding the canonical wire form of any value of this
/// shape yields that value back, absent optional fields included.
pub proof fn lemma_speaking_stop_event_round_trip(x: SpeakingStopEventView)
    ensures
        wf_speaking_stop_event(wire_of_speaking_stop_event(x)),
        parse_speaking_stop_event(wire_of_speaking_stop_event(x)) == x,
{
    reveal_strlit("channel_id");
    reveal_strlit("user_id");
    reveal_with_fuel(obj_get, 4);
    assert("channel_id"@.len() == 10);
    assert("user_id"@.len() == 7);
    assert(parse_speaking_stop_event(wire_of_speaking_stop_event(x)) =~~= x);
}

/// The canonical wire form of this shape.
pub open spec fn wire_of_activity_layout_mode_update_event(x: ActivityLayoutModeUpdateEventView) -> WireVal {
    WireVal::Obj(
        seq![
            ("layout_mode"@, WireVal::UInt(x.layout_mode as u64)),
        ],
    )
}

/// When a wire value has this shape.
pub open spec fn wf_activity_layout_mode_update_event(v: WireVal) -> bool {
    &&& v is Obj
    &&& field_is_uint(v->Obj_0, "layout_mode"@)
    &&& field_uint(v->Obj_0, "layout_mode"@) <= 255
}

/// The value a well-formed wire value of this shape denotes.
pub open spec fn parse_activity_layout_mode_update_event(v: WireVal) -> ActivityLayoutModeUpdateEventView {
    ActivityLayoutModeUpdateEventView {
        layout_mode: field_uint(v->Obj_0, "layout_mode"@) as u8,
    }
}

/// Encodes the value as its canonical wire form.
pub fn encode_activity_layout_mode_update_event(x: &ActivityLayoutModeUpdateEvent) -> (r: WireValue)
    ensures
        r@ == wire_of_activity_layout_mode_update_event(x@),
{
    let mut fields: Vec<(String, WireValue)> = Vec::new();
    fields.push(("layout_mode".to_owned(), WireValue::UInt(x.layout_mode as u64)));
    let r = WireValue::Obj(fields);
    proof {
        lemma_obj_view_full(r->Obj_0);
        assert(r@->Obj_0 =~~= wire_of_activity_layout_mode_update_event(x@)->Obj_0);
    }
    r
}

/// Decodes a value of this shape from a wire value.
pub fn decode_activity_layout_mode_update_event(v: &WireValue) -> (r: Result<ActivityLayoutModeUpdateEvent, DecodeError>)
    ensures
        r is Ok <==> wf_activity_layout_mode_update_event(v@),
        r matches Ok(x) ==> x@ == parse_activity_layout_mode_update_event(v@),
{
    let fields = match v {
        WireValue::Obj(fields) => fields,
        _ => { return Err(DecodeError { field: "activity_layout_mode_update_event".to_owned() }); },
    };
    proof {
        lemma_obj_view_full(*fields);
        assert(v@ == WireVal::Obj(pairs_view(fields@)));
    }
    let layout_mode_raw = get_uint(fields, "layout_mode")?;
    if layout_mode_raw > 255 {
        return Err(DecodeError { field: "layout_mode".to_owned() });
    }
    Ok(
        ActivityLayoutModeUpdateEvent {
            layout_mode: layout_mode_raw as u8,
        },
    )
}

/// Round trip: decoding the canonical wire form of any value of this
/// shape yields that value back, absent optional fields included.
pub proof fn lemma_activity_layout_mode_update_event_round_trip(x: ActivityLayoutModeUpdateEventView)
    ensures
        wf_activity_layout_mode_update_event(wire_of_activity_layout_mode_update_event(x)),
        parse_activity_layout_mode_update_event(wire_of_activity_layout_mode_update_event(x)) == x,
{
    reveal_strlit("layout_mode");
    reveal_with_fuel(obj_get, 3);
    assert("layout_mode"@.len() == 11);
    assert(parse_activity_layout_mode_update_event(wire_of_activity_layout_mode_update_event(x)) =~~= x);
}

/// The canonical wire form of this shape.
pub open spec fn wire_of_orientation_update_event(x: OrientationUpdateEventView) -> WireVal {
    WireVal::Obj(
        seq![
            ("screen_orientation"@, WireVal::UInt(x.screen_orientation as u64)),
        ],
    )
}

/// When a wire value has this shape.
pub open spec fn wf_orientation_update_event(v: WireVal) -> bool {
    &&& v is Obj
    &&& field_is_uint(v->Obj_0, "screen_orientation"@)
    &&& field_uint(v->Obj_0, "screen_orientation"@) <= 255
}

/// The value a well-formed wire value of this shape denotes.
pub open spec fn parse_orientation_update_event(v: WireVal) -> OrientationUpdateEventView {
    OrientationUpdateEventView {
        screen_orientation: field_uint(v->Obj_0, "screen_orientation"@) as u8,
    }
}

/// Encodes the value as its canonical wire form.
pub fn encode_orientation_update_event(x: &OrientationUpdateEvent) -> (r: WireValue)
    ensures
        r@ == wire_of_orientation_update_event(x@),
{
    let mut fields: Vec<(String, WireValue)> = Vec::new();
    fields.push(("screen_orientation".to_owned(), WireValue::UInt(x.screen_orientation as u64)));
    let r = WireValue::Obj(fields);
    proof {
        lemma_obj_view_full(r->Obj_0);
        assert(r@->Obj_0 =~~= wire_of_orientation_update_event(x@)->Obj_0);
    }
    r
}

/// Decodes a value of this shape from a wire value.
pub fn decode_orientation_update_event(v: &WireValue) -> (r: Result<OrientationUpdateEvent, DecodeError>)
    ensures
        r is Ok <==> wf_orientation_update_event(v@),
        r matches Ok(x) ==> x@ == parse_orientation_update_event(v@),
{
    let fields = match v {
        WireValue::Obj(fields) => fields,
        _ => { return Err(DecodeError { field: "orientation_update_event".to_owned() }); },
    };
    proof {
        lemma_obj_view_full(*fields);
        assert(v@ == WireVal::Obj(pairs_view(fields@)));
    }
    let screen_orientation_raw = get_uint(fields, "screen_orientation")?;
    if screen_orientation_raw > 255 {
        return Err(DecodeError { field: "screen_orientation".to_owned() });
    }
    Ok(
        OrientationUpdateEvent {
            screen_orientation: screen_orientation_raw as u8,
        },
    )
}

/// Round trip: decoding the canonical wire form of any value of this
/// shape yields that value back, absent optional fields included.
pub proof fn lemma_orientation_update_event_round_trip(x: OrientationUpdateEventView)
    ensures
        wf_orientation_update_event(wire_of_orientation_update_event(x)),
        parse_orientation_update_event(wire_of_orientation_update_event(x)) == x,
{
    reveal_strlit("screen_orientation");
    reveal_with_fuel(obj_get, 3);
    assert("screen_orientation"@.len() == 18);
    assert(parse_orientation_update_event(wire_of_orientation_update_event(x)) =~~= x);
}

/// The canonical wire form: the inner shape, flattened.
pub open spec fn wire_of_current_user_update_event(x: CurrentUserUpdateEventView) -> WireVal {
    wire_of_user(x.user)
}

pub open spec fn wf_current_user_update_event(v: WireVal) -> bool {
    wf_user(v)
}

pub open spec fn parse_current_user_update_event(v: WireVal) -> CurrentUserUpdateEventView {
    CurrentUserUpdateEventView { user: parse_user(v) }
}

pub fn encode_current_user_update_event(x: &CurrentUserUpdateEvent) -> (r: WireValue)
    ensures
        r@ == wire_of_current_user_update_event(x@),
{
    encode_user(&x.user)
}

pub fn decode_current_user_update_event(v: &WireValue) -> (r: Result<CurrentUserUpdateEvent, DecodeError>)
    ensures
        r is Ok <==> wf_current_user_update_event(v@),
        r matches Ok(x) ==> x@ == parse_current_user_update_event(v@),
{
    let user = decode_user(v)?;
    Ok(CurrentUserUpdateEvent { user })
}

/// Round trip: decoding the canonical wire form yields the value back.
pub proof fn lemma_current_user_update_event_round_trip(x: CurrentUserUpdateEventView)
    ensures
        wf_current_user_update_event(wire_of_current_user_update_event(x)),
        parse_current_user_update_event(wire_of_current_user_update_event(x)) == x,
{
    lemma_user_round_trip(x.user);
}

/// The canonical wire form: the inner shape, flattened.
pub open spec fn wire_of_current_guild_member_update_event(x: CurrentGuildMemberUpdateEventView) -> WireVal {
    wire_of_member(x.member)
}

pub open spec fn wf_current_guild_member_update_event(v: WireVal) -> bool {
    wf_member(v)
}

pub open spec fn parse_current_guild_member_update_event(v: WireVal) -> CurrentGuildMemberUpdateEventView {
    CurrentGuildMemberUpdateEventView { member: parse_member(v) }
}

pub fn encode_current_guild_member_update_event(x: &CurrentGuildMemberUpdateEvent) -> (r: WireValue)
    ensures
        r@ == wire_of_current_guild_member_update_event(x@),
{
    encode_member(&x.member)
}

pub fn decode_current_guild_member_update_event(v: &WireValue) -> (r: Result<CurrentGuildMemberUpdateEvent, DecodeError>)
    ensures
        r is Ok <==> wf_current_guild_member_update_event(v@),
        r matches Ok(x) ==> x@ == parse_current_guild_member_update_event(v@),
{
    let member = decode_member(v)?;
    Ok(CurrentGuildMemberUpdateEvent { member })
}

/// Round trip: decoding the canonical wire form yields the value back.
pub proof fn lemma_current_guild_member_update_event_round_trip(x: CurrentGuildMemberUpdateEventView)
    ensures
        wf_current_guild_member_update_event(wire_of_current_guild_member_update_event(x)),
        parse_current_guild_member_update_event(wire_of_current_guild_member_update_event(x)) == x,
{
    lemma_member_round_trip(x.member);
}

/// The canonical wire form of this shape.
pub open spec fn wire_of_thermal_state_update_event(x: ThermalStateUpdateEventView) -> WireVal {
    WireVal::Obj(
        seq![
            ("thermal_state"@, WireVal::UInt(x.thermal_state as u64)),
        ],
    )
}

/// When a wire value has this shape.
pub open spec fn wf_thermal_state_update_event(v: WireVal) -> bool {
    &&& v is Obj
    &&& field_is_uint(v->Obj_0, "thermal_state"@)
    &&& field_uint(v->Obj_0, "thermal_state"@) <= 255
}

/// The value a well-formed wire value of this shape denotes.
pub open spec fn parse_thermal_state_update_event(v: WireVal) -> ThermalStateUpdateEventView {
    ThermalStateUpdateEventView {
        thermal_state: field_uint(v->Obj_0, "thermal_state"@) as u8,
    }
}

/// Encodes the value as its canonical wire form.
pub fn encode_thermal_state_update_event(x: &ThermalStateUpdateEvent) -> (r: WireValue)
    ensures
        r@ == wire_of_thermal_state_update_event(x@),
{
    let mut fields: Vec<(String, WireValue)> = Vec::new();
    fields.push(("thermal_state".to_owned(), WireValue::UInt(x.thermal_state as u64)));
    let r = WireValue::Obj(fields);
    proof {
        lemma_obj_view_full(r->Obj_0);
        assert(r@->Obj_0 =~~= wire_of_thermal_state_update_event(x@)->Obj_0);
    }
    r
}

/// Decodes a value of this shape from a wire value.
pub fn decode_thermal_state_update_event(v: &WireValue) -> (r: Result<ThermalStateUpdateEvent, DecodeError>)
    ensures
        r is Ok <==> wf_thermal_state_update_event(v@),
        r matches Ok(x) ==> x@ == parse_thermal_state_update_event(v@),
{
    let fields = match v {
        WireValue::Obj(fields) => fields,
        _ => { return Err(DecodeError { field: "thermal_state_update_event".to_owned() }); },
    };
    proof {
        lemma_obj_view_full(*fields);
        assert(v@ == WireVal::Obj(pairs_view(fields@)));
    }
    let thermal_state_raw = get_uint(fields, "thermal_state")?;
    if thermal_state_raw > 255 {
        return Err(DecodeError { field: "thermal_state".to_owned() });
    }
    Ok(
        ThermalStateUpdateEvent {
            thermal_state: thermal_state_raw as u8,
        },
    )
}

/// Round trip: decoding the canonical wire form of any value of this
/// shape yields that value back, absent optional fields included.
pub proof fn lemma_thermal_state_update_event_round_trip(x: ThermalStateUpdateEventView)
    ensures
        wf_thermal_state_update_event(wire_of_thermal_state_update_event(x)),
        parse_thermal_state_update_event(wire_of_thermal_state_update_event(x)) == x,
{
    reveal_strlit("thermal_state");
    reveal_with_fuel(obj_get, 3);
    assert("thermal_state"@.len() == 13);
    assert(parse_thermal_state_update_event(wire_of_thermal_state_update_event(x)) =~~= x);
}

/// The canonical wire form of this shape.
pub open spec fn wire_of_activity_instance_participants_update_event(x: ActivityInstanceParticipantsUpdateEventView) -> WireVal {
    WireVal::Obj(
        seq![
            ("participants"@, wire_of_user_arr(x.participants)),
        ],
    )
}

/// When a wire value has this shape.
pub open spec fn wf_activity_instance_participants_update_event(v: WireVal) -> bool {
    &&& v is Obj
    &&& field_is_some(v->Obj_0, "participants"@)
    &&& wf_user_arr(field_val(v->Obj_0, "participants"@))
}

/// The value a well-formed wire value of this shape denotes.
pub open spec fn parse_activity_instance_participants_update_event(v: WireVal) -> ActivityInstanceParticipantsUpdateEventView {
    ActivityInstanceParticipantsUpdateEventView {
        participants: parse_user_arr(field_val(v->Obj_0, "participants"@)),
    }
}

/// Encodes the value as its canonical wire form.
pub fn encode_activity_instance_participants_update_event(x: &ActivityInstanceParticipantsUpdateEvent) -> (r: WireValue)
    ensures
        r@ == wire_of_activity_instance_participants_update_event(x@),
{
    let mut fields: Vec<(String, WireValue)> = Vec::new();
    fields.push(("participants".to_owned(), encode_user_arr(&x.participants)));
    let r = WireValue::Obj(fields);
    proof {
        lemma_obj_view_full(r->Obj_0);
        assert(r@->Obj_0 =~~= wire_of_activity_instance_participants_update_event(x@)->Obj_0);
    }
    r
}

/// Decodes a value of this shape from a wire value.
pub fn decode_activity_instance_participants_update_event(v: &WireValue) -> (r: Result<ActivityInstanceParticipantsUpdateEvent, DecodeError>)
    ensures
        r is Ok <==> wf_activity_instance_participants_update_event(v@),
        r matches Ok(x) ==> x@ == parse_activity_instance_participants_update_event(v@),
{
    let fields = match v {
        WireValue::Obj(fields) => fields,
        _ => { return Err(DecodeError { field: "activity_instance_participants_update_event".to_owned() }); },
    };
    proof {
        lemma_obj_view_full(*fields);
        assert(v@ == WireVal::Obj(pairs_view(fields@)));
    }
    let participants_val = get_req(fields, "participants")?;
    let participants = decode_user_arr(participants_val)?;
    Ok(
        ActivityInstanceParticipantsUpdateEvent {
            participants,
        },
    )
}

/// Round trip: decoding the canonical wire form of any value of this
/// shape yields that value back, absent optional fields included.
pub proof fn lemma_activity_instance_participants_update_event_round_trip(x: ActivityInstanceParticipantsUpdateEventView)
    ensures
        wf_activity_instance_participants_update_event(wire_of_activity_instance_participants_update_event(x)),
        parse_activity_instance_participants_update_event(wire_of_activity_instance_participants_update_event(x)) == x,
{
    reveal_strlit("participants");
    reveal_with_fuel(obj_get, 3);
    assert("participants"@.len() == 12);
    lemma_user_arr_round_trip(x.participants);
    assert(parse_activity_instance_participants_update_event(wire_of_activity_instance_participants_update_event(x)) =~~= x);
}

/// The canonical wire form of this shape.
pub open spec fn wire_of_subscribe_args(x: SubscribeArgsView) -> WireVal {
    WireVal::Obj(
        seq![
            ("channel_id"@, WireVal::Text(x.channel_id)),
        ],
    )
}

/// When a wire value has this shape.
pub open spec fn wf_subscribe_args(v: WireVal) -> bool {
    &&& v is Obj
    &&& field_is_text(v->Obj_0, "channel_id"@)
}

/// The value a well-formed wire value of this shape denotes.
pub open spec fn parse_subscribe_args(v: WireVal) -> SubscribeArgsView {
    SubscribeArgsView {
        channel_id: field_text(v->Obj_0, "channel_id"@),
    }
}

/// Encodes the value as its canonical wire form.
pub fn encode_subscribe_args(x: &SubscribeArgs) -> (r: WireValue)
    ensures
        r@ == wire_of_subscribe_args(x@),
{
    let mut fields: Vec<(String, WireValue)> = Vec::new();
    fields.push(("channel_id".to_owned(), WireValue::Text(x.channel_id.clone())));
    let r = WireValue::Obj(fields);
    proof {
        lemma_obj_view_full(r->Obj_0);
        assert(r@->Obj_0 =~~= wire_of_subscribe_args(x@)->Obj_0);
    }
    r
}

/// Decodes a value of this shape from a wire value.
pub fn decode_subscribe_args(v: &WireValue) -> (r: Result<SubscribeArgs, DecodeError>)
    ensures
        r is Ok <==> wf_subscribe_args(v@),
        r matches Ok(x) ==> x@ == parse_subscribe_args(v@),
{
    let fields = match v {
        WireValue::Obj(fields) => fields,
        _ => { return Err(DecodeError { field: "subscribe_args".to_owned() }); },
    };
    proof {
        lemma_obj_view_full(*fields);
        assert(v@ == WireVal::Obj(pairs_view(fields@)));
    }
    let channel_id = get_text(fields, "channel_id")?;
    Ok(
        SubscribeArgs {
            channel_id,
        },
    )
}

/// Round trip: decoding the canonical wire form of any value of this
/// shape yields that value back, absent optional fields included.
pub proof fn lemma_subscribe_args_round_trip(x: SubscribeArgsView)
    ensures
        wf_subscribe_args(wire_of_subscribe_args(x)),
        parse_subscribe_args(wire_of_subscribe_args(x)) == x,
{
    reveal_strlit("channel_id");
    reveal_with_fuel(obj_get, 3);
    assert("channel_id"@.len() == 10);
    assert(parse_subscribe_args(wire_of_subscribe_args(x)) =~~= x);
}

} // verus!
