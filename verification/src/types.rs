use vstd::prelude::*;

use crate::wire::{opt_str_view, views_of};

verus! {

/// A user, as the wire carries it.
#[derive(Debug, Clone, PartialEq)]
pub struct User {
    pub id: String,
    pub username: String,
    pub discriminator: String,
    pub avatar: Option<String>,
    pub public_flags: u64,
    pub flags: u64,
    pub premium_type: u8,
    pub global_name: Option<String>,
    pub bot: bool,
}

/// The mathematical view of a [`User`].
#[verifier::ext_equal]
pub struct UserView {
    pub id: Seq<char>,
    pub username: Seq<char>,
    pub discriminator: Seq<char>,
    pub avatar: Option<Seq<char>>,
    pub public_flags: u64,
    pub flags: u64,
    pub premium_type: u8,
    pub global_name: Option<Seq<char>>,
    pub bot: bool,
}

impl View for User {
    type V = UserView;

    open spec fn view(&self) -> UserView {
        UserView {
            id: self.id@,
            username: self.username@,
            discriminator: self.discriminator@,
            avatar: opt_str_view(self.avatar),
            public_flags: self.public_flags,
            flags: self.flags,
            premium_type: self.premium_type,
            global_name: opt_str_view(self.global_name),
            bot: self.bot,
        }
    }
}

/// A member's avatar decoration.
#[derive(Debug, Clone, PartialEq)]
pub struct MemberAvatarDecorationData {
    pub asset: String,
    pub sku_id: Option<String>,
}

/// The mathematical view of a [`MemberAvatarDecorationData`].
#[verifier::ext_equal]
pub struct MemberAvatarDecorationDataView {
    pub asset: Seq<char>,
    pub sku_id: Option<Seq<char>>,
}

impl View for MemberAvatarDecorationData {
    type V = MemberAvatarDecorationDataView;

    open spec fn view(&self) -> MemberAvatarDecorationDataView {
        MemberAvatarDecorationDataView {
            asset: self.asset@,
            sku_id: opt_str_view(self.sku_id),
        }
    }
}

/// A guild member, as the wire carries it.
#[derive(Debug, Clone, PartialEq)]
pub struct Member {
    pub user_id: String,
    pub guild_id: String,
    pub nick: Option<String>,
    pub avatar: Option<String>,
    pub color_string: Option<String>,
    pub avatar_decoration_data: Option<MemberAvatarDecorationData>,
}

/// The mathematical view of a [`Member`].
#[verifier::ext_equal]
pub struct MemberView {
    pub user_id: Seq<char>,
    pub guild_id: Seq<char>,
    pub nick: Option<Seq<char>>,
    pub avatar: Option<Seq<char>>,
    pub color_string: Option<Seq<char>>,
    pub avatar_decoration_data: Option<MemberAvatarDecorationDataView>,
}

impl View for Member {
    type V = MemberView;

    open spec fn view(&self) -> MemberView {
        MemberView {
            user_id: self.user_id@,
            guild_id: self.guild_id@,
            nick: opt_str_view(self.nick),
            avatar: opt_str_view(self.avatar),
            color_string: opt_str_view(self.color_string),
            avatar_decoration_data: match self.avatar_decoration_data { Some(x) => Some(x@), None => None },
        }
    }
}

/// An application, as the wire carries it.
#[derive(Debug, Clone, PartialEq)]
pub struct Application {
    pub id: String,
    pub name: String,
    pub description: String,
    pub icon: Option<String>,
}

/// The mathematical view of a [`Application`].
#[verifier::ext_equal]
pub struct ApplicationView {
    pub id: Seq<char>,
    pub name: Seq<char>,
    pub description: Seq<char>,
    pub icon: Option<Seq<char>>,
}

impl View for Application {
    type V = ApplicationView;

    open spec fn view(&self) -> ApplicationView {
        ApplicationView {
            id: self.id@,
            name: self.name@,
            description: self.description@,
            icon: opt_str_view(self.icon),
        }
    }
}

/// A channel. The wire contract leaves its fields unspecified.
#[derive(Debug, Clone, PartialEq)]
pub struct Channel {}

/// The mathematical view of a [`Channel`].
#[verifier::ext_equal]
pub struct ChannelView {}

impl View for Channel {
    type V = ChannelView;

    open spec fn view(&self) -> ChannelView {
        ChannelView {}
    }
}

/// An activity. The wire contract leaves its fields unspecified.
#[derive(Debug, Clone, PartialEq)]
pub struct Activity {}

/// The mathematical view of a [`Activity`].
#[verifier::ext_equal]
pub struct ActivityView {}

impl View for Activity {
    type V = ActivityView;

    open spec fn view(&self) -> ActivityView {
        ActivityView {}
    }
}

/// The read-only configuration snapshot of a connection.
#[derive(Debug, Clone, PartialEq)]
pub struct SdkConfiguration {
    pub disable_console_log_override: bool,
}

/// The mathematical view of a [`SdkConfiguration`].
#[verifier::ext_equal]
pub struct SdkConfigurationView {
    pub disable_console_log_override: bool,
}

impl View for SdkConfiguration {
    type V = SdkConfigurationView;

    open spec fn view(&self) -> SdkConfigurationView {
        SdkConfigurationView {
            disable_console_log_override: self.disable_console_log_override,
        }
    }
}

/// Request of the `authorize` command.
#[derive(Debug, Clone, PartialEq)]
pub struct AuthorizeArgs {
    pub client_id: String,
    pub response_type: String,
    pub state: String,
    pub prompt: String,
    pub scope: Vec<String>,
}

/// The mathematical view of a [`AuthorizeArgs`].
#[verifier::ext_equal]
pub struct AuthorizeArgsView {
    pub client_id: Seq<char>,
    pub response_type: Seq<char>,
    pub state: Seq<char>,
    pub prompt: Seq<char>,
    pub scope: Seq<Seq<char>>,
}

impl View for AuthorizeArgs {
    type V = AuthorizeArgsView;

    open spec fn view(&self) -> AuthorizeArgsView {
        AuthorizeArgsView {
            client_id: self.client_id@,
            response_type: self.response_type@,
            state: self.state@,
            prompt: self.prompt@,
            scope: views_of(self.scope@),
        }
    }
}

/// Response of the `authorize` command.
#[derive(Debug, Clone, PartialEq)]
pub struct AuthorizeRes {
    pub code: String,
}

/// The mathematical view of a [`AuthorizeRes`].
#[verifier::ext_equal]
pub struct AuthorizeResView {
    pub code: Seq<char>,
}

impl View for AuthorizeRes {
    type V = AuthorizeResView;

    open spec fn view(&self) -> AuthorizeResView {
        AuthorizeResView {
            code: self.code@,
        }
    }
}

/// Request of the `authenticate` command.
#[derive(Debug, Clone, PartialEq)]
pub struct AuthenticateArgs {
    pub access_token: String,
}

/// The mathematical view of a [`AuthenticateArgs`].
#[verifier::ext_equal]
pub struct AuthenticateArgsView {
    pub access_token: Seq<char>,
}

impl View for AuthenticateArgs {
    type V = AuthenticateArgsView;

    open spec fn view(&self) -> AuthenticateArgsView {
        AuthenticateArgsView {
            access_token: self.access_token@,
        }
    }
}

/// Response of the `authenticate` command.
#[derive(Debug, Clone, PartialEq)]
pub struct AuthenticateRes {
    pub access_token: String,
    pub scopes: Vec<String>,
    pub expires: String,
    pub user: User,
    pub application: Application,
}

/// The mathematical view of a [`AuthenticateRes`].
#[verifier::ext_equal]
pub struct AuthenticateResView {
    pub access_token: Seq<char>,
    pub scopes: Seq<Seq<char>>,
    pub expires: Seq<char>,
    pub user: UserView,
    pub application: ApplicationView,
}

impl View for AuthenticateRes {
    type V = AuthenticateResView;

    open spec fn view(&self) -> AuthenticateResView {
        AuthenticateResView {
            access_token: self.access_token@,
            scopes: views_of(self.scopes@),
            expires: self.expires@,
            user: self.user@,
            application: self.application@,
        }
    }
}

/// Request of the `captureLog` command.
#[derive(Debug, Clone, PartialEq)]
pub struct CaputeLogArgs {
    pub level: String,
    pub message: String,
}

/// The mathematical view of a [`CaputeLogArgs`].
#[verifier::ext_equal]
pub struct CaputeLogArgsView {
    pub level: Seq<char>,
    pub message: Seq<char>,
}

impl View for CaputeLogArgs {
    type V = CaputeLogArgsView;

    open spec fn view(&self) -> CaputeLogArgsView {
        CaputeLogArgsView {
            level: self.level@,
            message: self.message@,
        }
    }
}

/// Request of the `getChannel` command.
#[derive(Debug, Clone, PartialEq)]
pub struct GetChannelArgs {
    pub channel_id: String,
}

/// The mathematical view of a [`GetChannelArgs`].
#[verifier::ext_equal]
pub struct GetChannelArgsView {
    pub channel_id: Seq<char>,
}

impl View for GetChannelArgs {
    type V = GetChannelArgsView;

    open spec fn view(&self) -> GetChannelArgsView {
        GetChannelArgsView {
            channel_id: self.channel_id@,
        }
    }
}

/// Response of the `getChannel` command: the channel itself, flattened.
#[derive(Debug, Clone, PartialEq)]
pub struct GetChannelRes {
    pub channel: Channel,
}

/// The mathematical view of a [`GetChannelRes`].
#[verifier::ext_equal]
pub struct GetChannelResView {
    pub channel: ChannelView,
}

impl View for GetChannelRes {
    type V = GetChannelResView;

    open spec fn view(&self) -> GetChannelResView {
        GetChannelResView { channel: self.channel@ }
    }
}

/// Response of the `getChannelPermissions` command.
#[derive(Debug, Clone, PartialEq)]
pub struct GetChannelPermissionsRes {
    pub permissions: u64,
}

/// The mathematical view of a [`GetChannelPermissionsRes`].
#[verifier::ext_equal]
pub struct GetChannelPermissionsResView {
    pub permissions: u64,
}

impl View for GetChannelPermissionsRes {
    type V = GetChannelPermissionsResView;

    open spec fn view(&self) -> GetChannelPermissionsResView {
        GetChannelPermissionsResView {
            permissions: self.permissions,
        }
    }
}

/// Response of the `getInstanceConnectedParticipants` command.
#[derive(Debug, Clone, PartialEq)]
pub struct GetInstanceConnectedParticipantsRes {
    pub participants: Vec<User>,
}

/// The mathematical view of a [`GetInstanceConnectedParticipantsRes`].
#[verifier::ext_equal]
pub struct GetInstanceConnectedParticipantsResView {
    pub participants: Seq<UserView>,
}

impl View for GetInstanceConnectedParticipantsRes {
    type V = GetInstanceConnectedParticipantsResView;

    open spec fn view(&self) -> GetInstanceConnectedParticipantsResView {
        GetInstanceConnectedParticipantsResView {
            participants: views_of(self.participants@),
        }
    }
}

/// Response of the `getPlatformBehaviors` command.
#[derive(Debug, Clone, PartialEq)]
pub struct GetPlatformBehaviorsRes {
    pub ios_keyboard_resizes_view: Option<bool>,
}

/// The mathematical view of a [`GetPlatformBehaviorsRes`].
#[verifier::ext_equal]
pub struct GetPlatformBehaviorsResView {
    pub ios_keyboard_resizes_view: Option<bool>,
}

impl View for GetPlatformBehaviorsRes {
    type V = GetPlatformBehaviorsResView;

    open spec fn view(&self) -> GetPlatformBehaviorsResView {
        GetPlatformBehaviorsResView {
            ios_keyboard_resizes_view: self.ios_keyboard_resizes_view,
        }
    }
}

/// Response of the `initiateImageUpload` command.
#[derive(Debug, Clone, PartialEq)]
pub struct InitiateImageUploadRes {
    pub image_url: String,
}

/// The mathematical view of a [`InitiateImageUploadRes`].
#[verifier::ext_equal]
pub struct InitiateImageUploadResView {
    pub image_url: Seq<char>,
}

impl View for InitiateImageUploadRes {
    type V = InitiateImageUploadResView;

    open spec fn view(&self) -> InitiateImageUploadResView {
        InitiateImageUploadResView {
            image_url: self.image_url@,
        }
    }
}

/// Request of the `openExternalLink` command.
#[derive(Debug, Clone, PartialEq)]
pub struct OpenExternalLinkArgs {
    pub url: String,
}

/// The mathematical view of a [`OpenExternalLinkArgs`].
#[verifier::ext_equal]
pub struct OpenExternalLinkArgsView {
    pub url: Seq<char>,
}

impl View for OpenExternalLinkArgs {
    type V = OpenExternalLinkArgsView;

    open spec fn view(&self) -> OpenExternalLinkArgsView {
        OpenExternalLinkArgsView {
            url: self.url@,
        }
    }
}

/// Response of the `openExternalLink` command.
#[derive(Debug, Clone, PartialEq)]
pub struct OpenExternalLinkRes {
    pub opened: bool,
}

/// The mathematical view of a [`OpenExternalLinkRes`].
#[verifier::ext_equal]
pub struct OpenExternalLinkResView {
    pub opened: bool,
}

impl View for OpenExternalLinkRes {
    type V = OpenExternalLinkResView;

    open spec fn view(&self) -> OpenExternalLinkResView {
        OpenExternalLinkResView {
            opened: self.opened,
        }
    }
}

/// Request of the `openShareMomentDialog` command.
#[derive(Debug, Clone, PartialEq)]
pub struct OpenShareMomentDialogArgs {
    pub media_url: String,
}

/// The mathematical view of a [`OpenShareMomentDialogArgs`].
#[verifier::ext_equal]
pub struct OpenShareMomentDialogArgsView {
    pub media_url: Seq<char>,
}

impl View for OpenShareMomentDialogArgs {
    type V = OpenShareMomentDialogArgsView;

    open spec fn view(&self) -> OpenShareMomentDialogArgsView {
        OpenShareMomentDialogArgsView {
            media_url: self.media_url@,
        }
    }
}

/// Request of the `setActivity` command.
#[derive(Debug, Clone, PartialEq)]
pub struct SetActivityArgs {
    pub activity: Activity,
}

/// The mathematical view of a [`SetActivityArgs`].
#[verifier::ext_equal]
pub struct SetActivityArgsView {
    pub activity: ActivityView,
}

impl View for SetActivityArgs {
    type V = SetActivityArgsView;

    open spec fn view(&self) -> SetActivityArgsView {
        SetActivityArgsView {
            activity: self.activity@,
        }
    }
}

/// Request of the `setConfig` command.
#[derive(Debug, Clone, PartialEq)]
pub struct SetConfigArgs {
    pub user_interactive_pip: bool,
}

/// The mathematical view of a [`SetConfigArgs`].
#[verifier::ext_equal]
pub struct SetConfigArgsView {
    pub user_interactive_pip: bool,
}

impl View for SetConfigArgs {
    type V = SetConfigArgsView;

    open spec fn view(&self) -> SetConfigArgsView {
        SetConfigArgsView {
            user_interactive_pip: self.user_interactive_pip,
        }
    }
}

/// Request of the `setOrientationLockState` command.
#[derive(Debug, Clone, PartialEq)]
pub struct SetOrientationLockStateArgs {
    pub lock_state: String,
    pub picture_in_picture_lock_state: String,
    pub grid_lock_state: String,
}

/// The mathematical view of a [`SetOrientationLockStateArgs`].
#[verifier::ext_equal]
pub struct SetOrientationLockStateArgsView {
    pub lock_state: Seq<char>,
    pub picture_in_picture_lock_state: Seq<char>,
    pub grid_lock_state: Seq<char>,
}

impl View for SetOrientationLockStateArgs {
    type V = SetOrientationLockStateArgsView;

    open spec fn view(&self) -> SetOrientationLockStateArgsView {
        SetOrientationLockStateArgsView {
            lock_state: self.lock_state@,
            picture_in_picture_lock_state: self.picture_in_picture_lock_state@,
            grid_lock_state: self.grid_lock_state@,
        }
    }
}

/// Response of the `userSettingsGetLocale` command; the wire contract leaves its locale schema unspecified.
#[derive(Debug, Clone, PartialEq)]
pub struct UserSettingsGetLocaleRes {}

/// The mathematical view of a [`UserSettingsGetLocaleRes`].
#[verifier::ext_equal]
pub struct UserSettingsGetLocaleResView {}

impl View for UserSettingsGetLocaleRes {
    type V = UserSettingsGetLocaleResView;

    open spec fn view(&self) -> UserSettingsGetLocaleResView {
        UserSettingsGetLocaleResView {}
    }
}

/// The connection configuration the `READY` event reports.
#[derive(Debug, Clone, PartialEq)]
pub struct ReadyEventConfig {
    pub cdn_host: String,
    pub api_endpoint: String,
    pub environment: String,
}

/// The mathematical view of a [`ReadyEventConfig`].
#[verifier::ext_equal]
pub struct ReadyEventConfigView {
    pub cdn_host: Seq<char>,
    pub api_endpoint: Seq<char>,
    pub environment: Seq<char>,
}

impl View for ReadyEventConfig {
    type V = ReadyEventConfigView;

    open spec fn view(&self) -> ReadyEventConfigView {
        ReadyEventConfigView {
            cdn_host: self.cdn_host@,
            api_endpoint: self.api_endpoint@,
            environment: self.environment@,
        }
    }
}

/// Payload of the `READY` event.
#[derive(Debug, Clone, PartialEq)]
pub struct ReadyEvent {
    pub v: u8,
    pub config: ReadyEventConfig,
}

/// The mathematical view of a [`ReadyEvent`].
#[verifier::ext_equal]
pub struct ReadyEventView {
    pub v: u8,
    pub config: ReadyEventConfigView,
}

impl View for ReadyEvent {
    type V = ReadyEventView;

    open spec fn view(&self) -> ReadyEventView {
        ReadyEventView {
            v: self.v,
            config: self.config@,
        }
    }
}

/// Payload of the `ERROR` event.
#[derive(Debug, Clone, PartialEq)]
pub struct ErrorEvent {
    pub code: u64,
    pub message: String,
}

/// The mathematical view of a [`ErrorEvent`].
#[verifier::ext_equal]
pub struct ErrorEventView {
    pub code: u64,
    pub message: Seq<char>,
}

impl View for ErrorEvent {
    type V = ErrorEventView;

    open spec fn view(&self) -> ErrorEventView {
        ErrorEventView {
            code: self.code,
            message: self.message@,
        }
    }
}

/// A voice state, as the wire carries it.
#[derive(Debug, Clone, PartialEq)]
pub struct VoiceState {
    pub mute: bool,
    pub deaf: bool,
    pub self_mute: bool,
    pub self_deaf: bool,
    pub suppress: bool,
}

/// The mathematical view of a [`VoiceState`].
#[verifier::ext_equal]
pub struct VoiceStateView {
    pub mute: bool,
    pub deaf: bool,
    pub self_mute: bool,
    pub self_deaf: bool,
    pub suppress: bool,
}

impl View for VoiceState {
    type V = VoiceStateView;

    open spec fn view(&self) -> VoiceStateView {
        VoiceStateView {
            mute: self.mute,
            deaf: self.deaf,
            self_mute: self.self_mute,
            self_deaf: self.self_deaf,
            suppress: self.suppress,
        }
    }
}

/// Stereo pan of a voice state. The two channels are floating-valued on the wire; the verified layer carries each as the opaque bit pattern of its 64-bit representation.
#[derive(Debug, Clone, PartialEq)]
pub struct VoiceStateUpdatePan {
    pub left: u64,
    pub right: u64,
}

/// The mathematical view of a [`VoiceStateUpdatePan`].
#[verifier::ext_equal]
pub struct VoiceStateUpdatePanView {
    pub left: u64,
    pub right: u64,
}

impl View for VoiceStateUpdatePan {
    type V = VoiceStateUpdatePanView;

    open spec fn view(&self) -> VoiceStateUpdatePanView {
        VoiceStateUpdatePanView {
            left: self.left,
            right: self.right,
        }
    }
}

/// Payload of the `VOICE_STATE_UPDATE` event.
#[derive(Debug, Clone, PartialEq)]
pub struct VoiceStateUpdateEvent {
    pub voice_state: VoiceState,
    pub user: User,
    pub nick: Option<String>,
    pub volume: u32,
    pub mute: bool,
    pub pan: Option<VoiceStateUpdatePan>,
}

/// The mathematical view of a [`VoiceStateUpdateEvent`].
#[verifier::ext_equal]
pub struct VoiceStateUpdateEventView {
    pub voice_state: VoiceStateView,
    pub user: UserView,
    pub nick: Option<Seq<char>>,
    pub volume: u32,
    pub mute: bool,
    pub pan: Option<VoiceStateUpdatePanView>,
}

impl View for VoiceStateUpdateEvent {
    type V = VoiceStateUpdateEventView;

    open spec fn view(&self) -> VoiceStateUpdateEventView {
        VoiceStateUpdateEventView {
            voice_state: self.voice_state@,
            user: self.user@,
            nick: opt_str_view(self.nick),
            volume: self.volume,
            mute: self.mute,
            pan: match self.pan { Some(x) => Some(x@), None => None },
        }
    }
}

/// Payload of the `SPEAKING_START` event.
#[derive(Debug, Clone, PartialEq)]
pub struct SpeakingStartEvent {
    pub channel_id: String,
    pub user_id: String,
}

/// The mathematical view of a [`SpeakingStartEvent`].
#[verifier::ext_equal]
pub struct SpeakingStartEventView {
    pub channel_id: Seq<char>,
    pub user_id: Seq<char>,
}

impl View for SpeakingStartEvent {
    type V = SpeakingStartEventView;

    open spec fn view(&self) -> SpeakingStartEventView {
        SpeakingStartEventView {
            channel_id: self.channel_id@,
            user_id: self.user_id@,
        }
    }
}

/// Payload of the `SPEAKING_STOP` event.
#[derive(Debug, Clone, PartialEq)]
pub struct SpeakingStopEvent {
    pub channel_id: String,
    pub user_id: String,
}

/// The mathematical view of a [`SpeakingStopEvent`].
#[verifier::ext_equal]
pub struct SpeakingStopEventView {
    pub channel_id: Seq<char>,
    pub user_id: Seq<char>,
}

impl View for SpeakingStopEvent {
    type V = SpeakingStopEventView;

    open spec fn view(&self) -> SpeakingStopEventView {
        SpeakingStopEventView {
            channel_id: self.channel_id@,
            user_id: self.user_id@,
        }
    }
}

/// Payload of the `ACTIVITY_LAYOUT_MODE_UPDATE` event.
#[derive(Debug, Clone, PartialEq)]
pub struct ActivityLayoutModeUpdateEvent {
    pub layout_mode: u8,
}

/// The mathematical view of a [`ActivityLayoutModeUpdateEvent`].
#[verifier::ext_equal]
pub struct ActivityLayoutModeUpdateEventView {
    pub layout_mode: u8,
}

impl View for ActivityLayoutModeUpdateEvent {
    type V = ActivityLayoutModeUpdateEventView;

    open spec fn view(&self) -> ActivityLayoutModeUpdateEventView {
        ActivityLayoutModeUpdateEventView {
            layout_mode: self.layout_mode,
        }
    }
}

/// Payload of the `ORIENTATION_UPDATE` event.
#[derive(Debug, Clone, PartialEq)]
pub struct OrientationUpdateEvent {
    pub screen_orientation: u8,
}

/// The mathematical view of a [`OrientationUpdateEvent`].
#[verifier::ext_equal]
pub struct OrientationUpdateEventView {
    pub screen_orientation: u8,
}

impl View for OrientationUpdateEvent {
    type V = OrientationUpdateEventView;

    open spec fn view(&self) -> OrientationUpdateEventView {
        OrientationUpdateEventView {
            screen_orientation: self.screen_orientation,
        }
    }
}

/// Payload of the `CURRENT_USER_UPDATE` event: the user, flattened.
#[derive(Debug, Clone, PartialEq)]
pub struct CurrentUserUpdateEvent {
    pub user: User,
}

/// The mathematical view of a [`CurrentUserUpdateEvent`].
#[verifier::ext_equal]
pub struct CurrentUserUpdateEventView {
    pub user: UserView,
}

impl View for CurrentUserUpdateEvent {
    type V = CurrentUserUpdateEventView;

    open spec fn view(&self) -> CurrentUserUpdateEventView {
        CurrentUserUpdateEventView { user: self.user@ }
    }
}

/// Payload of the `CURRENT_GUILD_MEMBER_UPDATE` event: the member, flattened.
#[derive(Debug, Clone, PartialEq)]
pub struct CurrentGuildMemberUpdateEvent {
    pub member: Member,
}

/// The mathematical view of a [`CurrentGuildMemberUpdateEvent`].
#[verifier::ext_equal]
pub struct CurrentGuildMemberUpdateEventView {
    pub member: MemberView,
}

impl View for CurrentGuildMemberUpdateEvent {
    type V = CurrentGuildMemberUpdateEventView;

    open spec fn view(&self) -> CurrentGuildMemberUpdateEventView {
        CurrentGuildMemberUpdateEventView { member: self.member@ }
    }
}

/// Payload of the `THERMAL_STATE_UPDATE` event.
#[derive(Debug, Clone, PartialEq)]
pub struct ThermalStateUpdateEvent {
    pub thermal_state: u8,
}

/// The mathematical view of a [`ThermalStateUpdateEvent`].
#[verifier::ext_equal]
pub struct ThermalStateUpdateEventView {
    pub thermal_state: u8,
}

impl View for ThermalStateUpdateEvent {
    type V = ThermalStateUpdateEventView;

    open spec fn view(&self) -> ThermalStateUpdateEventView {
        ThermalStateUpdateEventView {
            thermal_state: self.thermal_state,
        }
    }
}

/// Payload of the `ACTIVITY_INSTANCE_PARTICIPANTS_UPDATE` event.
#[derive(Debug, Clone, PartialEq)]
pub struct ActivityInstanceParticipantsUpdateEvent {
    pub participants: Vec<User>,
}

/// The mathematical view of a [`ActivityInstanceParticipantsUpdateEvent`].
#[verifier::ext_equal]
pub struct ActivityInstanceParticipantsUpdateEventView {
    pub participants: Seq<UserView>,
}

impl View for ActivityInstanceParticipantsUpdateEvent {
    type V = ActivityInstanceParticipantsUpdateEventView;

    open spec fn view(&self) -> ActivityInstanceParticipantsUpdateEventView {
        ActivityInstanceParticipantsUpdateEventView {
            participants: views_of(self.participants@),
        }
    }
}

/// The scoping filter supplied when subscribing to an event.
#[derive(Debug, Clone, PartialEq)]
pub struct SubscribeArgs {
    pub channel_id: String,
}

/// The mathematical view of a [`SubscribeArgs`].
#[verifier::ext_equal]
pub struct SubscribeArgsView {
    pub channel_id: Seq<char>,
}

impl View for SubscribeArgs {
    type V = SubscribeArgsView;

    open spec fn view(&self) -> SubscribeArgsView {
        SubscribeArgsView {
            channel_id: self.channel_id@,
        }
    }
}

impl SubscribeArgs {
    /// The filter scoped to one channel.
    pub fn channel_id(channel_id: &str) -> (r: SubscribeArgs)
        ensures
            r@.channel_id == channel_id@,
    {
        SubscribeArgs { channel_id: channel_id.to_owned() }
    }
}

} // verus!
