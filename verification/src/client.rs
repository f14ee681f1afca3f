use vstd::prelude::*;

use crate::codec::{
    encode_authenticate_args, encode_authorize_args, encode_capute_log_args,
    encode_get_channel_args, encode_open_external_link_args, encode_open_share_moment_dialog_args,
    encode_set_activity_args, encode_set_config_args, encode_set_orientation_lock_state_args,
    encode_subscribe_args, decode_authenticate_res, decode_authorize_res, decode_get_channel_res,
    decode_get_channel_permissions_res, decode_get_instance_connected_participants_res,
    decode_get_platform_behaviors_res, decode_initiate_image_upload_res,
    decode_user_settings_get_locale_res, wire_of_authenticate_args, wire_of_authorize_args,
    wire_of_capute_log_args, wire_of_get_channel_args, wire_of_open_external_link_args,
    wire_of_open_share_moment_dialog_args, wire_of_set_activity_args, wire_of_set_config_args,
    wire_of_set_orientation_lock_state_args, wire_of_subscribe_args, wf_authenticate_res,
    wf_authorize_res, wf_get_channel_res, wf_get_channel_permissions_res,
    wf_get_instance_connected_participants_res, wf_get_platform_behaviors_res,
    wf_initiate_image_upload_res, wf_user_settings_get_locale_res, parse_authenticate_res,
    parse_authorize_res, parse_get_channel_res, parse_get_channel_permissions_res,
    parse_get_instance_connected_participants_res, parse_get_platform_behaviors_res,
    parse_initiate_image_upload_res, parse_user_settings_get_locale_res,
};
use crate::errors::{Error, TransportError};
use crate::events::{EventPayload, EventType};
use crate::handle::{EventSubscription, UnsubscribeRequest};
use crate::types::{
    AuthenticateArgs, AuthenticateRes, AuthorizeArgs, AuthorizeRes, CaputeLogArgs, GetChannelArgs,
    GetChannelPermissionsRes, GetChannelRes, GetInstanceConnectedParticipantsRes,
    GetPlatformBehaviorsRes, InitiateImageUploadRes, OpenExternalLinkArgs,
    OpenShareMomentDialogArgs, SdkConfiguration, SdkConfigurationView, SetActivityArgs,
    SetConfigArgs, SetOrientationLockStateArgs, SubscribeArgs, UserSettingsGetLocaleRes,
};
use crate::wire::{opt_str_view, WireValue};

verus! {

/// One named command invocation for the transport to perform: the
/// command's wire name and its encoded request, if the command takes one.
#[derive(Debug, PartialEq)]
pub struct InvokeRequest {
    pub command: String,
    pub args: Option<WireValue>,
}

/// A transport request registering a callback for `tag`, scoped by the
/// encoded subscribe arguments.
#[derive(Debug, PartialEq)]
pub struct SubscribeRequest {
    pub tag: EventType,
    pub args: WireValue,
}

/// The typed client: the identity snapshot of one connection, taken once
/// from the host and immutable for the connection's lifetime, and one
/// method pair per command of the catalog.
///
/// The asynchronous boundary stays with the caller: for each operation the
/// client builds the exact transport request, and a second method turns
/// the transport's outcome into the typed result, so every decision is a
/// function from plain values to plain values.
#[derive(Debug, Clone, PartialEq)]
pub struct DiscordSDK {
    client_id: String,
    instance_id: String,
    platform: String,
    guild_id: Option<String>,
    channel_id: Option<String>,
    configuration: SdkConfiguration,
}

/// The mathematical view of a [`DiscordSDK`].
#[verifier::ext_equal]
pub struct DiscordSDKView {
    pub client_id: Seq<char>,
    pub instance_id: Seq<char>,
    pub platform: Seq<char>,
    pub guild_id: Option<Seq<char>>,
    pub channel_id: Option<Seq<char>>,
    pub configuration: SdkConfigurationView,
}

impl View for DiscordSDK {
    type V = DiscordSDKView;

    closed spec fn view(&self) -> DiscordSDKView {
        DiscordSDKView {
            client_id: self.client_id@,
            instance_id: self.instance_id@,
            platform: self.platform@,
            guild_id: opt_str_view(self.guild_id),
            channel_id: opt_str_view(self.channel_id),
            configuration: self.configuration@,
        }
    }
}

impl DiscordSDK {
    /// A client over one connection, from the identity snapshot the host
    /// handed over when the connection was made.
    pub fn new(
        client_id: String,
        instance_id: String,
        platform: String,
        guild_id: Option<String>,
        channel_id: Option<String>,
        configuration: SdkConfiguration,
    ) -> (r: DiscordSDK)
        ensures
            r@.client_id == client_id@,
            r@.instance_id == instance_id@,
            r@.platform == platform@,
            r@.guild_id == opt_str_view(guild_id),
            r@.channel_id == opt_str_view(channel_id),
            r@.configuration == configuration@,
    {
        DiscordSDK { client_id, instance_id, platform, guild_id, channel_id, configuration }
    }

    /// The application's client id.
    pub fn client_id(&self) -> (r: String)
        ensures
            r@ == self@.client_id,
    {
        self.client_id.clone()
    }

    /// The instance id of this activity.
    pub fn instance_id(&self) -> (r: String)
        ensures
            r@ == self@.instance_id,
    {
        self.instance_id.clone()
    }

    /// The platform the activity runs on.
    pub fn platform(&self) -> (r: String)
        ensures
            r@ == self@.platform,
    {
        self.platform.clone()
    }

    /// The guild the activity was launched in, if any.
    pub fn guild_id(&self) -> (r: Option<String>)
        ensures
            opt_str_view(r) == self@.guild_id,
    {
        match &self.guild_id {
            Some(s) => Some(s.clone()),
            None => None,
        }
    }

    /// The channel the activity was launched in, if any.
    pub fn channel_id(&self) -> (r: Option<String>)
        ensures
            opt_str_view(r) == self@.channel_id,
    {
        match &self.channel_id {
            Some(s) => Some(s.clone()),
            None => None,
        }
    }

    /// The configuration snapshot of this connection.
    pub fn configuration(&self) -> (r: SdkConfiguration)
        ensures
            r@ == self@.configuration,
    {
        SdkConfiguration {
            disable_console_log_override: self.configuration.disable_console_log_override,
        }
    }

    /// Interprets the transport's outcome of waiting for readiness, which
    /// must precede every other operation.
    pub fn ready_response(&self, outcome: Result<(), TransportError>) -> (r: Result<(), Error>)
        ensures
            outcome is Ok ==> r is Ok,
            outcome is Err ==> (r matches Err(e) && e == Error::Transport(outcome->Err_0)),
    {
        match outcome {
            Ok(()) => Ok(()),
            Err(te) => Err(Error::Transport(te)),
        }
    }

    /// Builds the subscribe request for the payload type `T`: the tag is
    /// `T`'s own, derived from the type, and the scoping arguments are
    /// encoded on the wire contract.
    pub fn subscribe_request<T: EventPayload>(&self, args: &SubscribeArgs) -> (r: SubscribeRequest)
        ensures
            r.tag == T::spec_event_type(),
            r.args@ == wire_of_subscribe_args(args@),
    {
        SubscribeRequest { tag: T::event_type(), args: encode_subscribe_args(args) }
    }

    /// Interprets the transport's outcome of a subscribe request for the
    /// payload type `T`: on success, the owned handle for `T`'s tag, in
    /// the `Active` state; a transport failure registers nothing.
    pub fn subscribe_response<T: EventPayload>(&self, outcome: Result<(), TransportError>) -> (r:
        Result<EventSubscription, Error>)
        ensures
            outcome is Ok ==> (r matches Ok(h) && h@.tag == T::spec_event_type() && h@.state
                is Active),
            outcome is Err ==> (r matches Err(e) && e == Error::Transport(outcome->Err_0)),
    {
        match outcome {
            Ok(()) => Ok(EventSubscription::attach(T::event_type())),
            Err(te) => Err(Error::Transport(te)),
        }
    }

    /// Builds the awaited unsubscribe request for a tag. Unsubscribing a
    /// tag with no active registration is not an error of this layer: the
    /// request is built all the same and the transport's answer decides.
    pub fn unsubscribe_request(&self, event: &EventType) -> (r: UnsubscribeRequest)
        ensures
            r.tag == *event,
    {
        UnsubscribeRequest { tag: *event }
    }

    /// Interprets the transport's outcome of an awaited unsubscribe.
    pub fn unsubscribe_response(&self, outcome: Result<(), TransportError>) -> (r: Result<
        (),
        Error,
    >)
        ensures
            outcome is Ok ==> r is Ok,
            outcome is Err ==> (r matches Err(e) && e == Error::Transport(outcome->Err_0)),
    {
        match outcome {
            Ok(()) => Ok(()),
            Err(te) => Err(Error::Transport(te)),
        }
    }

    /// Builds the `authorize` invocation.
    pub fn authorize_request(&self, args: &AuthorizeArgs) -> (r: InvokeRequest)
        ensures
            r.command@ == "authorize"@,
            r.args matches Some(w) && w@ == wire_of_authorize_args(args@),
    {
        InvokeRequest {
            command: "authorize".to_owned(),
            args: Some(encode_authorize_args(args)),
        }
    }

    /// Interprets the transport's outcome of a `authorize` invocation:
    /// a transport failure is surfaced as such, a response of the wrong
    /// shape as a decode error, distinctly.
    pub fn authorize_response(&self, outcome: Result<WireValue, TransportError>) -> (r: Result<
        AuthorizeRes,
        Error,
    >)
        ensures
            outcome is Err ==> (r matches Err(e) && e == Error::Transport(outcome->Err_0)),
            outcome is Ok && wf_authorize_res(outcome->Ok_0@) ==> (r matches Ok(x) && x@
                == parse_authorize_res(outcome->Ok_0@)),
            outcome is Ok && !wf_authorize_res(outcome->Ok_0@) ==> (r matches Err(e)
                && e is Decode),
    {
        match outcome {
            Ok(v) => match decode_authorize_res(&v) {
                Ok(x) => Ok(x),
                Err(d) => Err(Error::Decode(d)),
            },
            Err(te) => Err(Error::Transport(te)),
        }
    }

    /// Builds the `authenticate` invocation.
    pub fn authenticate_request(&self, args: &AuthenticateArgs) -> (r: InvokeRequest)
        ensures
            r.command@ == "authenticate"@,
            r.args matches Some(w) && w@ == wire_of_authenticate_args(args@),
    {
        InvokeRequest {
            command: "authenticate".to_owned(),
            args: Some(encode_authenticate_args(args)),
        }
    }

    /// Interprets the transport's outcome of a `authenticate` invocation:
    /// a transport failure is surfaced as such, a response of the wrong
    /// shape as a decode error, distinctly.
    pub fn authenticate_response(&self, outcome: Result<WireValue, TransportError>) -> (r: Result<
        AuthenticateRes,
        Error,
    >)
        ensures
            outcome is Err ==> (r matches Err(e) && e == Error::Transport(outcome->Err_0)),
            outcome is Ok && wf_authenticate_res(outcome->Ok_0@) ==> (r matches Ok(x) && x@
                == parse_authenticate_res(outcome->Ok_0@)),
            outcome is Ok && !wf_authenticate_res(outcome->Ok_0@) ==> (r matches Err(e)
                && e is Decode),
    {
        match outcome {
            Ok(v) => match decode_authenticate_res(&v) {
                Ok(x) => Ok(x),
                Err(d) => Err(Error::Decode(d)),
            },
            Err(te) => Err(Error::Transport(te)),
        }
    }

    /// Builds the `captureLog` invocation.
    pub fn capture_log_request(&self, args: &CaputeLogArgs) -> (r: InvokeRequest)
        ensures
            r.command@ == "captureLog"@,
            r.args matches Some(w) && w@ == wire_of_capute_log_args(args@),
    {
        InvokeRequest {
            command: "captureLog".to_owned(),
            args: Some(encode_capute_log_args(args)),
        }
    }

    /// Interprets the transport's outcome of a `captureLog` invocation.
    pub fn capture_log_response(&self, outcome: Result<(), TransportError>) -> (r: Result<
        (),
        Error,
    >)
        ensures
            outcome is Ok ==> r is Ok,
            outcome is Err ==> (r matches Err(e) && e == Error::Transport(outcome->Err_0)),
    {
        match outcome {
            Ok(()) => Ok(()),
            Err(te) => Err(Error::Transport(te)),
        }
    }

    /// Builds the `encourageHardwareAcceleration` invocation.
    pub fn encourage_hardware_acceleration_request(&self) -> (r: InvokeRequest)
        ensures
            r.command@ == "encourageHardwareAcceleration"@,
            r.args is None,
    {
        InvokeRequest { command: "encourageHardwareAcceleration".to_owned(), args: None }
    }

    /// Interprets the transport's outcome of a `encourageHardwareAcceleration` invocation.
    pub fn encourage_hardware_acceleration_response(&self, outcome: Result<(), TransportError>) -> (r: Result<
        (),
        Error,
    >)
        ensures
            outcome is Ok ==> r is Ok,
            outcome is Err ==> (r matches Err(e) && e == Error::Transport(outcome->Err_0)),
    {
        match outcome {
            Ok(()) => Ok(()),
            Err(te) => Err(Error::Transport(te)),
        }
    }

    /// Builds the `getChannel` invocation.
    pub fn get_channel_request(&self, args: &GetChannelArgs) -> (r: InvokeRequest)
        ensures
            r.command@ == "getChannel"@,
            r.args matches Some(w) && w@ == wire_of_get_channel_args(args@),
    {
        InvokeRequest {
            command: "getChannel".to_owned(),
            args: Some(encode_get_channel_args(args)),
        }
    }

    /// Interprets the transport's outcome of a `getChannel` invocation:
    /// a transport failure is surfaced as such, a response of the wrong
    /// shape as a decode error, distinctly.
    pub fn get_channel_response(&self, outcome: Result<WireValue, TransportError>) -> (r: Result<
        GetChannelRes,
        Error,
    >)
        ensures
            outcome is Err ==> (r matches Err(e) && e == Error::Transport(outcome->Err_0)),
            outcome is Ok && wf_get_channel_res(outcome->Ok_0@) ==> (r matches Ok(x) && x@
                == parse_get_channel_res(outcome->Ok_0@)),
            outcome is Ok && !wf_get_channel_res(outcome->Ok_0@) ==> (r matches Err(e)
                && e is Decode),
    {
        match outcome {
            Ok(v) => match decode_get_channel_res(&v) {
                Ok(x) => Ok(x),
                Err(d) => Err(Error::Decode(d)),
            },
            Err(te) => Err(Error::Transport(te)),
        }
    }

    /// Builds the `getChannelPermissions` invocation.
    pub fn get_channel_permissions_request(&self) -> (r: InvokeRequest)
        ensures
            r.command@ == "getChannelPermissions"@,
            r.args is None,
    {
        InvokeRequest { command: "getChannelPermissions".to_owned(), args: None }
    }

    /// Interprets the transport's outcome of a `getChannelPermissions` invocation:
    /// a transport failure is surfaced as such, a response of the wrong
    /// shape as a decode error, distinctly.
    pub fn get_channel_permissions_response(&self, outcome: Result<WireValue, TransportError>) -> (r: Result<
        GetChannelPermissionsRes,
        Error,
    >)
        ensures
            outcome is Err ==> (r matches Err(e) && e == Error::Transport(outcome->Err_0)),
            outcome is Ok && wf_get_channel_permissions_res(outcome->Ok_0@) ==> (r matches Ok(x) && x@
                == parse_get_channel_permissions_res(outcome->Ok_0@)),
            outcome is Ok && !wf_get_channel_permissions_res(outcome->Ok_0@) ==> (r matches Err(e)
                && e is Decode),
    {
        match outcome {
            Ok(v) => match decode_get_channel_permissions_res(&v) {
                Ok(x) => Ok(x),
                Err(d) => Err(Error::Decode(d)),
            },
            Err(te) => Err(Error::Transport(te)),
        }
    }

    /// Builds the `getInstanceConnectedParticipants` invocation.
    pub fn get_instance_connected_participants_request(&self) -> (r: InvokeRequest)
        ensures
            r.command@ == "getInstanceConnectedParticipants"@,
            r.args is None,
    {
        InvokeRequest { command: "getInstanceConnectedParticipants".to_owned(), args: None }
    }

    /// Interprets the transport's outcome of a `getInstanceConnectedParticipants` invocation:
    /// a transport failure is surfaced as such, a response of the wrong
    /// shape as a decode error, distinctly.
    pub fn get_instance_connected_participants_response(&self, outcome: Result<WireValue, TransportError>) -> (r: Result<
        GetInstanceConnectedParticipantsRes,
        Error,
    >)
        ensures
            outcome is Err ==> (r matches Err(e) && e == Error::Transport(outcome->Err_0)),
            outcome is Ok && wf_get_instance_connected_participants_res(outcome->Ok_0@) ==> (r matches Ok(x) && x@
                == parse_get_instance_connected_participants_res(outcome->Ok_0@)),
            outcome is Ok && !wf_get_instance_connected_participants_res(outcome->Ok_0@) ==> (r matches Err(e)
                && e is Decode),
    {
        match outcome {
            Ok(v) => match decode_get_instance_connected_participants_res(&v) {
                Ok(x) => Ok(x),
                Err(d) => Err(Error::Decode(d)),
            },
            Err(te) => Err(Error::Transport(te)),
        }
    }

    /// Builds the `getPlatformBehaviors` invocation.
    pub fn get_platform_behaviors_request(&self) -> (r: InvokeRequest)
        ensures
            r.command@ == "getPlatformBehaviors"@,
            r.args is None,
    {
        InvokeRequest { command: "getPlatformBehaviors".to_owned(), args: None }
    }

    /// Interprets the transport's outcome of a `getPlatformBehaviors` invocation:
    /// a transport failure is surfaced as such, a response of the wrong
    /// shape as a decode error, distinctly.
    pub fn get_platform_behaviors_response(&self, outcome: Result<WireValue, TransportError>) -> (r: Result<
        GetPlatformBehaviorsRes,
        Error,
    >)
        ensures
            outcome is Err ==> (r matches Err(e) && e == Error::Transport(outcome->Err_0)),
            outcome is Ok && wf_get_platform_behaviors_res(outcome->Ok_0@) ==> (r matches Ok(x) && x@
                == parse_get_platform_behaviors_res(outcome->Ok_0@)),
            outcome is Ok && !wf_get_platform_behaviors_res(outcome->Ok_0@) ==> (r matches Err(e)
                && e is Decode),
    {
        match outcome {
            Ok(v) => match decode_get_platform_behaviors_res(&v) {
                Ok(x) => Ok(x),
                Err(d) => Err(Error::Decode(d)),
            },
            Err(te) => Err(Error::Transport(te)),
        }
    }

    /// Builds the `initiateImageUpload` invocation.
    pub fn initiate_image_upload_request(&self) -> (r: InvokeRequest)
        ensures
            r.command@ == "initiateImageUpload"@,
            r.args is None,
    {
        InvokeRequest { command: "initiateImageUpload".to_owned(), args: None }
    }

    /// Interprets the transport's outcome of a `initiateImageUpload` invocation:
    /// a transport failure is surfaced as such, a response of the wrong
    /// shape as a decode error, distinctly.
    pub fn initiate_image_upload_response(&self, outcome: Result<WireValue, TransportError>) -> (r: Result<
        InitiateImageUploadRes,
        Error,
    >)
        ensures
            outcome is Err ==> (r matches Err(e) && e == Error::Transport(outcome->Err_0)),
            outcome is Ok && wf_initiate_image_upload_res(outcome->Ok_0@) ==> (r matches Ok(x) && x@
                == parse_initiate_image_upload_res(outcome->Ok_0@)),
            outcome is Ok && !wf_initiate_image_upload_res(outcome->Ok_0@) ==> (r matches Err(e)
                && e is Decode),
    {
        match outcome {
            Ok(v) => match decode_initiate_image_upload_res(&v) {
                Ok(x) => Ok(x),
                Err(d) => Err(Error::Decode(d)),
            },
            Err(te) => Err(Error::Transport(te)),
        }
    }

    /// Builds the `openExternalLink` invocation.
    pub fn open_external_link_request(&self, args: &OpenExternalLinkArgs) -> (r: InvokeRequest)
        ensures
            r.command@ == "openExternalLink"@,
            r.args matches Some(w) && w@ == wire_of_open_external_link_args(args@),
    {
        InvokeRequest {
            command: "openExternalLink".to_owned(),
            args: Some(encode_open_external_link_args(args)),
        }
    }

    /// Interprets the transport's outcome of a `openExternalLink` invocation.
    pub fn open_external_link_response(&self, outcome: Result<(), TransportError>) -> (r: Result<
        (),
        Error,
    >)
        ensures
            outcome is Ok ==> r is Ok,
            outcome is Err ==> (r matches Err(e) && e == Error::Transport(outcome->Err_0)),
    {
        match outcome {
            Ok(()) => Ok(()),
            Err(te) => Err(Error::Transport(te)),
        }
    }

    /// Builds the `openInviteDialog` invocation.
    pub fn open_invite_dialog_request(&self) -> (r: InvokeRequest)
        ensures
            r.command@ == "openInviteDialog"@,
            r.args is None,
    {
        InvokeRequest { command: "openInviteDialog".to_owned(), args: None }
    }

    /// Interprets the transport's outcome of a `openInviteDialog` invocation.
    pub fn open_invite_dialog_response(&self, outcome: Result<(), TransportError>) -> (r: Result<
        (),
        Error,
    >)
        ensures
            outcome is Ok ==> r is Ok,
            outcome is Err ==> (r matches Err(e) && e == Error::Transport(outcome->Err_0)),
    {
        match outcome {
            Ok(()) => Ok(()),
            Err(te) => Err(Error::Transport(te)),
        }
    }

    /// Builds the `openShareMomentDialog` invocation.
    pub fn open_share_moment_dialog_request(&self, args: &OpenShareMomentDialogArgs) -> (r: InvokeRequest)
        ensures
            r.command@ == "openShareMomentDialog"@,
            r.args matches Some(w) && w@ == wire_of_open_share_moment_dialog_args(args@),
    {
        InvokeRequest {
            command: "openShareMomentDialog".to_owned(),
            args: Some(encode_open_share_moment_dialog_args(args)),
        }
    }

    /// Interprets the transport's outcome of a `openShareMomentDialog` invocation.
    pub fn open_share_moment_dialog_response(&self, outcome: Result<(), TransportError>) -> (r: Result<
        (),
        Error,
    >)
        ensures
            outcome is Ok ==> r is Ok,
            outcome is Err ==> (r matches Err(e) && e == Error::Transport(outcome->Err_0)),
    {
        match outcome {
            Ok(()) => Ok(()),
            Err(te) => Err(Error::Transport(te)),
        }
    }

    /// Builds the `setActivity` invocation.
    pub fn set_activity_request(&self, args: &SetActivityArgs) -> (r: InvokeRequest)
        ensures
            r.command@ == "setActivity"@,
            r.args matches Some(w) && w@ == wire_of_set_activity_args(args@),
    {
        InvokeRequest {
            command: "setActivity".to_owned(),
            args: Some(encode_set_activity_args(args)),
        }
    }

    /// Interprets the transport's outcome of a `setActivity` invocation.
    pub fn set_activity_response(&self, outcome: Result<(), TransportError>) -> (r: Result<
        (),
        Error,
    >)
        ensures
            outcome is Ok ==> r is Ok,
            outcome is Err ==> (r matches Err(e) && e == Error::Transport(outcome->Err_0)),
    {
        match outcome {
            Ok(()) => Ok(()),
            Err(te) => Err(Error::Transport(te)),
        }
    }

    /// Builds the `setConfig` invocation.
    pub fn set_config_request(&self, args: &SetConfigArgs) -> (r: InvokeRequest)
        ensures
            r.command@ == "setConfig"@,
            r.args matches Some(w) && w@ == wire_of_set_config_args(args@),
    {
        InvokeRequest {
            command: "setConfig".to_owned(),
            args: Some(encode_set_config_args(args)),
        }
    }

    /// Interprets the transport's outcome of a `setConfig` invocation.
    pub fn set_config_response(&self, outcome: Result<(), TransportError>) -> (r: Result<
        (),
        Error,
    >)
        ensures
            outcome is Ok ==> r is Ok,
            outcome is Err ==> (r matches Err(e) && e == Error::Transport(outcome->Err_0)),
    {
        match outcome {
            Ok(()) => Ok(()),
            Err(te) => Err(Error::Transport(te)),
        }
    }

    /// Builds the `setOrientationLockState` invocation.
    pub fn set_orientation_lock_state_request(&self, args: &SetOrientationLockStateArgs) -> (r: InvokeRequest)
        ensures
            r.command@ == "setOrientationLockState"@,
            r.args matches Some(w) && w@ == wire_of_set_orientation_lock_state_args(args@),
    {
        InvokeRequest {
            command: "setOrientationLockState".to_owned(),
            args: Some(encode_set_orientation_lock_state_args(args)),
        }
    }

    /// Interprets the transport's outcome of a `setOrientationLockState` invocation.
    pub fn set_orientation_lock_state_response(&self, outcome: Result<(), TransportError>) -> (r: Result<
        (),
        Error,
    >)
        ensures
            outcome is Ok ==> r is Ok,
            outcome is Err ==> (r matches Err(e) && e == Error::Transport(outcome->Err_0)),
    {
        match outcome {
            Ok(()) => Ok(()),
            Err(te) => Err(Error::Transport(te)),
        }
    }

    /// Builds the `userSettingsGetLocale` invocation.
    pub fn user_settings_get_locale_request(&self) -> (r: InvokeRequest)
        ensures
            r.command@ == "userSettingsGetLocale"@,
            r.args is None,
    {
        InvokeRequest { command: "userSettingsGetLocale".to_owned(), args: None }
    }

    /// Interprets the transport's outcome of a `userSettingsGetLocale` invocation:
    /// a transport failure is surfaced as such, a response of the wrong
    /// shape as a decode error, distinctly.
    pub fn user_settings_get_locale_response(&self, outcome: Result<WireValue, TransportError>) -> (r: Result<
        UserSettingsGetLocaleRes,
        Error,
    >)
        ensures
            outcome is Err ==> (r matches Err(e) && e == Error::Transport(outcome->Err_0)),
            outcome is Ok && wf_user_settings_get_locale_res(outcome->Ok_0@) ==> (r matches Ok(x) && x@
                == parse_user_settings_get_locale_res(outcome->Ok_0@)),
            outcome is Ok && !wf_user_settings_get_locale_res(outcome->Ok_0@) ==> (r matches Err(e)
                && e is Decode),
    {
        match outcome {
            Ok(v) => match decode_user_settings_get_locale_res(&v) {
                Ok(x) => Ok(x),
                Err(d) => Err(Error::Decode(d)),
            },
            Err(te) => Err(Error::Transport(te)),
        }
    }
}

} // verus!
