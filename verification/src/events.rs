use vstd::prelude::*;

use crate::codec::{
    decode_activity_instance_participants_update_event, decode_activity_layout_mode_update_event,
    decode_current_guild_member_update_event, decode_current_user_update_event, decode_error_event,
    decode_orientation_update_event, decode_ready_event, decode_speaking_start_event,
    decode_speaking_stop_event, decode_thermal_state_update_event, decode_voice_state_update_event,
    parse_activity_instance_participants_update_event, parse_activity_layout_mode_update_event,
    parse_current_guild_member_update_event, parse_current_user_update_event, parse_error_event,
    parse_orientation_update_event, parse_ready_event, parse_speaking_start_event,
    parse_speaking_stop_event, parse_thermal_state_update_event, parse_voice_state_update_event,
    wf_activity_instance_participants_update_event, wf_activity_layout_mode_update_event,
    wf_current_guild_member_update_event, wf_current_user_update_event, wf_error_event,
    wf_orientation_update_event, wf_ready_event, wf_speaking_start_event, wf_speaking_stop_event,
    wf_thermal_state_update_event, wf_voice_state_update_event,
};
use crate::errors::DecodeError;
use crate::types::{
    ActivityInstanceParticipantsUpdateEvent, ActivityInstanceParticipantsUpdateEventView,
    ActivityLayoutModeUpdateEvent, ActivityLayoutModeUpdateEventView,
    CurrentGuildMemberUpdateEvent, CurrentGuildMemberUpdateEventView, CurrentUserUpdateEvent,
    CurrentUserUpdateEventView, ErrorEvent, ErrorEventView, OrientationUpdateEvent,
    OrientationUpdateEventView, ReadyEvent, ReadyEventView, SpeakingStartEvent,
    SpeakingStartEventView, SpeakingStopEvent, SpeakingStopEventView, ThermalStateUpdateEvent,
    ThermalStateUpdateEventView, VoiceStateUpdateEvent, VoiceStateUpdateEventView,
};
use crate::wire::{WireVal, WireValue};

verus! {

/// The closed catalog of event tags. Each tag names one payload shape on
/// the wire; extending the catalog means adding one variant here, one
/// payload type, and one arm to each catalog table.
#[derive(Debug, Clone, Copy, PartialEq, Eq, Hash, Structural)]
pub enum EventType {
    Ready,
    Error,
    VoiceStateUpdate,
    SpeakingStart,
    SpeakingStop,
    ActivityLayoutModeUpdate,
    OrientationUpdate,
    CurrentUserUpdate,
    CurrentGuildMemberUpdate,
    ThermalStateUpdate,
    ActivityInstanceParticipantsUpdate,
}

/// The wire name of each event tag.
pub open spec fn spec_event_tag(t: EventType) -> Seq<char> {
    match t {
        EventType::Ready => "READY"@,
        EventType::Error => "ERROR"@,
        EventType::VoiceStateUpdate => "VOICE_STATE_UPDATE"@,
        EventType::SpeakingStart => "SPEAKING_START"@,
        EventType::SpeakingStop => "SPEAKING_STOP"@,
        EventType::ActivityLayoutModeUpdate => "ACTIVITY_LAYOUT_MODE_UPDATE"@,
        EventType::OrientationUpdate => "ORIENTATION_UPDATE"@,
        EventType::CurrentUserUpdate => "CURRENT_USER_UPDATE"@,
        EventType::CurrentGuildMemberUpdate => "CURRENT_GUILD_MEMBER_UPDATE"@,
        EventType::ThermalStateUpdate => "THERMAL_STATE_UPDATE"@,
        EventType::ActivityInstanceParticipantsUpdate => "ACTIVITY_INSTANCE_PARTICIPANTS_UPDATE"@,
    }
}

impl EventType {
    /// The tag's name as the wire carries it.
    pub fn as_str(&self) -> (r: &'static str)
        ensures
            r@ == spec_event_tag(*self),
    {
        match self {
            EventType::Ready => "READY",
            EventType::Error => "ERROR",
            EventType::VoiceStateUpdate => "VOICE_STATE_UPDATE",
            EventType::SpeakingStart => "SPEAKING_START",
            EventType::SpeakingStop => "SPEAKING_STOP",
            EventType::ActivityLayoutModeUpdate => "ACTIVITY_LAYOUT_MODE_UPDATE",
            EventType::OrientationUpdate => "ORIENTATION_UPDATE",
            EventType::CurrentUserUpdate => "CURRENT_USER_UPDATE",
            EventType::CurrentGuildMemberUpdate => "CURRENT_GUILD_MEMBER_UPDATE",
            EventType::ThermalStateUpdate => "THERMAL_STATE_UPDATE",
            EventType::ActivityInstanceParticipantsUpdate => {
                "ACTIVITY_INSTANCE_PARTICIPANTS_UPDATE"
            },
        }
    }
}

/// No two tags share a wire name: the mapping from tag to wire name is
/// injective, so a payload type can map to exactly one tag.
pub proof fn lemma_event_tag_injective(a: EventType, b: EventType)
    requires
        spec_event_tag(a) == spec_event_tag(b),
    ensures
        a == b,
{
    reveal_strlit("READY");
    reveal_strlit("ERROR");
    reveal_strlit("VOICE_STATE_UPDATE");
    reveal_strlit("SPEAKING_START");
    reveal_strlit("SPEAKING_STOP");
    reveal_strlit("ACTIVITY_LAYOUT_MODE_UPDATE");
    reveal_strlit("ORIENTATION_UPDATE");
    reveal_strlit("CURRENT_USER_UPDATE");
    reveal_strlit("CURRENT_GUILD_MEMBER_UPDATE");
    reveal_strlit("THERMAL_STATE_UPDATE");
    reveal_strlit("ACTIVITY_INSTANCE_PARTICIPANTS_UPDATE");
    assert("READY"@.len() == 5);
    assert("ERROR"@.len() == 5);
    assert("VOICE_STATE_UPDATE"@.len() == 18);
    assert("SPEAKING_START"@.len() == 14);
    assert("SPEAKING_STOP"@.len() == 13);
    assert("ACTIVITY_LAYOUT_MODE_UPDATE"@.len() == 27);
    assert("ORIENTATION_UPDATE"@.len() == 18);
    assert("CURRENT_USER_UPDATE"@.len() == 19);
    assert("CURRENT_GUILD_MEMBER_UPDATE"@.len() == 27);
    assert("THERMAL_STATE_UPDATE"@.len() == 20);
    assert("ACTIVITY_INSTANCE_PARTICIPANTS_UPDATE"@.len() == 37);
    assert("READY"@[0] != "ERROR"@[0]);
    assert("VOICE_STATE_UPDATE"@[0] != "ORIENTATION_UPDATE"@[0]);
    assert("ACTIVITY_LAYOUT_MODE_UPDATE"@[0] != "CURRENT_GUILD_MEMBER_UPDATE"@[0]);
}

/// The capability an event-payload type exposes: it declares its own tag,
/// fixed at compile time.
pub trait EventPayload {
    /// The tag this payload type is registered under.
    spec fn spec_event_type() -> EventType;

    /// Returns the tag this payload type is registered under.
    fn event_type() -> (r: EventType)
        ensures
            r == Self::spec_event_type(),
    ;
}

impl EventPayload for ReadyEvent {
    open spec fn spec_event_type() -> EventType {
        EventType::Ready
    }

    fn event_type() -> EventType {
        EventType::Ready
    }
}

impl EventPayload for ErrorEvent {
    open spec fn spec_event_type() -> EventType {
        EventType::Error
    }

    fn event_type() -> EventType {
        EventType::Error
    }
}

impl EventPayload for VoiceStateUpdateEvent {
    open spec fn spec_event_type() -> EventType {
        EventType::VoiceStateUpdate
    }

    fn event_type() -> EventType {
        EventType::VoiceStateUpdate
    }
}

impl EventPayload for SpeakingStartEvent {
    open spec fn spec_event_type() -> EventType {
        EventType::SpeakingStart
    }

    fn event_type() -> EventType {
        EventType::SpeakingStart
    }
}

impl EventPayload for SpeakingStopEvent {
    open spec fn spec_event_type() -> EventType {
        EventType::SpeakingStop
    }

    fn event_type() -> EventType {
        EventType::SpeakingStop
    }
}

impl EventPayload for ActivityLayoutModeUpdateEvent {
    open spec fn spec_event_type() -> EventType {
        EventType::ActivityLayoutModeUpdate
    }

    fn event_type() -> EventType {
        EventType::ActivityLayoutModeUpdate
    }
}

impl EventPayload for OrientationUpdateEvent {
    open spec fn spec_event_type() -> EventType {
        EventType::OrientationUpdate
    }

    fn event_type() -> EventType {
        EventType::OrientationUpdate
    }
}

impl EventPayload for CurrentUserUpdateEvent {
    open spec fn spec_event_type() -> EventType {
        EventType::CurrentUserUpdate
    }

    fn event_type() -> EventType {
        EventType::CurrentUserUpdate
    }
}

impl EventPayload for CurrentGuildMemberUpdateEvent {
    open spec fn spec_event_type() -> EventType {
        EventType::CurrentGuildMemberUpdate
    }

    fn event_type() -> EventType {
        EventType::CurrentGuildMemberUpdate
    }
}

impl EventPayload for ThermalStateUpdateEvent {
    open spec fn spec_event_type() -> EventType {
        EventType::ThermalStateUpdate
    }

    fn event_type() -> EventType {
        EventType::ThermalStateUpdate
    }
}

impl EventPayload for ActivityInstanceParticipantsUpdateEvent {
    open spec fn spec_event_type() -> EventType {
        EventType::ActivityInstanceParticipantsUpdate
    }

    fn event_type() -> EventType {
        EventType::ActivityInstanceParticipantsUpdate
    }
}

/// A decoded event payload, as one closed tagged value: one variant per
/// tag of the catalog.
#[derive(Debug, Clone, PartialEq)]
pub enum EventBody {
    Ready(ReadyEvent),
    Error(ErrorEvent),
    VoiceStateUpdate(VoiceStateUpdateEvent),
    SpeakingStart(SpeakingStartEvent),
    SpeakingStop(SpeakingStopEvent),
    ActivityLayoutModeUpdate(ActivityLayoutModeUpdateEvent),
    OrientationUpdate(OrientationUpdateEvent),
    CurrentUserUpdate(CurrentUserUpdateEvent),
    CurrentGuildMemberUpdate(CurrentGuildMemberUpdateEvent),
    ThermalStateUpdate(ThermalStateUpdateEvent),
    ActivityInstanceParticipantsUpdate(ActivityInstanceParticipantsUpdateEvent),
}

/// The mathematical view of an [`EventBody`].
#[verifier::ext_equal]
pub enum EventBodyView {
    Ready(ReadyEventView),
    Error(ErrorEventView),
    VoiceStateUpdate(VoiceStateUpdateEventView),
    SpeakingStart(SpeakingStartEventView),
    SpeakingStop(SpeakingStopEventView),
    ActivityLayoutModeUpdate(ActivityLayoutModeUpdateEventView),
    OrientationUpdate(OrientationUpdateEventView),
    CurrentUserUpdate(CurrentUserUpdateEventView),
    CurrentGuildMemberUpdate(CurrentGuildMemberUpdateEventView),
    ThermalStateUpdate(ThermalStateUpdateEventView),
    ActivityInstanceParticipantsUpdate(ActivityInstanceParticipantsUpdateEventView),
}

impl View for EventBody {
    type V = EventBodyView;

    open spec fn view(&self) -> EventBodyView {
        match self {
            EventBody::Ready(e) => EventBodyView::Ready(e@),
            EventBody::Error(e) => EventBodyView::Error(e@),
            EventBody::VoiceStateUpdate(e) => EventBodyView::VoiceStateUpdate(e@),
            EventBody::SpeakingStart(e) => EventBodyView::SpeakingStart(e@),
            EventBody::SpeakingStop(e) => EventBodyView::SpeakingStop(e@),
            EventBody::ActivityLayoutModeUpdate(e) => EventBodyView::ActivityLayoutModeUpdate(e@),
            EventBody::OrientationUpdate(e) => EventBodyView::OrientationUpdate(e@),
            EventBody::CurrentUserUpdate(e) => EventBodyView::CurrentUserUpdate(e@),
            EventBody::CurrentGuildMemberUpdate(e) => EventBodyView::CurrentGuildMemberUpdate(e@),
            EventBody::ThermalStateUpdate(e) => EventBodyView::ThermalStateUpdate(e@),
            EventBody::ActivityInstanceParticipantsUpdate(e) => {
                EventBodyView::ActivityInstanceParticipantsUpdate(e@)
            },
        }
    }
}

impl EventBody {
    /// The tag this payload belongs to.
    pub open spec fn spec_tag(self) -> EventType {
        match self {
            EventBody::Ready(_) => EventType::Ready,
            EventBody::Error(_) => EventType::Error,
            EventBody::VoiceStateUpdate(_) => EventType::VoiceStateUpdate,
            EventBody::SpeakingStart(_) => EventType::SpeakingStart,
            EventBody::SpeakingStop(_) => EventType::SpeakingStop,
            EventBody::ActivityLayoutModeUpdate(_) => EventType::ActivityLayoutModeUpdate,
            EventBody::OrientationUpdate(_) => EventType::OrientationUpdate,
            EventBody::CurrentUserUpdate(_) => EventType::CurrentUserUpdate,
            EventBody::CurrentGuildMemberUpdate(_) => EventType::CurrentGuildMemberUpdate,
            EventBody::ThermalStateUpdate(_) => EventType::ThermalStateUpdate,
            EventBody::ActivityInstanceParticipantsUpdate(_) => {
                EventType::ActivityInstanceParticipantsUpdate
            },
        }
    }

    /// Returns the tag this payload belongs to.
    pub fn tag(&self) -> (r: EventType)
        ensures
            r == self.spec_tag(),
    {
        match self {
            EventBody::Ready(_) => EventType::Ready,
            EventBody::Error(_) => EventType::Error,
            EventBody::VoiceStateUpdate(_) => EventType::VoiceStateUpdate,
            EventBody::SpeakingStart(_) => EventType::SpeakingStart,
            EventBody::SpeakingStop(_) => EventType::SpeakingStop,
            EventBody::ActivityLayoutModeUpdate(_) => EventType::ActivityLayoutModeUpdate,
            EventBody::OrientationUpdate(_) => EventType::OrientationUpdate,
            EventBody::CurrentUserUpdate(_) => EventType::CurrentUserUpdate,
            EventBody::CurrentGuildMemberUpdate(_) => EventType::CurrentGuildMemberUpdate,
            EventBody::ThermalStateUpdate(_) => EventType::ThermalStateUpdate,
            EventBody::ActivityInstanceParticipantsUpdate(_) => {
                EventType::ActivityInstanceParticipantsUpdate
            },
        }
    }
}

/// When a wire value has the payload shape that `tag` demands.
pub open spec fn wf_event(tag: EventType, v: WireVal) -> bool {
    match tag {
        EventType::Ready => wf_ready_event(v),
        EventType::Error => wf_error_event(v),
        EventType::VoiceStateUpdate => wf_voice_state_update_event(v),
        EventType::SpeakingStart => wf_speaking_start_event(v),
        EventType::SpeakingStop => wf_speaking_stop_event(v),
        EventType::ActivityLayoutModeUpdate => wf_activity_layout_mode_update_event(v),
        EventType::OrientationUpdate => wf_orientation_update_event(v),
        EventType::CurrentUserUpdate => wf_current_user_update_event(v),
        EventType::CurrentGuildMemberUpdate => wf_current_guild_member_update_event(v),
        EventType::ThermalStateUpdate => wf_thermal_state_update_event(v),
        EventType::ActivityInstanceParticipantsUpdate => {
            wf_activity_instance_participants_update_event(v)
        },
    }
}

/// The payload a well-formed wire value of `tag`'s shape denotes.
pub open spec fn parse_event(tag: EventType, v: WireVal) -> EventBodyView {
    match tag {
        EventType::Ready => EventBodyView::Ready(parse_ready_event(v)),
        EventType::Error => EventBodyView::Error(parse_error_event(v)),
        EventType::VoiceStateUpdate => EventBodyView::VoiceStateUpdate(
            parse_voice_state_update_event(v),
        ),
        EventType::SpeakingStart => EventBodyView::SpeakingStart(parse_speaking_start_event(v)),
        EventType::SpeakingStop => EventBodyView::SpeakingStop(parse_speaking_stop_event(v)),
        EventType::ActivityLayoutModeUpdate => EventBodyView::ActivityLayoutModeUpdate(
            parse_activity_layout_mode_update_event(v),
        ),
        EventType::OrientationUpdate => EventBodyView::OrientationUpdate(
            parse_orientation_update_event(v),
        ),
        EventType::CurrentUserUpdate => EventBodyView::CurrentUserUpdate(
            parse_current_user_update_event(v),
        ),
        EventType::CurrentGuildMemberUpdate => EventBodyView::CurrentGuildMemberUpdate(
            parse_current_guild_member_update_event(v),
        ),
        EventType::ThermalStateUpdate => EventBodyView::ThermalStateUpdate(
            parse_thermal_state_update_event(v),
        ),
        EventType::ActivityInstanceParticipantsUpdate => {
            EventBodyView::ActivityInstanceParticipantsUpdate(
                parse_activity_instance_participants_update_event(v),
            )
        },
    }
}

/// Decodes an incoming event payload according to its tag. The decoded
/// body always belongs to the tag it was decoded under.
pub fn decode_event(tag: &EventType, v: &WireValue) -> (r: Result<EventBody, DecodeError>)
    ensures
        r is Ok <==> wf_event(*tag, v@),
        r matches Ok(b) ==> b@ == parse_event(*tag, v@) && b.spec_tag() == *tag,
{
    match tag {
        EventType::Ready => Ok(EventBody::Ready(decode_ready_event(v)?)),
        EventType::Error => Ok(EventBody::Error(decode_error_event(v)?)),
        EventType::VoiceStateUpdate => Ok(
            EventBody::VoiceStateUpdate(decode_voice_state_update_event(v)?),
        ),
        EventType::SpeakingStart => Ok(
            EventBody::SpeakingStart(decode_speaking_start_event(v)?),
        ),
        EventType::SpeakingStop => Ok(EventBody::SpeakingStop(decode_speaking_stop_event(v)?)),
        EventType::ActivityLayoutModeUpdate => Ok(
            EventBody::ActivityLayoutModeUpdate(decode_activity_layout_mode_update_event(v)?),
        ),
        EventType::OrientationUpdate => Ok(
            EventBody::OrientationUpdate(decode_orientation_update_event(v)?),
        ),
        EventType::CurrentUserUpdate => Ok(
            EventBody::CurrentUserUpdate(decode_current_user_update_event(v)?),
        ),
        EventType::CurrentGuildMemberUpdate => Ok(
            EventBody::CurrentGuildMemberUpdate(decode_current_guild_member_update_event(v)?),
        ),
        EventType::ThermalStateUpdate => Ok(
            EventBody::ThermalStateUpdate(decode_thermal_state_update_event(v)?),
        ),
        EventType::ActivityInstanceParticipantsUpdate => Ok(
            EventBody::ActivityInstanceParticipantsUpdate(
                decode_activity_instance_participants_update_event(v)?,
            ),
        ),
    }
}

} // verus!
