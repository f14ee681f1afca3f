use vstd::prelude::*;

use crate::errors::{Error, LifecycleError, TransportError};
use crate::events::{decode_event, parse_event, wf_event, EventBody, EventType};
use crate::wire::WireValue;

verus! {

/// Where a subscription handle stands in its lifecycle.
///
/// `Active` is the state of a handle a successful subscribe returned.
/// An explicit, awaited unsubscribe moves it to `Unsubscribed`; releasing
/// it moves it to `Released`, the terminal state, after firing at most one
/// best-effort unsubscribe request.
#[derive(Debug, Clone, Copy, PartialEq, Eq, Structural)]
pub enum SubscriptionState {
    Active,
    Unsubscribed,
    Released,
}

/// A transport request asking that `tag` no longer be delivered.
#[derive(Debug, Clone, Copy, PartialEq, Eq, Structural)]
pub struct UnsubscribeRequest {
    pub tag: EventType,
}

/// An owned, scope-bound subscription: the tag it was registered under and
/// its teardown obligation. A successful subscribe creates it `Active`;
/// it must be torn down exactly once, either by the explicit, awaited
/// unsubscribe or by `release`.
#[derive(Debug, Clone, PartialEq)]
pub struct EventSubscription {
    tag: EventType,
    state: SubscriptionState,
}

/// The mathematical view of an [`EventSubscription`].
#[verifier::ext_equal]
pub struct SubscriptionView {
    pub tag: EventType,
    pub state: SubscriptionState,
}

impl View for EventSubscription {
    type V = SubscriptionView;

    closed spec fn view(&self) -> SubscriptionView {
        SubscriptionView { tag: self.tag, state: self.state }
    }
}

/// What releasing a handle does: from `Active` it moves to `Released` and
/// fires one best-effort unsubscribe request for its tag; from any other
/// state it moves to `Released` and fires nothing.
pub open spec fn spec_release(s: SubscriptionView) -> (SubscriptionView, Option<EventType>) {
    match s.state {
        SubscriptionState::Active => (
            SubscriptionView { tag: s.tag, state: SubscriptionState::Released },
            Some(s.tag),
        ),
        SubscriptionState::Unsubscribed => (
            SubscriptionView { tag: s.tag, state: SubscriptionState::Released },
            None,
        ),
        SubscriptionState::Released => (s, None),
    }
}

/// What an explicit unsubscribe may do: only an `Active` handle is allowed
/// to reach the transport; any other state is answered by a lifecycle
/// error, without a transport call.
pub open spec fn spec_unsubscribe_decision(s: SubscriptionView) -> Option<EventType> {
    if s.state is Active {
        Some(s.tag)
    } else {
        None
    }
}

impl EventSubscription {
    /// A fresh handle for `tag`, in the `Active` state.
    pub(crate) fn attach(tag: EventType) -> (r: EventSubscription)
        ensures
            r@.tag == tag,
            r@.state is Active,
    {
        EventSubscription { tag, state: SubscriptionState::Active }
    }

    /// The tag this handle was registered under.
    pub fn event_type(&self) -> (r: EventType)
        ensures
            r == self@.tag,
    {
        self.tag
    }

    /// Where the handle stands in its lifecycle.
    pub fn state(&self) -> (r: SubscriptionState)
        ensures
            r == self@.state,
    {
        self.state
    }

    /// True exactly while the transport may still deliver to this handle.
    pub fn is_active(&self) -> (r: bool)
        ensures
            r == (self@.state is Active),
    {
        match self.state {
            SubscriptionState::Active => true,
            _ => false,
        }
    }

    /// Releases the handle: the teardown that must run on every exit path.
    ///
    /// From `Active` it returns the one best-effort unsubscribe request to
    /// fire, without waiting for acknowledgement; errors of that request
    /// are deliberately discarded, there being no caller left to receive
    /// them. From any other state it returns nothing: a second release is
    /// a no-op and never duplicates the request.
    pub fn release(&mut self) -> (r: Option<UnsubscribeRequest>)
        ensures
            final(self)@ == spec_release(old(self)@).0,
            (match r {
                Some(req) => Some(req.tag),
                None => None,
            }) == spec_release(old(self)@).1,
    {
        match self.state {
            SubscriptionState::Active => {
                self.state = SubscriptionState::Released;
                Some(UnsubscribeRequest { tag: self.tag })
            },
            SubscriptionState::Unsubscribed => {
                self.state = SubscriptionState::Released;
                None
            },
            SubscriptionState::Released => None,
        }
    }

    /// Begins the explicit, awaited unsubscribe: the transport request to
    /// perform, or a lifecycle error if the handle was already torn down —
    /// in that case no transport call is made.
    pub fn unsubscribe_request(&self) -> (r: Result<UnsubscribeRequest, Error>)
        ensures
            (match r {
                Ok(req) => Some(req.tag),
                Err(_) => None,
            }) == spec_unsubscribe_decision(self@),
            r matches Err(e) ==> e is Lifecycle,
    {
        match self.state {
            SubscriptionState::Active => Ok(UnsubscribeRequest { tag: self.tag }),
            _ => Err(
                Error::Lifecycle(
                    LifecycleError { released: self.state == SubscriptionState::Released },
                ),
            ),
        }
    }

    /// Completes the explicit unsubscribe with the transport's outcome.
    ///
    /// On success the handle is `Unsubscribed`; a transport failure is
    /// surfaced and leaves the handle `Active`, so the teardown obligation
    /// stands. On a handle already torn down the outcome is discarded and
    /// a lifecycle error returned.
    pub fn unsubscribe_complete(&mut self, outcome: Result<(), TransportError>) -> (r: Result<
        (),
        Error,
    >)
        ensures
            final(self)@.tag == old(self)@.tag,
            old(self)@.state is Active && outcome is Ok ==> final(self)@.state
                is Unsubscribed && r is Ok,
            outcome is Err && old(self)@.state is Active ==> (r matches Err(e) && e
                == Error::Transport(outcome->Err_0) && final(self)@.state is Active),
            !(old(self)@.state is Active) ==> (r matches Err(e) && e is Lifecycle
                && final(self)@.state == old(self)@.state),
    {
        match self.state {
            SubscriptionState::Active => {
                match outcome {
                    Ok(()) => {
                        self.state = SubscriptionState::Unsubscribed;
                        Ok(())
                    },
                    Err(te) => Err(Error::Transport(te)),
                }
            },
            _ => Err(
                Error::Lifecycle(
                    LifecycleError { released: self.state == SubscriptionState::Released },
                ),
            ),
        }
    }
}

/// The outcome of dispatching one incoming event: either the decoded
/// payload, to hand to the caller's handler, or an error report routed to
/// the same channel command errors use.
#[derive(Debug, Clone, PartialEq)]
pub enum DispatchOutcome {
    Deliver(EventBody),
    Report(Error),
}

/// The boundary callback's decision for one incoming payload of `sub`'s
/// tag.
///
/// A payload of the wrong shape is turned into a reported decode error on
/// the ordinary error channel: it cannot abort the dispatch path, which
/// returns a value on every input, and it cannot tear anything down — the
/// handle is only read, so it and every other subscription keep their
/// state.
pub fn dispatch_event(sub: &EventSubscription, raw: &WireValue) -> (r: DispatchOutcome)
    ensures
        wf_event(sub@.tag, raw@) ==> (r matches DispatchOutcome::Deliver(b) && b@ == parse_event(
            sub@.tag,
            raw@,
        ) && b.spec_tag() == sub@.tag),
        !wf_event(sub@.tag, raw@) ==> (r matches DispatchOutcome::Report(e) && e is Decode),
{
    let tag = sub.event_type();
    match decode_event(&tag, raw) {
        Ok(body) => DispatchOutcome::Deliver(body),
        Err(d) => DispatchOutcome::Report(Error::Decode(d)),
    }
}

/// For every tag: a handle fresh from a successful subscribe, released,
/// issues exactly one unsubscribe request, and for that tag; releasing it
/// again issues none.
pub proof fn lemma_release_exactly_once(tag: EventType)
    ensures
        ({
            let fresh = SubscriptionView { tag, state: SubscriptionState::Active };
            let (once, first) = spec_release(fresh);
            let (again, second) = spec_release(once);
            &&& first == Some(tag)
            &&& second is None
            &&& once.state is Released
            &&& again.state is Released
        }),
{
}

/// An explicit unsubscribe after the handle was released is answered by a
/// lifecycle error and reaches no transport: the decision yields no
/// request, whatever the tag.
pub proof fn lemma_unsubscribe_after_release(tag: EventType)
    ensures
        ({
            let fresh = SubscriptionView { tag, state: SubscriptionState::Active };
            let (released, _) = spec_release(fresh);
            spec_unsubscribe_decision(released) is None
        }),
{
}

} // verus!
