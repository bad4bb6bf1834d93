//! Resolving the device's position exactly once.
//!
//! A position request answers through one of two callbacks, and a device may
//! call both, or one of them twice. [`LocationResolver`] stands between
//! those callbacks and the one task that waits for the answer: the first
//! callback settles it and hands the outcome to a one-shot channel, every
//! later one is ignored.

use crate::decimal::Decimal;
use futures::channel::oneshot::{Canceled, Receiver, Sender};
use vstd::prelude::*;

verus! {

/// The sending half of a `futures` one-shot channel. Nothing of its inside is
/// visible to the proofs.
#[verifier::external_type_specification]
#[verifier::external_body]
#[verifier::reject_recursive_types(T)]
pub struct ExSender<T>(Sender<T>);

/// The receiving half of a `futures` one-shot channel, the future that the
/// waiting task awaits. Nothing of its inside is visible to the proofs.
#[verifier::external_type_specification]
#[verifier::external_body]
#[verifier::reject_recursive_types(T)]
pub struct ExReceiver<T>(Receiver<T>);

/// What awaiting a [`Receiver`] yields when its sender was dropped without
/// sending. Only named here; the library never makes or reads one.
#[verifier::external_type_specification]
#[verifier::external_body]
pub struct ExCanceled(Canceled);

/// `futures::channel::oneshot::channel` makes the two halves of a fresh
/// channel. Nothing is claimed of them.
pub assume_specification<T>[ futures::channel::oneshot::channel::<T> ]() -> (halves: (
    Sender<T>,
    Receiver<T>,
));

/// `futures::channel::oneshot::Sender::send` consumes the sender. It returns
/// `Ok(())` when the value was stored for the receiver, and gives the value
/// back in `Err` when the receiver was dropped or closed before. Which of
/// the two happens depends on the other half, so only the second fact is
/// claimed: a value that comes back is the value that was sent.
pub assume_specification<T>[ Sender::<T>::send ](sender: Sender<T>, t: T) -> (sent: Result<(), T>)
    ensures
        sent matches Err(back) ==> back == t,
;

/// A position, each part in units of 1e-7 degrees.
#[derive(Clone, Copy, Debug, PartialEq, Eq, Structural)]
pub struct Coordinates {
    pub latitude: Decimal,
    pub longitude: Decimal,
}

/// Why no position could be had.
#[derive(Clone, Copy, Debug, PartialEq, Eq, Structural)]
pub enum LocationErrorKind {
    /// The device has no position capability at all.
    Unsupported,
    /// The user, or a policy, refused the request.
    PermissionDenied,
    /// The device could not determine a position.
    Unavailable,
    /// The device gave up before it had a position.
    Timeout,
}

/// The one result of a position request.
#[derive(Clone, Copy, Debug, PartialEq, Eq, Structural)]
pub enum ResolutionOutcome {
    Success(Coordinates),
    Failure(LocationErrorKind),
}

/// One invocation of one of the two callbacks of a position request.
#[derive(Clone, Copy, Debug, PartialEq, Eq, Structural)]
pub enum DeviceCallback {
    /// The success callback, with the position that the device reports.
    Position(Coordinates),
    /// The failure callback, with the numeric code that the device reports.
    Error(u16),
}

/// What one call of [`LocationResolver::settle`] did.
#[derive(Clone, Copy, Debug, PartialEq, Eq, Structural)]
pub enum Settlement {
    /// The outcome settled the resolver and awaits the receiver.
    Delivered,
    /// The outcome settled the resolver, but the receiver is gone.
    Abandoned,
    /// The resolver was settled before; nothing changed.
    Ignored,
}

/// The device's code for a refused request.
pub const PERMISSION_DENIED: u16 = 1;

/// The device's code for a position that cannot be determined.
pub const POSITION_UNAVAILABLE: u16 = 2;

/// The device's code for a request that ran out of time.
pub const TIMEOUT: u16 = 3;

/// The kind of failure that a device's error code stands for. A code that
/// the device should not report counts as an unavailable position.
pub open spec fn kind_of_code(code: u16) -> LocationErrorKind {
    if code == PERMISSION_DENIED {
        LocationErrorKind::PermissionDenied
    } else if code == TIMEOUT {
        LocationErrorKind::Timeout
    } else {
        LocationErrorKind::Unavailable
    }
}

/// The outcome that a callback carries.
pub open spec fn outcome_of(callback: DeviceCallback) -> ResolutionOutcome {
    match callback {
        DeviceCallback::Position(coordinates) => ResolutionOutcome::Success(coordinates),
        DeviceCallback::Error(code) => ResolutionOutcome::Failure(kind_of_code(code)),
    }
}

/// What a resolver holds after `outcome` arrives: the outcome if nothing
/// was held, what was held otherwise.
pub open spec fn settled_with(
    held: Option<ResolutionOutcome>,
    outcome: ResolutionOutcome,
) -> Option<ResolutionOutcome> {
    if held is None {
        Some(outcome)
    } else {
        held
    }
}

/// What a resolver holds after the callbacks of `callbacks` fired in order.
pub open spec fn after_callbacks(
    held: Option<ResolutionOutcome>,
    callbacks: Seq<DeviceCallback>,
) -> Option<ResolutionOutcome>
    decreases callbacks.len(),
{
    if callbacks.len() == 0 {
        held
    } else {
        settled_with(after_callbacks(held, callbacks.drop_last()), outcome_of(callbacks.last()))
    }
}

impl LocationErrorKind {
    /// The kind of failure that a device's error code stands for.
    pub fn from_code(code: u16) -> (kind: LocationErrorKind)
        ensures
            kind == kind_of_code(code),
    {
        if code == PERMISSION_DENIED {
            LocationErrorKind::PermissionDenied
        } else if code == TIMEOUT {
            LocationErrorKind::Timeout
        } else {
            LocationErrorKind::Unavailable
        }
    }
}

impl Settlement {
    /// What settling did, by what sending the outcome returned: delivered
    /// when the channel took it, abandoned when it came back.
    pub fn of_sending(sent: Result<(), ResolutionOutcome>) -> (done: Settlement)
        ensures
            sent is Ok ==> done == Settlement::Delivered,
            sent is Err ==> done == Settlement::Abandoned,
    {
        match sent {
            Ok(_) => Settlement::Delivered,
            Err(_) => Settlement::Abandoned,
        }
    }
}

impl DeviceCallback {
    /// The outcome that this callback carries.
    pub fn outcome(&self) -> (outcome: ResolutionOutcome)
        ensures
            outcome == outcome_of(*self),
    {
        match self {
            DeviceCallback::Position(coordinates) => ResolutionOutcome::Success(*coordinates),
            DeviceCallback::Error(code) => ResolutionOutcome::Failure(
                LocationErrorKind::from_code(*code),
            ),
        }
    }
}

/// The two states of a resolver: it holds the sender until the first
/// outcome arrives, and that outcome from then on.
enum Latch {
    Pending(Sender<ResolutionOutcome>),
    Settled(ResolutionOutcome),
}

/// The single-use latch of one position request: it opens once.
///
/// Its view is the outcome that settled it, `None` while it is pending.
pub struct LocationResolver {
    latch: Latch,
}

impl View for LocationResolver {
    type V = Option<ResolutionOutcome>;

    closed spec fn view(&self) -> Option<ResolutionOutcome> {
        match self.latch {
            Latch::Pending(_) => None,
            Latch::Settled(outcome) => Some(outcome),
        }
    }
}

impl LocationResolver {
    /// Opens a resolution. With the capability present the resolver is
    /// pending and the device is to be asked; without it the resolver is
    /// settled at once as unsupported, and the device is not to be asked.
    pub fn resolve(capability_present: bool) -> (opened: (
        LocationResolver,
        Receiver<ResolutionOutcome>,
    ))
        ensures
            capability_present ==> opened.0@ is None,
            !capability_present ==> opened.0@ == Some(
                ResolutionOutcome::Failure(LocationErrorKind::Unsupported),
            ),
    {
        let (sender, receiver) = futures::channel::oneshot::channel::<ResolutionOutcome>();
        let mut resolver = LocationResolver { latch: Latch::Pending(sender) };
        if !capability_present {
            resolver.settle(ResolutionOutcome::Failure(LocationErrorKind::Unsupported));
        }
        (resolver, receiver)
    }

    /// Whether no outcome has arrived yet. The device is asked for a
    /// position only while this holds.
    pub fn is_pending(&self) -> (pending: bool)
        ensures
            pending == (self@ is None),
    {
        match &self.latch {
            Latch::Pending(_) => true,
            Latch::Settled(_) => false,
        }
    }

    /// The outcome that settled this resolver, if any.
    pub fn outcome(&self) -> (outcome: Option<ResolutionOutcome>)
        ensures
            outcome == self@,
    {
        match &self.latch {
            Latch::Pending(_) => None,
            Latch::Settled(outcome) => Some(*outcome),
        }
    }

    /// Settles the resolver with `outcome` if it is pending, and sends the
    /// outcome to the receiver; does nothing if it is settled already.
    pub fn settle(&mut self, outcome: ResolutionOutcome) -> (done: Settlement)
        ensures
            final(self)@ == settled_with(old(self)@, outcome),
            done == Settlement::Ignored <==> old(self)@ is Some,
    {
        let mut latch = Latch::Settled(outcome);
        std::mem::swap(&mut self.latch, &mut latch);
        match latch {
            Latch::Pending(sender) => Settlement::of_sending(sender.send(outcome)),
            Latch::Settled(first) => {
                self.latch = Latch::Settled(first);
                Settlement::Ignored
            },
        }
    }

    /// Takes the refusal of the device to register the callbacks at all:
    /// it counts as a position that is unavailable, and settles the resolver
    /// like a callback would.
    pub fn on_registration_failure(&mut self) -> (done: Settlement)
        ensures
            final(self)@ == settled_with(
                old(self)@,
                ResolutionOutcome::Failure(LocationErrorKind::Unavailable),
            ),
            done == Settlement::Ignored <==> old(self)@ is Some,
    {
        self.settle(ResolutionOutcome::Failure(LocationErrorKind::Unavailable))
    }

    /// Takes one invocation of a callback: the first settles the resolver,
    /// every later one is ignored.
    pub fn on_callback(&mut self, callback: DeviceCallback) -> (done: Settlement)
        ensures
            final(self)@ == settled_with(old(self)@, outcome_of(callback)),
            done == Settlement::Ignored <==> old(self)@ is Some,
    {
        self.settle(callback.outcome())
    }
}

/// The first callback decides: whatever fires after it, and however often,
/// the resolver holds the first callback's outcome.
pub proof fn law_first_callback_settles(callbacks: Seq<DeviceCallback>)
    requires
        callbacks.len() > 0,
    ensures
        after_callbacks(None, callbacks) == Some(outcome_of(callbacks[0])),
    decreases callbacks.len(),
{
    let earlier = callbacks.drop_last();
    if callbacks.len() > 1 {
        law_first_callback_settles(earlier);
        assert(earlier[0] == callbacks[0]);
    } else {
        assert(after_callbacks(None, earlier) == None::<ResolutionOutcome>);
    }
}

/// Callbacks that fire after the first have no effect: with them or without
/// them the resolver holds the same outcome.
pub proof fn law_later_callbacks_change_nothing(
    callbacks: Seq<DeviceCallback>,
    later: Seq<DeviceCallback>,
)
    requires
        callbacks.len() > 0,
    ensures
        after_callbacks(None, callbacks + later) == after_callbacks(None, callbacks),
{
    law_first_callback_settles(callbacks);
    law_first_callback_settles(callbacks + later);
    assert((callbacks + later)[0] == callbacks[0]);
}

/// A settled resolver stays as it is under every sequence of callbacks.
pub proof fn law_settled_is_final(outcome: ResolutionOutcome, callbacks: Seq<DeviceCallback>)
    ensures
        after_callbacks(Some(outcome), callbacks) == Some(outcome),
    decreases callbacks.len(),
{
    if callbacks.len() > 0 {
        law_settled_is_final(outcome, callbacks.drop_last());
    }
}

} // verus!
