//! The connection handler's decision logic.
//!
//! One handler drives exactly one accepted connection's bidirectional line
//! flow against the hub: inbound lines are published, hub deliveries from
//! other origins are written out, the handler's own envelopes are discarded,
//! and any transport failure or hub closure moves the handler towards
//! `Closed`. The surrounding task — the transport reads and writes and the
//! wait for the next hub delivery — lives outside this crate; it feeds every
//! observed event through [`handler_step`] and performs the action returned.

use vstd::prelude::*;

use crate::hub::EnvModel;
use crate::hub::Receive;
use crate::hub::ReceiveModel;

verus! {

/// Lifecycle of one connection handler.
#[derive(Clone, Copy, PartialEq, Eq, Structural, Debug)]
pub enum HandlerState {
    /// The connection is live: lines flow in both directions.
    Active,
    /// A transport failure, end-of-stream or hub closure was observed; the
    /// transport and the subscription are to be released.
    Terminating,
    /// The handler is finished; it holds no resources.
    Closed,
}

/// One event a handler's task can observe.
pub enum HandlerEvent {
    /// One line was read from this connection's transport.
    InboundLine(String),
    /// The transport reached end-of-stream or failed on read.
    InboundEnd,
    /// The handler's hub cursor was polled and yielded this outcome.
    Delivery(Receive),
    /// Writing to this connection's transport failed.
    WriteFailed,
}

/// Mathematical model of a [`HandlerEvent`].
pub enum EventModel {
    InboundLine(Seq<char>),
    InboundEnd,
    Delivery(ReceiveModel),
    WriteFailed,
}

impl View for HandlerEvent {
    type V = EventModel;

    open spec fn view(&self) -> EventModel {
        match self {
            HandlerEvent::InboundLine(l) => EventModel::InboundLine(l@),
            HandlerEvent::InboundEnd => EventModel::InboundEnd,
            HandlerEvent::Delivery(r) => EventModel::Delivery(r@),
            HandlerEvent::WriteFailed => EventModel::WriteFailed,
        }
    }
}

/// What the handler's task must do next.
pub enum HandlerAction {
    /// Publish this line, paired with the handler's own identity, to the hub.
    Publish(String),
    /// Write this text as one line to this connection's transport.
    WriteLine(String),
    /// Nothing to do; re-enter the event loop.
    Continue,
    /// Release the transport, drop the hub subscription, note the disconnect
    /// in the operator log, and end the task.
    Stop,
}

/// Mathematical model of a [`HandlerAction`].
pub enum ActionModel {
    Publish(Seq<char>),
    WriteLine(Seq<char>),
    Continue,
    Stop,
}

impl View for HandlerAction {
    type V = ActionModel;

    open spec fn view(&self) -> ActionModel {
        match self {
            HandlerAction::Publish(l) => ActionModel::Publish(l@),
            HandlerAction::WriteLine(l) => ActionModel::WriteLine(l@),
            HandlerAction::Continue => ActionModel::Continue,
            HandlerAction::Stop => ActionModel::Stop,
        }
    }
}

/// The handler's transition function, as one mathematical step:
/// from state and observed event to next state and action.
///
/// In `Active`:
/// - an inbound line is published under the handler's own identity;
/// - a delivered envelope from another origin is written out; one from the
///   handler's own origin is discarded (the self-filter);
/// - `Lagged` is absorbed silently and `Pending` just re-enters the loop;
/// - end-of-stream, a read or write failure, or hub closure moves the
///   handler to `Terminating`.
///
/// `Terminating` releases its resources and becomes `Closed`; `Closed` is
/// final.
pub open spec fn step_model(st: HandlerState, self_id: u64, ev: EventModel) -> (HandlerState,
    ActionModel) {
    match st {
        HandlerState::Active => match ev {
            EventModel::InboundLine(l) => (HandlerState::Active, ActionModel::Publish(l)),
            EventModel::InboundEnd => (HandlerState::Terminating, ActionModel::Stop),
            EventModel::Delivery(r) => match r {
                ReceiveModel::Msg(e) => if e.origin == self_id {
                    (HandlerState::Active, ActionModel::Continue)
                } else {
                    (HandlerState::Active, ActionModel::WriteLine(e.text))
                },
                ReceiveModel::Lagged(_) => (HandlerState::Active, ActionModel::Continue),
                ReceiveModel::Pending => (HandlerState::Active, ActionModel::Continue),
                ReceiveModel::Closed => (HandlerState::Terminating, ActionModel::Stop),
            },
            EventModel::WriteFailed => (HandlerState::Terminating, ActionModel::Stop),
        },
        HandlerState::Terminating => (HandlerState::Closed, ActionModel::Stop),
        HandlerState::Closed => (HandlerState::Closed, ActionModel::Continue),
    }
}

/// Drive one handler step: the executable transition function.
///
/// `self_id` is this connection's identity; the returned pair is the
/// handler's next state and the action its task must perform.
pub fn handler_step(st: HandlerState, self_id: u64, ev: HandlerEvent) -> (r: (
    HandlerState,
    HandlerAction,
))
    ensures
        (r.0, r.1@) == step_model(st, self_id, ev@),
{
    match st {
        HandlerState::Active => match ev {
            HandlerEvent::InboundLine(l) => (HandlerState::Active, HandlerAction::Publish(l)),
            HandlerEvent::InboundEnd => (HandlerState::Terminating, HandlerAction::Stop),
            HandlerEvent::Delivery(r) => match r {
                Receive::Msg(e) => if e.origin == self_id {
                    (HandlerState::Active, HandlerAction::Continue)
                } else {
                    (HandlerState::Active, HandlerAction::WriteLine(e.text))
                },
                Receive::Lagged(_) => (HandlerState::Active, HandlerAction::Continue),
                Receive::Pending => (HandlerState::Active, HandlerAction::Continue),
                Receive::Closed => (HandlerState::Terminating, HandlerAction::Stop),
            },
            HandlerEvent::WriteFailed => (HandlerState::Terminating, HandlerAction::Stop),
        },
        HandlerState::Terminating => (HandlerState::Closed, HandlerAction::Stop),
        HandlerState::Closed => (HandlerState::Closed, HandlerAction::Continue),
    }
}

/// Allocate the identity for a newly accepted connection: the counter's
/// current value becomes the connection's identity and the counter moves
/// past it — so as long as every identity is drawn from one counter, no two
/// connections ever share one.
pub fn fresh_identity(counter: &mut u64) -> (id: u64)
    requires
        *old(counter) < u64::MAX,
    ensures
        id == *old(counter),
        *final(counter) == *old(counter) + 1,
{
    let id = *counter;
    *counter = *counter + 1;
    id
}

/// The action a handler in `Active` takes on one cursor outcome.
pub open spec fn delivery_action(self_id: u64, r: ReceiveModel) -> ActionModel {
    step_model(HandlerState::Active, self_id, EventModel::Delivery(r)).1
}

} // verus!
