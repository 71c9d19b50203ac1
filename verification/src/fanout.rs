//! The fan-out engine's guarantees, stated and proved over the models.
//!
//! A [`RelayModel`] is the whole server at one instant: the hub's model plus
//! one entry per live connection, holding that handler's state and its
//! cursor position. The proof functions below state the engine's laws:
//! self-exclusion, fan-out completeness under no backlog, lag isolation and
//! disconnect isolation.

use vstd::prelude::*;

use crate::handler::ActionModel;
use crate::handler::EventModel;
use crate::handler::HandlerState;
use crate::handler::step_model;
use crate::hub::EnvModel;
use crate::hub::HubModel;
use crate::hub::ReceiveModel;
use crate::hub::next_outcome;
use crate::hub::next_pos;
use crate::hub::publish_model;

verus! {

/// One live connection: its handler's state and its cursor's position into
/// the hub's stream.
#[verifier::ext_equal]
pub struct ConnModel {
    pub state: HandlerState,
    pub pos: int,
}

/// The whole relay at one instant: the hub and every live connection,
/// keyed by connection identity.
#[verifier::ext_equal]
pub struct RelayModel {
    pub hub: HubModel,
    pub conns: Map<u64, ConnModel>,
}

impl RelayModel {
    /// Every connected handler's cursor is a valid position of the hub's
    /// history.
    pub open spec fn wf(self) -> bool {
        &&& self.hub.wf()
        &&& (forall|id: u64|
            self.conns.dom().contains(id) ==> self.hub.valid_pos(
                #[trigger] self.conns[id].pos,
            ))
    }

    /// Connection `from` publishes one line: the envelope joins the hub's
    /// history; no connection's state or cursor moves.
    pub open spec fn publish_from(self, from: u64, text: Seq<char>) -> RelayModel {
        RelayModel { hub: publish_model(self.hub, (EnvModel { text, origin: from })), ..self }
    }

    /// Connection `id` terminates: its subscription is dropped. Nothing else
    /// changes.
    pub open spec fn drop_conn(self, id: u64) -> RelayModel {
        RelayModel { conns: self.conns.remove(id), ..self }
    }

    /// What connection `id`'s next cursor read yields.
    pub open spec fn deliver_outcome(self, id: u64) -> ReceiveModel {
        next_outcome(self.hub, self.conns[id].pos)
    }

    /// Connection `id` performs one cursor read: only its own position
    /// moves.
    pub open spec fn deliver_one(self, id: u64) -> RelayModel {
        RelayModel {
            conns: self.conns.insert(
                id,
                (ConnModel { pos: next_pos(self.hub, self.conns[id].pos), ..self.conns[id] }),
            ),
            ..self
        }
    }
}

/// Publishing preserves the relay invariant: every cursor is still a valid
/// position of the grown history.
pub proof fn lemma_publish_preserves_wf(sys: RelayModel, from: u64, text: Seq<char>)
    requires
        sys.wf(),
        sys.hub.history.len() < u64::MAX,
    ensures
        sys.publish_from(from, text).wf(),
{
}

/// One cursor read preserves the relay invariant.
pub proof fn lemma_deliver_preserves_wf(sys: RelayModel, id: u64)
    requires
        sys.wf(),
        sys.conns.dom().contains(id),
    ensures
        sys.deliver_one(id).wf(),
{
}

/// Dropping a connection preserves the relay invariant.
pub proof fn lemma_drop_preserves_wf(sys: RelayModel, id: u64)
    requires
        sys.wf(),
    ensures
        sys.drop_conn(id).wf(),
{
}

/// Self-exclusion: however a connection's cursor read turns out, the handler
/// never writes one of the connection's own envelopes back to it — a
/// delivery whose origin is the handler's own identity is discarded in every
/// state.
pub proof fn lemma_self_exclusion(st: HandlerState, self_id: u64, r: ReceiveModel)
    requires
        r matches ReceiveModel::Msg(e) && e.origin == self_id,
    ensures
        !(step_model(st, self_id, EventModel::Delivery(r)).1 is WriteLine),
{
}

/// The converse of self-exclusion: the only thing a handler ever writes to
/// its connection is the text of a delivered envelope from another origin.
pub proof fn lemma_write_is_foreign(st: HandlerState, self_id: u64, ev: EventModel, t: Seq<char>)
    requires
        step_model(st, self_id, ev).1 == ActionModel::WriteLine(t),
    ensures
        ev matches EventModel::Delivery(ReceiveModel::Msg(e)) && e.origin != self_id && e.text
            == t,
{
}

/// Per-cursor FIFO: a cursor inside the buffered range receives exactly the
/// envelope at its own position and advances by one — each subscriber sees
/// envelopes in publish order.
pub proof fn lemma_per_cursor_fifo(h: HubModel, pos: int)
    requires
        h.oldest() <= pos < h.history.len(),
    ensures
        next_outcome(h, pos) == ReceiveModel::Msg(h.history[pos]),
        next_pos(h, pos) == pos + 1,
{
}

/// Fan-out completeness under no backlog: a subscriber whose cursor is
/// current when some connection publishes a message receives exactly that
/// envelope, exactly once — the read after it finds nothing further.
pub proof fn lemma_fanout_completeness(sys: RelayModel, from: u64, text: Seq<char>, other: u64)
    requires
        sys.wf(),
        sys.hub.history.len() < u64::MAX,
        sys.conns.dom().contains(other),
        sys.conns[other].pos == sys.hub.history.len(),
    ensures
        ({
            let sys2 = sys.publish_from(from, text);
            let once = sys2.deliver_one(other);
            &&& sys2.deliver_outcome(other) == ReceiveModel::Msg((EnvModel { text, origin: from }))
            &&& once.conns[other].pos == sys2.hub.history.len()
            &&& !(once.deliver_outcome(other) is Msg)
            &&& !(once.deliver_outcome(other) is Lagged)
        }),
{
}

/// Lag isolation, part one: a subscriber's cursor read — lagged or not —
/// touches only that subscriber. The hub and every other connection are left
/// exactly as they were, so another subscriber's next read is unchanged.
pub proof fn lemma_lag_isolation(sys: RelayModel, lagging: u64, other: u64)
    requires
        sys.wf(),
        sys.conns.dom().contains(lagging),
        sys.conns.dom().contains(other),
        other != lagging,
    ensures
        sys.deliver_one(lagging).hub == sys.hub,
        sys.deliver_one(lagging).conns[other] == sys.conns[other],
        sys.deliver_one(lagging).deliver_outcome(other) == sys.deliver_outcome(other),
{
}

/// Lag isolation, part two: a subscriber that stays within the buffered
/// range never observes `Lagged` and misses nothing, however far any other
/// subscriber has fallen behind.
pub proof fn lemma_no_lag_within_capacity(h: HubModel, pos: int)
    requires
        h.oldest() <= pos <= h.history.len(),
    ensures
        !(next_outcome(h, pos) is Lagged),
        pos < h.history.len() ==> next_outcome(h, pos) == ReceiveModel::Msg(h.history[pos]),
{
}

/// Disconnect isolation: one handler's termination is invisible to every
/// other connection. A terminating handler only stops; dropping its
/// subscription leaves the hub and all other connections untouched; and a
/// message published afterwards still reaches a remaining current subscriber
/// exactly as it would have before.
pub proof fn lemma_disconnect_isolation(
    sys: RelayModel,
    dead: u64,
    other: u64,
    from: u64,
    text: Seq<char>,
    ev: EventModel,
)
    requires
        sys.wf(),
        dead != other,
        sys.conns.dom().contains(other),
        sys.hub.history.len() < u64::MAX,
        sys.conns[other].pos == sys.hub.history.len(),
    ensures
        step_model(HandlerState::Terminating, dead, ev) == (HandlerState::Closed, ActionModel::Stop),
        sys.drop_conn(dead).hub == sys.hub,
        sys.drop_conn(dead).conns.dom().contains(other),
        sys.drop_conn(dead).conns[other] == sys.conns[other],
        sys.drop_conn(dead).publish_from(from, text).deliver_outcome(other) == ReceiveModel::Msg(
            (EnvModel { text, origin: from }),
        ),
{
}

} // verus!
