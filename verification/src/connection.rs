//! The life of one connection: anonymous until its first login,
//! identified from then on, closed for good once its stream fails or its
//! peer hangs up.

use vstd::prelude::*;
use crate::clock::current_time_unix;
use crate::handler::{config_view, process_message, to_persist, Dispatch, Receipt};
use crate::model::PlayerId;
use crate::protocol::{outbox_view, ClientPayload, CommandView, OutboundView};
use crate::rules::{accepts, is_broadcast, is_reply, step, without_client, ServerView};
use crate::state::{is_report_of, ServerState, Tx};

verus! {

/// How far a connection has come.
#[derive(Debug, Clone, Copy, PartialEq, Eq, Structural)]
pub enum Stage {
    /// Connected, but no login has been received yet.
    Anonymous,
    /// A login has been received.
    Identified,
    /// The stream has ended; nothing more is accepted.
    Closed,
}

/// What a connection's stream delivers.
#[derive(Debug)]
pub enum Inbound {
    /// A record that decoded into a command.
    Command(ClientPayload),
    /// A record that did not decode into any command.
    Malformed,
    /// The stream failed or the peer hung up.
    Fault,
}

/// The mathematical value of an [`Inbound`].
pub enum InboundView {
    Command(CommandView),
    Malformed,
    Fault,
}

impl View for Inbound {
    type V = InboundView;

    open spec fn view(&self) -> InboundView {
        match *self {
            Inbound::Command(command) => InboundView::Command(command@),
            Inbound::Malformed => InboundView::Malformed,
            Inbound::Fault => InboundView::Fault,
        }
    }
}

/// One connection: the id it was given when it was accepted, and its stage.
#[derive(Debug)]
pub struct Connection {
    pub player_id: PlayerId,
    pub stage: Stage,
}

/// The stage of a connection after an event: a login identifies it, a
/// fault closes it, and a closed connection stays closed.
pub open spec fn stage_after(stage: Stage, event: InboundView) -> Stage {
    if stage == Stage::Closed {
        Stage::Closed
    } else {
        match event {
            InboundView::Command(command) => if command is Login {
                Stage::Identified
            } else {
                stage
            },
            InboundView::Malformed => stage,
            InboundView::Fault => Stage::Closed,
        }
    }
}

/// The session after an event on the connection of `id`: a command is
/// applied, a malformed record is dropped, and a fault takes the
/// connection's participant out. A closed connection changes nothing.
pub open spec fn session_after(
    s: ServerView,
    stage: Stage,
    id: PlayerId,
    event: InboundView,
    now: u64,
) -> ServerView {
    if stage == Stage::Closed {
        s
    } else {
        match event {
            InboundView::Command(command) => step(s, id, command, now),
            InboundView::Malformed => s,
            InboundView::Fault => without_client(s, id),
        }
    }
}

/// Whether `outbox` is what is sent after an event on the connection of
/// `id` has led from `before` to `after`: the reply to a command; after a
/// fault one last broadcast, so that the others see the departure; nothing
/// otherwise.
pub open spec fn is_sent_after(
    outbox: Seq<OutboundView>,
    before: ServerView,
    stage: Stage,
    id: PlayerId,
    event: InboundView,
    after: ServerView,
) -> bool {
    if stage == Stage::Closed {
        outbox.len() == 0
    } else {
        match event {
            InboundView::Command(command) => is_reply(outbox, before, id, command, after),
            InboundView::Malformed => outbox.len() == 0,
            InboundView::Fault => is_broadcast(outbox, after),
        }
    }
}

/// Whether a broadcast follows the event.
pub open spec fn broadcast_after(s: ServerView, stage: Stage, id: PlayerId, event: InboundView) -> bool {
    stage != Stage::Closed && match event {
        InboundView::Command(command) => accepts(s, id, command),
        InboundView::Malformed => false,
        InboundView::Fault => true,
    }
}

/// The configuration to store after the event, if any.
pub open spec fn persist_after(
    s: ServerView,
    stage: Stage,
    id: PlayerId,
    event: InboundView,
) -> Option<crate::model::ConfigView> {
    if stage == Stage::Closed {
        None
    } else {
        match event {
            InboundView::Command(command) => to_persist(s, id, command),
            _ => None,
        }
    }
}

/// The bits of an id that hold the version and the variant of a UUID: the
/// upper half of its seventh byte and the two highest bits of its ninth.
pub const UUID_KIND_MASK: u128 = 0x0000_0000_0000_f000_c000_0000_0000_0000;

/// What those bits hold in a UUID that was drawn at random: version 4 of
/// the variant that RFC 9562 lays down.
pub const UUID_RANDOM_KIND: u128 = 0x0000_0000_0000_4000_8000_0000_0000_0000;

/// Whether the id is a UUID of the kind that is drawn at random. All its
/// other bits are free.
pub open spec fn is_random_uuid(id: PlayerId) -> bool {
    id & UUID_KIND_MASK == UUID_RANDOM_KIND
}

/// A fresh id, by `uuid::Uuid::new_v4`, read as a number by
/// `Uuid::as_u128`.
///
/// Trusted: `new_v4` draws 128 bits at random and then sets the version to
/// 4 and the variant to that of RFC 9562, and `as_u128` reads the bytes
/// with the first as the highest. Nothing is claimed of the bits that are
/// drawn.
#[verifier::external_body]
fn fresh_player_id() -> (id: PlayerId)
    ensures
        is_random_uuid(id),
{
    uuid::Uuid::new_v4().as_u128()
}

impl Connection {
    /// A connection that has just been accepted, under the given id.
    pub fn open(player_id: PlayerId) -> (connection: Connection)
        ensures
            connection.player_id == player_id,
            connection.stage == Stage::Anonymous,
    {
        Connection { player_id, stage: Stage::Anonymous }
    }

    /// A connection that has just been accepted, under a fresh id: a UUID
    /// drawn at random.
    pub fn accept() -> (connection: Connection)
        ensures
            connection.stage == Stage::Anonymous,
            is_random_uuid(connection.player_id),
    {
        Connection::open(fresh_player_id())
    }

    /// Whether the connection has ended.
    pub fn is_closed(&self) -> (closed: bool)
        ensures
            closed == (self.stage == Stage::Closed),
    {
        matches!(self.stage, Stage::Closed)
    }

    /// Takes one event from the connection's stream, as received at time
    /// `now`, and says what is to be sent, without sending it. The
    /// connection's viewer is reached on the queue `tx`.
    pub fn process_event(
        &mut self,
        state: &mut ServerState,
        event: Inbound,
        tx: &Tx,
        now: u64,
    ) -> (dispatch: Dispatch)
        ensures
            final(self).player_id == old(self).player_id,
            final(self).stage == stage_after(old(self).stage, event@),
            final(state)@ == session_after(
                old(state)@,
                old(self).stage,
                old(self).player_id,
                event@,
                now,
            ),
            dispatch.broadcast == broadcast_after(
                old(state)@,
                old(self).stage,
                old(self).player_id,
                event@,
            ),
            is_sent_after(
                outbox_view(dispatch.outbox@),
                old(state)@,
                old(self).stage,
                old(self).player_id,
                event@,
                final(state)@,
            ),
            config_view(dispatch.persist) == persist_after(
                old(state)@,
                old(self).stage,
                old(self).player_id,
                event@,
            ),
    {
        if self.is_closed() {
            return Dispatch { broadcast: false, outbox: Vec::new(), persist: None };
        }
        match event {
            Inbound::Command(command) => {
                if matches!(command, ClientPayload::Login { .. }) {
                    self.stage = Stage::Identified;
                }
                process_message(self.player_id, command, state, tx, now)
            },
            Inbound::Malformed => Dispatch { broadcast: false, outbox: Vec::new(), persist: None },
            Inbound::Fault => {
                self.stage = Stage::Closed;
                state.remove_client(self.player_id);
                let outbox = state.state_updates();
                Dispatch { broadcast: true, outbox, persist: None }
            },
        }
    }

    /// Takes one event from the connection's stream, as received now by
    /// the system clock, as [`Connection::process_event`] does, and puts
    /// what is due on the viewers' queues.
    pub fn on_event(&mut self, state: &mut ServerState, event: Inbound, tx: &Tx) -> (receipt: Receipt)
        ensures
            final(self).player_id == old(self).player_id,
            final(self).stage == stage_after(old(self).stage, event@),
            exists|now: u64|
                final(state)@ == #[trigger] session_after(
                    old(state)@,
                    old(self).stage,
                    old(self).player_id,
                    event@,
                    now,
                ),
            receipt.broadcast == broadcast_after(
                old(state)@,
                old(self).stage,
                old(self).player_id,
                event@,
            ),
            exists|outbox: Seq<OutboundView>|
                {
                    &&& #[trigger] is_sent_after(
                        outbox,
                        old(state)@,
                        old(self).stage,
                        old(self).player_id,
                        event@,
                        final(state)@,
                    )
                    &&& is_report_of(receipt.deliveries@, outbox, final(state)@.clients)
                },
            config_view(receipt.persist) == persist_after(
                old(state)@,
                old(self).stage,
                old(self).player_id,
                event@,
            ),
    {
        let now = current_time_unix();
        let dispatch = self.process_event(state, event, tx, now);
        let deliveries = state.deliver(dispatch.outbox);
        Receipt { broadcast: dispatch.broadcast, deliveries, persist: dispatch.persist }
    }
}

} // verus!
