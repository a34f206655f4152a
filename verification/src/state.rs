//! The session as the server holds it: the authoritative state and the
//! registry of connected viewers, with the snapshots that are sent out.

use vstd::prelude::*;
use vstd::std_specs::iter::IteratorSpec;
use std::collections::HashMap;
use tokio::sync::mpsc::Sender;
use crate::model::{
    copy_topic, default_cards, players_view, GameState, Phase, Player, PlayerId, PlayerView,
    VotingConfig,
};
use crate::protocol::{
    outbox_view, MessageView, Outbound, OutboundView, ServerPayload, ViewerSnapshot, VisibleVote,
};
use crate::rules::{
    filter, is_broadcast, reaches_each_once, visible_player, visible_vote, without_client,
    ServerView, HIDDEN_POSITION,
};

verus! {

/// The keys of a map, each once, in the order in which the map yields them.
pub fn keys_of<V>(map: &HashMap<PlayerId, V>) -> (keys: Vec<PlayerId>)
    ensures
        keys@.to_set() == map@.dom(),
        keys@.no_duplicates(),
        keys@.len() == map@.dom().len(),
{
    broadcast use vstd::std_specs::hash::group_hash_axioms;

    let mut keys: Vec<PlayerId> = Vec::new();
    let ghost all: Seq<PlayerId> = map.keys().remaining().unref();
    for key in it: map.keys()
        invariant
            all == it.seq().unref(),
            keys@ == all.take(it.index()),
    {
        keys.push(*key);
    }
    assert(keys@ =~= all);
    keys
}

/// The sending half of a bounded queue of the `tokio` crate.
#[verifier::external_type_specification]
#[verifier::external_body]
#[verifier::reject_recursive_types(T)]
pub struct ExSender<T>(tokio::sync::mpsc::Sender<T>);

/// The outbound queue of one viewer.
pub type Tx = Sender<ServerPayload>;

/// How many messages the outbound queue of a viewer is meant to hold. A
/// viewer that has fallen this far behind misses updates until it has
/// caught up.
pub const QUEUE_CAPACITY: usize = 64;

/// What became of a message.
#[derive(Debug, Clone, Copy, PartialEq, Eq, Structural)]
pub enum Fate {
    /// The viewer's queue took the message.
    Queued,
    /// The viewer's queue was full, and the message was dropped.
    Dropped,
    /// The viewer's queue was closed, and the message was dropped.
    Closed,
    /// Nobody is registered under the id, and the message was dropped.
    Unknown,
}

/// Puts the message on the queue if there is room, by `Sender::try_send`,
/// which never waits, and tells what became of it.
///
/// Trusted: the call reports that it queued the message, that the queue is
/// full, or that it is closed. Which of the three depends on the receiving
/// half and is not claimed.
#[verifier::external_body]
fn enqueue(tx: &Tx, message: ServerPayload) -> (fate: Fate)
    ensures
        fate != Fate::Unknown,
{
    match tx.try_send(message) {
        Ok(()) => Fate::Queued,
        Err(tokio::sync::mpsc::error::TrySendError::Full(_)) => Fate::Dropped,
        Err(tokio::sync::mpsc::error::TrySendError::Closed(_)) => Fate::Closed,
    }
}

/// Another handle to the same queue, by `Sender::clone`.
///
/// Trusted, with nothing claimed.
#[verifier::external_body]
fn share(tx: &Tx) -> (handle: Tx) {
    tx.clone()
}

/// What became of one message, and whom it was for.
#[derive(Debug, Clone, Copy, PartialEq, Eq)]
pub struct Delivery {
    pub to: PlayerId,
    pub fate: Fate,
}

/// Whether `report` accounts for the messages of `outbox` one by one, in
/// order: each message was handed to the queue of its viewer, unless
/// nobody in `clients` is registered under its id.
pub open spec fn is_report_of(
    report: Seq<Delivery>,
    outbox: Seq<OutboundView>,
    clients: Set<PlayerId>,
) -> bool {
    &&& report.len() == outbox.len()
    &&& forall|i: int| 0 <= i < report.len() ==> (#[trigger] report[i]).to == outbox[i].to
    &&& forall|i: int|
        0 <= i < report.len() ==> ((#[trigger] report[i]).fate == Fate::Unknown
            <==> !clients.contains(report[i].to))
}

/// The session and the registry of connected viewers.
pub struct ServerState {
    pub game_state: GameState,
    pub clients: HashMap<PlayerId, Tx>,
    /// Whether viewers are kept from seeing where the others stand while a
    /// round is open.
    pub hide_positions: bool,
}

impl View for ServerState {
    type V = ServerView;

    open spec fn view(&self) -> ServerView {
        ServerView {
            game: self.game_state@,
            clients: self.clients@.dom(),
            hide_positions: self.hide_positions,
        }
    }
}

impl ServerState {
    /// An idle session without participants, topic or votes, with the
    /// default configuration and an empty registry. Positions are shown.
    pub fn new() -> (state: ServerState)
        ensures
            state@.wf(),
            state@.game.players == Map::<PlayerId, PlayerView>::empty(),
            state@.game.phase == Phase::Idle,
            state@.game.topic.is_none(),
            state@.game.votes == Map::<PlayerId, Option<u32>>::empty(),
            state@.game.config.cards == default_cards(),
            state@.game.config.default_timeout is None,
            state@.clients == Set::<PlayerId>::empty(),
            !state@.hide_positions,
    {
        ServerState::with_config(VotingConfig::default())
    }

    /// An idle session without participants, topic or votes, with the given
    /// configuration and an empty registry. Positions are shown.
    pub fn with_config(config: VotingConfig) -> (state: ServerState)
        ensures
            state@.wf(),
            state@.game.players == Map::<PlayerId, PlayerView>::empty(),
            state@.game.phase == Phase::Idle,
            state@.game.topic.is_none(),
            state@.game.votes == Map::<PlayerId, Option<u32>>::empty(),
            state@.game.config == config@,
            state@.clients == Set::<PlayerId>::empty(),
            !state@.hide_positions,
    {
        broadcast use vstd::std_specs::hash::group_hash_axioms;

        let state = ServerState {
            game_state: GameState {
                players: HashMap::new(),
                phase: Phase::Idle,
                current_ticket: None,
                votes: HashMap::new(),
                config,
            },
            clients: HashMap::new(),
            hide_positions: false,
        };
        assert(state@.game.players =~= Map::<PlayerId, PlayerView>::empty());
        state
    }

    /// Enters `id` into the registry, with the queue on which it is to be
    /// reached.
    pub fn add_client(&mut self, id: PlayerId, tx: Tx)
        ensures
            final(self)@ == (ServerView {
                clients: old(self)@.clients.insert(id),
                ..old(self)@
            }),
    {
        broadcast use vstd::std_specs::hash::group_hash_axioms;

        self.clients.insert(id, tx);
        assert(final(self)@.clients =~= old(self)@.clients.insert(id));
    }

    /// Enters `id` into the registry, with another handle to the given
    /// queue.
    pub fn register(&mut self, id: PlayerId, tx: &Tx)
        ensures
            final(self)@ == (ServerView {
                clients: old(self)@.clients.insert(id),
                ..old(self)@
            }),
    {
        self.add_client(id, share(tx));
    }

    /// Removes `id` from the registry, from the participants and from the
    /// votes, all at once.
    pub fn remove_client(&mut self, id: PlayerId)
        ensures
            final(self)@ == without_client(old(self)@, id),
            old(self)@.wf() ==> final(self)@.wf(),
            old(self)@.registry_matches() ==> final(self)@.registry_matches(),
    {
        broadcast use vstd::std_specs::hash::group_hash_axioms;

        self.clients.remove(&id);
        self.game_state.players.remove(&id);
        self.game_state.votes.remove(&id);
        assert(final(self)@.game.players =~= old(self)@.game.players.remove(id));
        assert(final(self)@ =~= without_client(old(self)@, id));
    }

    /// Whether `id` is in the registry.
    pub fn is_registered(&self, id: PlayerId) -> (registered: bool)
        ensures
            registered == self@.clients.contains(id),
    {
        broadcast use vstd::std_specs::hash::group_hash_axioms;

        self.clients.contains_key(&id)
    }

    /// The participants as `viewer` is shown them: as they are, but for the
    /// positions of others while a round is open, where positions are to be
    /// withheld.
    pub fn visible_players(&self, viewer: PlayerId) -> (shown: HashMap<PlayerId, Player>)
        ensures
            players_view(shown@) == filter(self@, viewer).players,
    {
        broadcast use vstd::std_specs::hash::group_hash_axioms;

        let hiding = self.hide_positions && matches!(self.game_state.phase, Phase::Voting { .. });
        let ids = keys_of(&self.game_state.players);
        let mut shown: HashMap<PlayerId, Player> = HashMap::new();
        let mut i: usize = 0;
        while i < ids.len()
            invariant
                i <= ids.len(),
                hiding == (self.hide_positions && self.game_state.phase is Voting),
                ids@.to_set() == self.game_state.players@.dom(),
                forall|j: int| 0 <= j < i ==> shown@.contains_key(#[trigger] ids@[j]),
                forall|id: PlayerId| #[trigger]
                    shown@.contains_key(id) ==> self.game_state.players@.contains_key(id)
                        && shown@[id]@ == visible_player(self@, viewer, id),
            decreases ids.len() - i,
        {
            let id: PlayerId = ids[i];
            assert(ids@.to_set().contains(id));
            match self.game_state.players.get(&id) {
                Some(player) => {
                    let mut copy = player.clone();
                    if hiding && id != viewer {
                        copy.position = HIDDEN_POSITION;
                    }
                    shown.insert(id, copy);
                },
                None => {},
            }
            i += 1;
        }
        proof {
            assert forall|id: PlayerId| self.game_state.players@.contains_key(id) implies shown@.contains_key(id) by {
                assert(ids@.to_set().contains(id));
                let j = choose|j: int| 0 <= j < ids@.len() && ids@[j] == id;
                assert(shown@.contains_key(ids@[j]));
            }
            assert(players_view(shown@) =~= filter(self@, viewer).players);
        }
        shown
    }

    /// The session as `viewer` is entitled to see it. While a round is
    /// open, the values that others have voted for are withheld, and so are
    /// their positions where that is asked for; whether they have voted is
    /// always shown.
    pub fn filter_state_for(&self, viewer: PlayerId) -> (snapshot: ViewerSnapshot)
        ensures
            snapshot@ == filter(self@, viewer),
    {
        broadcast use vstd::std_specs::hash::group_hash_axioms;

        let voting = matches!(self.game_state.phase, Phase::Voting { .. });
        let ids = keys_of(&self.game_state.votes);
        let mut votes: HashMap<PlayerId, VisibleVote> = HashMap::new();
        let mut i: usize = 0;
        while i < ids.len()
            invariant
                i <= ids.len(),
                voting == (self.game_state.phase is Voting),
                ids@.to_set() == self.game_state.votes@.dom(),
                forall|j: int| 0 <= j < i ==> votes@.contains_key(#[trigger] ids@[j]),
                forall|id: PlayerId| #[trigger]
                    votes@.contains_key(id) ==> self.game_state.votes@.contains_key(id)
                        && votes@[id] == visible_vote(self@.game, viewer, id),
            decreases ids.len() - i,
        {
            let id: PlayerId = ids[i];
            assert(ids@.to_set().contains(id));
            let cast: Option<u32> = match self.game_state.votes.get(&id) {
                Some(value) => *value,
                None => None,
            };
            let shown: Option<u32> = if voting && id != viewer {
                None
            } else {
                cast
            };
            votes.insert(id, VisibleVote { has_voted: cast.is_some(), value: shown });
            i += 1;
        }
        proof {
            assert forall|id: PlayerId| self.game_state.votes@.contains_key(id) implies votes@.contains_key(id) by {
                assert(ids@.to_set().contains(id));
                let j = choose|j: int| 0 <= j < ids@.len() && ids@[j] == id;
                assert(votes@.contains_key(ids@[j]));
            }
            assert(votes@ =~= filter(self@, viewer).votes);
        }
        ViewerSnapshot {
            players: self.visible_players(viewer),
            phase: self.game_state.phase,
            current_ticket: copy_topic(&self.game_state.current_ticket),
            votes,
            config: self.game_state.config.clone(),
        }
    }

    /// One copy of the message for every registered viewer.
    pub fn copies_for_all(&self, msg: &ServerPayload) -> (outbox: Vec<Outbound>)
        ensures
            reaches_each_once(outbox_view(outbox@), self@.clients),
            forall|i: int| 0 <= i < outbox@.len() ==> (#[trigger] outbox@[i]).message@ == msg@,
    {
        broadcast use vstd::std_specs::hash::group_hash_axioms;

        let ids = keys_of(&self.clients);
        let mut outbox: Vec<Outbound> = Vec::new();
        let mut i: usize = 0;
        while i < ids.len()
            invariant
                i <= ids.len(),
                outbox@.len() == i,
                forall|j: int|
                    0 <= j < i ==> (#[trigger] outbox@[j]).to == ids@[j] && outbox@[j].message@
                        == msg@,
            decreases ids.len() - i,
        {
            outbox.push(Outbound { to: ids[i], message: msg.clone() });
            i += 1;
        }
        proof {
            let sent = outbox_view(outbox@);
            assert forall|j: int| 0 <= j < sent.len() implies sent[j].to == ids@[j] by {
                assert(sent[j] == outbox@[j]@);
            }
            assert forall|j: int| 0 <= j < sent.len() implies self@.clients.contains(
                #[trigger] sent[j].to,
            ) by {
                assert(ids@.to_set().contains(ids@[j]));
            }
            assert forall|id: PlayerId| self@.clients.contains(id) implies exists|j: int|
                0 <= j < sent.len() && (#[trigger] sent[j]).to == id by {
                assert(ids@.to_set().contains(id));
                let j = choose|j: int| 0 <= j < ids@.len() && ids@[j] == id;
                assert(sent[j].to == id);
            }
        }
        outbox
    }

    /// One update for every registered viewer, each holding the session as
    /// that viewer is entitled to see it.
    pub fn state_updates(&self) -> (outbox: Vec<Outbound>)
        ensures
            is_broadcast(outbox_view(outbox@), self@),
    {
        broadcast use vstd::std_specs::hash::group_hash_axioms;

        let ids = keys_of(&self.clients);
        let mut outbox: Vec<Outbound> = Vec::new();
        let mut i: usize = 0;
        while i < ids.len()
            invariant
                i <= ids.len(),
                outbox@.len() == i,
                forall|j: int|
                    0 <= j < i ==> (#[trigger] outbox@[j])@ == (OutboundView {
                        to: ids@[j],
                        message: MessageView::StateUpdate(
                            filter(self@, ids@[j]),
                        ),
                    }),
            decreases ids.len() - i,
        {
            let id: PlayerId = ids[i];
            let snapshot = self.filter_state_for(id);
            outbox.push(Outbound { to: id, message: ServerPayload::StateUpdate(snapshot) });
            i += 1;
        }
        proof {
            let sent = outbox_view(outbox@);
            assert(sent.len() == ids@.len());
            assert forall|j: int| 0 <= j < sent.len() implies sent[j].to == ids@[j]
                && sent[j].message == MessageView::StateUpdate(
                filter(self@, ids@[j]),
            ) by {
                assert(sent[j] == outbox@[j]@);
            }
            assert forall|j: int| 0 <= j < sent.len() implies self@.clients.contains(
                #[trigger] sent[j].to,
            ) by {
                assert(ids@.to_set().contains(ids@[j]));
            }
            assert forall|id: PlayerId| self@.clients.contains(id) implies exists|j: int|
                0 <= j < sent.len() && (#[trigger] sent[j]).to == id by {
                assert(ids@.to_set().contains(id));
                let j = choose|j: int| 0 <= j < ids@.len() && ids@[j] == id;
                assert(sent[j].to == id);
            }
        }
        outbox
    }

    /// Puts every message on the queue of the viewer it is for, in order,
    /// and reports on each. Nothing here ever waits. A message is dropped
    /// where its viewer's queue is full or closed, or where nobody is
    /// registered under its id; the viewer stays registered until its own
    /// connection ends, and sees the session again with the next update.
    pub fn deliver(&self, outbox: Vec<Outbound>) -> (report: Vec<Delivery>)
        ensures
            is_report_of(report@, outbox_view(outbox@), self@.clients),
    {
        broadcast use vstd::std_specs::hash::group_hash_axioms;

        let mut rest = outbox;
        let mut report: Vec<Delivery> = Vec::new();
        let ghost all = outbox_view(rest@);
        while rest.len() > 0
            invariant
                report@.len() + rest@.len() == all.len(),
                forall|i: int|
                    0 <= i < rest@.len() ==> (#[trigger] rest@[i])@ == all[report@.len() + i],
                forall|i: int| 0 <= i < report@.len() ==> (#[trigger] report@[i]).to == all[i].to,
                forall|i: int|
                    0 <= i < report@.len() ==> ((#[trigger] report@[i]).fate == Fate::Unknown
                        <==> !self@.clients.contains(report@[i].to)),
            decreases rest@.len(),
        {
            let outbound = rest.remove(0);
            let to: PlayerId = outbound.to;
            let fate = match self.clients.get(&to) {
                Some(tx) => enqueue(tx, outbound.message),
                None => Fate::Unknown,
            };
            report.push(Delivery { to, fate });
        }
        report
    }

    /// Sends a copy of the message to every registered viewer.
    pub fn broadcast(&self, msg: ServerPayload) -> (report: Vec<Delivery>)
        ensures
            exists|outbox: Seq<OutboundView>|
                {
                    &&& #[trigger] reaches_each_once(outbox, self@.clients)
                    &&& forall|i: int| 0 <= i < outbox.len() ==> (#[trigger] outbox[i]).message == msg@
                    &&& is_report_of(report@, outbox, self@.clients)
                },
    {
        let outbox = self.copies_for_all(&msg);
        proof {
            let sent = outbox_view(outbox@);
            assert forall|i: int| 0 <= i < sent.len() implies (#[trigger] sent[i]).message == msg@ by {
                assert(sent[i] == outbox@[i]@);
            }
        }
        self.deliver(outbox)
    }

    /// Sends every registered viewer the session as that viewer is
    /// entitled to see it.
    pub fn broadcast_state(&self) -> (report: Vec<Delivery>)
        ensures
            exists|outbox: Seq<OutboundView>|
                {
                    &&& #[trigger] is_broadcast(outbox, self@)
                    &&& is_report_of(report@, outbox, self@.clients)
                },
    {
        let outbox = self.state_updates();
        self.deliver(outbox)
    }
}

} // verus!
