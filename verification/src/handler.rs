//! The command processor: applies one command to the session and says
//! what is to be sent to whom.

use vstd::prelude::*;
use std::collections::HashMap;
use crate::clock::current_time_unix;
use crate::model::{
    players_view, topic_view, ConfigView, GameState, GameView, Phase, Player, PlayerId, PlayerView,
    Ticket, VotingConfig, LOGIN_POSITION, RESET_POSITION,
};
use crate::protocol::{
    outbox_view, AdminCommand, AdminView, ClientPayload, CommandView, Outbound, OutboundView,
    ServerPayload,
};
use crate::rules::{
    accepts, admin_applies, admin_effect, effect, is_reply, recalled, round_reset, round_started,
    step, unconfirmed, ServerView,
};
use crate::laws::lemma_step_preserves_wf;
use crate::state::{is_report_of, keys_of, Delivery, ServerState, Tx};

verus! {

/// A participant after the adjustments that a new round (`withdraw`) or a
/// reset (`recall`) asks for.
pub open spec fn adjusted(p: PlayerView, withdraw: bool, recall: bool) -> PlayerView {
    PlayerView {
        position: if recall {
            RESET_POSITION
        } else {
            p.position
        },
        confirmed: if withdraw {
            false
        } else {
            p.confirmed
        },
        ..p
    }
}

/// Adjusts every participant of the map.
fn adjust_all(players: &mut HashMap<PlayerId, Player>, withdraw: bool, recall: bool)
    ensures
        players_view(final(players)@) == players_view(old(players)@).map_values(
            |p: PlayerView| adjusted(p, withdraw, recall),
        ),
{
    broadcast use vstd::std_specs::hash::group_hash_axioms;

    let ids = keys_of(players);
    let ghost before = players@;
    let mut i: usize = 0;
    while i < ids.len()
        invariant
            i <= ids.len(),
            ids@.no_duplicates(),
            ids@.to_set() == before.dom(),
            players@.dom() == before.dom(),
            forall|j: int|
                0 <= j < i ==> (#[trigger] players@[ids@[j]])@ == adjusted(
                    before[ids@[j]]@,
                    withdraw,
                    recall,
                ),
            forall|j: int| i <= j < ids.len() ==> #[trigger] players@[ids@[j]] == before[ids@[j]],
        decreases ids.len() - i,
    {
        let id: PlayerId = ids[i];
        assert(ids@.to_set().contains(id));
        let ghost during = players@;
        match players.remove(&id) {
            Some(found) => {
                let mut player = found;
                if withdraw {
                    player.confirmed = false;
                }
                if recall {
                    player.position = RESET_POSITION;
                }
                players.insert(id, player);
            },
            None => {},
        }
        assert(players@.dom() =~= before.dom());
        assert forall|j: int| 0 <= j < i implies (#[trigger] players@[ids@[j]])@ == adjusted(
            before[ids@[j]]@,
            withdraw,
            recall,
        ) by {
            assert(ids@[j] != id);
            assert(players@[ids@[j]] == during[ids@[j]]);
        }
        assert forall|j: int| i < j < ids.len() implies #[trigger] players@[ids@[j]]
            == before[ids@[j]] by {
            assert(ids@[j] != id);
            assert(players@[ids@[j]] == during[ids@[j]]);
        }
        i += 1;
    }
    proof {
        let target = players_view(before).map_values(|p: PlayerView| adjusted(p, withdraw, recall));
        assert forall|id: PlayerId| players@.contains_key(id) implies #[trigger] players@[id]@
            == target[id] by {
            assert(ids@.to_set().contains(id));
            let j = choose|j: int| 0 <= j < ids@.len() && ids@[j] == id;
            assert(players@[ids@[j]]@ == adjusted(before[ids@[j]]@, withdraw, recall));
        }
        assert(players_view(players@) =~= target);
    }
}

impl GameState {
    /// Withdraws the confirmation of every participant.
    pub fn clear_confirmations(&mut self)
        ensures
            final(self)@ == (GameView {
                players: old(self)@.players.map_values(|p: PlayerView| unconfirmed(p)),
                ..old(self)@
            }),
    {
        adjust_all(&mut self.players, true, false);
        assert(final(self)@.players =~= old(self)@.players.map_values(
            |p: PlayerView| unconfirmed(p),
        ));
    }

    /// Puts every participant back at the position that a reset assigns
    /// and withdraws its confirmation.
    pub fn recall_players(&mut self)
        ensures
            final(self)@ == (GameView {
                players: old(self)@.players.map_values(|p: PlayerView| recalled(p)),
                ..old(self)@
            }),
    {
        adjust_all(&mut self.players, true, true);
        assert(final(self)@.players =~= old(self)@.players.map_values(
            |p: PlayerView| recalled(p),
        ));
    }

    /// Opens a round on `ticket` at time `now`: all votes and all
    /// confirmations are cleared.
    pub fn start_round(&mut self, ticket: Option<Ticket>, timeout: Option<u64>, now: u64)
        ensures
            final(self)@ == round_started(
                old(self)@,
                topic_view(ticket),
                timeout,
                now,
            ),
    {
        self.phase = Phase::Voting { start_time_unix: now, duration_secs: timeout };
        self.current_ticket = ticket;
        self.votes.clear();
        self.clear_confirmations();
    }

    /// Closes the round: votes, topic and confirmations are cleared and
    /// every participant is put back at the reset position.
    pub fn reset_round(&mut self)
        ensures
            final(self)@ == round_reset(old(self)@),
    {
        self.phase = Phase::Idle;
        self.votes.clear();
        self.current_ticket = None;
        self.recall_players();
    }
}

/// What the session owes after one command.
pub struct Dispatch {
    /// Whether the command was accepted, so that a broadcast was due.
    pub broadcast: bool,
    /// The messages to deliver, in the order in which each viewer must
    /// receive its own.
    pub outbox: Vec<Outbound>,
    /// The configuration to store durably, after it has been replaced.
    pub persist: Option<VotingConfig>,
}

/// The configuration that is to be stored after the command: the new one
/// where an accepted command has replaced it.
pub open spec fn to_persist(
    before: ServerView,
    caller: PlayerId,
    command: CommandView,
) -> Option<ConfigView> {
    match command {
        CommandView::Admin(AdminView::UpdateConfig(config)) => if accepts(
            before,
            caller,
            command,
        ) {
            Some(config)
        } else {
            None
        },
        _ => None,
    }
}

impl ServerState {
    /// Tells whether `id` is a participant with the facilitator's role.
    pub fn is_admin(&self, id: PlayerId) -> (allowed: bool)
        ensures
            allowed == self@.game.is_facilitator(id),
    {
        broadcast use vstd::std_specs::hash::group_hash_axioms;

        match self.game_state.players.get(&id) {
            Some(player) => player.role.may_administer(),
            None => false,
        }
    }

    /// Tells whether `id` is a participant.
    pub fn is_participant(&self, id: PlayerId) -> (known: bool)
        ensures
            known == self@.game.players.contains_key(id),
    {
        broadcast use vstd::std_specs::hash::group_hash_axioms;

        self.game_state.players.contains_key(&id)
    }

    /// Tells whether a round is open.
    pub fn is_voting(&self) -> (open: bool)
        ensures
            open == (self@.game.phase is Voting),
    {
        matches!(self.game_state.phase, Phase::Voting { .. })
    }

    /// Applies an administrative command that the caller is entitled to.
    fn apply_admin(&mut self, admin: AdminCommand, now: u64) -> (applied: bool)
        ensures
            applied == admin_applies(old(self)@, admin@),
            applied ==> final(self)@ == admin_effect(old(self)@, admin@, now),
            !applied ==> final(self)@ == old(self)@,
    {
        broadcast use vstd::std_specs::hash::group_hash_axioms;

        match admin {
            AdminCommand::StartVote { ticket, timeout } => {
                self.game_state.start_round(ticket, timeout, now);
                true
            },
            AdminCommand::Reveal => {
                if self.is_voting() {
                    self.game_state.phase = Phase::Revealed;
                    true
                } else {
                    false
                }
            },
            AdminCommand::Reset => {
                self.game_state.reset_round();
                true
            },
            AdminCommand::Kick { player_id } => {
                let present = self.game_state.players.contains_key(&player_id)
                    || self.game_state.votes.contains_key(&player_id) || self.clients.contains_key(
                    &player_id,
                );
                if present {
                    self.remove_client(player_id);
                }
                present
            },
            AdminCommand::UpdateConfig(config) => {
                self.game_state.config = config;
                true
            },
        }
    }

    /// Applies the command of `caller`, received at time `now`, and tells
    /// whether it was accepted, so that a broadcast is required. A command
    /// that is not accepted leaves the session as it was. A login enters
    /// the caller into the registry with a handle to the queue `tx`.
    pub fn apply(&mut self, caller: PlayerId, command: ClientPayload, tx: &Tx, now: u64) -> (broadcast_required:
        bool)
        ensures
            broadcast_required == accepts(old(self)@, caller, command@),
            final(self)@ == step(old(self)@, caller, command@, now),
            old(self)@.wf() ==> final(self)@.wf(),
    {
        broadcast use vstd::std_specs::hash::group_hash_axioms;

        proof {
            if self@.wf() {
                lemma_step_preserves_wf(self@, caller, command@, now);
            }
        }

        match command {
            ClientPayload::Login { name, role, color, symbol } => {
                let player = Player {
                    id: caller,
                    name,
                    role,
                    position: LOGIN_POSITION,
                    color,
                    symbol,
                    confirmed: false,
                };
                self.game_state.players.insert(caller, player);
                self.register(caller, tx);
                assert(final(self)@.game.players =~= effect(
                    old(self)@,
                    caller,
                    command@,
                    now,
                ).game.players);
                true
            },
            ClientPayload::Move { x, y } => {
                match self.game_state.players.remove(&caller) {
                    Some(found) => {
                        let mut player = found;
                        player.position = (x, y);
                        self.game_state.players.insert(caller, player);
                        assert(final(self)@.game.players =~= effect(
                            old(self)@,
                            caller,
                            command@,
                            now,
                        ).game.players);
                        true
                    },
                    None => {
                        assert(final(self)@.game.players =~= old(self)@.game.players);
                        false
                    },
                }
            },
            ClientPayload::Vote { value } => {
                if self.is_voting() && self.is_participant(caller) {
                    self.game_state.votes.insert(caller, value);
                    true
                } else {
                    false
                }
            },
            ClientPayload::VoteConfirm { confirmed } => {
                match self.game_state.players.remove(&caller) {
                    Some(found) => {
                        let mut player = found;
                        player.confirmed = confirmed;
                        self.game_state.players.insert(caller, player);
                        assert(final(self)@.game.players =~= effect(
                            old(self)@,
                            caller,
                            command@,
                            now,
                        ).game.players);
                        true
                    },
                    None => {
                        assert(final(self)@.game.players =~= old(self)@.game.players);
                        false
                    },
                }
            },
            ClientPayload::Admin(admin) => {
                if self.is_admin(caller) {
                    self.apply_admin(admin, now)
                } else {
                    false
                }
            },
        }
    }
}

/// The view of an optional configuration.
pub open spec fn config_view(config: Option<VotingConfig>) -> Option<ConfigView> {
    match config {
        Some(c) => Some(c@),
        None => None,
    }
}

/// Handles the command of `player_id` as received at time `now`: applies
/// it to the session and collects what is to be sent, without sending it.
/// After a login the caller, from then on reached on the queue `tx`, is
/// welcomed first; after every accepted command each registered viewer is
/// due the new state as that viewer may see it.
pub fn process_message(
    player_id: PlayerId,
    payload: ClientPayload,
    state: &mut ServerState,
    tx: &Tx,
    now: u64,
) -> (dispatch: Dispatch)
    ensures
        final(state)@ == step(old(state)@, player_id, payload@, now),
        dispatch.broadcast == accepts(old(state)@, player_id, payload@),
        is_reply(
            outbox_view(dispatch.outbox@),
            old(state)@,
            player_id,
            payload@,
            final(state)@,
        ),
        config_view(dispatch.persist) == to_persist(old(state)@, player_id, payload@),
{
    let login = matches!(payload, ClientPayload::Login { .. });
    let saving = matches!(payload, ClientPayload::Admin(AdminCommand::UpdateConfig(_)));
    let broadcast = state.apply(player_id, payload, tx, now);
    let mut outbox: Vec<Outbound> = Vec::new();
    if login {
        let snapshot = state.filter_state_for(player_id);
        outbox.push(
            Outbound {
                to: player_id,
                message: ServerPayload::Welcome { self_id: player_id, state: snapshot },
            },
        );
    }
    if broadcast {
        let mut updates = state.state_updates();
        let ghost sent = updates@;
        outbox.append(&mut updates);
        proof {
            if login {
                assert(outbox_view(outbox@)[0] == outbox@[0]@);
                assert(outbox_view(outbox@).skip(1) =~= outbox_view(sent));
            } else {
                assert(outbox_view(outbox@) =~= outbox_view(sent));
            }
        }
    }
    let persist = if saving && broadcast {
        Some(state.game_state.config.clone())
    } else {
        None
    };
    Dispatch { broadcast, outbox, persist }
}

/// What was done about one command or event.
pub struct Receipt {
    /// Whether the command was accepted, so that a broadcast was due.
    pub broadcast: bool,
    /// What became of each message, in the order of sending.
    pub deliveries: Vec<Delivery>,
    /// The configuration to store durably, after it has been replaced.
    pub persist: Option<VotingConfig>,
}

/// Handles the command of `player_id` as received now, by the system
/// clock: applies it to the session as [`process_message`] does, and puts
/// what is due on the viewers' queues. The time matters only to the start
/// of a round, which records it.
pub fn handle_message(
    player_id: PlayerId,
    payload: ClientPayload,
    state: &mut ServerState,
    tx: &Tx,
) -> (receipt: Receipt)
    ensures
        receipt.broadcast == accepts(old(state)@, player_id, payload@),
        exists|now: u64| final(state)@ == #[trigger] step(old(state)@, player_id, payload@, now),
        exists|outbox: Seq<OutboundView>|
            {
                &&& #[trigger] is_reply(outbox, old(state)@, player_id, payload@, final(state)@)
                &&& is_report_of(receipt.deliveries@, outbox, final(state)@.clients)
            },
        config_view(receipt.persist) == to_persist(old(state)@, player_id, payload@),
{
    let now = current_time_unix();
    let dispatch = process_message(player_id, payload, state, tx, now);
    let deliveries = state.deliver(dispatch.outbox);
    Receipt { broadcast: dispatch.broadcast, deliveries, persist: dispatch.persist }
}

} // verus!
