//! What holds of the rules of the session, for every state and command.

use vstd::prelude::*;
use crate::model::{GameView, Phase, PlayerId, PlayerView, RESET_POSITION};
use crate::protocol::{AdminView, CommandView, MessageView, OutboundView};
use crate::connection::{broadcast_after, session_after, stage_after, InboundView, Stage};
use crate::rules::{
    accepts, filter, is_broadcast, is_reply, step, without_client, ServerView, HIDDEN_POSITION,
};

verus! {

/// Whether the command asks for the removal of a participant.
pub open spec fn is_removal(command: CommandView) -> bool {
    command is Admin && command->0 is Kick
}

/// Whether the command asks for the start of a round.
pub open spec fn is_start(command: CommandView) -> bool {
    command is Admin && command->0 is StartVote
}

/// Every command leaves a well-formed session well formed: each
/// participant stays filed under its own id, and only participants have an
/// entry among the votes. A registry that holds exactly the participants
/// keeps doing so.
pub proof fn lemma_step_preserves_wf(s: ServerView, caller: PlayerId, command: CommandView, now: u64)
    requires
        s.wf(),
    ensures
        step(s, caller, command, now).wf(),
        s.registry_matches() ==> step(s, caller, command, now).registry_matches(),
{
    let after = step(s, caller, command, now);
    if accepts(s, caller, command) {
        match command {
            CommandView::Admin(AdminView::StartVote { .. }) => {
                assert(after.game.players.dom() =~= s.game.players.dom());
            },
            CommandView::Admin(AdminView::Reset) => {
                assert(after.game.players.dom() =~= s.game.players.dom());
            },
            CommandView::Move { .. } => {
                assert(after.game.players.dom() =~= s.game.players.dom());
            },
            CommandView::VoteConfirm { .. } => {
                assert(after.game.players.dom() =~= s.game.players.dom());
            },
            _ => {},
        }
    }
}

/// A participant who disconnects or is removed is gone from the
/// participants, from the votes and from the registry, and the session
/// stays well formed. Everyone else is left as they were.
pub proof fn lemma_removal(s: ServerView, id: PlayerId)
    requires
        s.wf(),
    ensures
        !without_client(s, id).game.players.contains_key(id),
        !without_client(s, id).game.votes.contains_key(id),
        !without_client(s, id).clients.contains(id),
        without_client(s, id).wf(),
        s.registry_matches() ==> without_client(s, id).registry_matches(),
        forall|other: PlayerId|
            other != id && s.game.players.contains_key(other) ==> #[trigger] without_client(
                s,
                id,
            ).game.players.contains_key(other) && without_client(s, id).game.players[other]
                == s.game.players[other],
        forall|other: PlayerId|
            other != id ==> #[trigger] without_client(s, id).game.vote_of(other)
                == s.game.vote_of(other),
{
}

/// A vote from a participant has effect if and only if a round is open.
/// Then it stores the value as the caller's vote and changes nothing else;
/// otherwise the session is unchanged.
pub proof fn lemma_vote_needs_open_round(
    s: ServerView,
    caller: PlayerId,
    value: Option<u32>,
    now: u64,
)
    requires
        s.game.players.contains_key(caller),
    ensures
        accepts(s, caller, CommandView::Vote { value }) <==> s.game.phase is Voting,
        !(s.game.phase is Voting) ==> step(s, caller, CommandView::Vote { value }, now) == s,
        s.game.phase is Voting ==> step(s, caller, CommandView::Vote { value }, now) == (ServerView {
            game: GameView { votes: s.game.votes.insert(caller, value), ..s.game },
            ..s
        }),
        s.game.phase is Voting ==> step(
            s,
            caller,
            CommandView::Vote { value },
            now,
        ).game.vote_of(caller) == value,
{
}

/// A vote from someone who is no participant changes nothing, whatever
/// the phase.
pub proof fn lemma_vote_of_stranger_ignored(
    s: ServerView,
    caller: PlayerId,
    value: Option<u32>,
    now: u64,
)
    requires
        !s.game.players.contains_key(caller),
    ensures
        !accepts(s, caller, CommandView::Vote { value }),
        step(s, caller, CommandView::Vote { value }, now) == s,
{
}

/// When a facilitator starts a round, whatever the phase before: no vote
/// is left, no participant is confirmed, the participants are otherwise
/// the same, and the round is open on the given topic from `now` on.
pub proof fn lemma_start_vote_clears(
    s: ServerView,
    caller: PlayerId,
    topic: Option<Seq<char>>,
    timeout: Option<u64>,
    now: u64,
)
    requires
        s.game.is_facilitator(caller),
    ensures
        ({
            let after = step(
                s,
                caller,
                CommandView::Admin(AdminView::StartVote { topic, timeout }),
                now,
            );
            &&& accepts(s, caller, CommandView::Admin(AdminView::StartVote { topic, timeout }))
            &&& after.game.phase == Phase::Voting { start_time_unix: now, duration_secs: timeout }
            &&& after.game.topic == topic
            &&& after.game.votes == Map::<PlayerId, Option<u32>>::empty()
            &&& after.game.config == s.game.config
            &&& after.clients == s.clients
            &&& after.game.players.dom() == s.game.players.dom()
            &&& forall|id: PlayerId| #[trigger] after.game.vote_of(id) is None
            &&& forall|id: PlayerId| #[trigger]
                after.game.players.contains_key(id) ==> !after.game.players[id].confirmed
                    && after.game.players[id] == (PlayerView {
                    confirmed: false,
                    ..s.game.players[id]
                })
        }),
{
    let after = step(s, caller, CommandView::Admin(AdminView::StartVote { topic, timeout }), now);
    assert(after.game.players.dom() =~= s.game.players.dom());
}

/// When a facilitator resets the round: no vote is left, the topic is
/// gone, every participant stands unconfirmed at the reset position and is
/// otherwise the same, and the session is idle.
pub proof fn lemma_reset_clears(s: ServerView, caller: PlayerId, now: u64)
    requires
        s.game.is_facilitator(caller),
    ensures
        ({
            let after = step(s, caller, CommandView::Admin(AdminView::Reset), now);
            &&& accepts(s, caller, CommandView::Admin(AdminView::Reset))
            &&& after.game.phase == Phase::Idle
            &&& after.game.topic is None
            &&& after.game.votes == Map::<PlayerId, Option<u32>>::empty()
            &&& after.game.config == s.game.config
            &&& after.clients == s.clients
            &&& after.game.players.dom() == s.game.players.dom()
            &&& forall|id: PlayerId| #[trigger] after.game.vote_of(id) is None
            &&& forall|id: PlayerId| #[trigger]
                after.game.players.contains_key(id) ==> after.game.players[id].position
                    == RESET_POSITION && !after.game.players[id].confirmed
                    && after.game.players[id] == (PlayerView {
                    position: RESET_POSITION,
                    confirmed: false,
                    ..s.game.players[id]
                })
        }),
{
    let after = step(s, caller, CommandView::Admin(AdminView::Reset), now);
    assert(after.game.players.dom() =~= s.game.players.dom());
}

/// A facilitator who removes someone present takes that participant out
/// of the participants, the votes and the registry at once.
pub proof fn lemma_kick_removes(s: ServerView, caller: PlayerId, target: PlayerId, now: u64)
    requires
        s.game.is_facilitator(caller),
        s.game.players.contains_key(target),
    ensures
        step(s, caller, CommandView::Admin(AdminView::Kick { player_id: target }), now)
            == without_client(s, target),
{
}

/// An administrative command from anyone but a facilitator is not
/// accepted and leaves the session as it was.
pub proof fn lemma_admin_needs_facilitator(
    s: ServerView,
    caller: PlayerId,
    admin: AdminView,
    now: u64,
)
    requires
        !s.game.is_facilitator(caller),
    ensures
        !accepts(s, caller, CommandView::Admin(admin)),
        step(s, caller, CommandView::Admin(admin), now) == s,
{
}

/// Only a facilitator's administrative command changes the phase, and
/// only a facilitator's removal takes a participant or a registered viewer
/// away.
pub proof fn lemma_only_facilitator_moves_phase_or_removes(
    s: ServerView,
    caller: PlayerId,
    command: CommandView,
    now: u64,
)
    ensures
        step(s, caller, command, now).game.phase != s.game.phase ==> command is Admin
            && s.game.is_facilitator(caller),
        (exists|id: PlayerId|
            s.game.players.contains_key(id) && !(#[trigger] step(
                s,
                caller,
                command,
                now,
            ).game.players.contains_key(id))) ==> is_removal(command) && s.game.is_facilitator(caller),
        (exists|id: PlayerId|
            s.clients.contains(id) && !(#[trigger] step(s, caller, command, now).clients.contains(
                id,
            ))) ==> is_removal(command) && s.game.is_facilitator(caller),
{
    let after = step(s, caller, command, now);
    if accepts(s, caller, command) {
        match command {
            CommandView::Admin(AdminView::StartVote { .. }) => {
                assert(after.game.players.dom() =~= s.game.players.dom());
            },
            CommandView::Admin(AdminView::Reset) => {
                assert(after.game.players.dom() =~= s.game.players.dom());
            },
            _ => {},
        }
    }
}

/// The topic and the configuration change only by an administrative
/// command of a facilitator: the topic by the start of a round or a reset,
/// the configuration by its replacement.
pub proof fn lemma_only_facilitator_changes_topic_or_config(
    s: ServerView,
    caller: PlayerId,
    command: CommandView,
    now: u64,
)
    ensures
        step(s, caller, command, now).game.topic != s.game.topic ==> s.game.is_facilitator(caller)
            && (is_start(command) || command == CommandView::Admin(AdminView::Reset)),
        step(s, caller, command, now).game.config != s.game.config ==> s.game.is_facilitator(
            caller,
        ) && command is Admin && command->0 is UpdateConfig,
{
}

/// The phase changes only along the round's cycle: a round opens from any
/// phase, is revealed only while open, and a reset leads back to idle.
pub proof fn lemma_phase_cycle(s: ServerView, caller: PlayerId, command: CommandView, now: u64)
    ensures
        ({
            let before = s.game.phase;
            let after = step(s, caller, command, now).game.phase;
            ||| after == before
            ||| after is Voting && is_start(command)
            ||| before is Voting && after is Revealed && command == CommandView::Admin(
                AdminView::Reveal,
            )
            ||| after is Idle && command == CommandView::Admin(AdminView::Reset)
        }),
{
}

/// The time of arrival matters only to the start of a round.
pub proof fn lemma_time_matters_only_to_start(
    s: ServerView,
    caller: PlayerId,
    command: CommandView,
    now: u64,
    later: u64,
)
    requires
        !is_start(command),
    ensures
        step(s, caller, command, now) == step(s, caller, command, later),
{
}

/// While a round is open, a snapshot tells its viewer nothing of the
/// values that others have voted for: two sessions that differ only in
/// those values, with the same participants having voted, look the same.
pub proof fn lemma_filter_hides_other_votes(s: ServerView, t: ServerView, viewer: PlayerId)
    requires
        s.game.phase is Voting,
        t == (ServerView { game: GameView { votes: t.game.votes, ..s.game }, ..s }),
        t.game.votes.dom() == s.game.votes.dom(),
        forall|id: PlayerId|
            s.game.votes.contains_key(id) ==> (#[trigger] s.game.votes[id] is Some) == (
            t.game.votes[id] is Some),
        s.game.votes.contains_key(viewer) ==> s.game.votes[viewer] == t.game.votes[viewer],
    ensures
        filter(s, viewer) == filter(t, viewer),
{
    assert(filter(s, viewer).votes =~= filter(t, viewer).votes);
    assert(filter(s, viewer).players =~= filter(t, viewer).players);
}

/// While a round is open and positions are to be withheld, a snapshot
/// tells its viewer nothing of where the others stand: two sessions that
/// differ only in the positions of others look the same.
pub proof fn lemma_filter_hides_other_positions(s: ServerView, t: ServerView, viewer: PlayerId)
    requires
        s.game.phase is Voting,
        s.hide_positions,
        t == (ServerView { game: GameView { players: t.game.players, ..s.game }, ..s }),
        t.game.players.dom() == s.game.players.dom(),
        forall|id: PlayerId|
            s.game.players.contains_key(id) ==> #[trigger] t.game.players[id] == (PlayerView {
                position: t.game.players[id].position,
                ..s.game.players[id]
            }),
        s.game.players.contains_key(viewer) ==> s.game.players[viewer] == t.game.players[viewer],
    ensures
        filter(s, viewer) == filter(t, viewer),
{
    assert forall|id: PlayerId| s.game.players.contains_key(id) implies filter(
        s,
        viewer,
    ).players[id] == filter(t, viewer).players[id] by {
        assert(t.game.players[id] == (PlayerView {
            position: t.game.players[id].position,
            ..s.game.players[id]
        }));
    }
    assert(filter(s, viewer).players =~= filter(t, viewer).players);
    assert(filter(s, viewer).votes =~= filter(t, viewer).votes);
}

/// What a snapshot shows: the phase, topic and configuration as they are;
/// every participant as it is, but for the position of another where that
/// is withheld; for every vote whether a value was cast; the viewer's own
/// value always, and every value once no round is open.
pub proof fn lemma_filter_shows(s: ServerView, viewer: PlayerId)
    ensures
        filter(s, viewer).phase == s.game.phase,
        filter(s, viewer).topic == s.game.topic,
        filter(s, viewer).config == s.game.config,
        filter(s, viewer).players.dom() == s.game.players.dom(),
        !(s.hide_positions && s.game.phase is Voting) ==> filter(s, viewer).players
            == s.game.players,
        forall|id: PlayerId|
            s.game.players.contains_key(id) ==> #[trigger] filter(s, viewer).players[id]
                == (PlayerView {
                position: filter(s, viewer).players[id].position,
                ..s.game.players[id]
            }),
        s.game.players.contains_key(viewer) ==> filter(s, viewer).players[viewer]
            == s.game.players[viewer],
        forall|id: PlayerId|
            s.game.players.contains_key(id) && id != viewer && s.hide_positions
                && s.game.phase is Voting ==> (#[trigger] filter(s, viewer).players[id]).position
                == HIDDEN_POSITION,
        filter(s, viewer).votes.dom() == s.game.votes.dom(),
        forall|id: PlayerId|
            s.game.votes.contains_key(id) ==> (#[trigger] filter(s, viewer).votes[id]).has_voted
                == (s.game.votes[id] is Some),
        forall|id: PlayerId|
            s.game.votes.contains_key(id) && (id == viewer || !(s.game.phase is Voting)) ==> (
            #[trigger] filter(s, viewer).votes[id]).value == s.game.votes[id],
        forall|id: PlayerId|
            s.game.votes.contains_key(id) && id != viewer && s.game.phase is Voting ==> (
            #[trigger] filter(s, viewer).votes[id]).value is None,
{
    assert(filter(s, viewer).votes.dom() =~= s.game.votes.dom());
    assert(filter(s, viewer).players.dom() =~= s.game.players.dom());
    if !(s.hide_positions && s.game.phase is Voting) {
        assert(filter(s, viewer).players =~= s.game.players);
    }
}

/// After an accepted command every registered viewer is sent exactly one
/// update, and every update shows one and the same state, the one after
/// the command, as its viewer may see it.
pub proof fn lemma_reply_shows_one_state(
    outbox: Seq<OutboundView>,
    before: ServerView,
    caller: PlayerId,
    command: CommandView,
    after: ServerView,
)
    requires
        accepts(before, caller, command),
        is_reply(outbox, before, caller, command, after),
    ensures
        forall|id: PlayerId|
            after.clients.contains(id) ==> exists|i: int|
                0 <= i < outbox.len() && #[trigger] outbox[i] == (OutboundView {
                    to: id,
                    message: MessageView::StateUpdate(filter(after, id)),
                }),
        forall|i: int|
            0 <= i < outbox.len() && (#[trigger] outbox[i]).message is StateUpdate
                ==> after.clients.contains(outbox[i].to) && outbox[i].message
                == MessageView::StateUpdate(filter(after, outbox[i].to)),
        forall|i: int, j: int|
            0 <= i < j < outbox.len() && (#[trigger] outbox[i]).message is StateUpdate && (
            #[trigger] outbox[j]).message is StateUpdate ==> outbox[i].to != outbox[j].to,
{
    let updates = if command is Login {
        outbox.skip(1)
    } else {
        outbox
    };
    let shift: int = if command is Login {
        1
    } else {
        0
    };
    assert(is_broadcast(updates, after));
    assert forall|id: PlayerId| after.clients.contains(id) implies exists|i: int|
        0 <= i < outbox.len() && #[trigger] outbox[i] == (OutboundView {
            to: id,
            message: MessageView::StateUpdate(filter(after, id)),
        }) by {
        let k = choose|k: int| 0 <= k < updates.len() && (#[trigger] updates[k]).to == id;
        assert(updates[k] == outbox[k + shift]);
        assert(updates[k].message == MessageView::StateUpdate(filter(after, updates[k].to)));
        assert(outbox[k + shift] == (OutboundView {
            to: id,
            message: MessageView::StateUpdate(filter(after, id)),
        }));
    }
    assert forall|i: int|
        0 <= i < outbox.len() && (#[trigger] outbox[i]).message is StateUpdate implies after.clients.contains(
        outbox[i].to,
    ) && outbox[i].message == MessageView::StateUpdate(filter(after, outbox[i].to)) by {
        if command is Login && i == 0 {
        } else {
            assert(updates[i - shift] == outbox[i]);
        }
    }
    assert forall|i: int, j: int|
        0 <= i < j < outbox.len() && (#[trigger] outbox[i]).message is StateUpdate && (
        #[trigger] outbox[j]).message is StateUpdate implies outbox[i].to != outbox[j].to by {
        if command is Login && i == 0 {
        } else {
            assert(updates[i - shift] == outbox[i]);
            assert(updates[j - shift] == outbox[j]);
        }
    }
}

/// Whatever happens on a connection leaves a well-formed session well
/// formed, and a registry that holds exactly the participants keeps doing
/// so.
pub proof fn lemma_event_preserves_wf(
    s: ServerView,
    stage: Stage,
    id: PlayerId,
    event: InboundView,
    now: u64,
)
    requires
        s.wf(),
    ensures
        session_after(s, stage, id, event, now).wf(),
        s.registry_matches() ==> session_after(s, stage, id, event, now).registry_matches(),
{
    if stage != Stage::Closed {
        match event {
            InboundView::Command(command) => {
                lemma_step_preserves_wf(s, id, command, now);
            },
            InboundView::Malformed => {},
            InboundView::Fault => {
                lemma_removal(s, id);
            },
        }
    }
}

/// When the stream of an open connection fails or its peer hangs up, the
/// connection is closed, its participant is gone from the participants,
/// the votes and the registry, and the others are told.
pub proof fn lemma_fault_takes_participant_out(s: ServerView, stage: Stage, id: PlayerId, now: u64)
    requires
        stage != Stage::Closed,
    ensures
        stage_after(stage, InboundView::Fault) == Stage::Closed,
        session_after(s, stage, id, InboundView::Fault, now) == without_client(s, id),
        !session_after(s, stage, id, InboundView::Fault, now).game.players.contains_key(id),
        !session_after(s, stage, id, InboundView::Fault, now).game.votes.contains_key(id),
        !session_after(s, stage, id, InboundView::Fault, now).clients.contains(id),
        broadcast_after(s, stage, id, InboundView::Fault),
{
}

/// A record that does not decode is dropped: the connection stays as it
/// is, the session is unchanged, and nothing is sent.
pub proof fn lemma_malformed_record_is_dropped(s: ServerView, stage: Stage, id: PlayerId, now: u64)
    ensures
        stage_after(stage, InboundView::Malformed) == stage,
        session_after(s, stage, id, InboundView::Malformed, now) == s,
        !broadcast_after(s, stage, id, InboundView::Malformed),
{
}

/// A closed connection stays closed: whatever arrives on it changes
/// nothing and is followed by no broadcast.
pub proof fn lemma_closed_connection_is_inert(
    s: ServerView,
    id: PlayerId,
    event: InboundView,
    now: u64,
)
    ensures
        stage_after(Stage::Closed, event) == Stage::Closed,
        session_after(s, Stage::Closed, id, event, now) == s,
        !broadcast_after(s, Stage::Closed, id, event),
{
}

/// A connection becomes identified by its first login and by nothing
/// else, and stays identified until it is closed.
pub proof fn lemma_login_identifies(stage: Stage, event: InboundView)
    ensures
        stage == Stage::Anonymous && stage_after(stage, event) == Stage::Identified ==> (
        event is Command && event->0 is Login),
        stage == Stage::Identified ==> stage_after(stage, event) == Stage::Identified
            || stage_after(stage, event) == Stage::Closed,
        stage_after(stage, event) == Stage::Anonymous ==> stage == Stage::Anonymous,
{
}

} // verus!
