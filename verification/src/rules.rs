//! The rules of the session, as functions on mathematical values: which
//! commands are accepted, what each one changes, and what each viewer may
//! see of the result.

use vstd::prelude::*;
use crate::avatar::{AvatarColor, AvatarSymbol, Role};
use crate::model::{GameView, Phase, PlayerId, PlayerView, LOGIN_POSITION, RESET_POSITION};
use crate::protocol::{
    AdminView, CommandView, MessageView, OutboundView, SnapshotView, VisibleVote,
};

verus! {

/// The session together with the registry of connected viewers and the
/// choice of what viewers are shown of each other.
#[verifier::ext_equal]
pub struct ServerView {
    pub game: GameView,
    pub clients: Set<PlayerId>,
    /// Whether the positions of others are withheld while a round is open.
    pub hide_positions: bool,
}

impl ServerView {
    /// The session is well formed and the registry is finite.
    pub open spec fn wf(self) -> bool {
        self.game.wf() && self.clients.finite()
    }

    /// The registry holds exactly the participants.
    pub open spec fn registry_matches(self) -> bool {
        self.clients == self.game.players.dom()
    }
}

/// The participant that a login creates.
pub open spec fn newcomer(
    id: PlayerId,
    name: Seq<char>,
    role: Role,
    color: AvatarColor,
    symbol: AvatarSymbol,
) -> PlayerView {
    PlayerView { id, name, role, position: LOGIN_POSITION, color, symbol, confirmed: false }
}

/// A participant with its confirmation withdrawn.
pub open spec fn unconfirmed(p: PlayerView) -> PlayerView {
    PlayerView { confirmed: false, ..p }
}

/// A participant back at the position that a reset assigns, with its
/// confirmation withdrawn.
pub open spec fn recalled(p: PlayerView) -> PlayerView {
    PlayerView { position: RESET_POSITION, confirmed: false, ..p }
}

/// The session after `id` has left it: its participant and its vote are gone.
pub open spec fn without_player(g: GameView, id: PlayerId) -> GameView {
    GameView { players: g.players.remove(id), votes: g.votes.remove(id), ..g }
}

/// The session and registry after `id` has left.
pub open spec fn without_client(s: ServerView, id: PlayerId) -> ServerView {
    ServerView { game: without_player(s.game, id), clients: s.clients.remove(id), ..s }
}

/// The session after a round on `topic` has been started at time `now`.
pub open spec fn round_started(
    g: GameView,
    topic: Option<Seq<char>>,
    timeout: Option<u64>,
    now: u64,
) -> GameView {
    GameView {
        players: g.players.map_values(|p: PlayerView| unconfirmed(p)),
        phase: Phase::Voting { start_time_unix: now, duration_secs: timeout },
        topic,
        votes: Map::empty(),
        config: g.config,
    }
}

/// The session after the votes have been revealed.
pub open spec fn round_revealed(g: GameView) -> GameView {
    GameView { phase: Phase::Revealed, ..g }
}

/// The session after a reset.
pub open spec fn round_reset(g: GameView) -> GameView {
    GameView {
        players: g.players.map_values(|p: PlayerView| recalled(p)),
        phase: Phase::Idle,
        topic: None,
        votes: Map::empty(),
        config: g.config,
    }
}

/// Whether an administrative command from a facilitator takes effect.
///
/// Votes can be revealed only while a round is open, and only someone who
/// is present, as a participant or in the registry, can be removed.
pub open spec fn admin_applies(s: ServerView, admin: AdminView) -> bool {
    match admin {
        AdminView::StartVote { .. } => true,
        AdminView::Reveal => s.game.phase is Voting,
        AdminView::Reset => true,
        AdminView::Kick { player_id } => s.game.players.contains_key(player_id)
            || s.game.votes.contains_key(player_id) || s.clients.contains(player_id),
        AdminView::UpdateConfig(_) => true,
    }
}

/// Whether the command of `caller` is accepted. A command that is not
/// accepted changes nothing and is followed by no broadcast.
pub open spec fn accepts(s: ServerView, caller: PlayerId, command: CommandView) -> bool {
    match command {
        CommandView::Login { .. } => true,
        CommandView::Move { .. } => s.game.players.contains_key(caller),
        CommandView::Vote { .. } => s.game.phase is Voting && s.game.players.contains_key(caller),
        CommandView::VoteConfirm { .. } => s.game.players.contains_key(caller),
        CommandView::Admin(admin) => s.game.is_facilitator(caller) && admin_applies(s, admin),
    }
}

/// What an administrative command that takes effect makes of the session.
pub open spec fn admin_effect(s: ServerView, admin: AdminView, now: u64) -> ServerView {
    match admin {
        AdminView::StartVote { topic, timeout } => ServerView {
            game: round_started(s.game, topic, timeout, now),
            ..s
        },
        AdminView::Reveal => ServerView { game: round_revealed(s.game), ..s },
        AdminView::Reset => ServerView { game: round_reset(s.game), ..s },
        AdminView::Kick { player_id } => without_client(s, player_id),
        AdminView::UpdateConfig(config) => ServerView {
            game: GameView { config, ..s.game },
            ..s
        },
    }
}

/// What an accepted command makes of the session.
pub open spec fn effect(
    s: ServerView,
    caller: PlayerId,
    command: CommandView,
    now: u64,
) -> ServerView {
    match command {
        CommandView::Login { name, role, color, symbol } => ServerView {
            game: GameView {
                players: s.game.players.insert(
                    caller,
                    newcomer(caller, name, role, color, symbol),
                ),
                ..s.game
            },
            clients: s.clients.insert(caller),
            ..s
        },
        CommandView::Move { x, y } => ServerView {
            game: GameView {
                players: s.game.players.insert(
                    caller,
                    PlayerView { position: (x, y), ..s.game.players[caller] },
                ),
                ..s.game
            },
            ..s
        },
        CommandView::Vote { value } => ServerView {
            game: GameView { votes: s.game.votes.insert(caller, value), ..s.game },
            ..s
        },
        CommandView::VoteConfirm { confirmed } => ServerView {
            game: GameView {
                players: s.game.players.insert(
                    caller,
                    PlayerView { confirmed, ..s.game.players[caller] },
                ),
                ..s.game
            },
            ..s
        },
        CommandView::Admin(admin) => admin_effect(s, admin, now),
    }
}

/// The session after the command of `caller`, received at time `now`.
pub open spec fn step(s: ServerView, caller: PlayerId, command: CommandView, now: u64) -> ServerView {
    if accepts(s, caller, command) {
        effect(s, caller, command, now)
    } else {
        s
    }
}

/// The position that stands for one that is withheld: the far corner,
/// which lies in no room.
pub const HIDDEN_POSITION: (u16, u16) = (0xffff, 0xffff);

/// What `viewer` may learn of the vote of `id`: always whether a value was
/// cast; the value itself unless a round is open and the vote is another's.
pub open spec fn visible_vote(g: GameView, viewer: PlayerId, id: PlayerId) -> VisibleVote {
    VisibleVote {
        has_voted: g.votes[id] is Some,
        value: if g.phase is Voting && id != viewer {
            None
        } else {
            g.votes[id]
        },
    }
}

/// What `viewer` is shown of the participant `id`: everything, but for
/// the position of another while a round is open, where positions are to
/// be withheld.
pub open spec fn visible_player(s: ServerView, viewer: PlayerId, id: PlayerId) -> PlayerView {
    if s.hide_positions && s.game.phase is Voting && id != viewer {
        PlayerView { position: HIDDEN_POSITION, ..s.game.players[id] }
    } else {
        s.game.players[id]
    }
}

/// The session as `viewer` is entitled to see it.
pub open spec fn filter(s: ServerView, viewer: PlayerId) -> SnapshotView {
    SnapshotView {
        players: Map::new(
            |id: PlayerId| s.game.players.contains_key(id),
            |id: PlayerId| visible_player(s, viewer, id),
        ),
        phase: s.game.phase,
        topic: s.game.topic,
        votes: Map::new(
            |id: PlayerId| s.game.votes.contains_key(id),
            |id: PlayerId| visible_vote(s.game, viewer, id),
        ),
        config: s.game.config,
    }
}

/// Whether `outbox` holds exactly one message for every viewer in
/// `clients`, and none for anybody else.
pub open spec fn reaches_each_once(outbox: Seq<OutboundView>, clients: Set<PlayerId>) -> bool {
    &&& outbox.len() == clients.len()
    &&& forall|i: int|
        0 <= i < outbox.len() ==> clients.contains(#[trigger] outbox[i].to)
    &&& forall|i: int, j: int|
        0 <= i < j < outbox.len() ==> (#[trigger] outbox[i]).to != (#[trigger] outbox[j]).to
    &&& forall|id: PlayerId|
        clients.contains(id) ==> exists|i: int|
            0 <= i < outbox.len() && (#[trigger] outbox[i]).to == id
}

/// Whether `outbox` is a broadcast of the session `s` to its registered
/// viewers: every viewer is sent exactly one update, which is the session
/// as that viewer may see it, and nobody else is sent anything.
pub open spec fn is_broadcast(outbox: Seq<OutboundView>, s: ServerView) -> bool {
    &&& reaches_each_once(outbox, s.clients)
    &&& forall|i: int|
        0 <= i < outbox.len() ==> (#[trigger] outbox[i]).message == MessageView::StateUpdate(
            filter(s, outbox[i].to),
        )
}

/// The welcome that greets `caller` after a login.
pub open spec fn welcome(s: ServerView, caller: PlayerId) -> OutboundView {
    OutboundView {
        to: caller,
        message: MessageView::Welcome { self_id: caller, state: filter(s, caller) },
    }
}

/// Whether `outbox` is what the session sends after the command of
/// `caller` has led to the state `after`: nothing if the command was not
/// accepted; else a broadcast of `after`, preceded after a login by the
/// welcome for the caller.
pub open spec fn is_reply(
    outbox: Seq<OutboundView>,
    before: ServerView,
    caller: PlayerId,
    command: CommandView,
    after: ServerView,
) -> bool {
    if !accepts(before, caller, command) {
        outbox.len() == 0
    } else if command is Login {
        &&& outbox.len() > 0
        &&& outbox[0] == welcome(after, caller)
        &&& is_broadcast(outbox.skip(1), after)
    } else {
        is_broadcast(outbox, after)
    }
}

} // verus!
