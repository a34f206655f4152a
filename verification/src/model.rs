//! The session's data: participants, the round's phase, the topic under
//! estimation, the votes cast and the voting configuration.
//!
//! Every type has a view, its mathematical value, over which the rules of
//! the session are stated.

use vstd::prelude::*;
use std::collections::HashMap;
use crate::avatar::{AvatarColor, AvatarSymbol, Role};

verus! {

/// The identity of a participant: an opaque 128-bit value.
pub type PlayerId = u128;

/// Where a participant stands right after logging in.
pub const LOGIN_POSITION: (u16, u16) = (2, 2);

/// Where every participant stands after a reset of the round.
pub const RESET_POSITION: (u16, u16) = (10, 10);

/// A logged-in participant.
#[derive(Debug)]
pub struct Player {
    pub id: PlayerId,
    pub name: String,
    pub role: Role,
    pub position: (u16, u16),
    pub color: AvatarColor,
    pub symbol: AvatarSymbol,
    pub confirmed: bool,
}

/// The mathematical value of a [`Player`].
pub struct PlayerView {
    pub id: PlayerId,
    pub name: Seq<char>,
    pub role: Role,
    pub position: (u16, u16),
    pub color: AvatarColor,
    pub symbol: AvatarSymbol,
    pub confirmed: bool,
}

impl View for Player {
    type V = PlayerView;

    open spec fn view(&self) -> PlayerView {
        PlayerView {
            id: self.id,
            name: self.name@,
            role: self.role,
            position: self.position,
            color: self.color,
            symbol: self.symbol,
            confirmed: self.confirmed,
        }
    }
}

impl Clone for Player {
    fn clone(&self) -> (copy: Player)
        ensures
            copy == *self,
    {
        Player {
            id: self.id,
            name: self.name.clone(),
            role: self.role,
            position: self.position,
            color: self.color,
            symbol: self.symbol,
            confirmed: self.confirmed,
        }
    }
}

/// The topic a round estimates.
#[derive(Debug)]
pub struct Ticket {
    pub title: String,
}

impl View for Ticket {
    type V = Seq<char>;

    open spec fn view(&self) -> Seq<char> {
        self.title@
    }
}

impl Clone for Ticket {
    fn clone(&self) -> (copy: Ticket)
        ensures
            copy == *self,
    {
        Ticket { title: self.title.clone() }
    }
}

/// The view of an optional topic.
pub open spec fn topic_view(ticket: Option<Ticket>) -> Option<Seq<char>> {
    match ticket {
        Some(t) => Some(t@),
        None => None,
    }
}

/// Copies an optional topic.
pub fn copy_topic(ticket: &Option<Ticket>) -> (copy: Option<Ticket>)
    ensures
        copy == *ticket,
{
    match ticket {
        Some(t) => Some(t.clone()),
        None => None,
    }
}

/// The phase of the round.
#[derive(Debug, Clone, Copy, PartialEq, Eq)]
pub enum Phase {
    Idle,
    Voting { start_time_unix: u64, duration_secs: Option<u64> },
    Revealed,
}

/// The values a vote may take, and the default length of a round.
#[derive(Debug)]
pub struct VotingConfig {
    pub cards: Vec<u32>,
    pub default_timeout: Option<u64>,
}

/// The mathematical value of a [`VotingConfig`].
pub struct ConfigView {
    pub cards: Seq<u32>,
    pub default_timeout: Option<u64>,
}

impl View for VotingConfig {
    type V = ConfigView;

    open spec fn view(&self) -> ConfigView {
        ConfigView { cards: self.cards@, default_timeout: self.default_timeout }
    }
}

impl Clone for VotingConfig {
    fn clone(&self) -> (copy: VotingConfig)
        ensures
            copy@ == self@,
    {
        let cards = self.cards.clone();
        assert(cards@ =~= self.cards@);
        VotingConfig { cards, default_timeout: self.default_timeout }
    }
}

/// The cards of the configuration that a session starts with.
pub open spec fn default_cards() -> Seq<u32> {
    seq![0u32, 1u32, 2u32, 3u32, 5u32, 8u32, 13u32]
}

impl Default for VotingConfig {
    /// The cards 0, 1, 2, 3, 5, 8 and 13, with rounds of no set length.
    fn default() -> (config: VotingConfig)
        ensures
            config@.cards == default_cards(),
            config@.default_timeout is None,
    {
        let mut cards: Vec<u32> = Vec::new();
        cards.push(0);
        cards.push(1);
        cards.push(2);
        cards.push(3);
        cards.push(5);
        cards.push(8);
        cards.push(13);
        assert(cards@ =~= default_cards());
        VotingConfig { cards, default_timeout: None }
    }
}

/// The configuration to start with, given what was found in storage: what
/// was found, or the default where nothing usable was found. The flag
/// tells that the default was chosen and is to be stored.
pub fn load_config(stored: Option<VotingConfig>) -> (chosen: (VotingConfig, bool))
    ensures
        chosen.1 == stored.is_none(),
        match stored {
            Some(config) => chosen.0@ == config@,
            None => chosen.0@.cards == default_cards() && chosen.0@.default_timeout is None,
        },
{
    match stored {
        Some(config) => (config, false),
        None => (VotingConfig::default(), true),
    }
}

/// The authoritative state of the session.
#[derive(Debug)]
pub struct GameState {
    pub players: HashMap<PlayerId, Player>,
    pub phase: Phase,
    pub current_ticket: Option<Ticket>,
    pub votes: HashMap<PlayerId, Option<u32>>,
    pub config: VotingConfig,
}

/// The mathematical value of a [`GameState`].
#[verifier::ext_equal]
pub struct GameView {
    pub players: Map<PlayerId, PlayerView>,
    pub phase: Phase,
    pub topic: Option<Seq<char>>,
    pub votes: Map<PlayerId, Option<u32>>,
    pub config: ConfigView,
}

/// The views of the participants of a map, key by key.
pub open spec fn players_view(players: Map<PlayerId, Player>) -> Map<PlayerId, PlayerView> {
    players.map_values(|p: Player| p@)
}

impl View for GameState {
    type V = GameView;

    open spec fn view(&self) -> GameView {
        GameView {
            players: players_view(self.players@),
            phase: self.phase,
            topic: topic_view(self.current_ticket),
            votes: self.votes@,
            config: self.config@,
        }
    }
}

impl GameView {
    /// The invariant of the session: each participant is filed under its own
    /// id, and only participants have an entry among the votes.
    pub open spec fn wf(self) -> bool {
        &&& self.players.dom().finite()
        &&& self.votes.dom().finite()
        &&& forall|id: PlayerId| #[trigger]
            self.players.contains_key(id) ==> self.players[id].id == id
        &&& self.votes.dom().subset_of(self.players.dom())
    }

    /// Whether `id` is a participant with the facilitator's role.
    pub open spec fn is_facilitator(self, id: PlayerId) -> bool {
        self.players.contains_key(id) && self.players[id].role.is_facilitator()
    }

    /// The value `id` has voted for, if any.
    pub open spec fn vote_of(self, id: PlayerId) -> Option<u32> {
        if self.votes.contains_key(id) {
            self.votes[id]
        } else {
            None
        }
    }
}

} // verus!
