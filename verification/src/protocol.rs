//! The messages of the session: what a participant may ask for, and what
//! the session tells each viewer.

use vstd::prelude::*;
use std::collections::HashMap;
use crate::avatar::{AvatarColor, AvatarSymbol, Role};
use crate::model::{
    copy_topic, players_view, topic_view, ConfigView, Phase, Player, PlayerId, PlayerView, Ticket,
    VotingConfig,
};

verus! {

/// What the facilitator may ask for.
#[derive(Debug)]
pub enum AdminCommand {
    StartVote { ticket: Option<Ticket>, timeout: Option<u64> },
    Reveal,
    Reset,
    Kick { player_id: PlayerId },
    UpdateConfig(VotingConfig),
}

/// The mathematical value of an [`AdminCommand`].
pub enum AdminView {
    StartVote { topic: Option<Seq<char>>, timeout: Option<u64> },
    Reveal,
    Reset,
    Kick { player_id: PlayerId },
    UpdateConfig(ConfigView),
}

impl View for AdminCommand {
    type V = AdminView;

    open spec fn view(&self) -> AdminView {
        match *self {
            AdminCommand::StartVote { ticket, timeout } => AdminView::StartVote {
                topic: topic_view(ticket),
                timeout,
            },
            AdminCommand::Reveal => AdminView::Reveal,
            AdminCommand::Reset => AdminView::Reset,
            AdminCommand::Kick { player_id } => AdminView::Kick { player_id },
            AdminCommand::UpdateConfig(config) => AdminView::UpdateConfig(config@),
        }
    }
}

/// What a connected participant may ask for.
#[derive(Debug)]
pub enum ClientPayload {
    Login { name: String, role: Role, color: AvatarColor, symbol: AvatarSymbol },
    Move { x: u16, y: u16 },
    Vote { value: Option<u32> },
    VoteConfirm { confirmed: bool },
    Admin(AdminCommand),
}

/// The mathematical value of a [`ClientPayload`].
pub enum CommandView {
    Login { name: Seq<char>, role: Role, color: AvatarColor, symbol: AvatarSymbol },
    Move { x: u16, y: u16 },
    Vote { value: Option<u32> },
    VoteConfirm { confirmed: bool },
    Admin(AdminView),
}

impl View for ClientPayload {
    type V = CommandView;

    open spec fn view(&self) -> CommandView {
        match *self {
            ClientPayload::Login { name, role, color, symbol } => CommandView::Login {
                name: name@,
                role,
                color,
                symbol,
            },
            ClientPayload::Move { x, y } => CommandView::Move { x, y },
            ClientPayload::Vote { value } => CommandView::Vote { value },
            ClientPayload::VoteConfirm { confirmed } => CommandView::VoteConfirm { confirmed },
            ClientPayload::Admin(admin) => CommandView::Admin(admin@),
        }
    }
}

/// What one viewer may learn of one participant's vote: whether a value
/// was cast, and the value itself where the viewer is entitled to it.
#[derive(Debug, Clone, Copy, PartialEq, Eq)]
pub struct VisibleVote {
    pub has_voted: bool,
    pub value: Option<u32>,
}

/// The session as one viewer is entitled to see it.
#[derive(Debug)]
pub struct ViewerSnapshot {
    pub players: HashMap<PlayerId, Player>,
    pub phase: Phase,
    pub current_ticket: Option<Ticket>,
    pub votes: HashMap<PlayerId, VisibleVote>,
    pub config: VotingConfig,
}

/// The mathematical value of a [`ViewerSnapshot`].
#[verifier::ext_equal]
pub struct SnapshotView {
    pub players: Map<PlayerId, PlayerView>,
    pub phase: Phase,
    pub topic: Option<Seq<char>>,
    pub votes: Map<PlayerId, VisibleVote>,
    pub config: ConfigView,
}

impl View for ViewerSnapshot {
    type V = SnapshotView;

    open spec fn view(&self) -> SnapshotView {
        SnapshotView {
            players: players_view(self.players@),
            phase: self.phase,
            topic: topic_view(self.current_ticket),
            votes: self.votes@,
            config: self.config@,
        }
    }
}

impl Clone for ViewerSnapshot {
    fn clone(&self) -> (copy: ViewerSnapshot)
        ensures
            copy@ == self@,
    {
        ViewerSnapshot {
            players: self.players.clone(),
            phase: self.phase,
            current_ticket: copy_topic(&self.current_ticket),
            votes: self.votes.clone(),
            config: self.config.clone(),
        }
    }
}

/// What the session tells a viewer.
#[derive(Debug)]
pub enum ServerPayload {
    Welcome { self_id: PlayerId, state: ViewerSnapshot },
    StateUpdate(ViewerSnapshot),
    Error(String),
}

/// The mathematical value of a [`ServerPayload`].
#[verifier::ext_equal]
pub enum MessageView {
    Welcome { self_id: PlayerId, state: SnapshotView },
    StateUpdate(SnapshotView),
    Error(Seq<char>),
}

impl View for ServerPayload {
    type V = MessageView;

    open spec fn view(&self) -> MessageView {
        match *self {
            ServerPayload::Welcome { self_id, state } => MessageView::Welcome {
                self_id,
                state: state@,
            },
            ServerPayload::StateUpdate(state) => MessageView::StateUpdate(state@),
            ServerPayload::Error(text) => MessageView::Error(text@),
        }
    }
}

impl Clone for ServerPayload {
    fn clone(&self) -> (copy: ServerPayload)
        ensures
            copy@ == self@,
    {
        match self {
            ServerPayload::Welcome { self_id, state } => ServerPayload::Welcome {
                self_id: *self_id,
                state: state.clone(),
            },
            ServerPayload::StateUpdate(state) => ServerPayload::StateUpdate(state.clone()),
            ServerPayload::Error(text) => ServerPayload::Error(text.clone()),
        }
    }
}

/// A message together with the viewer it is meant for.
#[derive(Debug)]
pub struct Outbound {
    pub to: PlayerId,
    pub message: ServerPayload,
}

/// The mathematical value of an [`Outbound`].
#[verifier::ext_equal]
pub struct OutboundView {
    pub to: PlayerId,
    pub message: MessageView,
}

impl View for Outbound {
    type V = OutboundView;

    open spec fn view(&self) -> OutboundView {
        OutboundView { to: self.to, message: self.message@ }
    }
}

/// The views of a sequence of addressed messages, in order.
pub open spec fn outbox_view(outbox: Seq<Outbound>) -> Seq<OutboundView> {
    outbox.map_values(|o: Outbound| o@)
}

} // verus!
