//! The status mirror: a summary of the session for onlookers, and the two
//! actions that are open to them, starting a round and revealing its votes.

use vstd::prelude::*;
use crate::clock::current_time_unix;
use crate::model::{GameView, Phase, PlayerId, Ticket};
use crate::protocol::{outbox_view, Outbound, OutboundView};
use crate::rules::{is_broadcast, round_revealed, round_started, ServerView};
use crate::state::{is_report_of, keys_of, Delivery, ServerState};
use crate::stats::{calculate_statistics, is_statistics_of, VoteStatistics};

verus! {

/// A request to start a round.
#[derive(Debug)]
pub struct StartVotingRequest {
    pub issue_number: Option<String>,
}

/// The answer to a request to start a round.
#[derive(Debug)]
pub struct StartVotingResponse {
    pub success: bool,
    pub message: String,
}

/// One participant and the vote it has cast.
#[derive(Debug)]
pub struct VoteDetail {
    pub player_name: String,
    pub vote: Option<u32>,
}

/// The mathematical value of a [`VoteDetail`].
pub struct VoteDetailView {
    pub player_name: Seq<char>,
    pub vote: Option<u32>,
}

impl View for VoteDetail {
    type V = VoteDetailView;

    open spec fn view(&self) -> VoteDetailView {
        VoteDetailView { player_name: self.player_name@, vote: self.vote }
    }
}

/// The answer to a request to reveal the votes.
#[derive(Debug)]
pub struct RevealVotesResponse {
    pub success: bool,
    pub issue_number: Option<String>,
    pub votes: Vec<VoteDetail>,
    pub statistics: VoteStatistics,
}

/// One participant and whether it has voted.
#[derive(Debug)]
pub struct ConnectedPlayer {
    pub name: String,
    pub has_voted: bool,
}

/// The mathematical value of a [`ConnectedPlayer`].
pub struct ConnectedPlayerView {
    pub name: Seq<char>,
    pub has_voted: bool,
}

impl View for ConnectedPlayer {
    type V = ConnectedPlayerView;

    open spec fn view(&self) -> ConnectedPlayerView {
        ConnectedPlayerView { name: self.name@, has_voted: self.has_voted }
    }
}

/// A summary of the session that tells no vote.
#[derive(Debug)]
pub struct StatusUpdate {
    pub phase: String,
    pub issue_number: Option<String>,
    pub connected_players: Vec<ConnectedPlayer>,
    pub votes_cast: usize,
    pub total_players: usize,
}

/// The mathematical value of a [`StatusUpdate`].
pub struct StatusView {
    pub phase: Seq<char>,
    pub issue_number: Option<Seq<char>>,
    pub connected_players: Seq<ConnectedPlayerView>,
    pub votes_cast: usize,
    pub total_players: usize,
}

impl View for StatusUpdate {
    type V = StatusView;

    open spec fn view(&self) -> StatusView {
        StatusView {
            phase: self.phase@,
            issue_number: text_view(self.issue_number),
            connected_players: self.connected_players@.map_values(|c: ConnectedPlayer| c@),
            votes_cast: self.votes_cast,
            total_players: self.total_players,
        }
    }
}

/// The view of an optional text.
pub open spec fn text_view(text: Option<String>) -> Option<Seq<char>> {
    match text {
        Some(t) => Some(t@),
        None => None,
    }
}

/// The name under which a phase is reported.
pub open spec fn phase_label(phase: Phase) -> Seq<char> {
    match phase {
        Phase::Idle => "idle"@,
        Phase::Voting { .. } => "voting"@,
        Phase::Revealed => "revealed"@,
    }
}

/// Whether `ids` lists the members of `set`, each once.
pub open spec fn is_listing(ids: Seq<PlayerId>, set: Set<PlayerId>) -> bool {
    ids.no_duplicates() && ids.to_set() == set
}

/// Those who have cast a vote.
pub open spec fn voters(g: GameView) -> Set<PlayerId> {
    g.votes.dom().filter(|id: PlayerId| g.votes[id] is Some)
}

/// What is reported of the participant `id`.
pub open spec fn presence(g: GameView, id: PlayerId) -> ConnectedPlayerView {
    ConnectedPlayerView { name: g.players[id].name, has_voted: g.vote_of(id) is Some }
}

/// What is revealed of the participant `id`.
pub open spec fn ballot(g: GameView, id: PlayerId) -> VoteDetailView {
    VoteDetailView { player_name: g.players[id].name, vote: g.vote_of(id) }
}

/// Whether `listed` reports every participant once, in some order.
pub open spec fn is_roster(listed: Seq<ConnectedPlayerView>, g: GameView) -> bool {
    exists|ids: Seq<PlayerId>|
        {
            &&& #[trigger] is_listing(ids, g.players.dom())
            &&& listed == ids.map_values(|id: PlayerId| presence(g, id))
        }
}

/// Whether `listed` reveals the vote of every participant once, in some
/// order.
pub open spec fn is_ballot_list(listed: Seq<VoteDetailView>, g: GameView) -> bool {
    exists|ids: Seq<PlayerId>|
        {
            &&& #[trigger] is_listing(ids, g.players.dom())
            &&& listed == ids.map_values(|id: PlayerId| ballot(g, id))
        }
}

/// Whether `stats` are the statistics of the votes cast in the session.
pub open spec fn is_statistics_of_session(stats: VoteStatistics, g: GameView) -> bool {
    exists|ids: Seq<PlayerId>|
        {
            &&& #[trigger] is_listing(ids, voters(g))
            &&& is_statistics_of(
                stats,
                ids.map_values(|id: PlayerId| g.votes[id]->0),
                g.players.dom().len() as usize,
            )
        }
}

/// Whether `status` summarises the session: the phase by its name, the
/// topic, every participant with whether it has voted, and how many votes
/// and participants there are.
pub open spec fn is_status_of(status: StatusView, g: GameView) -> bool {
    &&& status.phase == phase_label(g.phase)
    &&& status.issue_number == g.topic
    &&& is_roster(status.connected_players, g)
    &&& status.votes_cast == voters(g).len()
    &&& status.total_players == g.players.dom().len()
}

/// The name under which the phase is reported.
pub fn phase_name(phase: &Phase) -> (name: String)
    ensures
        name@ == phase_label(*phase),
{
    broadcast use vstd::string::to_string_from_display_ensures_for_str;

    match phase {
        Phase::Idle => "idle".to_string(),
        Phase::Voting { .. } => "voting".to_string(),
        Phase::Revealed => "revealed".to_string(),
    }
}

/// The title of the topic, if there is one.
pub fn issue_of(ticket: &Option<Ticket>) -> (issue: Option<String>)
    ensures
        text_view(issue) == crate::model::topic_view(*ticket),
{
    match ticket {
        Some(t) => Some(t.title.clone()),
        None => None,
    }
}

impl ServerState {
    /// The value `id` has voted for, if any.
    pub fn vote_of(&self, id: PlayerId) -> (vote: Option<u32>)
        ensures
            vote == self@.game.vote_of(id),
    {
        broadcast use vstd::std_specs::hash::group_hash_axioms;

        match self.game_state.votes.get(&id) {
            Some(value) => *value,
            None => None,
        }
    }

    /// Every participant once, with whether it has voted.
    pub fn roster(&self) -> (listed: Vec<ConnectedPlayer>)
        ensures
            is_roster(listed@.map_values(|c: ConnectedPlayer| c@), self@.game),
            listed@.len() == self@.game.players.dom().len(),
    {
        broadcast use vstd::std_specs::hash::group_hash_axioms;

        let ids = keys_of(&self.game_state.players);
        let mut listed: Vec<ConnectedPlayer> = Vec::new();
        let mut i: usize = 0;
        while i < ids.len()
            invariant
                i <= ids.len(),
                ids@.to_set() == self.game_state.players@.dom(),
                listed@.len() == i,
                forall|j: int|
                    0 <= j < i ==> (#[trigger] listed@[j])@ == presence(self@.game, ids@[j]),
            decreases ids.len() - i,
        {
            let id: PlayerId = ids[i];
            assert(ids@.to_set().contains(id));
            let has_voted = self.vote_of(id).is_some();
            match self.game_state.players.get(&id) {
                Some(player) => {
                    listed.push(ConnectedPlayer { name: player.name.clone(), has_voted });
                },
                None => {},
            }
            i += 1;
        }
        proof {
            assert(self@.game.players.dom() =~= self.game_state.players@.dom());
            assert(is_listing(ids@, self@.game.players.dom()));
            assert(listed@.map_values(|c: ConnectedPlayer| c@) =~= ids@.map_values(
                |id: PlayerId| presence(self@.game, id),
            ));
        }
        listed
    }

    /// Every participant once, with the vote it has cast.
    pub fn ballots(&self) -> (listed: Vec<VoteDetail>)
        ensures
            is_ballot_list(listed@.map_values(|d: VoteDetail| d@), self@.game),
            listed@.len() == self@.game.players.dom().len(),
    {
        broadcast use vstd::std_specs::hash::group_hash_axioms;

        let ids = keys_of(&self.game_state.players);
        let mut listed: Vec<VoteDetail> = Vec::new();
        let mut i: usize = 0;
        while i < ids.len()
            invariant
                i <= ids.len(),
                ids@.to_set() == self.game_state.players@.dom(),
                listed@.len() == i,
                forall|j: int| 0 <= j < i ==> (#[trigger] listed@[j])@ == ballot(self@.game, ids@[j]),
            decreases ids.len() - i,
        {
            let id: PlayerId = ids[i];
            assert(ids@.to_set().contains(id));
            let vote = self.vote_of(id);
            match self.game_state.players.get(&id) {
                Some(player) => {
                    listed.push(VoteDetail { player_name: player.name.clone(), vote });
                },
                None => {},
            }
            i += 1;
        }
        proof {
            assert(self@.game.players.dom() =~= self.game_state.players@.dom());
            assert(is_listing(ids@, self@.game.players.dom()));
            assert(listed@.map_values(|d: VoteDetail| d@) =~= ids@.map_values(
                |id: PlayerId| ballot(self@.game, id),
            ));
        }
        listed
    }

    /// A summary of the session that tells no vote.
    pub fn get_current_status(&self) -> (status: StatusUpdate)
        ensures
            is_status_of(status@, self@.game),
    {
        broadcast use vstd::std_specs::hash::group_hash_axioms;

        let connected_players = self.roster();
        let votes_cast: usize = self.cast_votes().len();
        let total_players: usize = self.game_state.players.len();
        assert(self@.game.players.dom() =~= self.game_state.players@.dom());
        StatusUpdate {
            phase: phase_name(&self.game_state.phase),
            issue_number: issue_of(&self.game_state.current_ticket),
            connected_players,
            votes_cast,
            total_players,
        }
    }

    /// Starts a round at time `now`, on the issue of the request and with
    /// the configured default duration, and says what every viewer is due,
    /// without sending it.
    pub fn prepare_round(&mut self, request: StartVotingRequest, now: u64) -> (outcome: (
        StartVotingResponse,
        Vec<Outbound>,
    ))
        ensures
            final(self)@ == (ServerView {
                game: round_started(
                    old(self)@.game,
                    text_view(request.issue_number),
                    old(self)@.game.config.default_timeout,
                    now,
                ),
                ..old(self)@
            }),
            outcome.0.success,
            outcome.0.message@ == "Voting started"@,
            is_broadcast(outbox_view(outcome.1@), final(self)@),
    {
        broadcast use vstd::string::to_string_from_display_ensures_for_str;

        let ticket = match request.issue_number {
            Some(issue) => Some(Ticket { title: issue }),
            None => None,
        };
        let timeout = self.game_state.config.default_timeout;
        self.game_state.start_round(ticket, timeout, now);
        let outbox = self.state_updates();
        (StartVotingResponse { success: true, message: "Voting started".to_string() }, outbox)
    }

    /// Starts a round now, by the system clock, and tells every viewer.
    pub fn start_voting(&mut self, request: StartVotingRequest) -> (outcome: (
        StartVotingResponse,
        Vec<Delivery>,
    ))
        ensures
            exists|now: u64|
                final(self)@ == (ServerView {
                    game: #[trigger] round_started(
                        old(self)@.game,
                        text_view(request.issue_number),
                        old(self)@.game.config.default_timeout,
                        now,
                    ),
                    ..old(self)@
                }),
            outcome.0.success,
            outcome.0.message@ == "Voting started"@,
            exists|outbox: Seq<OutboundView>|
                {
                    &&& #[trigger] is_broadcast(outbox, final(self)@)
                    &&& is_report_of(outcome.1@, outbox, final(self)@.clients)
                },
    {
        let now = current_time_unix();
        let (response, outbox) = self.prepare_round(request, now);
        let report = self.deliver(outbox);
        (response, report)
    }

    /// Reveals the votes of an open round and says what every viewer is
    /// due, without sending it. The answer names the topic, every
    /// participant's vote and the statistics as they were on entry; it
    /// reports success if a round was open. Without an open round nothing
    /// changes and nothing is due.
    pub fn tally_and_reveal(&mut self) -> (outcome: (RevealVotesResponse, Vec<Outbound>))
        ensures
            outcome.0.success == (old(self)@.game.phase is Voting),
            final(self)@ == if old(self)@.game.phase is Voting {
                ServerView { game: round_revealed(old(self)@.game), ..old(self)@ }
            } else {
                old(self)@
            },
            text_view(outcome.0.issue_number) == old(self)@.game.topic,
            is_ballot_list(outcome.0.votes@.map_values(|d: VoteDetail| d@), old(self)@.game),
            is_statistics_of_session(outcome.0.statistics, old(self)@.game),
            if old(self)@.game.phase is Voting {
                is_broadcast(outbox_view(outcome.1@), final(self)@)
            } else {
                outcome.1@.len() == 0
            },
    {
        broadcast use vstd::std_specs::hash::group_hash_axioms;

        let votes = self.ballots();
        let issue_number = issue_of(&self.game_state.current_ticket);
        let actual_votes = self.cast_votes();
        let total_players: usize = self.game_state.players.len();
        assert(self@.game.players.dom() =~= self.game_state.players@.dom());
        let statistics = calculate_statistics(&actual_votes, total_players);
        let success = self.is_voting();
        let mut outbox: Vec<Outbound> = Vec::new();
        if success {
            self.game_state.phase = Phase::Revealed;
            outbox = self.state_updates();
        }
        (RevealVotesResponse { success, issue_number, votes, statistics }, outbox)
    }

    /// Reveals the votes of an open round and tells every viewer.
    pub fn reveal_votes(&mut self) -> (outcome: (RevealVotesResponse, Vec<Delivery>))
        ensures
            outcome.0.success == (old(self)@.game.phase is Voting),
            final(self)@ == if old(self)@.game.phase is Voting {
                ServerView { game: round_revealed(old(self)@.game), ..old(self)@ }
            } else {
                old(self)@
            },
            text_view(outcome.0.issue_number) == old(self)@.game.topic,
            is_ballot_list(outcome.0.votes@.map_values(|d: VoteDetail| d@), old(self)@.game),
            is_statistics_of_session(outcome.0.statistics, old(self)@.game),
            if old(self)@.game.phase is Voting {
                exists|outbox: Seq<OutboundView>|
                    {
                        &&& #[trigger] is_broadcast(outbox, final(self)@)
                        &&& is_report_of(outcome.1@, outbox, final(self)@.clients)
                    }
            } else {
                outcome.1@.len() == 0
            },
    {
        let (response, outbox) = self.tally_and_reveal();
        let report = self.deliver(outbox);
        (response, report)
    }

    /// The values that have been voted for, one for each voter.
    pub fn cast_votes(&self) -> (values: Vec<u32>)
        ensures
            exists|ids: Seq<PlayerId>|
                {
                    &&& #[trigger] is_listing(ids, voters(self@.game))
                    &&& values@ == ids.map_values(|id: PlayerId| self@.game.votes[id]->0)
                },
            values@.len() == voters(self@.game).len(),
    {
        broadcast use vstd::std_specs::hash::group_hash_axioms;

        let keys = keys_of(&self.game_state.votes);
        let mut values: Vec<u32> = Vec::new();
        let ghost mut ids: Seq<PlayerId> = Seq::empty();
        let mut i: usize = 0;
        while i < keys.len()
            invariant
                i <= keys.len(),
                keys@.no_duplicates(),
                keys@.to_set() == self@.game.votes.dom(),
                ids.no_duplicates(),
                forall|id: PlayerId|
                    ids.contains(id) <==> voters(self@.game).contains(id) && among_first(
                        keys@,
                        i as int,
                        id,
                    ),
                values@ == ids.map_values(|id: PlayerId| self@.game.votes[id]->0),
            decreases keys.len() - i,
        {
            let id: PlayerId = keys[i];
            assert(keys@.to_set().contains(id));
            proof {
                lemma_among_first_step(keys@, i as int);
            }
            let vote = self.vote_of(id);
            let ghost prior = ids;
            match vote {
                Some(value) => {
                    values.push(value);
                    proof {
                        ids = prior.push(id);
                        assert(ids.map_values(|id: PlayerId| self@.game.votes[id]->0)
                            =~= prior.map_values(|id: PlayerId| self@.game.votes[id]->0).push(
                            value,
                        ));
                    }
                },
                None => {},
            }
            proof {
                lemma_push_contains(prior, id);
                assert(!prior.contains(id));
                assert(voters(self@.game).contains(id) <==> vote is Some);
                assert forall|other: PlayerId|
                    ids.contains(other) <==> voters(self@.game).contains(other) && among_first(
                        keys@,
                        i + 1,
                        other,
                    ) by {
                    assert(among_first(keys@, i + 1, other) <==> among_first(keys@, i as int, other)
                        || other == id);
                    assert(prior.contains(other) <==> voters(self@.game).contains(other)
                        && among_first(keys@, i as int, other));
                    if vote is Some {
                        assert(prior.push(id).contains(other) <==> prior.contains(other) || other
                            == id);
                    }
                }
            }
            i += 1;
        }
        proof {
            assert forall|id: PlayerId| ids.to_set().contains(id) <==> voters(self@.game).contains(
                id,
            ) by {
                if voters(self@.game).contains(id) {
                    assert(keys@.to_set().contains(id));
                    let m = choose|m: int| 0 <= m < keys@.len() && keys@[m] == id;
                    assert(among_first(keys@, i as int, id));
                }
            }
            assert(ids.to_set() =~= voters(self@.game));
            assert(is_listing(ids, voters(self@.game)));
            ids.unique_seq_to_set();
        }
        values
    }
}

/// Whether `id` is one of the first `n` entries of `keys`.
pub open spec fn among_first(keys: Seq<PlayerId>, n: int, id: PlayerId) -> bool {
    exists|m: int| 0 <= m < n && m < keys.len() && #[trigger] keys[m] == id
}

/// One entry more is among the first: the next one, which was not among
/// them before where no entry occurs twice.
proof fn lemma_among_first_step(keys: Seq<PlayerId>, n: int)
    requires
        0 <= n < keys.len(),
        keys.no_duplicates(),
    ensures
        !among_first(keys, n, keys[n]),
        forall|id: PlayerId|
            among_first(keys, n + 1, id) <==> among_first(keys, n, id) || id == keys[n],
{
    assert forall|id: PlayerId| among_first(keys, n + 1, id) implies among_first(keys, n, id) || id
        == keys[n] by {
        let m = choose|m: int| 0 <= m < n + 1 && m < keys.len() && #[trigger] keys[m] == id;
        if m < n {
            assert(among_first(keys, n, id));
        }
    }
    assert forall|id: PlayerId| among_first(keys, n, id) || id == keys[n] implies among_first(
        keys,
        n + 1,
        id,
    ) by {
        if among_first(keys, n, id) {
            let m = choose|m: int| 0 <= m < n && m < keys.len() && #[trigger] keys[m] == id;
            assert(0 <= m < n + 1 && keys[m] == id);
        } else {
            assert(0 <= n < n + 1 && keys[n] == id);
        }
    }
}

/// A sequence with one more entry holds what it held before and the new
/// entry; nothing occurs twice in it if the entry is new.
proof fn lemma_push_contains(ids: Seq<PlayerId>, id: PlayerId)
    ensures
        forall|other: PlayerId| ids.push(id).contains(other) <==> ids.contains(other) || other == id,
        ids.no_duplicates() && !ids.contains(id) ==> ids.push(id).no_duplicates(),
{
    let longer = ids.push(id);
    assert forall|other: PlayerId| longer.contains(other) implies ids.contains(other) || other
        == id by {
        let k = choose|k: int| 0 <= k < longer.len() && longer[k] == other;
        if k < ids.len() {
            assert(ids[k] == other);
        }
    }
    assert forall|other: PlayerId| ids.contains(other) || other == id implies longer.contains(
        other,
    ) by {
        if ids.contains(other) {
            let k = choose|k: int| 0 <= k < ids.len() && ids[k] == other;
            assert(longer[k] == other);
        } else {
            assert(longer[ids.len() as int] == other);
        }
    }
}

} // verus!
