use poker_planning::avatar::{AvatarColor, AvatarSymbol, Role};
use poker_planning::clock::{clock_reading, current_time_unix};
use poker_planning::handler::process_message;
use poker_planning::model::{load_config, Phase, PlayerId, VotingConfig};
use poker_planning::protocol::{AdminCommand, ClientPayload, ServerPayload};
use poker_planning::state::ServerState;
use tokio::sync::mpsc::channel;
use poker_planning::stats::{calculate_statistics, count_of, mode_of, sorted_votes, sum_votes};
use poker_planning::status::{phase_name, StartVotingRequest};

fn join(state: &mut ServerState, id: PlayerId, name: &str, role: Role) {
    let payload = ClientPayload::Login {
        name: name.to_string(),
        role,
        color: AvatarColor::Red,
        symbol: AvatarSymbol::Dog,
    };
    process_message(id, payload, state, &channel(8).0, 10);
}

fn vote(state: &mut ServerState, id: PlayerId, value: Option<u32>) {
    process_message(id, ClientPayload::Vote { value }, state, &channel(8).0, 10);
}

fn session_of_three() -> ServerState {
    let mut state = ServerState::new();
    join(&mut state, 1, "Ada", Role::ScrumMaster);
    join(&mut state, 2, "Bob", Role::Participant);
    join(&mut state, 3, "Cy", Role::Observer);
    state
}

#[test]
fn statistics_of_no_votes() {
    let stats = calculate_statistics(&vec![], 4);
    assert_eq!(stats.total_voters, 4);
    assert_eq!(stats.votes_cast, 0);
    assert_eq!(stats.sum, 0);
    assert_eq!(stats.twice_median, None);
    assert_eq!(stats.min, None);
    assert_eq!(stats.max, None);
    assert_eq!(stats.mode, None);
}

#[test]
fn statistics_of_an_odd_number_of_votes() {
    let stats = calculate_statistics(&vec![8, 1, 5, 5, 3], 6);
    assert_eq!(stats.total_voters, 6);
    assert_eq!(stats.votes_cast, 5);
    assert_eq!(stats.sum, 22);
    assert_eq!(stats.twice_median, Some(10));
    assert_eq!(stats.min, Some(1));
    assert_eq!(stats.max, Some(8));
    assert_eq!(stats.mode, Some(5));
}

#[test]
fn statistics_of_an_even_number_of_votes() {
    let stats = calculate_statistics(&vec![13, 2, 3, 8], 4);
    assert_eq!(stats.votes_cast, 4);
    assert_eq!(stats.sum, 26);
    assert_eq!(stats.twice_median, Some(11));
    assert_eq!(stats.min, Some(2));
    assert_eq!(stats.max, Some(13));
    assert_eq!(stats.mode, Some(2));
}

#[test]
fn statistics_of_one_vote() {
    let stats = calculate_statistics(&vec![7], 1);
    assert_eq!(stats.sum, 7);
    assert_eq!(stats.twice_median, Some(14));
    assert_eq!(stats.min, Some(7));
    assert_eq!(stats.max, Some(7));
    assert_eq!(stats.mode, Some(7));
}

#[test]
fn statistics_of_the_largest_votes_do_not_overflow() {
    let stats = calculate_statistics(&vec![u32::MAX, u32::MAX, u32::MAX], 3);
    assert_eq!(stats.sum, 3 * (u32::MAX as u128));
    assert_eq!(stats.twice_median, Some(2 * (u32::MAX as u64)));
    assert_eq!(stats.mode, Some(u32::MAX));
}

#[test]
fn mode_prefers_the_smaller_of_equally_frequent_votes() {
    assert_eq!(mode_of(&vec![8, 3, 8, 3, 5]), Some(3));
    assert_eq!(mode_of(&vec![3, 8, 8, 3, 8]), Some(8));
    assert_eq!(mode_of(&vec![]), None);
}

#[test]
fn sorting_counting_and_summing() {
    assert_eq!(sorted_votes(&vec![5, 1, 13, 1, 0]), vec![0, 1, 1, 5, 13]);
    assert_eq!(count_of(&vec![5, 1, 13, 1, 0], 1), 2);
    assert_eq!(count_of(&vec![5, 1, 13, 1, 0], 2), 0);
    assert_eq!(sum_votes(&vec![5, 1, 13, 1, 0]), 20);
}

#[test]
fn status_of_an_idle_session() {
    let state = ServerState::new();
    let status = state.get_current_status();
    assert_eq!(status.phase, "idle");
    assert_eq!(status.issue_number, None);
    assert!(status.connected_players.is_empty());
    assert_eq!(status.votes_cast, 0);
    assert_eq!(status.total_players, 0);
}

#[test]
fn status_counts_votes_but_tells_none() {
    let mut state = session_of_three();
    state.prepare_round(StartVotingRequest { issue_number: Some("#12".to_string()) }, 50);
    vote(&mut state, 1, Some(5));
    vote(&mut state, 2, Some(8));
    vote(&mut state, 3, None);
    let status = state.get_current_status();
    assert_eq!(status.phase, "voting");
    assert_eq!(status.issue_number, Some("#12".to_string()));
    assert_eq!(status.votes_cast, 2);
    assert_eq!(status.total_players, 3);
    let mut listed: Vec<(String, bool)> = status
        .connected_players
        .iter()
        .map(|p| (p.name.clone(), p.has_voted))
        .collect();
    listed.sort();
    assert_eq!(
        listed,
        vec![
            ("Ada".to_string(), true),
            ("Bob".to_string(), true),
            ("Cy".to_string(), false)
        ]
    );
}

#[test]
fn phase_names() {
    assert_eq!(phase_name(&Phase::Idle), "idle");
    assert_eq!(phase_name(&Phase::Voting { start_time_unix: 1, duration_secs: None }), "voting");
    assert_eq!(phase_name(&Phase::Revealed), "revealed");
}

#[test]
fn mirror_starts_a_round_with_the_default_duration() {
    let mut state = ServerState::with_config(VotingConfig {
        cards: vec![1, 2, 3],
        default_timeout: Some(90),
    });
    join(&mut state, 1, "Ada", Role::Participant);
    join(&mut state, 2, "Bob", Role::Participant);
    process_message(
        1,
        ClientPayload::VoteConfirm { confirmed: true },
        &mut state,
        &channel(8).0,
        10,
    );
    let (answer, outbox) =
        state.prepare_round(StartVotingRequest { issue_number: Some("#7".to_string()) }, 77);
    assert!(answer.success);
    assert_eq!(answer.message, "Voting started");
    assert_eq!(
        state.game_state.phase,
        Phase::Voting { start_time_unix: 77, duration_secs: Some(90) }
    );
    assert_eq!(state.game_state.current_ticket.as_ref().unwrap().title, "#7");
    assert!(!state.game_state.players[&1].confirmed);
    assert!(state.game_state.votes.is_empty());
    assert_eq!(outbox.len(), 2);
}

#[test]
fn mirror_starts_a_round_without_issue() {
    let mut state = ServerState::new();
    let (answer, report) = state.start_voting(StartVotingRequest { issue_number: None });
    assert!(answer.success);
    assert!(report.is_empty());
    assert!(state.game_state.current_ticket.is_none());
    match state.game_state.phase {
        Phase::Voting { start_time_unix, duration_secs } => {
            assert!(start_time_unix > 1_600_000_000);
            assert_eq!(duration_secs, None);
        }
        _ => panic!("no round was opened"),
    }
}

#[test]
fn mirror_reveals_votes_and_statistics() {
    let mut state = session_of_three();
    state.prepare_round(StartVotingRequest { issue_number: Some("#12".to_string()) }, 50);
    vote(&mut state, 1, Some(5));
    vote(&mut state, 2, Some(8));
    let (answer, outbox) = state.tally_and_reveal();
    assert!(answer.success);
    assert_eq!(state.game_state.phase, Phase::Revealed);
    assert_eq!(answer.issue_number, Some("#12".to_string()));
    let mut votes: Vec<(String, Option<u32>)> =
        answer.votes.iter().map(|d| (d.player_name.clone(), d.vote)).collect();
    votes.sort();
    assert_eq!(
        votes,
        vec![
            ("Ada".to_string(), Some(5)),
            ("Bob".to_string(), Some(8)),
            ("Cy".to_string(), None)
        ]
    );
    assert_eq!(answer.statistics.total_voters, 3);
    assert_eq!(answer.statistics.votes_cast, 2);
    assert_eq!(answer.statistics.sum, 13);
    assert_eq!(answer.statistics.twice_median, Some(13));
    assert_eq!(answer.statistics.min, Some(5));
    assert_eq!(answer.statistics.max, Some(8));
    assert_eq!(answer.statistics.mode, Some(5));
    assert_eq!(outbox.len(), 3);
    for outbound in &outbox {
        match &outbound.message {
            ServerPayload::StateUpdate(seen) => {
                assert_eq!(seen.phase, Phase::Revealed);
                assert_eq!(seen.votes[&2].value, Some(8));
            }
            _ => panic!("a reveal sends updates only"),
        }
    }
}

#[test]
fn mirror_reveal_without_a_round_changes_nothing() {
    let mut state = session_of_three();
    let (answer, outbox) = state.tally_and_reveal();
    assert!(!answer.success);
    assert!(outbox.is_empty());
    assert_eq!(state.game_state.phase, Phase::Idle);
    assert_eq!(answer.statistics.votes_cast, 0);
    assert_eq!(answer.statistics.total_voters, 3);
    assert_eq!(answer.votes.len(), 3);
}

#[test]
fn cast_votes_lists_values_only() {
    let mut state = session_of_three();
    process_message(
        1,
        ClientPayload::Admin(AdminCommand::StartVote { ticket: None, timeout: None }),
        &mut state,
        &channel(8).0,
        3,
    );
    vote(&mut state, 1, Some(2));
    vote(&mut state, 2, None);
    vote(&mut state, 3, Some(2));
    let mut values = state.cast_votes();
    values.sort();
    assert_eq!(values, vec![2, 2]);
    assert_eq!(state.roster().len(), 3);
    assert_eq!(state.ballots().len(), 3);
}

#[test]
fn stored_configuration_is_taken() {
    let stored = VotingConfig { cards: vec![1, 2], default_timeout: Some(5) };
    let (config, store) = load_config(Some(stored));
    assert_eq!(config.cards, vec![1, 2]);
    assert_eq!(config.default_timeout, Some(5));
    assert!(!store);
}

#[test]
fn missing_configuration_falls_back_to_the_default() {
    let (config, store) = load_config(None);
    assert_eq!(config.cards, vec![0, 1, 2, 3, 5, 8, 13]);
    assert_eq!(config.default_timeout, None);
    assert!(store);
}

#[test]
fn clock_reads_whole_seconds_or_zero() {
    assert_eq!(clock_reading(Some(12)), 12);
    assert_eq!(clock_reading(None), 0);
    let first = current_time_unix();
    let second = current_time_unix();
    assert!(first > 1_600_000_000);
    assert!(second >= first);
}
