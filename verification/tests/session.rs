use poker_planning::avatar::{AvatarColor, AvatarSymbol, Role};
use poker_planning::handler::{handle_message, process_message, Dispatch};
use poker_planning::model::{Phase, PlayerId, Ticket, VotingConfig};
use poker_planning::protocol::{AdminCommand, ClientPayload, ServerPayload, ViewerSnapshot};
use poker_planning::state::{ServerState, Tx};
use tokio::sync::mpsc::channel;

const ADA: PlayerId = 1;
const BOB: PlayerId = 2;
const CY: PlayerId = 3;

fn login(name: &str, role: Role) -> ClientPayload {
    ClientPayload::Login {
        name: name.to_string(),
        role,
        color: AvatarColor::Blue,
        symbol: AvatarSymbol::Cat,
    }
}

fn start_vote(topic: &str, timeout: u64) -> ClientPayload {
    ClientPayload::Admin(AdminCommand::StartVote {
        ticket: Some(Ticket { title: topic.to_string() }),
        timeout: Some(timeout),
    })
}

/// A queue whose receiving half is gone: good for registering, not for
/// receiving.
fn queue() -> Tx {
    channel(8).0
}

fn send(state: &mut ServerState, id: PlayerId, payload: ClientPayload) -> Dispatch {
    process_message(id, payload, state, &queue(), 1000)
}

/// Ada, the facilitator, and Bob have logged in, and a round is open on "T-1".
fn voting_session() -> ServerState {
    let mut state = ServerState::new();
    send(&mut state, ADA, login("Ada", Role::ScrumMaster));
    send(&mut state, BOB, login("Bob", Role::Participant));
    send(&mut state, ADA, start_vote("T-1", 20));
    state
}

fn update_for(dispatch: &Dispatch, id: PlayerId) -> &ViewerSnapshot {
    let mut found = None;
    for outbound in &dispatch.outbox {
        if outbound.to == id {
            if let ServerPayload::StateUpdate(snapshot) = &outbound.message {
                assert!(found.is_none(), "two updates for one viewer");
                found = Some(snapshot);
            }
        }
    }
    found.expect("no update for the viewer")
}

#[test]
fn new_session_is_idle_and_empty() {
    let state = ServerState::new();
    assert_eq!(state.game_state.phase, Phase::Idle);
    assert!(state.game_state.players.is_empty());
    assert!(state.game_state.votes.is_empty());
    assert!(state.game_state.current_ticket.is_none());
    assert_eq!(state.game_state.config.cards, vec![0, 1, 2, 3, 5, 8, 13]);
    assert_eq!(state.game_state.config.default_timeout, None);
    assert!(!state.is_registered(ADA));
}

#[test]
fn start_vote_opens_a_clean_round() {
    let mut state = ServerState::new();
    assert!(send(&mut state, ADA, login("Ada", Role::ScrumMaster)).broadcast);
    assert!(send(&mut state, BOB, login("Bob", Role::Participant)).broadcast);
    let dispatch = send(&mut state, ADA, start_vote("T-1", 20));
    assert!(dispatch.broadcast);
    assert_eq!(
        state.game_state.phase,
        Phase::Voting { start_time_unix: 1000, duration_secs: Some(20) }
    );
    assert_eq!(state.game_state.current_ticket.as_ref().unwrap().title, "T-1");
    assert_eq!(state.vote_of(ADA), None);
    assert_eq!(state.vote_of(BOB), None);
    assert!(state.game_state.votes.is_empty());
    assert!(!state.game_state.players[&ADA].confirmed);
    assert!(!state.game_state.players[&BOB].confirmed);
}

#[test]
fn votes_of_others_stay_hidden_while_voting() {
    let mut state = voting_session();
    assert!(send(&mut state, BOB, ClientPayload::Vote { value: Some(5) }).broadcast);
    let dispatch = send(&mut state, BOB, ClientPayload::VoteConfirm { confirmed: true });
    assert!(dispatch.broadcast);
    assert_eq!(state.vote_of(BOB), Some(5));
    assert!(state.game_state.players[&BOB].confirmed);

    let seen_by_ada = update_for(&dispatch, ADA);
    assert_eq!(seen_by_ada.votes[&BOB].value, None);
    assert!(seen_by_ada.votes[&BOB].has_voted);
    assert!(seen_by_ada.players[&BOB].confirmed);

    let seen_by_bob = update_for(&dispatch, BOB);
    assert_eq!(seen_by_bob.votes[&BOB].value, Some(5));
    assert!(seen_by_bob.votes[&BOB].has_voted);
}

#[test]
fn reveal_shows_all_votes_to_all() {
    let mut state = voting_session();
    send(&mut state, BOB, ClientPayload::Vote { value: Some(5) });
    send(&mut state, ADA, ClientPayload::Vote { value: Some(8) });
    let dispatch = send(&mut state, ADA, ClientPayload::Admin(AdminCommand::Reveal));
    assert!(dispatch.broadcast);
    assert_eq!(state.game_state.phase, Phase::Revealed);
    for viewer in [ADA, BOB] {
        let seen = update_for(&dispatch, viewer);
        assert_eq!(seen.phase, Phase::Revealed);
        assert_eq!(seen.votes[&ADA].value, Some(8));
        assert_eq!(seen.votes[&BOB].value, Some(5));
        assert!(seen.votes[&ADA].has_voted);
        assert!(seen.votes[&BOB].has_voted);
    }
}

#[test]
fn reset_from_a_contributor_changes_nothing() {
    let mut state = voting_session();
    send(&mut state, BOB, ClientPayload::Vote { value: Some(5) });
    send(&mut state, BOB, ClientPayload::Move { x: 7, y: 9 });
    let dispatch = send(&mut state, BOB, ClientPayload::Admin(AdminCommand::Reset));
    assert!(!dispatch.broadcast);
    assert!(dispatch.outbox.is_empty());
    assert_eq!(
        state.game_state.phase,
        Phase::Voting { start_time_unix: 1000, duration_secs: Some(20) }
    );
    assert_eq!(state.game_state.current_ticket.as_ref().unwrap().title, "T-1");
    assert_eq!(state.vote_of(BOB), Some(5));
    assert_eq!(state.game_state.players[&BOB].position, (7, 9));
    assert_eq!(state.game_state.players.len(), 2);
}

#[test]
fn login_places_the_newcomer_and_welcomes_it_first() {
    let mut state = ServerState::new();
    send(&mut state, ADA, login("Ada", Role::ScrumMaster));
    let dispatch = send(&mut state, BOB, login("Bob", Role::Observer));
    let bob = &state.game_state.players[&BOB];
    assert_eq!(bob.id, BOB);
    assert_eq!(bob.name, "Bob");
    assert_eq!(bob.role, Role::Observer);
    assert_eq!(bob.position, (2, 2));
    assert_eq!(bob.color, AvatarColor::Blue);
    assert_eq!(bob.symbol, AvatarSymbol::Cat);
    assert!(!bob.confirmed);
    assert!(state.is_registered(BOB));

    assert_eq!(dispatch.outbox.len(), 3);
    assert_eq!(dispatch.outbox[0].to, BOB);
    match &dispatch.outbox[0].message {
        ServerPayload::Welcome { self_id, state } => {
            assert_eq!(*self_id, BOB);
            assert_eq!(state.players.len(), 2);
        }
        _ => panic!("the first message is no welcome"),
    }
    assert_eq!(update_for(&dispatch, ADA).players.len(), 2);
    assert_eq!(update_for(&dispatch, BOB).players.len(), 2);
}

#[test]
fn login_again_starts_over_but_keeps_the_vote() {
    let mut state = voting_session();
    send(&mut state, BOB, ClientPayload::Move { x: 5, y: 5 });
    send(&mut state, BOB, ClientPayload::Vote { value: Some(3) });
    send(&mut state, BOB, ClientPayload::VoteConfirm { confirmed: true });
    send(&mut state, BOB, login("Robert", Role::Participant));
    assert_eq!(state.game_state.players.len(), 2);
    assert_eq!(state.game_state.players[&BOB].name, "Robert");
    assert_eq!(state.game_state.players[&BOB].position, (2, 2));
    assert!(!state.game_state.players[&BOB].confirmed);
    assert_eq!(state.vote_of(BOB), Some(3));
}

#[test]
fn move_changes_only_the_position_of_the_caller() {
    let mut state = voting_session();
    let dispatch = send(&mut state, BOB, ClientPayload::Move { x: 65535, y: 0 });
    assert!(dispatch.broadcast);
    assert_eq!(state.game_state.players[&BOB].position, (65535, 0));
    assert_eq!(state.game_state.players[&BOB].name, "Bob");
    assert_eq!(state.game_state.players[&ADA].position, (2, 2));
}

#[test]
fn commands_of_a_stranger_are_ignored() {
    let mut state = voting_session();
    for payload in [
        ClientPayload::Move { x: 1, y: 1 },
        ClientPayload::Vote { value: Some(1) },
        ClientPayload::VoteConfirm { confirmed: true },
        ClientPayload::Admin(AdminCommand::Reveal),
    ] {
        let dispatch = send(&mut state, CY, payload);
        assert!(!dispatch.broadcast);
        assert!(dispatch.outbox.is_empty());
    }
    assert!(!state.game_state.players.contains_key(&CY));
    assert!(!state.game_state.votes.contains_key(&CY));
    assert!(matches!(state.game_state.phase, Phase::Voting { .. }));
}

#[test]
fn vote_outside_a_round_has_no_effect() {
    let mut state = ServerState::new();
    send(&mut state, ADA, login("Ada", Role::ScrumMaster));
    let dispatch = send(&mut state, ADA, ClientPayload::Vote { value: Some(5) });
    assert!(!dispatch.broadcast);
    assert!(dispatch.outbox.is_empty());
    assert!(state.game_state.votes.is_empty());

    send(&mut state, ADA, start_vote("T-2", 30));
    send(&mut state, ADA, ClientPayload::Vote { value: Some(5) });
    send(&mut state, ADA, ClientPayload::Admin(AdminCommand::Reveal));
    let late = send(&mut state, ADA, ClientPayload::Vote { value: Some(13) });
    assert!(!late.broadcast);
    assert_eq!(state.vote_of(ADA), Some(5));
}

#[test]
fn vote_is_overwritten_and_withdrawn() {
    let mut state = voting_session();
    send(&mut state, BOB, ClientPayload::Vote { value: Some(5) });
    send(&mut state, BOB, ClientPayload::Vote { value: Some(8) });
    assert_eq!(state.vote_of(BOB), Some(8));
    let dispatch = send(&mut state, BOB, ClientPayload::Vote { value: None });
    assert!(dispatch.broadcast);
    assert_eq!(state.vote_of(BOB), None);
    assert!(!update_for(&dispatch, ADA).votes[&BOB].has_voted);
}

#[test]
fn start_vote_clears_votes_and_confirmations_of_all() {
    let mut state = voting_session();
    send(&mut state, CY, login("Cy", Role::Observer));
    for id in [ADA, BOB, CY] {
        send(&mut state, id, ClientPayload::Vote { value: Some(2) });
        send(&mut state, id, ClientPayload::VoteConfirm { confirmed: true });
        send(&mut state, id, ClientPayload::Move { x: 4, y: 6 });
    }
    let dispatch = process_message(ADA, start_vote("T-9", 45), &mut state, &queue(), 2222);
    assert!(dispatch.broadcast);
    assert_eq!(
        state.game_state.phase,
        Phase::Voting { start_time_unix: 2222, duration_secs: Some(45) }
    );
    assert_eq!(state.game_state.current_ticket.as_ref().unwrap().title, "T-9");
    assert!(state.game_state.votes.is_empty());
    for id in [ADA, BOB, CY] {
        assert!(!state.game_state.players[&id].confirmed);
        assert_eq!(state.game_state.players[&id].position, (4, 6));
    }
}

#[test]
fn start_vote_without_topic_or_timeout() {
    let mut state = voting_session();
    let payload = ClientPayload::Admin(AdminCommand::StartVote { ticket: None, timeout: None });
    process_message(ADA, payload, &mut state, &queue(), 7);
    assert_eq!(state.game_state.phase, Phase::Voting { start_time_unix: 7, duration_secs: None });
    assert!(state.game_state.current_ticket.is_none());
}

#[test]
fn reset_clears_the_round_and_recalls_everyone() {
    let mut state = voting_session();
    for id in [ADA, BOB] {
        send(&mut state, id, ClientPayload::Vote { value: Some(2) });
        send(&mut state, id, ClientPayload::VoteConfirm { confirmed: true });
        send(&mut state, id, ClientPayload::Move { x: 4, y: 6 });
    }
    let dispatch = send(&mut state, ADA, ClientPayload::Admin(AdminCommand::Reset));
    assert!(dispatch.broadcast);
    assert_eq!(state.game_state.phase, Phase::Idle);
    assert!(state.game_state.current_ticket.is_none());
    assert!(state.game_state.votes.is_empty());
    for id in [ADA, BOB] {
        assert_eq!(state.game_state.players[&id].position, (10, 10));
        assert!(!state.game_state.players[&id].confirmed);
        assert_eq!(state.vote_of(id), None);
    }
    assert_eq!(state.game_state.players[&ADA].name, "Ada");
    assert_eq!(state.game_state.players[&BOB].role, Role::Participant);
}

#[test]
fn reveal_needs_an_open_round() {
    let mut state = ServerState::new();
    send(&mut state, ADA, login("Ada", Role::ScrumMaster));
    let dispatch = send(&mut state, ADA, ClientPayload::Admin(AdminCommand::Reveal));
    assert!(!dispatch.broadcast);
    assert_eq!(state.game_state.phase, Phase::Idle);
}

#[test]
fn kick_removes_participant_vote_and_registration() {
    let mut state = voting_session();
    send(&mut state, BOB, ClientPayload::Vote { value: Some(5) });
    let dispatch = send(
        &mut state,
        ADA,
        ClientPayload::Admin(AdminCommand::Kick { player_id: BOB }),
    );
    assert!(dispatch.broadcast);
    assert!(!state.game_state.players.contains_key(&BOB));
    assert!(!state.game_state.votes.contains_key(&BOB));
    assert!(!state.is_registered(BOB));
    assert_eq!(dispatch.outbox.len(), 1);
    assert!(!update_for(&dispatch, ADA).players.contains_key(&BOB));
}

#[test]
fn kick_of_an_unknown_id_is_ignored() {
    let mut state = voting_session();
    let dispatch = send(
        &mut state,
        ADA,
        ClientPayload::Admin(AdminCommand::Kick { player_id: 99 }),
    );
    assert!(!dispatch.broadcast);
    assert!(dispatch.outbox.is_empty());
    assert_eq!(state.game_state.players.len(), 2);
}

#[test]
fn kick_from_a_contributor_is_ignored() {
    let mut state = voting_session();
    let dispatch = send(
        &mut state,
        BOB,
        ClientPayload::Admin(AdminCommand::Kick { player_id: ADA }),
    );
    assert!(!dispatch.broadcast);
    assert!(state.game_state.players.contains_key(&ADA));
    assert!(state.is_registered(ADA));
}

#[test]
fn update_config_replaces_it_and_asks_for_storage() {
    let mut state = voting_session();
    let config = VotingConfig { cards: vec![1, 2, 4, 8], default_timeout: Some(60) };
    let dispatch = send(&mut state, ADA, ClientPayload::Admin(AdminCommand::UpdateConfig(config)));
    assert!(dispatch.broadcast);
    assert_eq!(state.game_state.config.cards, vec![1, 2, 4, 8]);
    assert_eq!(state.game_state.config.default_timeout, Some(60));
    let stored = dispatch.persist.as_ref().expect("nothing to store");
    assert_eq!(stored.cards, vec![1, 2, 4, 8]);
    assert_eq!(stored.default_timeout, Some(60));
    assert_eq!(update_for(&dispatch, BOB).config.cards, vec![1, 2, 4, 8]);
}

#[test]
fn update_config_from_a_contributor_is_ignored() {
    let mut state = voting_session();
    let config = VotingConfig { cards: vec![1], default_timeout: None };
    let dispatch = send(&mut state, BOB, ClientPayload::Admin(AdminCommand::UpdateConfig(config)));
    assert!(!dispatch.broadcast);
    assert!(dispatch.persist.is_none());
    assert_eq!(state.game_state.config.cards, vec![0, 1, 2, 3, 5, 8, 13]);
}

#[test]
fn other_commands_ask_for_no_storage() {
    let mut state = voting_session();
    assert!(send(&mut state, ADA, ClientPayload::Move { x: 1, y: 1 }).persist.is_none());
    assert!(send(&mut state, ADA, start_vote("T", 1)).persist.is_none());
}

#[test]
fn every_viewer_gets_one_update_of_the_same_state() {
    let mut state = voting_session();
    send(&mut state, CY, login("Cy", Role::Observer));
    send(&mut state, BOB, ClientPayload::Vote { value: Some(3) });
    let dispatch = send(&mut state, ADA, ClientPayload::Move { x: 9, y: 9 });
    assert_eq!(dispatch.outbox.len(), 3);
    for viewer in [ADA, BOB, CY] {
        let seen = update_for(&dispatch, viewer);
        assert_eq!(seen.players.len(), 3);
        assert_eq!(seen.players[&ADA].position, (9, 9));
        assert_eq!(seen.current_ticket.as_ref().unwrap().title, "T-1");
        assert_eq!(seen.votes.len(), 1);
        assert!(seen.votes[&BOB].has_voted);
        let expected = if viewer == BOB { Some(3) } else { None };
        assert_eq!(seen.votes[&BOB].value, expected);
    }
}

#[test]
fn filter_shows_everything_outside_a_round() {
    let mut state = voting_session();
    send(&mut state, BOB, ClientPayload::Vote { value: Some(3) });
    assert_eq!(state.filter_state_for(ADA).votes[&BOB].value, None);
    send(&mut state, ADA, ClientPayload::Admin(AdminCommand::Reveal));
    assert_eq!(state.filter_state_for(ADA).votes[&BOB].value, Some(3));
    assert_eq!(state.filter_state_for(CY).votes[&BOB].value, Some(3));
}

#[test]
fn remove_client_takes_all_three_entries() {
    let mut state = voting_session();
    send(&mut state, BOB, ClientPayload::Vote { value: Some(3) });
    state.remove_client(BOB);
    assert!(!state.game_state.players.contains_key(&BOB));
    assert!(!state.game_state.votes.contains_key(&BOB));
    assert!(!state.is_registered(BOB));
    assert!(state.game_state.players.contains_key(&ADA));
    assert!(state.is_registered(ADA));
    state.remove_client(BOB);
    assert_eq!(state.game_state.players.len(), 1);
}

#[test]
fn add_client_registers_without_a_participant() {
    let mut state = ServerState::new();
    state.add_client(CY, queue());
    assert!(state.is_registered(CY));
    assert!(state.game_state.players.is_empty());
    let outbox = state.state_updates();
    assert_eq!(outbox.len(), 1);
    assert_eq!(outbox[0].to, CY);
}

#[test]
fn votes_never_outlive_their_participants() {
    let mut state = voting_session();
    send(&mut state, CY, login("Cy", Role::Participant));
    let script: Vec<(PlayerId, ClientPayload)> = vec![
        (BOB, ClientPayload::Vote { value: Some(1) }),
        (CY, ClientPayload::Vote { value: Some(2) }),
        (9, ClientPayload::Vote { value: Some(3) }),
        (ADA, ClientPayload::Admin(AdminCommand::Kick { player_id: CY })),
        (CY, ClientPayload::Vote { value: Some(4) }),
        (ADA, ClientPayload::Admin(AdminCommand::Reveal)),
        (BOB, ClientPayload::Vote { value: Some(5) }),
        (ADA, ClientPayload::Admin(AdminCommand::Reset)),
        (ADA, start_vote("T-3", 5)),
        (ADA, ClientPayload::Vote { value: None }),
    ];
    for (id, payload) in script {
        send(&mut state, id, payload);
        for voter in state.game_state.votes.keys() {
            assert!(state.game_state.players.contains_key(voter));
        }
        for (id, player) in &state.game_state.players {
            assert_eq!(player.id, *id);
            assert!(state.is_registered(*id));
        }
    }
}

#[test]
fn handle_message_records_the_present_time() {
    let mut state = ServerState::new();
    let (tx, _rx) = channel(8);
    handle_message(ADA, login("Ada", Role::ScrumMaster), &mut state, &tx);
    let receipt = handle_message(ADA, start_vote("T-1", 20), &mut state, &tx);
    assert!(receipt.broadcast);
    match state.game_state.phase {
        Phase::Voting { start_time_unix, duration_secs } => {
            assert!(start_time_unix > 1_600_000_000);
            assert_eq!(duration_secs, Some(20));
        }
        _ => panic!("no round was opened"),
    }
}

#[test]
fn facilitator_checks() {
    let state = voting_session();
    assert!(state.is_admin(ADA));
    assert!(!state.is_admin(BOB));
    assert!(!state.is_admin(CY));
    assert!(state.is_participant(BOB));
    assert!(!state.is_participant(CY));
    assert!(state.is_voting());
}

#[test]
fn positions_are_shown_unless_asked_otherwise() {
    let mut state = voting_session();
    send(&mut state, BOB, ClientPayload::Move { x: 7, y: 9 });
    assert!(!state.hide_positions);
    assert_eq!(state.filter_state_for(ADA).players[&BOB].position, (7, 9));
}

#[test]
fn positions_of_others_can_be_withheld_while_voting() {
    let mut state = voting_session();
    state.hide_positions = true;
    send(&mut state, ADA, ClientPayload::Move { x: 3, y: 4 });
    let dispatch = send(&mut state, BOB, ClientPayload::Move { x: 7, y: 9 });

    let seen_by_ada = update_for(&dispatch, ADA);
    assert_eq!(seen_by_ada.players[&ADA].position, (3, 4));
    assert_eq!(seen_by_ada.players[&BOB].position, (65535, 65535));
    assert_eq!(seen_by_ada.players[&BOB].name, "Bob");
    assert_eq!(seen_by_ada.players[&BOB].role, Role::Participant);

    let seen_by_bob = update_for(&dispatch, BOB);
    assert_eq!(seen_by_bob.players[&BOB].position, (7, 9));
    assert_eq!(seen_by_bob.players[&ADA].position, (65535, 65535));

    assert_eq!(state.game_state.players[&BOB].position, (7, 9));
    assert_eq!(state.visible_players(CY)[&ADA].position, (65535, 65535));

    let revealed = send(&mut state, ADA, ClientPayload::Admin(AdminCommand::Reveal));
    assert_eq!(update_for(&revealed, ADA).players[&BOB].position, (7, 9));
    assert_eq!(update_for(&revealed, BOB).players[&ADA].position, (3, 4));
}

#[test]
fn withheld_positions_stay_withheld_through_commands() {
    let mut state = voting_session();
    state.hide_positions = true;
    send(&mut state, CY, login("Cy", Role::Observer));
    send(&mut state, ADA, ClientPayload::Admin(AdminCommand::Kick { player_id: CY }));
    send(&mut state, ADA, ClientPayload::Admin(AdminCommand::Reset));
    assert!(state.hide_positions);
}
