use poker_planning::avatar::{AvatarColor, AvatarSymbol, Role};
use poker_planning::connection::{Connection, Inbound};
use poker_planning::handler::handle_message;
use poker_planning::model::{Phase, PlayerId, Ticket};
use poker_planning::protocol::{AdminCommand, ClientPayload, Outbound, ServerPayload};
use poker_planning::state::{Delivery, Fate, ServerState, QUEUE_CAPACITY};
use poker_planning::status::StartVotingRequest;
use tokio::sync::mpsc::{channel, Receiver};

fn login(name: &str, role: Role) -> ClientPayload {
    ClientPayload::Login {
        name: name.to_string(),
        role,
        color: AvatarColor::Mint,
        symbol: AvatarSymbol::Fish,
    }
}

fn start_vote() -> ClientPayload {
    ClientPayload::Admin(AdminCommand::StartVote {
        ticket: Some(Ticket { title: "T-1".to_string() }),
        timeout: Some(20),
    })
}

fn drain(rx: &mut Receiver<ServerPayload>) -> Vec<ServerPayload> {
    let mut received = Vec::new();
    while let Ok(message) = rx.try_recv() {
        received.push(message);
    }
    received
}

fn accepted_by(report: &[Delivery]) -> Vec<PlayerId> {
    let mut ids: Vec<PlayerId> = report.iter().filter(|d| d.fate == Fate::Queued).map(|d| d.to).collect();
    ids.sort();
    ids
}

#[test]
fn login_is_answered_by_welcome_then_update() {
    let mut state = ServerState::new();
    let (tx, mut rx) = channel(8);
    let receipt = handle_message(1, login("Ada", Role::ScrumMaster), &mut state, &tx);
    assert!(receipt.broadcast);
    assert_eq!(
        receipt.deliveries,
        vec![Delivery { to: 1, fate: Fate::Queued }, Delivery { to: 1, fate: Fate::Queued }]
    );
    let received = drain(&mut rx);
    assert_eq!(received.len(), 2);
    match &received[0] {
        ServerPayload::Welcome { self_id, state } => {
            assert_eq!(*self_id, 1);
            assert_eq!(state.players[&1].name, "Ada");
        }
        _ => panic!("the first message is no welcome"),
    }
    assert!(matches!(received[1], ServerPayload::StateUpdate(_)));
}

#[test]
fn every_viewer_receives_its_own_view() {
    let mut state = ServerState::new();
    let (tx1, mut rx1) = channel(8);
    let (tx2, mut rx2) = channel(8);
    handle_message(1, login("Ada", Role::ScrumMaster), &mut state, &tx1);
    handle_message(2, login("Bob", Role::Participant), &mut state, &tx2);
    handle_message(1, start_vote(), &mut state, &tx1);
    drain(&mut rx1);
    drain(&mut rx2);

    let receipt = handle_message(2, ClientPayload::Vote { value: Some(5) }, &mut state, &tx2);
    assert_eq!(accepted_by(&receipt.deliveries), vec![1, 2]);
    assert_eq!(receipt.deliveries.len(), 2);

    let to_first = drain(&mut rx1);
    let to_second = drain(&mut rx2);
    assert_eq!(to_first.len(), 1);
    assert_eq!(to_second.len(), 1);
    match (&to_first[0], &to_second[0]) {
        (ServerPayload::StateUpdate(first), ServerPayload::StateUpdate(second)) => {
            assert!(first.votes[&2].has_voted);
            assert_eq!(first.votes[&2].value, None);
            assert_eq!(second.votes[&2].value, Some(5));
            assert!(matches!(first.phase, Phase::Voting { .. }));
        }
        _ => panic!("a vote is followed by updates only"),
    }
}

#[test]
fn ignored_command_sends_nothing() {
    let mut state = ServerState::new();
    let (tx, mut rx) = channel(8);
    handle_message(1, login("Ada", Role::Participant), &mut state, &tx);
    drain(&mut rx);
    let receipt = handle_message(1, ClientPayload::Admin(AdminCommand::Reset), &mut state, &tx);
    assert!(!receipt.broadcast);
    assert!(receipt.deliveries.is_empty());
    assert!(drain(&mut rx).is_empty());
}

#[test]
fn closed_queue_does_not_stop_the_broadcast() {
    let mut state = ServerState::new();
    let (tx1, mut rx1) = channel(8);
    let (tx2, rx2) = channel(8);
    handle_message(1, login("Ada", Role::ScrumMaster), &mut state, &tx1);
    handle_message(2, login("Bob", Role::Participant), &mut state, &tx2);
    drain(&mut rx1);
    drop(rx2);

    let receipt = handle_message(1, ClientPayload::Move { x: 3, y: 3 }, &mut state, &tx1);
    assert!(receipt.broadcast);
    assert_eq!(receipt.deliveries.len(), 2);
    assert_eq!(accepted_by(&receipt.deliveries), vec![1]);
    assert!(receipt.deliveries.contains(&Delivery { to: 2, fate: Fate::Closed }));
    assert_eq!(drain(&mut rx1).len(), 1);
    assert!(state.is_registered(2));
    assert!(state.game_state.players.contains_key(&2));
}

#[test]
fn kicked_viewer_receives_nothing_more() {
    let mut state = ServerState::new();
    let (tx1, mut rx1) = channel(8);
    let (tx2, mut rx2) = channel(8);
    handle_message(1, login("Ada", Role::ScrumMaster), &mut state, &tx1);
    handle_message(2, login("Bob", Role::Participant), &mut state, &tx2);
    drain(&mut rx1);
    drain(&mut rx2);
    let kick = ClientPayload::Admin(AdminCommand::Kick { player_id: 2 });
    let receipt = handle_message(1, kick, &mut state, &tx1);
    assert_eq!(receipt.deliveries, vec![Delivery { to: 1, fate: Fate::Queued }]);
    assert_eq!(drain(&mut rx1).len(), 1);
    assert!(drain(&mut rx2).is_empty());
}

#[test]
fn messages_arrive_in_the_order_of_the_outbox() {
    let mut state = ServerState::new();
    let (tx, mut rx) = channel(8);
    state.add_client(4, tx);
    let outbox = vec![
        Outbound { to: 4, message: ServerPayload::Error("first".to_string()) },
        Outbound { to: 9, message: ServerPayload::Error("lost".to_string()) },
        Outbound { to: 4, message: ServerPayload::Error("second".to_string()) },
    ];
    let report = state.deliver(outbox);
    assert_eq!(
        report,
        vec![
            Delivery { to: 4, fate: Fate::Queued },
            Delivery { to: 9, fate: Fate::Unknown },
            Delivery { to: 4, fate: Fate::Queued }
        ]
    );
    let texts: Vec<String> = drain(&mut rx)
        .into_iter()
        .map(|m| match m {
            ServerPayload::Error(text) => text,
            _ => panic!("no error message"),
        })
        .collect();
    assert_eq!(texts, vec!["first", "second"]);
}

#[test]
fn plain_broadcast_reaches_everyone_with_the_same_message() {
    let mut state = ServerState::new();
    let (tx1, mut rx1) = channel(8);
    let (tx2, mut rx2) = channel(8);
    state.add_client(1, tx1);
    state.add_client(2, tx2);
    let report = state.broadcast(ServerPayload::Error("closing".to_string()));
    assert_eq!(accepted_by(&report), vec![1, 2]);
    for rx in [&mut rx1, &mut rx2] {
        let received = drain(rx);
        assert_eq!(received.len(), 1);
        assert!(matches!(&received[0], ServerPayload::Error(text) if text == "closing"));
    }
}

#[test]
fn broadcast_state_reaches_every_registered_viewer() {
    let mut state = ServerState::new();
    let (tx1, mut rx1) = channel(8);
    let (tx2, mut rx2) = channel(8);
    handle_message(1, login("Ada", Role::ScrumMaster), &mut state, &tx1);
    handle_message(2, login("Bob", Role::Participant), &mut state, &tx2);
    drain(&mut rx1);
    drain(&mut rx2);
    let report = state.broadcast_state();
    assert_eq!(accepted_by(&report), vec![1, 2]);
    assert_eq!(drain(&mut rx1).len(), 1);
    assert_eq!(drain(&mut rx2).len(), 1);
}

#[test]
fn disconnect_tells_the_others_at_once() {
    let mut state = ServerState::new();
    let (tx1, mut rx1) = channel(8);
    let (tx2, mut rx2) = channel(8);
    let mut first = Connection::open(1);
    let mut second = Connection::open(2);
    first.on_event(&mut state, Inbound::Command(login("Ada", Role::ScrumMaster)), &tx1);
    second.on_event(&mut state, Inbound::Command(login("Bob", Role::Participant)), &tx2);
    drain(&mut rx1);
    drain(&mut rx2);

    let receipt = second.on_event(&mut state, Inbound::Fault, &tx2);
    assert!(receipt.broadcast);
    assert_eq!(receipt.deliveries, vec![Delivery { to: 1, fate: Fate::Queued }]);
    let received = drain(&mut rx1);
    assert_eq!(received.len(), 1);
    match &received[0] {
        ServerPayload::StateUpdate(seen) => assert!(!seen.players.contains_key(&2)),
        _ => panic!("no update"),
    }
    assert!(drain(&mut rx2).is_empty());
}

#[test]
fn mirror_actions_reach_the_viewers() {
    let mut state = ServerState::new();
    let (tx, mut rx) = channel(8);
    handle_message(1, login("Ada", Role::Participant), &mut state, &tx);
    drain(&mut rx);

    let (answer, report) =
        state.start_voting(StartVotingRequest { issue_number: Some("#3".to_string()) });
    assert!(answer.success);
    assert_eq!(report, vec![Delivery { to: 1, fate: Fate::Queued }]);
    assert_eq!(drain(&mut rx).len(), 1);

    let (answer, report) = state.reveal_votes();
    assert!(answer.success);
    assert_eq!(answer.issue_number, Some("#3".to_string()));
    assert_eq!(report, vec![Delivery { to: 1, fate: Fate::Queued }]);
    let received = drain(&mut rx);
    assert!(matches!(&received[0], ServerPayload::StateUpdate(seen) if seen.phase == Phase::Revealed));

    let (answer, report) = state.reveal_votes();
    assert!(!answer.success);
    assert!(report.is_empty());
    assert!(drain(&mut rx).is_empty());
}

#[test]
fn full_queue_drops_the_update_and_keeps_the_viewer() {
    let mut state = ServerState::new();
    let (tx1, mut rx1) = channel(QUEUE_CAPACITY);
    let (tx2, mut rx2) = channel(2);
    handle_message(1, login("Ada", Role::ScrumMaster), &mut state, &tx1);
    handle_message(2, login("Bob", Role::Participant), &mut state, &tx2);
    assert_eq!(drain(&mut rx2).len(), 2);

    for x in 1..=2u16 {
        let receipt = handle_message(1, ClientPayload::Move { x, y: 0 }, &mut state, &tx1);
        assert!(receipt.deliveries.contains(&Delivery { to: 2, fate: Fate::Queued }));
    }
    let receipt = handle_message(1, ClientPayload::Move { x: 3, y: 0 }, &mut state, &tx1);
    assert!(receipt.broadcast);
    assert!(receipt.deliveries.contains(&Delivery { to: 1, fate: Fate::Queued }));
    assert!(receipt.deliveries.contains(&Delivery { to: 2, fate: Fate::Dropped }));
    assert!(state.is_registered(2));
    assert_eq!(state.game_state.players[&1].position, (3, 0));

    let kept = drain(&mut rx2);
    assert_eq!(kept.len(), 2);
    match &kept[1] {
        ServerPayload::StateUpdate(seen) => assert_eq!(seen.players[&1].position, (2, 0)),
        _ => panic!("no update"),
    }

    let receipt = handle_message(1, ClientPayload::Move { x: 4, y: 0 }, &mut state, &tx1);
    assert!(receipt.deliveries.contains(&Delivery { to: 2, fate: Fate::Queued }));
    match &drain(&mut rx2)[0] {
        ServerPayload::StateUpdate(seen) => assert_eq!(seen.players[&1].position, (4, 0)),
        _ => panic!("no update"),
    }
    assert!(!drain(&mut rx1).is_empty());
}

#[test]
fn queue_capacity_is_positive() {
    assert!(QUEUE_CAPACITY > 0);
    let (tx, _rx) = channel::<ServerPayload>(QUEUE_CAPACITY);
    assert_eq!(tx.max_capacity(), 64);
}
