use bgb_link::session::{
    build_start_script, GameCommand, GameEvent, GamePhase, GameSession, ScriptStep, SessionAction,
    SessionEvent,
};

/// Feed the session the resolution of every exchange it requests (always
/// answering `response`), collecting the exchanged bytes, the sleeps, and
/// the emitted events, until no exchange is in flight.
fn resolve_all(
    session: &mut GameSession,
    mut actions: Vec<SessionAction>,
    response: u8,
    now_ms: u64,
) -> (Vec<u8>, Vec<u64>, Vec<GameEvent>) {
    let mut bytes = Vec::new();
    let mut sleeps = Vec::new();
    let mut events = Vec::new();
    loop {
        for a in &actions {
            match a {
                SessionAction::Exchange(b) => bytes.push(*b),
                SessionAction::Sleep(ms) => sleeps.push(*ms),
                SessionAction::Emit(e) => events.push(e.clone()),
            }
        }
        if session.awaiting_exchange() {
            actions = session.step(SessionEvent::ExchangeDone(Some(response)), now_ms);
        } else {
            break;
        }
    }
    (bytes, sleeps, events)
}

/// Drive a fresh session through probe and into the steady state, with the
/// game-start sequence completing at `now_ms`.
fn session_in_game(garbage: Vec<u8>, tiles: Vec<u8>, now_ms: u64) -> GameSession {
    let mut s = GameSession::new();
    s.step(
        SessionEvent::Command(GameCommand::SetGame("tetris".to_string())),
        now_ms,
    );
    let actions = s.step(
        SessionEvent::Command(GameCommand::StartGame { garbage, tiles, is_first: true }),
        now_ms,
    );
    resolve_all(&mut s, actions, 0, now_ms);
    assert_eq!(s.phase(), GamePhase::InGame);
    s
}

#[test]
fn probe_ack_connects_exactly_once() {
    let mut s = GameSession::new();
    assert_eq!(s.phase(), GamePhase::WaitingForGame);
    let a = s.step(
        SessionEvent::Command(GameCommand::SetGame("tetris".to_string())),
        0,
    );
    assert!(a.is_empty());
    assert_eq!(s.phase(), GamePhase::Probing);
    let a = s.step(SessionEvent::Tick, 0);
    assert_eq!(a, vec![SessionAction::Exchange(0x29)]);
    let a = s.step(SessionEvent::ExchangeDone(Some(0x55)), 0);
    assert_eq!(a, vec![SessionAction::Emit(GameEvent::Connected)]);
    assert_eq!(s.phase(), GamePhase::MusicSelect);
}

#[test]
fn probe_unexpected_byte_retries_without_event() {
    let mut s = GameSession::new();
    s.step(
        SessionEvent::Command(GameCommand::SetGame("tetris".to_string())),
        0,
    );
    s.step(SessionEvent::Tick, 0);
    let a = s.step(SessionEvent::ExchangeDone(Some(0x12)), 0);
    assert_eq!(a, vec![SessionAction::Sleep(500)]);
    assert_eq!(s.phase(), GamePhase::Probing);
}

#[test]
fn probe_error_backs_off_longer_and_keeps_probing() {
    let mut s = GameSession::new();
    s.step(
        SessionEvent::Command(GameCommand::SetGame("tetris".to_string())),
        0,
    );
    s.step(SessionEvent::Tick, 0);
    let a = s.step(SessionEvent::ExchangeDone(None), 0);
    assert_eq!(a, vec![SessionAction::Sleep(1000)]);
    assert_eq!(s.phase(), GamePhase::Probing);
    // No retry limit: the next tick probes again.
    let a = s.step(SessionEvent::Tick, 0);
    assert_eq!(a, vec![SessionAction::Exchange(0x29)]);
}

#[test]
fn music_keepalive_sends_selection_and_discards_response() {
    let mut s = GameSession::new();
    s.step(
        SessionEvent::Command(GameCommand::SetGame("tetris".to_string())),
        0,
    );
    s.step(SessionEvent::Tick, 0);
    s.step(SessionEvent::ExchangeDone(Some(0x55)), 0);
    // Default selection first.
    let a = s.step(SessionEvent::Tick, 0);
    assert_eq!(a, vec![SessionAction::Exchange(0x1C)]);
    let a = s.step(SessionEvent::ExchangeDone(Some(0x99)), 0);
    assert_eq!(a, vec![SessionAction::Sleep(100)]);
    // A changed selection is pushed on the next keepalive.
    s.step(SessionEvent::Command(GameCommand::SetMusic(0x1D)), 0);
    let a = s.step(SessionEvent::Tick, 0);
    assert_eq!(a, vec![SessionAction::Exchange(0x1D)]);
}

#[test]
fn confirm_music_sends_confirmation_then_waits_for_start() {
    let mut s = GameSession::new();
    s.step(
        SessionEvent::Command(GameCommand::SetGame("tetris".to_string())),
        0,
    );
    s.step(SessionEvent::Tick, 0);
    s.step(SessionEvent::ExchangeDone(Some(0x55)), 0);
    let a = s.step(SessionEvent::Command(GameCommand::ConfirmMusic), 0);
    assert_eq!(a, vec![SessionAction::Exchange(0x50)]);
    let a = s.step(SessionEvent::ExchangeDone(Some(0x00)), 0);
    assert!(a.is_empty());
    assert_eq!(s.phase(), GamePhase::WaitingForStart);
    let a = s.step(SessionEvent::Tick, 0);
    assert_eq!(a, vec![SessionAction::Sleep(50)]);
}

#[test]
fn first_game_start_sequence_literal_order() {
    let mut s = GameSession::new();
    s.step(
        SessionEvent::Command(GameCommand::SetGame("tetris".to_string())),
        0,
    );
    let actions = s.step(
        SessionEvent::Command(GameCommand::StartGame {
            garbage: vec![0x01, 0x02],
            tiles: vec![0x10],
            is_first: true,
        }),
        0,
    );
    let (bytes, sleeps, events) = resolve_all(&mut s, actions, 0, 0);
    // Opening, both garbage bytes, re-synchronization, the tile byte, and
    // the fixed closing, in that literal order.
    assert_eq!(
        bytes,
        vec![0x60, 0x29, 0x01, 0x02, 0x29, 0x10, 0x30, 0x00, 0x02, 0x02, 0x20]
    );
    assert_eq!(sleeps, vec![150, 4, 4, 4, 8, 4, 70, 70, 70, 70, 70]);
    assert!(events.is_empty());
    assert_eq!(s.phase(), GamePhase::InGame);
}

#[test]
fn subsequent_game_start_sequence_has_longer_opening() {
    let mut s = GameSession::new();
    let actions = s.step(
        SessionEvent::Command(GameCommand::StartGame {
            garbage: vec![],
            tiles: vec![],
            is_first: false,
        }),
        0,
    );
    let (bytes, sleeps, _) = resolve_all(&mut s, actions, 0, 0);
    assert_eq!(
        bytes,
        vec![0x60, 0x02, 0x02, 0x02, 0x79, 0x60, 0x29, 0x29, 0x30, 0x00, 0x02, 0x02, 0x20]
    );
    assert_eq!(
        sleeps,
        vec![70, 70, 70, 70, 330, 150, 70, 8, 70, 70, 70, 70, 70]
    );
    assert_eq!(s.phase(), GamePhase::InGame);
}

#[test]
fn build_start_script_matches_wire_order() {
    let script = build_start_script(&vec![0xAA, 0xBB], &vec![0xCC], true);
    let expected = vec![
        ScriptStep { byte: 0x60, delay_ms: 150 },
        ScriptStep { byte: 0x29, delay_ms: 4 },
        ScriptStep { byte: 0xAA, delay_ms: 4 },
        ScriptStep { byte: 0xBB, delay_ms: 4 },
        ScriptStep { byte: 0x29, delay_ms: 8 },
        ScriptStep { byte: 0xCC, delay_ms: 4 },
        ScriptStep { byte: 0x30, delay_ms: 70 },
        ScriptStep { byte: 0x00, delay_ms: 70 },
        ScriptStep { byte: 0x02, delay_ms: 70 },
        ScriptStep { byte: 0x02, delay_ms: 70 },
        ScriptStep { byte: 0x20, delay_ms: 70 },
    ];
    assert_eq!(script, expected);
}

#[test]
fn queue_head_takes_priority_over_height() {
    let mut s = session_in_game(vec![], vec![], 0);
    s.step(SessionEvent::Command(GameCommand::SetHeight(7)), 0);
    s.step(SessionEvent::Command(GameCommand::QueueCommand(0x91)), 0);
    s.step(SessionEvent::Command(GameCommand::QueueCommand(0x92)), 0);
    // The queue is consumed head-first, one entry per tick.
    let a = s.step(SessionEvent::Tick, 5000);
    assert_eq!(a, vec![SessionAction::Exchange(0x91)]);
    s.step(SessionEvent::ExchangeDone(Some(30)), 5000);
    let a = s.step(SessionEvent::Tick, 5100);
    assert_eq!(a, vec![SessionAction::Exchange(0x92)]);
    s.step(SessionEvent::ExchangeDone(Some(30)), 5100);
    // Queue empty: back to the opponent-height byte.
    let a = s.step(SessionEvent::Tick, 5200);
    assert_eq!(a, vec![SessionAction::Exchange(7)]);
}

#[test]
fn lose_suppressed_inside_startup_window() {
    let mut s = session_in_game(vec![], vec![], 1000);
    s.step(SessionEvent::Tick, 1500);
    // 999 ms after the start sequence completed: startup noise.
    let a = s.step(SessionEvent::ExchangeDone(Some(0xAA)), 1999);
    assert_eq!(a, vec![SessionAction::Sleep(100)]);
}

#[test]
fn lose_emitted_exactly_once_after_startup_window() {
    let mut s = session_in_game(vec![], vec![], 1000);
    s.step(SessionEvent::Tick, 3900);
    // Exactly 3000 ms after completion: the window is over.
    let a = s.step(SessionEvent::ExchangeDone(Some(0xAA)), 4000);
    assert_eq!(
        a,
        vec![SessionAction::Emit(GameEvent::Lose), SessionAction::Sleep(100)]
    );
}

#[test]
fn game_bytes_classified_into_events() {
    let mut s = session_in_game(vec![], vec![], 0);
    let now = 60_000;
    let cases: Vec<(u8, Option<GameEvent>)> = vec![
        (0, Some(GameEvent::Height(0))),
        (5, Some(GameEvent::Height(5))),
        (19, Some(GameEvent::Height(19))),
        (20, None),
        (0x7F, None),
        (0x80, Some(GameEvent::Lines(0x80))),
        (0x85, Some(GameEvent::Lines(0x85))),
        (0x86, None),
        (0x77, Some(GameEvent::Win)),
        (0xAA, Some(GameEvent::Lose)),
    ];
    for (byte, expected) in cases {
        s.step(SessionEvent::Tick, now);
        let a = s.step(SessionEvent::ExchangeDone(Some(byte)), now);
        match expected {
            Some(ev) => assert_eq!(
                a,
                vec![SessionAction::Emit(ev), SessionAction::Sleep(100)],
                "byte {byte:#x}"
            ),
            None => assert_eq!(a, vec![SessionAction::Sleep(100)], "byte {byte:#x}"),
        }
    }
}

#[test]
fn screen_filled_emits_event_and_queues_follow_up() {
    let mut s = session_in_game(vec![], vec![], 0);
    let now = 60_000;
    s.step(SessionEvent::Tick, now);
    let a = s.step(SessionEvent::ExchangeDone(Some(0xFF)), now);
    assert_eq!(
        a,
        vec![
            SessionAction::Emit(GameEvent::ScreenFilled),
            SessionAction::Sleep(100)
        ]
    );
    // The fixed follow-up byte goes out on the next tick, ahead of the
    // opponent height.
    let a = s.step(SessionEvent::Tick, now);
    assert_eq!(a, vec![SessionAction::Exchange(0x43)]);
}

#[test]
fn game_exchange_error_is_absorbed() {
    let mut s = session_in_game(vec![], vec![], 0);
    s.step(SessionEvent::Tick, 60_000);
    let a = s.step(SessionEvent::ExchangeDone(None), 60_000);
    assert_eq!(a, vec![SessionAction::Sleep(100)]);
    assert_eq!(s.phase(), GamePhase::InGame);
    assert!(!s.is_stopped());
}

#[test]
fn start_game_clears_queue_and_height() {
    let mut s = session_in_game(vec![], vec![], 0);
    s.step(SessionEvent::Command(GameCommand::SetHeight(9)), 0);
    s.step(SessionEvent::Command(GameCommand::QueueCommand(0x91)), 0);
    // A new game forgets the old queue and height.
    let actions = s.step(
        SessionEvent::Command(GameCommand::StartGame {
            garbage: vec![],
            tiles: vec![],
            is_first: false,
        }),
        0,
    );
    resolve_all(&mut s, actions, 0, 0);
    let a = s.step(SessionEvent::Tick, 90_000);
    assert_eq!(a, vec![SessionAction::Exchange(0)]);
}

#[test]
fn stop_command_stops_the_session() {
    let mut s = GameSession::new();
    assert!(!s.is_stopped());
    let a = s.step(SessionEvent::Command(GameCommand::Stop), 0);
    assert!(a.is_empty());
    assert!(s.is_stopped());
}

#[test]
fn closed_inbox_is_an_implicit_stop() {
    let mut s = GameSession::new();
    let a = s.step(SessionEvent::InboxClosed, 0);
    assert!(a.is_empty());
    assert!(s.is_stopped());
}

#[test]
fn never_a_second_exchange_before_the_first_resolves() {
    // Drive a whole session — probe, music, confirmation, start sequence,
    // steady-state ticks — and check the strict sequencing a transport
    // would see: each batch of actions requests at most one exchange, and
    // a batch requests one only if the previous request has been resolved.
    let mut s = GameSession::new();
    let script: Vec<(SessionEvent, u8)> = vec![
        (SessionEvent::Command(GameCommand::SetGame("tetris".to_string())), 0),
        (SessionEvent::Tick, 0x12),
        (SessionEvent::Tick, 0x55),
        (SessionEvent::Tick, 0x00),
        (SessionEvent::Command(GameCommand::ConfirmMusic), 0x00),
        (SessionEvent::Tick, 0x00),
        (
            SessionEvent::Command(GameCommand::StartGame {
                garbage: vec![0x01],
                tiles: vec![0x10],
                is_first: true,
            }),
            0x00,
        ),
        (SessionEvent::Tick, 0x05),
        (SessionEvent::Command(GameCommand::QueueCommand(0x91)), 0),
        (SessionEvent::Tick, 0x77),
        (SessionEvent::Command(GameCommand::Stop), 0),
    ];
    let mut unresolved = false;
    for (event, response) in script {
        assert!(!unresolved, "an event other than a resolution while an exchange is in flight");
        let mut actions = s.step(event, 10_000);
        loop {
            let requests = actions
                .iter()
                .filter(|a| matches!(a, SessionAction::Exchange(_)))
                .count();
            assert!(requests <= 1, "more than one exchange requested in one batch");
            unresolved = requests == 1;
            assert_eq!(s.awaiting_exchange(), unresolved);
            if unresolved {
                actions = s.step(SessionEvent::ExchangeDone(Some(response)), 10_000);
                unresolved = false;
            } else {
                break;
            }
        }
    }
    assert!(s.is_stopped());
}

#[test]
fn waiting_phases_only_pace_the_loop() {
    let mut s = GameSession::new();
    let a = s.step(SessionEvent::Tick, 0);
    assert_eq!(a, vec![SessionAction::Sleep(50)]);
}
