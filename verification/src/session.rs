//! The game session sequencer.
//!
//! A session drives one game's link protocol on top of the transport's
//! byte-exchange primitive: probe for a ready opponent, push the music
//! selection, run the scripted game-start byte sequence, then the
//! steady-state polling loop that translates protocol bytes into semantic
//! events and consumes queued commands.
//!
//! The sequencer is a state machine: the loop around it (which owns the
//! command inbox, the event outbox and the clock) feeds it one event at a
//! time — a drained command, a phase tick, or the result of the byte
//! exchange it asked for — and performs the actions it returns. An exchange
//! is requested through an `Exchange` action and resolved by the next
//! `ExchangeDone` event; the machine never asks for a second exchange while
//! one is unresolved.

use vstd::prelude::*;

verus! {

/// The byte sent while probing for a ready opponent.
pub const PROBE_BYTE: u8 = 0x29;

/// The byte a ready opponent answers the probe with.
pub const PROBE_ACK: u8 = 0x55;

/// The byte sent to confirm the music selection.
pub const MUSIC_CONFIRM_BYTE: u8 = 0x50;

/// The follow-up byte queued when the opponent reports a filled screen.
pub const SCREEN_FILL_FOLLOW_UP: u8 = 0x43;

/// Responses of `0xAA` (topped out) within this window after the game-start
/// sequence completes are startup noise and suppressed.
pub const STARTUP_NOISE_MS: u64 = 3000;

/// Commands sent from the front end to the game session.
#[derive(Debug)]
pub enum GameCommand {
    /// Tell the bridge what game to play.
    SetGame(String),
    /// Set the music selection byte.
    SetMusic(u8),
    /// Confirm music selection (transitions to waiting for the game start).
    ConfirmMusic,
    /// Start a game with initial garbage lines and tile data.
    StartGame { garbage: Vec<u8>, tiles: Vec<u8>, is_first: bool },
    /// Update the opponent height to send to the Game Boy.
    SetHeight(u8),
    /// Queue a win/lose/lines command byte to send to the Game Boy.
    QueueCommand(u8),
    /// Stop the session.
    Stop,
}

/// Events sent from the game session to the front end.
#[derive(Debug, Clone, PartialEq, Eq)]
pub enum GameEvent {
    /// The probe succeeded: a ready opponent answered.
    Connected,
    /// Height value read from the Game Boy.
    Height(u8),
    /// Lines signal from the Game Boy (0x80..0x85).
    Lines(u8),
    /// The Game Boy reports the winning line count reached (0x77).
    Win,
    /// The Game Boy reports topped out (0xAA).
    Lose,
    /// The Game Boy reports its screen filled after a loss (0xFF).
    ScreenFilled,
    /// Free-form log line, routed separately from semantic events.
    Log(String),
}

/// The phases of a session. Exactly one is active at a time; transitions are
/// driven by commands and by protocol responses, never by two at once.
#[derive(Debug, Clone, Copy, PartialEq, Eq, Structural)]
pub enum GamePhase {
    /// Waiting for the front end to choose a game.
    WaitingForGame,
    /// Probing the Game Boy (sending the probe byte, expecting its ack).
    Probing,
    /// Pushing the music selection byte periodically as a keepalive.
    MusicSelect,
    /// Music confirmed, waiting for the start command.
    WaitingForStart,
    /// Running the scripted game-start byte sequence.
    GameStarting,
    /// Steady state: exchanging height/lines/win/lose bytes every tick.
    InGame,
}

/// One step of the game-start script: a byte to exchange, then a delay to
/// hold before the next step. The ordering and the per-step delays encode
/// the peer's expected timing and are reproduced exactly.
#[derive(Debug, Clone, Copy, PartialEq, Eq, Structural)]
pub struct ScriptStep {
    pub byte: u8,
    pub delay_ms: u64,
}

/// What the unresolved exchange, if any, was issued for. At most one
/// exchange is in flight per session; a new one is only requested once the
/// previous one has resolved.
#[derive(Debug, Clone, Copy, PartialEq, Eq, Structural)]
pub enum PendingExchange {
    /// No exchange in flight.
    Idle,
    /// A probe byte: the answer decides whether the opponent is ready.
    Probe,
    /// A music keepalive: the answer is discarded.
    Music,
    /// The music confirmation byte: afterwards the session waits for start.
    Confirm,
    /// A step of the game-start script: the answer is discarded and the
    /// script advances.
    Script,
    /// A steady-state tick: the answer is classified into a semantic event.
    Game,
}

/// One event fed into the session machine.
#[derive(Debug)]
pub enum SessionEvent {
    /// A command drained from the inbox.
    Command(GameCommand),
    /// The command inbox has disconnected: treated as an explicit stop.
    InboxClosed,
    /// The periodic tick of the active phase.
    Tick,
    /// The requested exchange resolved: the response byte, or `None` for a
    /// timeout or a transport error (recoverable, scoped to that call).
    ExchangeDone(Option<u8>),
}

/// One action the session asks its driver to perform.
#[derive(Debug, PartialEq, Eq)]
pub enum SessionAction {
    /// Exchange this byte with the Game Boy and feed back `ExchangeDone`.
    Exchange(u8),
    /// Hold for this many milliseconds before the next event.
    Sleep(u64),
    /// Deliver this event to the front end.
    Emit(GameEvent),
}

/// The mathematical model of a command. The game name carried by `SetGame`
/// is display-only; the sequencer reacts to the command alone.
pub ghost enum CommandModel {
    SetGame(Seq<char>),
    SetMusic(u8),
    ConfirmMusic,
    StartGame { garbage: Seq<u8>, tiles: Seq<u8>, is_first: bool },
    SetHeight(u8),
    QueueCommand(u8),
    Stop,
}

impl View for GameCommand {
    type V = CommandModel;

    open spec fn view(&self) -> CommandModel {
        match self {
            GameCommand::SetGame(name) => CommandModel::SetGame(name@),
            GameCommand::SetMusic(b) => CommandModel::SetMusic(*b),
            GameCommand::ConfirmMusic => CommandModel::ConfirmMusic,
            GameCommand::StartGame { garbage, tiles, is_first } => CommandModel::StartGame {
                garbage: garbage@,
                tiles: tiles@,
                is_first: *is_first,
            },
            GameCommand::SetHeight(h) => CommandModel::SetHeight(*h),
            GameCommand::QueueCommand(b) => CommandModel::QueueCommand(*b),
            GameCommand::Stop => CommandModel::Stop,
        }
    }
}

/// The mathematical model of a session event.
pub ghost enum EventModel {
    Command(CommandModel),
    InboxClosed,
    Tick,
    ExchangeDone(Option<u8>),
}

impl View for SessionEvent {
    type V = EventModel;

    open spec fn view(&self) -> EventModel {
        match self {
            SessionEvent::Command(c) => EventModel::Command(c@),
            SessionEvent::InboxClosed => EventModel::InboxClosed,
            SessionEvent::Tick => EventModel::Tick,
            SessionEvent::ExchangeDone(r) => EventModel::ExchangeDone(*r),
        }
    }
}

/// The mathematical model of a session's state.
#[verifier::ext_equal]
pub ghost struct SessionModel {
    pub phase: GamePhase,
    /// The music selection byte pushed during `MusicSelect`.
    pub music_byte: u8,
    /// The default byte of a steady-state tick: the opponent's height.
    pub opponent_height: u8,
    /// Queued command bytes, consumed head-first, one per tick, with
    /// priority over the opponent height.
    pub queue: Seq<u8>,
    /// The remaining game-start script and the position reached in it.
    pub script: Seq<ScriptStep>,
    pub script_pos: int,
    /// Whether a game-start sequence has completed, and when.
    pub started: bool,
    pub started_at_ms: u64,
    /// What the in-flight exchange, if any, was issued for.
    pub pending: PendingExchange,
    /// Set by `Stop` or a closed inbox; a stopped session takes no events.
    pub stopped: bool,
}

/// A step's result: the state after it and the actions the driver performs.
#[verifier::ext_equal]
pub ghost struct StepResult {
    pub state: SessionModel,
    pub actions: Seq<SessionAction>,
}

/// A session as it is first constructed: waiting for a game, default music
/// selection, nothing queued, nothing in flight.
pub open spec fn initial_session() -> SessionModel {
    SessionModel {
        phase: GamePhase::WaitingForGame,
        music_byte: 0x1C,
        opponent_height: 0,
        queue: Seq::empty(),
        script: Seq::empty(),
        script_pos: 0,
        started: false,
        started_at_ms: 0,
        pending: PendingExchange::Idle,
        stopped: false,
    }
}

/// The structural invariant of a session: while a script exchange is in
/// flight, the script position points at the step being exchanged.
pub open spec fn session_inv(s: SessionModel) -> bool {
    s.pending is Script ==> 0 <= s.script_pos < s.script.len()
}

/// Which events a step may take: a stopped session takes none, the result
/// of an exchange arrives exactly while one is in flight, and every other
/// event only while none is.
pub open spec fn step_allowed(s: SessionModel, e: EventModel) -> bool {
    &&& !s.stopped
    &&& (e is ExchangeDone <==> !(s.pending is Idle))
}

/// One step of the game-start script with the fixed garbage/tile spacing.
pub open spec fn spaced_step(b: u8) -> ScriptStep {
    ScriptStep { byte: b, delay_ms: 4 }
}

/// The opening of the game-start script. The first game of a match and a
/// subsequent one have distinct, fixed openings.
pub open spec fn opening_script(is_first: bool) -> Seq<ScriptStep> {
    if is_first {
        seq![
            ScriptStep { byte: 0x60, delay_ms: 150 },
            ScriptStep { byte: 0x29, delay_ms: 4 },
        ]
    } else {
        seq![
            ScriptStep { byte: 0x60, delay_ms: 70 },
            ScriptStep { byte: 0x02, delay_ms: 70 },
            ScriptStep { byte: 0x02, delay_ms: 70 },
            ScriptStep { byte: 0x02, delay_ms: 70 },
            ScriptStep { byte: 0x79, delay_ms: 330 },
            ScriptStep { byte: 0x60, delay_ms: 150 },
            ScriptStep { byte: 0x29, delay_ms: 70 },
        ]
    }
}

/// The fixed closing of the game-start script.
pub open spec fn closing_script() -> Seq<ScriptStep> {
    seq![
        ScriptStep { byte: 0x30, delay_ms: 70 },
        ScriptStep { byte: 0x00, delay_ms: 70 },
        ScriptStep { byte: 0x02, delay_ms: 70 },
        ScriptStep { byte: 0x02, delay_ms: 70 },
        ScriptStep { byte: 0x20, delay_ms: 70 },
    ]
}

/// The whole game-start script, in the order the wire sees it: the opening
/// for a first or subsequent game, every garbage byte, a re-synchronization
/// step, every tile byte, and the fixed closing.
pub open spec fn spec_start_script(garbage: Seq<u8>, tiles: Seq<u8>, is_first: bool) -> Seq<
    ScriptStep,
> {
    opening_script(is_first) + garbage.map_values(|b: u8| spaced_step(b)) + seq![
        ScriptStep { byte: 0x29, delay_ms: 8 },
    ] + tiles.map_values(|b: u8| spaced_step(b)) + closing_script()
}

/// Build the game-start script for the given garbage lines and tile data.
pub fn build_start_script(garbage: &Vec<u8>, tiles: &Vec<u8>, is_first: bool) -> (script: Vec<
    ScriptStep,
>)
    ensures
        script@ == spec_start_script(garbage@, tiles@, is_first),
        script@.len() >= 2,
{
    let mut script: Vec<ScriptStep> = Vec::new();
    if is_first {
        script.push(ScriptStep { byte: 0x60, delay_ms: 150 });
        script.push(ScriptStep { byte: 0x29, delay_ms: 4 });
    } else {
        script.push(ScriptStep { byte: 0x60, delay_ms: 70 });
        script.push(ScriptStep { byte: 0x02, delay_ms: 70 });
        script.push(ScriptStep { byte: 0x02, delay_ms: 70 });
        script.push(ScriptStep { byte: 0x02, delay_ms: 70 });
        script.push(ScriptStep { byte: 0x79, delay_ms: 330 });
        script.push(ScriptStep { byte: 0x60, delay_ms: 150 });
        script.push(ScriptStep { byte: 0x29, delay_ms: 70 });
    }
    proof {
        assert(script@ =~= opening_script(is_first));
    }
    let ghost prefix = script@;
    let mut i: usize = 0;
    while i < garbage.len()
        invariant
            i <= garbage@.len(),
            script@ == prefix + garbage@.take(i as int).map_values(|b: u8| spaced_step(b)),
        decreases garbage@.len() - i,
    {
        script.push(ScriptStep { byte: garbage[i], delay_ms: 4 });
        i += 1;
        proof {
            assert(script@ =~= prefix + garbage@.take(i as int).map_values(
                |b: u8| spaced_step(b),
            ));
        }
    }
    proof {
        assert(garbage@.take(garbage@.len() as int) =~= garbage@);
    }
    script.push(ScriptStep { byte: 0x29, delay_ms: 8 });
    let ghost prefix2 = script@;
    let mut j: usize = 0;
    while j < tiles.len()
        invariant
            j <= tiles@.len(),
            script@ == prefix2 + tiles@.take(j as int).map_values(|b: u8| spaced_step(b)),
        decreases tiles@.len() - j,
    {
        script.push(ScriptStep { byte: tiles[j], delay_ms: 4 });
        j += 1;
        proof {
            assert(script@ =~= prefix2 + tiles@.take(j as int).map_values(
                |b: u8| spaced_step(b),
            ));
        }
    }
    proof {
        assert(tiles@.take(tiles@.len() as int) =~= tiles@);
    }
    script.push(ScriptStep { byte: 0x30, delay_ms: 70 });
    script.push(ScriptStep { byte: 0x00, delay_ms: 70 });
    script.push(ScriptStep { byte: 0x02, delay_ms: 70 });
    script.push(ScriptStep { byte: 0x02, delay_ms: 70 });
    script.push(ScriptStep { byte: 0x20, delay_ms: 70 });
    proof {
        assert(script@ =~= spec_start_script(garbage@, tiles@, is_first));
    }
    script
}

/// How a drained command changes the session. Commands other than
/// `ConfirmMusic` and `StartGame` only update the session's own state;
/// those two request an exchange.
pub open spec fn spec_command(s: SessionModel, c: CommandModel) -> StepResult {
    match c {
        CommandModel::SetGame(_) => StepResult {
            state: SessionModel { phase: GamePhase::Probing, ..s },
            actions: Seq::empty(),
        },
        CommandModel::SetMusic(b) => StepResult {
            state: SessionModel { music_byte: b, ..s },
            actions: Seq::empty(),
        },
        CommandModel::ConfirmMusic => StepResult {
            state: SessionModel { pending: PendingExchange::Confirm, ..s },
            actions: seq![SessionAction::Exchange(MUSIC_CONFIRM_BYTE)],
        },
        CommandModel::StartGame { garbage, tiles, is_first } => {
            let script = spec_start_script(garbage, tiles, is_first);
            StepResult {
                state: SessionModel {
                    phase: GamePhase::GameStarting,
                    opponent_height: 0,
                    queue: Seq::empty(),
                    script,
                    script_pos: 0,
                    pending: PendingExchange::Script,
                    ..s
                },
                actions: seq![SessionAction::Exchange(script[0].byte)],
            }
        },
        CommandModel::SetHeight(h) => StepResult {
            state: SessionModel { opponent_height: h, ..s },
            actions: Seq::empty(),
        },
        CommandModel::QueueCommand(b) => StepResult {
            state: SessionModel { queue: s.queue.push(b), ..s },
            actions: Seq::empty(),
        },
        CommandModel::Stop => StepResult {
            state: SessionModel { stopped: true, ..s },
            actions: Seq::empty(),
        },
    }
}

/// How a phase tick acts. The waiting phases only pace the loop; probing,
/// music keepalive and the steady state request an exchange. A steady-state
/// tick sends the queue head if one is there — removing exactly that one
/// entry — and the opponent height otherwise.
pub open spec fn spec_tick(s: SessionModel) -> StepResult {
    match s.phase {
        GamePhase::WaitingForGame => StepResult {
            state: s,
            actions: seq![SessionAction::Sleep(50)],
        },
        GamePhase::WaitingForStart => StepResult {
            state: s,
            actions: seq![SessionAction::Sleep(50)],
        },
        GamePhase::GameStarting => StepResult { state: s, actions: seq![SessionAction::Sleep(50)] },
        GamePhase::Probing => StepResult {
            state: SessionModel { pending: PendingExchange::Probe, ..s },
            actions: seq![SessionAction::Exchange(PROBE_BYTE)],
        },
        GamePhase::MusicSelect => StepResult {
            state: SessionModel { pending: PendingExchange::Music, ..s },
            actions: seq![SessionAction::Exchange(s.music_byte)],
        },
        GamePhase::InGame => {
            if s.queue.len() > 0 {
                StepResult {
                    state: SessionModel {
                        queue: s.queue.drop_first(),
                        pending: PendingExchange::Game,
                        ..s
                    },
                    actions: seq![SessionAction::Exchange(s.queue[0])],
                }
            } else {
                StepResult {
                    state: SessionModel { pending: PendingExchange::Game, ..s },
                    actions: seq![SessionAction::Exchange(s.opponent_height)],
                }
            }
        },
    }
}

/// Whether a topped-out response is startup noise: the game-start sequence
/// completed less than `STARTUP_NOISE_MS` ago (or the clock has not reached
/// the completion stamp yet).
pub open spec fn startup_noise(s: SessionModel, now_ms: u64) -> bool {
    s.started && (now_ms as int) < s.started_at_ms + STARTUP_NOISE_MS
}

/// The semantic events of one steady-state response byte: heights below 20,
/// lines in 0x80..0x85, win, lose (suppressed as startup noise inside the
/// window), screen filled. Any other value means nothing.
pub open spec fn spec_game_events(v: u8, suppress: bool) -> Seq<SessionAction> {
    if v < 20 {
        seq![SessionAction::Emit(GameEvent::Height(v))]
    } else if 0x80 <= v <= 0x85 {
        seq![SessionAction::Emit(GameEvent::Lines(v))]
    } else if v == 0x77 {
        seq![SessionAction::Emit(GameEvent::Win)]
    } else if v == 0xAA {
        if suppress {
            Seq::empty()
        } else {
            seq![SessionAction::Emit(GameEvent::Lose)]
        }
    } else if v == 0xFF {
        seq![SessionAction::Emit(GameEvent::ScreenFilled)]
    } else {
        Seq::empty()
    }
}

/// How the resolution of the in-flight exchange acts, by what the exchange
/// was issued for.
///
/// - A probe answered with the ack connects: one `Connected` event and the
///   move to music selection. Any other answer retries after 500 ms, an
///   error after 1000 ms; no retry limit.
/// - A music keepalive discards its answer and paces the next push.
/// - The music confirmation moves to waiting for the start command.
/// - A script step holds for the step's delay, then requests the next
///   step's exchange; after the last step the session records the start
///   time and enters the steady state.
/// - A steady-state answer is classified into events; a filled screen also
///   queues the fixed follow-up byte. Errors are absorbed: the next tick
///   retries.
pub open spec fn spec_exchange_done(s: SessionModel, r: Option<u8>, now_ms: u64) -> StepResult {
    match s.pending {
        PendingExchange::Idle => StepResult { state: s, actions: Seq::empty() },
        PendingExchange::Probe => {
            let idle = SessionModel { pending: PendingExchange::Idle, ..s };
            match r {
                Some(v) => {
                    if v == PROBE_ACK {
                        StepResult {
                            state: SessionModel { phase: GamePhase::MusicSelect, ..idle },
                            actions: seq![SessionAction::Emit(GameEvent::Connected)],
                        }
                    } else {
                        StepResult { state: idle, actions: seq![SessionAction::Sleep(500)] }
                    }
                },
                None => StepResult { state: idle, actions: seq![SessionAction::Sleep(1000)] },
            }
        },
        PendingExchange::Music => StepResult {
            state: SessionModel { pending: PendingExchange::Idle, ..s },
            actions: seq![SessionAction::Sleep(100)],
        },
        PendingExchange::Confirm => StepResult {
            state: SessionModel {
                phase: GamePhase::WaitingForStart,
                pending: PendingExchange::Idle,
                ..s
            },
            actions: Seq::empty(),
        },
        PendingExchange::Script => {
            let stp = s.script[s.script_pos];
            let hold: Seq<SessionAction> = if stp.delay_ms > 0 {
                seq![SessionAction::Sleep(stp.delay_ms)]
            } else {
                Seq::empty()
            };
            if s.script_pos + 1 < s.script.len() {
                StepResult {
                    state: SessionModel { script_pos: s.script_pos + 1, ..s },
                    actions: hold.push(
                        SessionAction::Exchange(s.script[s.script_pos + 1].byte),
                    ),
                }
            } else {
                StepResult {
                    state: SessionModel {
                        phase: GamePhase::InGame,
                        started: true,
                        started_at_ms: now_ms,
                        pending: PendingExchange::Idle,
                        ..s
                    },
                    actions: hold,
                }
            }
        },
        PendingExchange::Game => {
            let idle = SessionModel { pending: PendingExchange::Idle, ..s };
            match r {
                Some(v) => StepResult {
                    state: SessionModel {
                        queue: if v == 0xFF {
                            s.queue.push(SCREEN_FILL_FOLLOW_UP)
                        } else {
                            s.queue
                        },
                        ..idle
                    },
                    actions: spec_game_events(v, startup_noise(s, now_ms)).push(
                        SessionAction::Sleep(100),
                    ),
                },
                None => StepResult { state: idle, actions: seq![SessionAction::Sleep(100)] },
            }
        },
    }
}

/// The whole transition relation of the session machine: one event in, the
/// next state and the actions out.
pub open spec fn spec_step(s: SessionModel, e: EventModel, now_ms: u64) -> StepResult {
    match e {
        EventModel::Command(c) => spec_command(s, c),
        EventModel::InboxClosed => StepResult {
            state: SessionModel { stopped: true, ..s },
            actions: Seq::empty(),
        },
        EventModel::Tick => spec_tick(s),
        EventModel::ExchangeDone(r) => spec_exchange_done(s, r, now_ms),
    }
}

/// The game session state machine. The driver loop feeds it events through
/// [`GameSession::step`] and performs the actions that come back.
pub struct GameSession {
    phase: GamePhase,
    music_byte: u8,
    opponent_height: u8,
    command_queue: Vec<u8>,
    script: Vec<ScriptStep>,
    script_pos: usize,
    started: bool,
    started_at_ms: u64,
    pending: PendingExchange,
    stopped: bool,
}

impl View for GameSession {
    type V = SessionModel;

    closed spec fn view(&self) -> SessionModel {
        SessionModel {
            phase: self.phase,
            music_byte: self.music_byte,
            opponent_height: self.opponent_height,
            queue: self.command_queue@,
            script: self.script@,
            script_pos: self.script_pos as int,
            started: self.started,
            started_at_ms: self.started_at_ms,
            pending: self.pending,
            stopped: self.stopped,
        }
    }
}

impl GameSession {
    /// A fresh session: waiting for a game, default music selection,
    /// nothing queued, no exchange in flight.
    pub fn new() -> (s: Self)
        ensures
            s@ == initial_session(),
            session_inv(s@),
    {
        let s = GameSession {
            phase: GamePhase::WaitingForGame,
            music_byte: 0x1C,
            opponent_height: 0,
            command_queue: Vec::new(),
            script: Vec::new(),
            script_pos: 0,
            started: false,
            started_at_ms: 0,
            pending: PendingExchange::Idle,
            stopped: false,
        };
        proof {
            assert(s@ =~= initial_session());
        }
        s
    }

    /// Apply one drained command, as `spec_command` says.
    fn apply_command(&mut self, cmd: GameCommand) -> (actions: Vec<SessionAction>)
        requires
            session_inv(old(self)@),
            old(self)@.pending is Idle,
        ensures
            session_inv(final(self)@),
            final(self)@ == spec_command(old(self)@, cmd@).state,
            actions@ == spec_command(old(self)@, cmd@).actions,
    {
        let ghost pre = self@;
        let ghost cm = cmd@;
        let mut actions: Vec<SessionAction> = Vec::new();
        match cmd {
            GameCommand::SetGame(_name) => {
                self.phase = GamePhase::Probing;
            },
            GameCommand::SetMusic(b) => {
                self.music_byte = b;
            },
            GameCommand::ConfirmMusic => {
                self.pending = PendingExchange::Confirm;
                actions.push(SessionAction::Exchange(MUSIC_CONFIRM_BYTE));
            },
            GameCommand::StartGame { garbage, tiles, is_first } => {
                let script = build_start_script(&garbage, &tiles, is_first);
                self.phase = GamePhase::GameStarting;
                self.opponent_height = 0;
                self.command_queue = Vec::new();
                self.script = script;
                self.script_pos = 0;
                self.pending = PendingExchange::Script;
                let first_byte = self.script[0].byte;
                actions.push(SessionAction::Exchange(first_byte));
            },
            GameCommand::SetHeight(h) => {
                self.opponent_height = h;
            },
            GameCommand::QueueCommand(b) => {
                self.command_queue.push(b);
            },
            GameCommand::Stop => {
                self.stopped = true;
            },
        }
        proof {
            assert(self@ =~= spec_command(pre, cm).state);
            assert(actions@ =~= spec_command(pre, cm).actions);
        }
        actions
    }

    /// Apply one phase tick, as `spec_tick` says.
    fn apply_tick(&mut self) -> (actions: Vec<SessionAction>)
        requires
            session_inv(old(self)@),
            old(self)@.pending is Idle,
        ensures
            session_inv(final(self)@),
            final(self)@ == spec_tick(old(self)@).state,
            actions@ == spec_tick(old(self)@).actions,
    {
        let ghost pre = self@;
        let mut actions: Vec<SessionAction> = Vec::new();
        match self.phase {
            GamePhase::WaitingForGame => {
                actions.push(SessionAction::Sleep(50));
            },
            GamePhase::WaitingForStart => {
                actions.push(SessionAction::Sleep(50));
            },
            GamePhase::GameStarting => {
                actions.push(SessionAction::Sleep(50));
            },
            GamePhase::Probing => {
                self.pending = PendingExchange::Probe;
                actions.push(SessionAction::Exchange(PROBE_BYTE));
            },
            GamePhase::MusicSelect => {
                self.pending = PendingExchange::Music;
                actions.push(SessionAction::Exchange(self.music_byte));
            },
            GamePhase::InGame => {
                let byte_to_send: u8 = if self.command_queue.len() > 0 {
                    self.command_queue.remove(0)
                } else {
                    self.opponent_height
                };
                self.pending = PendingExchange::Game;
                actions.push(SessionAction::Exchange(byte_to_send));
                proof {
                    if pre.queue.len() > 0 {
                        assert(self.command_queue@ =~= pre.queue.drop_first());
                    }
                }
            },
        }
        proof {
            assert(self@ =~= spec_tick(pre).state);
            assert(actions@ =~= spec_tick(pre).actions);
        }
        actions
    }

    /// Apply the resolution of the in-flight exchange, as
    /// `spec_exchange_done` says.
    fn apply_exchange_done(&mut self, r: Option<u8>, now_ms: u64) -> (actions: Vec<SessionAction>)
        requires
            session_inv(old(self)@),
            !(old(self)@.pending is Idle),
        ensures
            session_inv(final(self)@),
            final(self)@ == spec_exchange_done(old(self)@, r, now_ms).state,
            actions@ == spec_exchange_done(old(self)@, r, now_ms).actions,
    {
        let ghost pre = self@;
        let mut actions: Vec<SessionAction> = Vec::new();
        match self.pending {
            PendingExchange::Idle => {
                // Unreachable under the precondition; changes nothing.
            },
            PendingExchange::Probe => {
                self.pending = PendingExchange::Idle;
                match r {
                    Some(v) => {
                        if v == PROBE_ACK {
                            self.phase = GamePhase::MusicSelect;
                            actions.push(SessionAction::Emit(GameEvent::Connected));
                        } else {
                            actions.push(SessionAction::Sleep(500));
                        }
                    },
                    None => {
                        actions.push(SessionAction::Sleep(1000));
                    },
                }
            },
            PendingExchange::Music => {
                self.pending = PendingExchange::Idle;
                actions.push(SessionAction::Sleep(100));
            },
            PendingExchange::Confirm => {
                self.pending = PendingExchange::Idle;
                self.phase = GamePhase::WaitingForStart;
            },
            PendingExchange::Script => {
                let len = self.script.len();
                let stp = self.script[self.script_pos];
                if stp.delay_ms > 0 {
                    actions.push(SessionAction::Sleep(stp.delay_ms));
                }
                if self.script_pos + 1 < len {
                    self.script_pos = self.script_pos + 1;
                    let next_byte = self.script[self.script_pos].byte;
                    actions.push(SessionAction::Exchange(next_byte));
                } else {
                    self.pending = PendingExchange::Idle;
                    self.phase = GamePhase::InGame;
                    self.started = true;
                    self.started_at_ms = now_ms;
                }
            },
            PendingExchange::Game => {
                self.pending = PendingExchange::Idle;
                match r {
                    Some(v) => {
                        if v < 20 {
                            actions.push(SessionAction::Emit(GameEvent::Height(v)));
                        } else if 0x80 <= v && v <= 0x85 {
                            actions.push(SessionAction::Emit(GameEvent::Lines(v)));
                        } else if v == 0x77 {
                            actions.push(SessionAction::Emit(GameEvent::Win));
                        } else if v == 0xAA {
                            let elapsed: u64 = if now_ms >= self.started_at_ms {
                                now_ms - self.started_at_ms
                            } else {
                                0
                            };
                            if self.started && elapsed < STARTUP_NOISE_MS {
                                // Startup noise: topped-out right after the
                                // start sequence is logged upstream and
                                // suppressed here.
                            } else {
                                actions.push(SessionAction::Emit(GameEvent::Lose));
                            }
                        } else if v == 0xFF {
                            actions.push(SessionAction::Emit(GameEvent::ScreenFilled));
                            self.command_queue.push(SCREEN_FILL_FOLLOW_UP);
                        }
                        actions.push(SessionAction::Sleep(100));
                    },
                    None => {
                        actions.push(SessionAction::Sleep(100));
                    },
                }
            },
        }
        proof {
            assert(self@ =~= spec_exchange_done(pre, r, now_ms).state);
            assert(actions@ =~= spec_exchange_done(pre, r, now_ms).actions);
        }
        actions
    }

    /// Take one event and return the actions to perform, as `spec_step`
    /// says. The driver performs an `Exchange` action by exchanging the
    /// byte and feeding the result back as the next event; no other event
    /// may come in between, so a second exchange is never requested while
    /// one is unresolved.
    pub fn step(&mut self, event: SessionEvent, now_ms: u64) -> (actions: Vec<SessionAction>)
        requires
            session_inv(old(self)@),
            step_allowed(old(self)@, event@),
        ensures
            session_inv(final(self)@),
            final(self)@ == spec_step(old(self)@, event@, now_ms).state,
            actions@ == spec_step(old(self)@, event@, now_ms).actions,
    {
        let ghost pre = self@;
        let ghost em = event@;
        match event {
            SessionEvent::Command(cmd) => self.apply_command(cmd),
            SessionEvent::InboxClosed => {
                self.stopped = true;
                let actions: Vec<SessionAction> = Vec::new();
                proof {
                    assert(self@ =~= spec_step(pre, em, now_ms).state);
                    assert(actions@ =~= spec_step(pre, em, now_ms).actions);
                }
                actions
            },
            SessionEvent::Tick => self.apply_tick(),
            SessionEvent::ExchangeDone(r) => self.apply_exchange_done(r, now_ms),
        }
    }

    /// Whether the session has been stopped.
    pub fn is_stopped(&self) -> (r: bool)
        ensures
            r == self@.stopped,
    {
        self.stopped
    }

    /// Whether an exchange is in flight: the next event must be its
    /// resolution.
    pub fn awaiting_exchange(&self) -> (r: bool)
        ensures
            r == !(self@.pending is Idle),
    {
        !matches!(self.pending, PendingExchange::Idle)
    }

    /// The active phase.
    pub fn phase(&self) -> (p: GamePhase)
        ensures
            p == self@.phase,
    {
        self.phase
    }
}

/// How many exchange requests a sequence of actions holds.
pub open spec fn exchange_count(actions: Seq<SessionAction>) -> nat
    decreases actions.len(),
{
    if actions.len() == 0 {
        0
    } else {
        exchange_count(actions.drop_last()) + (if actions.last() is Exchange {
            1nat
        } else {
            0nat
        })
    }
}

/// The session never issues a second exchange before the first one
/// resolves: a step asks for at most one exchange, it may ask only when no
/// exchange is in flight or when the event is the in-flight exchange's own
/// resolution, and once it asks, an exchange is in flight again — so the
/// only event the next step may take is that exchange's resolution.
pub proof fn lemma_single_outstanding_exchange(s: SessionModel, e: EventModel, now_ms: u64)
    requires
        session_inv(s),
        step_allowed(s, e),
    ensures
        exchange_count(spec_step(s, e, now_ms).actions) <= 1,
        exchange_count(spec_step(s, e, now_ms).actions) > 0 ==> (s.pending is Idle
            || e is ExchangeDone),
        exchange_count(spec_step(s, e, now_ms).actions) > 0 ==> !(spec_step(
            s,
            e,
            now_ms,
        ).state.pending is Idle),
{
    reveal_with_fuel(exchange_count, 4);
    let acts = spec_step(s, e, now_ms).actions;
    match e {
        EventModel::Command(c) => {
            match c {
                CommandModel::SetGame(_) => {},
                CommandModel::SetMusic(_) => {},
                CommandModel::ConfirmMusic => {},
                CommandModel::StartGame { garbage, tiles, is_first } => {},
                CommandModel::SetHeight(_) => {},
                CommandModel::QueueCommand(_) => {},
                CommandModel::Stop => {},
            }
        },
        EventModel::InboxClosed => {},
        EventModel::Tick => {},
        EventModel::ExchangeDone(r) => {
            match s.pending {
                PendingExchange::Script => {
                    let stp = s.script[s.script_pos];
                    if s.script_pos + 1 < s.script.len() {
                        if stp.delay_ms > 0 {
                            assert(acts =~= seq![
                                SessionAction::Sleep(stp.delay_ms),
                                SessionAction::Exchange(s.script[s.script_pos + 1].byte),
                            ]);
                        } else {
                            assert(acts =~= seq![
                                SessionAction::Exchange(s.script[s.script_pos + 1].byte),
                            ]);
                        }
                    }
                },
                PendingExchange::Game => {
                    if r is Some {
                        let v = r->0;
                        let evts = spec_game_events(v, startup_noise(s, now_ms));
                        assert(exchange_count(evts) == 0);
                        assert(acts == evts.push(SessionAction::Sleep(100)));
                        assert(acts.drop_last() =~= evts);
                    }
                },
                _ => {},
            }
        },
    }
}

/// Startup-noise suppression: a topped-out response resolving a
/// steady-state exchange yields no `Lose` event while less than
/// `STARTUP_NOISE_MS` has passed since the game-start sequence completed,
/// and exactly one `Lose` event from then on.
pub proof fn lemma_startup_noise_suppression(s: SessionModel, now_ms: u64)
    requires
        session_inv(s),
        s.pending is Game,
        s.started,
    ensures
        (now_ms as int) < s.started_at_ms + STARTUP_NOISE_MS ==> spec_step(
            s,
            EventModel::ExchangeDone(Some(0xAA)),
            now_ms,
        ).actions =~= seq![SessionAction::Sleep(100u64)],
        (now_ms as int) >= s.started_at_ms + STARTUP_NOISE_MS ==> spec_step(
            s,
            EventModel::ExchangeDone(Some(0xAA)),
            now_ms,
        ).actions =~= seq![
            SessionAction::Emit(GameEvent::Lose),
            SessionAction::Sleep(100u64),
        ],
{
    let acts = spec_step(s, EventModel::ExchangeDone(Some(0xAA)), now_ms).actions;
    if (now_ms as int) < s.started_at_ms + STARTUP_NOISE_MS {
        assert(acts =~= seq![SessionAction::Sleep(100u64)]);
    } else {
        assert(acts =~= seq![SessionAction::Emit(GameEvent::Lose), SessionAction::Sleep(100u64)]);
    }
}

/// Command-queue priority: with a non-empty queue, a steady-state tick
/// exchanges the queue head — not the opponent-height byte — and removes
/// exactly that one entry, leaving the rest of the queue in order.
pub proof fn lemma_queue_priority(s: SessionModel)
    requires
        session_inv(s),
        s.pending is Idle,
        s.phase is InGame,
        s.queue.len() > 0,
    ensures
        spec_step(s, EventModel::Tick, 0).actions =~= seq![SessionAction::Exchange(s.queue[0])],
        spec_step(s, EventModel::Tick, 0).state.queue =~= s.queue.drop_first(),
        spec_step(s, EventModel::Tick, 0).state.queue.len() == s.queue.len() - 1,
{
}

/// Probing, on receiving the probe ack, emits exactly one `Connected`
/// event and moves to music selection; any other response byte emits no
/// event and leaves the phase at probing (a retry after a wait).
pub proof fn lemma_probe_transition(s: SessionModel, v: u8)
    requires
        session_inv(s),
        s.pending is Probe,
        s.phase is Probing,
    ensures
        v == PROBE_ACK ==> spec_step(s, EventModel::ExchangeDone(Some(v)), 0).actions =~= seq![
            SessionAction::Emit(GameEvent::Connected),
        ] && spec_step(s, EventModel::ExchangeDone(Some(v)), 0).state.phase is MusicSelect,
        v != PROBE_ACK ==> spec_step(s, EventModel::ExchangeDone(Some(v)), 0).actions =~= seq![
            SessionAction::Sleep(500u64),
        ] && spec_step(s, EventModel::ExchangeDone(Some(v)), 0).state.phase is Probing,
{
}

/// The game-start sequence replays its script in order: a start command
/// first exchanges the script's opening byte, and each resolved script
/// step holds for that step's delay and exchanges the next step's byte,
/// with the script itself unchanged, until the last step flips the session
/// into the steady state.
pub proof fn lemma_script_order(s: SessionModel, now_ms: u64)
    requires
        session_inv(s),
        s.pending is Script,
    ensures
        s.script_pos + 1 < s.script.len() ==> {
            let res = spec_step(s, EventModel::ExchangeDone(Some(0)), now_ms);
            &&& res.state.script == s.script
            &&& res.state.script_pos == s.script_pos + 1
            &&& res.state.pending is Script
            &&& res.actions.last() == SessionAction::Exchange(s.script[s.script_pos + 1].byte)
        },
        s.script_pos + 1 == s.script.len() ==> {
            let res = spec_step(s, EventModel::ExchangeDone(Some(0)), now_ms);
            &&& res.state.phase is InGame
            &&& res.state.pending is Idle
            &&& res.state.started
            &&& res.state.started_at_ms == now_ms
            &&& exchange_count(res.actions) == 0
        },
{
    reveal_with_fuel(exchange_count, 3);
}

} // verus!
