//! The client's side of the session: what it has entered, what it knows of
//! the session, and what a key press asks for.

use vstd::prelude::*;
use tui_input::Input;
use crate::avatar::{AvatarColor, AvatarSymbol, Role};
use crate::clock::current_time_unix;
use crate::model::{Phase, PlayerId, RESET_POSITION};
use crate::protocol::{ClientPayload, CommandView, MessageView, ServerPayload, ViewerSnapshot};
use crate::zones::{card_at, check_zone_vote, fits_in_row, zones_of, MAX_ZONES};

verus! {

/// How many lines the log keeps.
pub const LOG_CAPACITY: usize = 10;

/// The screen that the client is on.
#[derive(Debug, Clone, Copy, PartialEq, Eq, Structural)]
pub enum CurrentScreen {
    Login,
    Main,
}

/// The text field of the `tui-input` crate, in which the name is typed.
#[verifier::external_type_specification]
#[verifier::external_body]
pub struct ExInput(tui_input::Input);

/// The text that an input field of the `tui-input` crate holds: what its
/// `Input::value` returns.
pub uninterp spec fn input_text(input: Input) -> Seq<char>;

/// An input field without text, by `Input::default`.
///
/// Trusted: the default field holds the empty text.
#[verifier::external_body]
fn empty_input() -> (input: Input)
    ensures
        input_text(input) == Seq::<char>::empty(),
{
    Input::default()
}

/// A copy of the text of an input field, read by `Input::value`.
///
/// Trusted: the copy is the text that the field holds.
#[verifier::external_body]
fn input_value(input: &Input) -> (text: String)
    ensures
        text@ == input_text(*input),
{
    input.value().to_string()
}

/// The decimal digit for a number below ten.
pub open spec fn digit(n: nat) -> char {
    if n == 0 {
        '0'
    } else if n == 1 {
        '1'
    } else if n == 2 {
        '2'
    } else if n == 3 {
        '3'
    } else if n == 4 {
        '4'
    } else if n == 5 {
        '5'
    } else if n == 6 {
        '6'
    } else if n == 7 {
        '7'
    } else if n == 8 {
        '8'
    } else {
        '9'
    }
}

/// The decimal numeral of a number.
pub open spec fn decimal(n: nat) -> Seq<char>
    decreases n,
{
    if n < 10 {
        seq![digit(n)]
    } else {
        decimal(n / 10).push(digit(n % 10))
    }
}

/// A line of the log: the time, a dash between blanks, and the message.
pub open spec fn log_line(time: u64, message: Seq<char>) -> Seq<char> {
    decimal(time as nat) + seq![' ', '-', ' '] + message
}

/// The log line for an error that the server reports.
pub open spec fn error_line(text: Seq<char>) -> Seq<char> {
    "Server Error: "@ + text
}

/// Writes a line of the log, by `format!` of the standard library.
///
/// Trusted: the number is written as its decimal numeral, followed by
/// " - " and the message.
#[verifier::external_body]
fn format_log_line(time: u64, message: &String) -> (line: String)
    ensures
        line@ == log_line(time, message@),
{
    format!("{} - {}", time, message)
}

/// Writes the log message for an error, by `format!` of the standard
/// library.
///
/// Trusted: the text follows "Server Error: ".
#[verifier::external_body]
fn format_error_line(text: &String) -> (line: String)
    ensures
        line@ == error_line(text@),
{
    format!("Server Error: {}", text)
}

/// The lines of a log as texts.
pub open spec fn lines_view(lines: Seq<String>) -> Seq<Seq<char>> {
    lines.map_values(|line: String| line@)
}

/// The log after one more line: the oldest line makes room where the log
/// is full.
pub open spec fn logged(lines: Seq<Seq<char>>, line: Seq<char>) -> Seq<Seq<char>> {
    if lines.len() >= LOG_CAPACITY {
        lines.remove(0).push(line)
    } else {
        lines.push(line)
    }
}

/// The role that the tabulator key leads to.
pub open spec fn role_after(role: Role) -> Role {
    match role {
        Role::Participant => Role::ScrumMaster,
        Role::ScrumMaster => Role::Observer,
        Role::Observer => Role::Participant,
    }
}

/// The role that the tabulator key leads to.
pub fn cycle_role(role: Role) -> (next: Role)
    ensures
        next == role_after(role),
{
    match role {
        Role::Participant => Role::ScrumMaster,
        Role::ScrumMaster => Role::Observer,
        Role::Observer => Role::Participant,
    }
}

/// Whether the client draws the avatar of a participant: a facilitator
/// sees everyone; the others see only themselves while a round is open.
pub open spec fn avatar_shown(viewer: Role, phase: Phase, own: bool) -> bool {
    viewer.is_facilitator() || !(phase is Voting) || own
}

/// Tells whether the client draws the avatar of a participant.
pub fn shows_avatar(viewer: Role, phase: &Phase, own: bool) -> (shown: bool)
    ensures
        shown == avatar_shown(viewer, *phase, own),
{
    viewer.may_administer() || !matches!(phase, Phase::Voting { .. }) || own
}

/// The four ways to move.
#[derive(Debug, Clone, Copy, PartialEq, Eq, Structural)]
pub enum Direction {
    Left,
    Right,
    Up,
    Down,
}

/// The position one step from `from`, if the room of `grid` columns and
/// rows has one there. Leftwards and upwards the wall stops the step;
/// rightwards and downwards there is no step beyond the room.
pub open spec fn stepped(from: (u16, u16), direction: Direction, grid: (u16, u16)) -> Option<
    (u16, u16),
> {
    match direction {
        Direction::Left => Some(
            (
                if from.0 == 0 {
                    0u16
                } else {
                    (from.0 - 1) as u16
                },
                from.1,
            ),
        ),
        Direction::Up => Some(
            (
                from.0,
                if from.1 == 0 {
                    0u16
                } else {
                    (from.1 - 1) as u16
                },
            ),
        ),
        Direction::Right => if from.0 + 1 < grid.0 {
            Some(((from.0 + 1) as u16, from.1))
        } else {
            None
        },
        Direction::Down => if from.1 + 1 < grid.1 {
            Some((from.0, (from.1 + 1) as u16))
        } else {
            None
        },
    }
}

/// The position one step from `from`, if the room has one there.
pub fn step_from(from: (u16, u16), direction: Direction, grid: (u16, u16)) -> (to: Option<(u16, u16)>)
    ensures
        to == stepped(from, direction, grid),
{
    match direction {
        Direction::Left => Some((if from.0 == 0 { 0 } else { from.0 - 1 }, from.1)),
        Direction::Up => Some((from.0, if from.1 == 0 { 0 } else { from.1 - 1 })),
        Direction::Right => if from.0 < u16::MAX && from.0 + 1 < grid.0 {
            Some((from.0 + 1, from.1))
        } else {
            None
        },
        Direction::Down => if from.1 < u16::MAX && from.1 + 1 < grid.1 {
            Some((from.0, from.1 + 1))
        } else {
            None
        },
    }
}

/// The columns and rows of the room on a terminal of the given size, if
/// the terminal is large enough to show one: what is left of the terminal
/// after margins, status bar and bottom panel, at three columns and two
/// rows of the terminal to one of the room.
pub open spec fn grid_of(width: u16, height: u16) -> Option<(u16, u16)> {
    if width > 4 && height > 10 {
        let inner_width: int = if width >= 6 {
            width - 6
        } else {
            0
        };
        let inner_height: int = if height >= 14 {
            height - 14
        } else {
            0
        };
        Some(((inner_width / 3) as u16, (inner_height / 2) as u16))
    } else {
        None
    }
}

/// The columns and rows of the room on a terminal of the given size.
pub fn grid_size(width: u16, height: u16) -> (grid: Option<(u16, u16)>)
    ensures
        grid == grid_of(width, height),
{
    if width > 4 && height > 10 {
        let inner_width: u16 = if width >= 6 {
            width - 6
        } else {
            0
        };
        let inner_height: u16 = if height >= 14 {
            height - 14
        } else {
            0
        };
        Some((inner_width / 3, inner_height / 2))
    } else {
        None
    }
}

/// What the client has entered and what it knows of the session.
pub struct App {
    pub current_screen: CurrentScreen,
    pub server_url: String,
    pub name_input: Input,
    pub role_input: Role,
    pub color_input: AvatarColor,
    pub symbol_input: AvatarSymbol,
    pub game_state: Option<ViewerSnapshot>,
    pub self_id: Option<PlayerId>,
    pub last_known_pos: (u16, u16),
    pub logs: Vec<String>,
}

/// The view of an optional snapshot.
pub open spec fn snapshot_view(snapshot: Option<ViewerSnapshot>) -> Option<
    crate::protocol::SnapshotView,
> {
    match snapshot {
        Some(s) => Some(s@),
        None => None,
    }
}

impl App {
    /// Whether everything but the log is the same in both.
    pub open spec fn same_but_logs(self, other: App) -> bool {
        &&& self.current_screen == other.current_screen
        &&& self.server_url == other.server_url
        &&& self.name_input == other.name_input
        &&& self.role_input == other.role_input
        &&& self.color_input == other.color_input
        &&& self.symbol_input == other.symbol_input
        &&& self.game_state == other.game_state
        &&& self.self_id == other.self_id
        &&& self.last_known_pos == other.last_known_pos
    }

    /// Whether what was entered on the login screen is the same in both.
    pub open spec fn same_entries(self, other: App) -> bool {
        &&& self.server_url == other.server_url
        &&& self.name_input == other.name_input
        &&& self.role_input == other.role_input
        &&& self.color_input == other.color_input
        &&& self.symbol_input == other.symbol_input
        &&& self.last_known_pos == other.last_known_pos
    }

    /// The client as it starts: on the login screen, with the local
    /// address of the server, no name, and nothing known of the session.
    pub fn new() -> (app: App)
        ensures
            app.current_screen == CurrentScreen::Login,
            app.server_url@ == "127.0.0.1:8888"@,
            input_text(app.name_input) == Seq::<char>::empty(),
            app.role_input == Role::Participant,
            app.color_input == AvatarColor::Yellow,
            app.symbol_input == AvatarSymbol::Human,
            app.game_state is None,
            app.self_id is None,
            app.last_known_pos == RESET_POSITION,
            app.logs@.len() == 0,
    {
        broadcast use vstd::string::to_string_from_display_ensures_for_str;

        App {
            current_screen: CurrentScreen::Login,
            server_url: "127.0.0.1:8888".to_string(),
            name_input: empty_input(),
            role_input: Role::Participant,
            color_input: AvatarColor::Yellow,
            symbol_input: AvatarSymbol::Human,
            game_state: None,
            self_id: None,
            last_known_pos: RESET_POSITION,
            logs: Vec::new(),
        }
    }

    /// Adds the message to the log under the time `now`. The log keeps its
    /// last ten lines.
    pub fn log_at(&mut self, msg: String, now: u64)
        ensures
            lines_view(final(self).logs@) == logged(lines_view(old(self).logs@), log_line(now, msg@)),
            final(self).same_but_logs(*old(self)),
    {
        if self.logs.len() >= LOG_CAPACITY {
            self.logs.remove(0);
        }
        let line = format_log_line(now, &msg);
        self.logs.push(line);
        assert(lines_view(final(self).logs@) =~= logged(
            lines_view(old(self).logs@),
            log_line(now, msg@),
        ));
    }

    /// Adds the message to the log under the present time.
    pub fn log(&mut self, msg: String)
        ensures
            exists|now: u64|
                lines_view(final(self).logs@) == logged(
                    lines_view(old(self).logs@),
                    #[trigger] log_line(now, msg@),
                ),
            final(self).same_but_logs(*old(self)),
    {
        let now = current_time_unix();
        self.log_at(msg, now);
    }

    /// The login that the entries on the login screen ask for.
    pub fn login_request(&self) -> (command: ClientPayload)
        ensures
            command@ == (CommandView::Login {
                name: input_text(self.name_input),
                role: self.role_input,
                color: self.color_input,
                symbol: self.symbol_input,
            }),
    {
        ClientPayload::Login {
            name: input_value(&self.name_input),
            role: self.role_input,
            color: self.color_input,
            symbol: self.symbol_input,
        }
    }

    /// Takes a message from the server, received at time `now`. A welcome
    /// tells the client its id and the session and leads to the main
    /// screen; an update replaces what is known of the session; an error is
    /// logged.
    pub fn on_server_message_at(&mut self, message: ServerPayload, now: u64)
        ensures
            final(self).same_entries(*old(self)),
            match message@ {
                MessageView::Welcome { self_id, state } => {
                    &&& final(self).current_screen == CurrentScreen::Main
                    &&& final(self).self_id == Some(self_id)
                    &&& snapshot_view(final(self).game_state) == Some(state)
                    &&& lines_view(final(self).logs@) == logged(
                        lines_view(old(self).logs@),
                        log_line(now, "Connected to server"@),
                    )
                },
                MessageView::StateUpdate(state) => {
                    &&& final(self).current_screen == old(self).current_screen
                    &&& final(self).self_id == old(self).self_id
                    &&& snapshot_view(final(self).game_state) == Some(state)
                    &&& final(self).logs == old(self).logs
                },
                MessageView::Error(text) => {
                    &&& final(self).current_screen == old(self).current_screen
                    &&& final(self).self_id == old(self).self_id
                    &&& final(self).game_state == old(self).game_state
                    &&& lines_view(final(self).logs@) == logged(
                        lines_view(old(self).logs@),
                        log_line(now, error_line(text)),
                    )
                },
            },
    {
        broadcast use vstd::string::to_string_from_display_ensures_for_str;

        match message {
            ServerPayload::Welcome { self_id, state } => {
                self.log_at("Connected to server".to_string(), now);
                self.self_id = Some(self_id);
                self.game_state = Some(state);
                self.current_screen = CurrentScreen::Main;
            },
            ServerPayload::StateUpdate(state) => {
                self.game_state = Some(state);
            },
            ServerPayload::Error(text) => {
                let line = format_error_line(&text);
                self.log_at(line, now);
            },
        }
    }

    /// The position that the session reports for this client, or the
    /// reset position where it reports none.
    pub open spec fn known_position(self) -> (u16, u16) {
        match (self.game_state, self.self_id) {
            (Some(state), Some(id)) => if state@.players.contains_key(id) {
                state@.players[id].position
            } else {
                RESET_POSITION
            },
            _ => RESET_POSITION,
        }
    }

    /// What an arrow key asks for in a room of `grid` columns and rows:
    /// nothing where the step leads out of the room; else the move, and
    /// with it, once the session is known and its cards fit in a row, the
    /// vote that the new position entails.
    pub open spec fn step_commands(self, direction: Direction, grid: (u16, u16)) -> Seq<
        CommandView,
    > {
        match stepped(self.known_position(), direction, grid) {
            None => Seq::empty(),
            Some(to) => {
                let go = CommandView::Move { x: to.0, y: to.1 };
                match self.game_state {
                    Some(state) => if state@.config.cards.len() <= MAX_ZONES {
                        seq![
                            go,
                            CommandView::Vote {
                                value: card_at(zones_of(state@.config.cards), to.0, to.1),
                            },
                        ]
                    } else {
                        seq![go]
                    },
                    None => seq![go],
                }
            },
        }
    }

    /// What an arrow key asks for in a room of `grid` columns and rows.
    pub fn on_arrow(&self, direction: Direction, grid: (u16, u16)) -> (commands: Vec<ClientPayload>)
        ensures
            commands@.map_values(|c: ClientPayload| c@) == self.step_commands(direction, grid),
    {
        let mut commands: Vec<ClientPayload> = Vec::new();
        match step_from(self.position(), direction, grid) {
            None => {},
            Some(to) => {
                commands.push(ClientPayload::Move { x: to.0, y: to.1 });
                match &self.game_state {
                    Some(state) => {
                        if fits_in_row(&state.config) {
                            commands.push(check_zone_vote(to.0, to.1, &state.config));
                        }
                    },
                    None => {},
                }
            },
        }
        assert(commands@.map_values(|c: ClientPayload| c@) =~= self.step_commands(direction, grid));
        commands
    }

    /// The position that the session reports for this client, or the
    /// reset position where it reports none.
    pub fn position(&self) -> (at: (u16, u16))
        ensures
            at == self.known_position(),
    {
        broadcast use vstd::std_specs::hash::group_hash_axioms;

        match (&self.game_state, self.self_id) {
            (Some(state), Some(id)) => match state.players.get(&id) {
                Some(player) => player.position,
                None => RESET_POSITION,
            },
            _ => RESET_POSITION,
        }
    }
}

} // verus!
