//! The decisions of the Leptos front end's network task: which room request
//! a user command makes in the lobby, what a command means during a game,
//! and which screen an event leads to. The task itself awaits commands and
//! session events and carries out what these functions decide.
use crate::board::copy_board;
use crate::leptos_tic_tac_toe::{StonePlacement, ViewState, ViewStateDelta, ViewStateModel};
use crate::ui::GameUiState;
use vstd::prelude::*;

verus! {

/// Commands sent from UI event handlers into the network task.
#[derive(Clone, Debug)]
pub enum NetCommand {
    CreateRoom { room: String, allow_spectators: bool },
    JoinRoom { room: String },
    /// Attempt to rejoin a previous session using a stored token.
    Reconnect { relay_url: String, game_id: String, room_id: String, token: u64 },
    PlaceStone { column: u8, row: u8 },
}

/// Whether the session creates the room or joins it.
#[derive(Clone, Copy, Debug, PartialEq, Eq, Structural)]
pub enum RoomRole {
    Create,
    Join,
}

/// What a session is asked to connect to.
#[derive(Clone, Debug)]
pub struct RoomConfig {
    pub relay_url: String,
    pub game_id: String,
    pub room_id: String,
    pub rule_variation: u16,
    pub role: RoomRole,
    pub reconnect_token: Option<u64>,
}

/// Which screen the app is currently showing.
#[derive(Clone, Debug)]
pub enum Screen {
    Login { error: Option<String> },
    Connecting,
    Playing(GameUiState),
}

/// What a command means while a game is running.
#[derive(Clone, Copy, Debug, PartialEq, Eq, Structural)]
pub enum GameAction {
    /// Send this move request to the host.
    Send(StonePlacement),
    /// Leave the room: forget the stored session, disconnect and show the
    /// login screen.
    Leave,
}

/// The screen shown at start-up: a stored session is resumed at once.
pub fn initial_screen(has_stored_session: bool) -> (screen: Screen)
    ensures
        has_stored_session ==> screen is Connecting,
        !has_stored_session ==> (screen matches Screen::Login { error } && error is None),
{
    if has_stored_session {
        Screen::Connecting
    } else {
        Screen::Login { error: None }
    }
}

/// The command that a login-screen button sends: none while the room name
/// is empty, since both buttons are disabled then; the create button carries
/// the spectator choice, the join button only the room name.
pub fn login_command(room_name: String, allow_spectators: bool, create: bool) -> (cmd: Option<
    NetCommand,
>)
    ensures
        room_name@.len() == 0 ==> cmd is None,
        room_name@.len() > 0 && create ==> cmd == Some(
            NetCommand::CreateRoom { room: room_name, allow_spectators },
        ),
        room_name@.len() > 0 && !create ==> cmd == Some(NetCommand::JoinRoom { room: room_name }),
{
    if room_name.as_str().is_empty() {
        None
    } else if create {
        Some(NetCommand::CreateRoom { room: room_name, allow_spectators })
    } else {
        Some(NetCommand::JoinRoom { room: room_name })
    }
}

/// The room request that a lobby command makes, with whether it resumes a
/// stored session and the screen shown while connecting; `None` for a move,
/// which the lobby ignores. Creating a
/// room uses rule variation 1 exactly when spectators are allowed; joining
/// and resuming use 0 and the join role.
pub fn room_request(cmd: NetCommand, relay_url: &str, game_id: &str) -> (request: Option<
    (RoomConfig, bool, Screen),
>)
    ensures
        match cmd {
            NetCommand::CreateRoom { room, allow_spectators } => request matches Some(
                (config, resumed, screen),
            ) && !resumed && config.relay_url@ == relay_url@ && config.game_id@ == game_id@
                && config.room_id == room && config.rule_variation == (if allow_spectators {
                1u16
            } else {
                0u16
            }) && config.role == RoomRole::Create && config.reconnect_token is None && screen is Connecting,
            NetCommand::JoinRoom { room } => request matches Some((config, resumed, screen)) && !resumed
                && config.relay_url@ == relay_url@ && config.game_id@ == game_id@
                && config.room_id == room && config.rule_variation == 0 && config.role
                == RoomRole::Join && config.reconnect_token is None && screen is Connecting,
            NetCommand::Reconnect { relay_url: url, game_id: game, room_id, token } => request matches Some(
                (config, resumed, screen),
            ) && resumed && config.relay_url == url && config.game_id == game && config.room_id
                == room_id && config.rule_variation == 0 && config.role == RoomRole::Join
                && config.reconnect_token == Some(token) && screen is Connecting,
            NetCommand::PlaceStone { .. } => request is None,
        },
{
    match cmd {
        NetCommand::CreateRoom { room, allow_spectators } => Some(
            (
                RoomConfig {
                    relay_url: relay_url.to_owned(),
                    game_id: game_id.to_owned(),
                    room_id: room,
                    rule_variation: if allow_spectators {
                        1
                    } else {
                        0
                    },
                    role: RoomRole::Create,
                    reconnect_token: None,
                },
                false,
                Screen::Connecting,
            ),
        ),
        NetCommand::JoinRoom { room } => Some(
            (
                RoomConfig {
                    relay_url: relay_url.to_owned(),
                    game_id: game_id.to_owned(),
                    room_id: room,
                    rule_variation: 0,
                    role: RoomRole::Join,
                    reconnect_token: None,
                },
                false,
                Screen::Connecting,
            ),
        ),
        NetCommand::Reconnect { relay_url, game_id, room_id, token } => Some(
            (
                RoomConfig {
                    relay_url,
                    game_id,
                    room_id,
                    rule_variation: 0,
                    role: RoomRole::Join,
                    reconnect_token: Some(token),
                },
                true,
                Screen::Connecting,
            ),
        ),
        NetCommand::PlaceStone { .. } => None,
    }
}

/// What a command means during a game: a move is sent to the host; any
/// other command, or the command channel closing, leaves the room.
pub fn game_command(cmd: Option<NetCommand>) -> (action: GameAction)
    ensures
        match cmd {
            Some(NetCommand::PlaceStone { column, row }) => action == GameAction::Send(
                StonePlacement { column, row },
            ),
            _ => action == GameAction::Leave,
        },
{
    match cmd {
        Some(NetCommand::PlaceStone { column, row }) => GameAction::Send(
            StonePlacement { column, row },
        ),
        _ => GameAction::Leave,
    }
}

/// Whether a connected session is stored for a later reconnect: only guests
/// and spectators keep one, since a host that leaves ends the room.
pub fn keeps_session(is_host: bool) -> (keep: bool)
    ensures
        keep == !is_host,
{
    !is_host
}

/// The game screen for the current view state and this player.
pub fn playing_screen(vs: &ViewState, player_id: u16) -> (screen: Screen)
    ensures
        screen matches Screen::Playing(ui) && crate::board::board_model(ui.board@)
            == vs@.board && ui.game_state == vs.game_state && ui.next_move_host
            == vs.next_move_host && ui.player_id == player_id,
{
    Screen::Playing(
        GameUiState {
            board: copy_board(&vs.board),
            game_state: vs.game_state,
            next_move_host: vs.next_move_host,
            player_id,
        },
    )
}

/// The screen after a failed connection attempt, with whether the stored
/// session must be forgotten (it is when the attempt resumed it).
pub fn connect_failed(error: String, resumed: bool) -> (r: (Screen, bool))
    ensures
        r.0 matches Screen::Login { error: e } && e == Some(error),
        r.1 == resumed,
{
    (Screen::Login { error: Some(error) }, resumed)
}

/// The screen after the session ended on its own: the login screen, with
/// the reason when one was given.
pub fn session_ended(reason: Option<String>) -> (screen: Screen)
    ensures
        screen matches Screen::Login { error } && error == reason,
{
    Screen::Login { error: reason }
}

/// An update of the view state, as the session delivers it.
#[derive(Clone, Debug)]
pub enum ViewStateUpdate {
    Full(ViewState),
    Incremental(ViewStateDelta),
}

/// What the session reports to the front end.
#[derive(Clone, Debug)]
pub enum SessionEvent {
    Update(ViewStateUpdate),
    Disconnected(Option<String>),
}

/// A delivered event can be applied: a full state has a 3×3 board and a
/// delta lies on the board.
pub open spec fn event_applicable(event: Option<SessionEvent>) -> bool {
    match event {
        Some(SessionEvent::Update(ViewStateUpdate::Full(s))) => s@.wf(),
        Some(SessionEvent::Update(ViewStateUpdate::Incremental(d))) => ViewStateModel::fits(d),
        _ => true,
    }
}

/// The screen shows the game in state `m` to `player_id`.
pub open spec fn shows_game(screen: Screen, m: ViewStateModel, player_id: u16) -> bool {
    screen matches Screen::Playing(ui) && crate::board::board_model(ui.board@) == m.board
        && ui.game_state == m.game_state && ui.next_move_host == m.next_move_host && ui.player_id
        == player_id
}

/// One step of a running game: a session event updates the local view state
/// and yields the next screen, with whether the game goes on. A full state
/// replaces the local one and an incremental one is applied to it; both
/// show the game. A disconnection shows the login screen with its reason,
/// and the end of the event stream the login screen without one.
pub fn session_step(vs: &mut ViewState, event: Option<SessionEvent>, player_id: u16) -> (r: (
    Screen,
    bool,
))
    requires
        old(vs)@.wf(),
        event_applicable(event),
    ensures
        final(vs)@.wf(),
        match event {
            Some(SessionEvent::Update(ViewStateUpdate::Full(s))) => final(vs)@ == s@ && shows_game(
                r.0,
                s@,
                player_id,
            ) && r.1,
            Some(SessionEvent::Update(ViewStateUpdate::Incremental(d))) => final(vs)@ == old(
                vs,
            )@.after(d) && shows_game(r.0, final(vs)@, player_id) && r.1,
            Some(SessionEvent::Disconnected(reason)) => final(vs)@ == old(vs)@ && (r.0 matches Screen::Login { error } && error == reason) && !r.1,
            None => final(vs)@ == old(vs)@ && (r.0 matches Screen::Login { error } && error is None) && !r.1,
        },
{
    match event {
        Some(SessionEvent::Update(update)) => {
            match update {
                ViewStateUpdate::Full(state) => {
                    *vs = state;
                },
                ViewStateUpdate::Incremental(delta) => {
                    vs.apply_delta(&delta);
                },
            }
            (playing_screen(vs, player_id), true)
        },
        Some(SessionEvent::Disconnected(reason)) => (session_ended(reason), false),
        None => (session_ended(None), false),
    }
}

} // verus!
