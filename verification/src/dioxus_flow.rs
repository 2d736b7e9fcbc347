//! The decisions of the Dioxus front end: which transport call a user
//! command makes, what each tick of the connection shows, and what a cell
//! click sends. The front end polls the transport about every 16 ms and
//! carries out what these functions decide.
use crate::board::{board_model, copy_board};
use crate::dioxus_tic_tac_toe::{
    GameState, StonePlacement, ViewState, ViewStateDelta, ViewStateModel,
};
use vstd::prelude::*;

verus! {

/// The complete game state the UI needs to render the board.
#[derive(Clone, Debug)]
pub struct GameUiState {
    pub board: Vec<Vec<u8>>,
    pub game_state: GameState,
    /// true = host's turn (host plays ○, value 2)
    pub next_move_host: bool,
    /// 0 = host (○), 1 = guest (✕), >1 = spectator
    pub player_id: u16,
}

/// Which screen the app is currently showing.
#[derive(Clone, Debug)]
pub enum Screen {
    Login { error: Option<String> },
    Connecting,
    Playing(GameUiState),
}

/// Commands sent from UI events into the network coroutine.
#[derive(Clone, Debug)]
pub enum NetCommand {
    CreateRoom { room: String, allow_spectators: bool },
    JoinRoom { room: String },
    PlaceStone { column: u8, row: u8 },
}

/// Where the transport stands.
#[derive(Clone, Debug)]
pub enum ConnectionState {
    Disconnected { error_string: Option<String> },
    AwaitingHandshake,
    ExecutingHandshake,
    Connected { player_id: u16 },
}

/// What the transport is asked to do for a user command.
#[derive(Clone, Debug)]
pub enum TransportCall {
    /// Host a room; rule variation 1 allows spectators.
    StartServer { room: String, rule_variation: u16 },
    /// Join a room.
    StartClient { room: String },
    /// Send a move request to the host.
    SendRpc(StonePlacement),
}

/// An update of the view state, as the transport delivers it.
#[derive(Clone, Debug)]
pub enum ViewStateUpdate {
    Full(ViewState),
    Incremental(ViewStateDelta),
}

/// The transport call that a user command makes.
pub fn command_call(cmd: NetCommand) -> (call: TransportCall)
    ensures
        match cmd {
            NetCommand::CreateRoom { room, allow_spectators } => call matches TransportCall::StartServer {
                room: r,
                rule_variation,
            } && r == room && rule_variation == (if allow_spectators {
                1u16
            } else {
                0u16
            }),
            NetCommand::JoinRoom { room } => call matches TransportCall::StartClient { room: r } && r
                == room,
            NetCommand::PlaceStone { column, row } => call matches TransportCall::SendRpc(p) && p
                == (StonePlacement { column, row }),
        },
{
    match cmd {
        NetCommand::CreateRoom { room, allow_spectators } => TransportCall::StartServer {
            room,
            rule_variation: if allow_spectators {
                1
            } else {
                0
            },
        },
        NetCommand::JoinRoom { room } => TransportCall::StartClient { room },
        NetCommand::PlaceStone { column, row } => TransportCall::SendRpc(
            StonePlacement { column, row },
        ),
    }
}

/// What a click on the cell at (`row`, `col`) sends: a move request for that
/// cell, with column `col` and row `row`, when the cell is clickable, and
/// nothing otherwise.
pub fn cell_click(clickable: bool, row: u8, col: u8) -> (cmd: Option<NetCommand>)
    ensures
        clickable ==> cmd == Some(NetCommand::PlaceStone { column: col, row }),
        !clickable ==> cmd is None,
{
    if clickable {
        Some(NetCommand::PlaceStone { column: col, row })
    } else {
        None
    }
}

/// The model of an update.
pub open spec fn update_applicable(u: ViewStateUpdate) -> bool {
    match u {
        ViewStateUpdate::Full(s) => s@.wf(),
        ViewStateUpdate::Incremental(d) => ViewStateModel::fits(d),
    }
}

/// The view state after the updates, in order: a full state replaces the
/// current one, a delta is applied to it.
pub open spec fn after_updates(m: ViewStateModel, us: Seq<ViewStateUpdate>) -> ViewStateModel
    decreases us.len(),
{
    if us.len() == 0 {
        m
    } else {
        match us.last() {
            ViewStateUpdate::Full(s) => s@,
            ViewStateUpdate::Incremental(d) => after_updates(m, us.drop_last()).after(d),
        }
    }
}

/// The view state the game starts from when none is held yet.
pub open spec fn held_or_fresh(local: Option<ViewState>) -> ViewStateModel {
    match local {
        Some(v) => v@,
        None => ViewStateModel::initial(true),
    }
}

/// The screen shows the game in state `m` to `player_id`.
pub open spec fn shows_game(screen: Screen, m: ViewStateModel, player_id: u16) -> bool {
    screen matches Screen::Playing(ui) && board_model(ui.board@) == m.board && ui.game_state
        == m.game_state && ui.next_move_host == m.next_move_host && ui.player_id == player_id
}

/// One tick of the front end. A disconnected transport drops the local view
/// state and shows the login screen with its error; a handshake in progress
/// shows the connecting screen; a connected transport applies every pending
/// update to the local view state (starting from a fresh one with the host
/// to move when none is held) and shows the game. Updates are read only when
/// connected.
pub fn tick(state: ConnectionState, local: &mut Option<ViewState>, updates: Vec<ViewStateUpdate>) -> (screen: Screen)
    requires
        *old(local) matches Some(v) ==> v@.wf(),
        forall|i: int| 0 <= i < updates@.len() ==> update_applicable(#[trigger] updates@[i]),
    ensures
        match state {
            ConnectionState::Disconnected { error_string } => *final(local) is None && (screen matches Screen::Login { error } && error == error_string),
            ConnectionState::AwaitingHandshake | ConnectionState::ExecutingHandshake => *final(local) == *old(local) && screen is Connecting,
            ConnectionState::Connected { player_id } => *final(local) matches Some(v) && v@ == after_updates(held_or_fresh(*old(local)), updates@) && v@.wf() && shows_game(screen, v@, player_id),
        },
{
    match state {
        ConnectionState::Disconnected { error_string } => {
            *local = None;
            Screen::Login { error: error_string }
        },
        ConnectionState::AwaitingHandshake | ConnectionState::ExecutingHandshake => Screen::Connecting,
        ConnectionState::Connected { player_id } => {
            let mut vs = match local.take() {
                Some(v) => v,
                None => ViewState::new(true),
            };
            let ghost start = vs@;
            let ghost all = updates@;
            let n = updates.len();
            let mut rest = updates;
            let mut k: usize = 0;
            while rest.len() > 0
                invariant
                    vs@.wf(),
                    n == all.len(),
                    k + rest@.len() == all.len(),
                    rest@ == all.subrange(k as int, all.len() as int),
                    vs@ == after_updates(start, all.take(k as int)),
                    forall|i: int| 0 <= i < all.len() ==> update_applicable(#[trigger] all[i]),
                decreases rest@.len(),
            {
                let u = rest.remove(0);
                proof {
                    assert(u == all[k as int]);
                    assert(all.take(k + 1).drop_last() =~= all.take(k as int));
                    assert(all.take(k + 1).last() == all[k as int]);
                    assert(update_applicable(all[k as int]));
                }
                match u {
                    ViewStateUpdate::Full(s) => {
                        vs = s;
                    },
                    ViewStateUpdate::Incremental(d) => {
                        vs.apply_delta(&d);
                    },
                }
                k = k + 1;
                assert(rest@ =~= all.subrange(k as int, all.len() as int));
            }
            assert(all.take(k as int) =~= all);
            let screen = Screen::Playing(
                GameUiState {
                    board: copy_board(&vs.board),
                    game_state: vs.game_state,
                    next_move_host: vs.next_move_host,
                    player_id,
                },
            );
            *local = Some(vs);
            screen
        },
    }
}

/// Applying updates in two batches is applying them in one, in the same
/// order: a full state replaces whatever came before it, and a delta is
/// applied to the state that the earlier updates left.
pub proof fn lemma_updates_compose(
    m: ViewStateModel,
    first: Seq<ViewStateUpdate>,
    then: Seq<ViewStateUpdate>,
    full: ViewState,
    delta: ViewStateDelta,
)
    ensures
        after_updates(m, first + then) == after_updates(after_updates(m, first), then),
        after_updates(m, first.push(ViewStateUpdate::Full(full))) == full@,
        after_updates(m, first.push(ViewStateUpdate::Incremental(delta))) == after_updates(
            m,
            first,
        ).after(delta),
        after_updates(m, Seq::empty()) == m,
    decreases then.len(),
{
    assert(first.push(ViewStateUpdate::Full(full)).drop_last() =~= first);
    assert(first.push(ViewStateUpdate::Incremental(delta)).drop_last() =~= first);
    if then.len() == 0 {
        assert(first + then =~= first);
    } else {
        assert((first + then).drop_last() =~= first + then.drop_last());
        assert((first + then).last() == then.last());
        lemma_updates_compose(m, first, then.drop_last(), full, delta);
    }
}

} // verus!
