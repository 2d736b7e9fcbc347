//! The host-side game backend: it judges move requests, reacts to players
//! arriving and leaving, and queues the commands that the host's session
//! carries out (broadcasts, timers, kicks, closing the room).
use crate::dioxus_tic_tac_toe::{
    lemma_initial_turn_balance, lemma_legal_move_keeps_turn_balance, GameState, StonePlacement,
    ViewState, ViewStateDelta, ViewStateModel,
};
use vstd::prelude::*;

verus! {

/// Timer that starts the next round after a game has ended.
pub const NEXT_ROUND_TIMER: u16 = 0;

/// Timer that closes the room when the guest does not come back.
pub const GUEST_GRACE_TIMER: u16 = 1;

/// Seconds between the end of a game and the next round.
pub const NEXT_ROUND_DELAY_SECS: u32 = 5;

/// Seconds the guest has to reconnect before the room is closed.
pub const GUEST_GRACE_SECS: u32 = 30;

/// A command from the backend to the hosting session.
#[derive(Clone, Copy, Debug, PartialEq, Eq, Structural)]
pub enum BackendCommand<Delta> {
    /// Broadcast an incremental update to all clients.
    Delta(Delta),
    /// Broadcast the full view state (a new round).
    ResetViewState,
    /// Call back `timer_triggered(timer_id)` after `duration_secs` seconds.
    SetTimer { timer_id: u16, duration_secs: u32 },
    /// Forget a pending timer.
    CancelTimer { timer_id: u16 },
    /// Disconnect a player.
    KickPlayer { player: u16 },
    /// Shut down the session.
    TerminateRoom,
}

/// The tic-tac-toe backend that runs on the hosting client.
pub struct TicTacToeLogic {
    command_list: Vec<BackendCommand<ViewStateDelta>>,
    view_state: ViewState,
    is_host_starting: bool,
    allow_spectators: bool,
}

/// The commands that a player's arrival queues: spectators (players above 1)
/// are kicked unless allowed, and the guest's return cancels the grace timer.
pub open spec fn arrival_commands(allow_spectators: bool, player: u16) -> Seq<
    BackendCommand<ViewStateDelta>,
> {
    (if !allow_spectators && player > 1 {
        seq![BackendCommand::KickPlayer { player }]
    } else {
        seq![]
    }) + (if player == 1 {
        seq![BackendCommand::CancelTimer { timer_id: GUEST_GRACE_TIMER }]
    } else {
        seq![]
    })
}

/// The commands that a player's departure queues: the host (player 0)
/// leaving ends the game and closes the room; the guest leaving starts the
/// grace timer.
pub open spec fn departure_commands(player: u16) -> Seq<BackendCommand<ViewStateDelta>> {
    if player == 0 {
        seq![BackendCommand::TerminateRoom]
    } else if player == 1 {
        seq![BackendCommand::SetTimer { timer_id: GUEST_GRACE_TIMER, duration_secs: GUEST_GRACE_SECS }]
    } else {
        seq![]
    }
}

/// The delta that a move by `player_id` produces: the host places circles.
pub open spec fn move_delta(player_id: u16, payload: StonePlacement) -> ViewStateDelta {
    ViewStateDelta::StonePlaced { is_circle: player_id == 0, column: payload.column, row: payload.row }
}

/// A move request is taken: the game is pending and the move is legal.
pub open spec fn accepts(s: ViewStateModel, player_id: u16, payload: StonePlacement) -> bool {
    s.game_state == GameState::Pending && s.legal(payload, player_id)
}

/// The move request can be judged without reading outside the board.
pub open spec fn judgeable(s: ViewStateModel, player_id: u16, payload: StonePlacement) -> bool {
    s.game_state != GameState::Pending || s.checkable(payload, player_id)
}

/// The commands that an accepted move queues: the delta, and the next-round
/// timer when the move ends the game.
pub open spec fn move_commands(after: ViewStateModel, delta: ViewStateDelta) -> Seq<
    BackendCommand<ViewStateDelta>,
> {
    seq![BackendCommand::Delta(delta)] + (if after.game_state != GameState::Pending {
        seq![BackendCommand::SetTimer { timer_id: NEXT_ROUND_TIMER, duration_secs: NEXT_ROUND_DELAY_SECS }]
    } else {
        seq![]
    })
}

impl TicTacToeLogic {
    /// The commands queued since the last drain, oldest first.
    pub closed spec fn commands(&self) -> Seq<BackendCommand<ViewStateDelta>> {
        self.command_list@
    }

    /// The current view state.
    pub closed spec fn state(&self) -> ViewStateModel {
        self.view_state@
    }

    /// Whether the host opens the current round.
    pub closed spec fn host_starts(&self) -> bool {
        self.is_host_starting
    }

    /// Whether players beyond the two may stay as spectators.
    pub closed spec fn spectators_allowed(&self) -> bool {
        self.allow_spectators
    }

    /// The stones on the board alternate, starting with whoever opened the
    /// current round.
    pub open spec fn stones_alternate(&self) -> bool {
        self.state().turn_balanced(self.host_starts())
    }

    /// The board of the view state has its 3×3 shape.
    pub closed spec fn wf(&self) -> bool {
        self.view_state@.wf()
    }

    /// A fresh backend: the host starts, nothing is queued, and spectators
    /// are allowed exactly when `rule_variation` is 1.
    pub fn new(rule_variation: u16) -> (logic: Self)
        ensures
            logic.wf(),
            logic.commands() == Seq::<BackendCommand<ViewStateDelta>>::empty(),
            logic.state() == ViewStateModel::initial(true),
            logic.host_starts(),
            logic.spectators_allowed() == (rule_variation == 1),
            logic.stones_alternate(),
    {
        proof {
            lemma_initial_turn_balance(true);
        }
        TicTacToeLogic {
            is_host_starting: true,
            command_list: Vec::new(),
            view_state: ViewState::new(true),
            allow_spectators: rule_variation == 1,
        }
    }

    /// A backend resuming from a stored view state. Who opens the next round
    /// is taken from whose turn it is, which is exact when the game is at
    /// rest and only affects the round after the current one otherwise.
    pub fn from_view_state(rule_variation: u16, view_state: ViewState) -> (logic: Self)
        requires
            view_state@.wf(),
        ensures
            logic.wf(),
            logic.commands() == Seq::<BackendCommand<ViewStateDelta>>::empty(),
            logic.state() == view_state@,
            logic.host_starts() == view_state.next_move_host,
            logic.spectators_allowed() == (rule_variation == 1),
    {
        let is_host_starting = view_state.next_move_host;
        TicTacToeLogic {
            command_list: Vec::new(),
            view_state,
            is_host_starting,
            allow_spectators: rule_variation == 1,
        }
    }

    /// Starts a new round: queues a full-state broadcast and empties the board.
    fn reset_game(&mut self)
        requires
            old(self).wf(),
        ensures
            final(self).wf(),
            final(self).commands() == old(self).commands().push(BackendCommand::ResetViewState),
            final(self).state() == ViewStateModel::initial(old(self).host_starts()),
            final(self).host_starts() == old(self).host_starts(),
            final(self).spectators_allowed() == old(self).spectators_allowed(),
    {
        self.command_list.push(BackendCommand::ResetViewState);
        self.view_state = ViewState::new(self.is_host_starting);
    }

    /// A player joined the room.
    pub fn player_arrival(&mut self, player: u16)
        requires
            old(self).wf(),
        ensures
            final(self).wf(),
            final(self).commands() == old(self).commands() + arrival_commands(
                old(self).spectators_allowed(),
                player,
            ),
            player == 1 ==> final(self).commands().last() == (BackendCommand::<
                ViewStateDelta,
            >::CancelTimer { timer_id: GUEST_GRACE_TIMER }),
            player > 1 && !old(self).spectators_allowed() ==> final(self).commands()
                == old(self).commands().push((BackendCommand::KickPlayer { player })),
            player == 0 || (player > 1 && old(self).spectators_allowed()) ==> final(self).commands()
                == old(self).commands(),
            final(self).state() == old(self).state(),
            final(self).host_starts() == old(self).host_starts(),
            final(self).spectators_allowed() == old(self).spectators_allowed(),
    {
        let ghost before = self.command_list@;
        if !self.allow_spectators && (player > 1) {
            self.command_list.push(BackendCommand::KickPlayer { player });
        }
        if player == 1 {
            // The guest is back: cancel the grace-period termination timer.
            self.command_list.push(BackendCommand::CancelTimer { timer_id: GUEST_GRACE_TIMER });
        }
        assert(self.command_list@ =~= before + arrival_commands(self.allow_spectators, player));
    }

    /// A player left the room. The host leaving closes the room; the guest
    /// leaving starts the grace timer.
    pub fn player_departure(&mut self, player: u16)
        requires
            old(self).wf(),
        ensures
            final(self).wf(),
            final(self).commands() == old(self).commands() + departure_commands(player),
            player == 0 ==> final(self).commands() == old(self).commands().push(
                BackendCommand::TerminateRoom,
            ),
            player == 1 ==> final(self).commands() == old(self).commands().push(
                (BackendCommand::SetTimer { timer_id: GUEST_GRACE_TIMER, duration_secs: GUEST_GRACE_SECS }),
            ),
            player > 1 ==> final(self).commands() == old(self).commands(),
            final(self).state() == old(self).state(),
            final(self).host_starts() == old(self).host_starts(),
            final(self).spectators_allowed() == old(self).spectators_allowed(),
    {
        let ghost before = self.command_list@;
        if player == 0 {
            // The host left: the game is over.
            self.command_list.push(BackendCommand::TerminateRoom);
        } else if player == 1 {
            // Give the guest time to reconnect before the room is closed.
            self.command_list.push(
                BackendCommand::SetTimer { timer_id: GUEST_GRACE_TIMER, duration_secs: GUEST_GRACE_SECS },
            );
        }
        assert(self.command_list@ =~= before + departure_commands(player));
    }

    /// Whether a move request can be judged without reading outside the
    /// board; [`TicTacToeLogic::inform_rpc`] takes only such requests.
    pub fn can_judge(&self, player_id: u16, payload: StonePlacement) -> (ok: bool)
        ensures
            ok == judgeable(self.state(), player_id, payload),
    {
        self.view_state.game_state != GameState::Pending || player_id > 1 || (player_id == 0)
            != self.view_state.next_move_host || (payload.row < 3 && payload.column < 3)
    }

    /// A move request from `player_id`. It is taken only while the game is
    /// pending and only if legal; then the stone is placed, the delta is
    /// queued, and when the move ends the game the next-round timer is set.
    /// Any other request changes nothing.
    pub fn inform_rpc(&mut self, player_id: u16, payload: StonePlacement)
        requires
            old(self).wf(),
            judgeable(old(self).state(), player_id, payload),
        ensures
            final(self).wf(),
            final(self).host_starts() == old(self).host_starts(),
            final(self).spectators_allowed() == old(self).spectators_allowed(),
            accepts(old(self).state(), player_id, payload) ==> {
                let after = old(self).state().after(move_delta(player_id, payload));
                &&& final(self).state() == after
                &&& final(self).commands() == old(self).commands() + move_commands(
                    after,
                    move_delta(player_id, payload),
                )
            },
            !accepts(old(self).state(), player_id, payload) ==> {
                &&& final(self).state() == old(self).state()
                &&& final(self).commands() == old(self).commands()
            },
            accepts(old(self).state(), player_id, payload) ==> {
                &&& final(self).commands().len() > old(self).commands().len()
                &&& final(self).commands().subrange(0, old(self).commands().len() as int)
                    == old(self).commands()
                &&& final(self).commands()[old(self).commands().len() as int]
                    == BackendCommand::Delta(
                    (ViewStateDelta::StonePlaced {
                        is_circle: player_id == 0,
                        column: payload.column,
                        row: payload.row,
                    }),
                )
                &&& final(self).state().game_state != GameState::Pending ==> {
                    &&& final(self).commands().len() == old(self).commands().len() + 2
                    &&& final(self).commands().last() == (BackendCommand::<
                        ViewStateDelta,
                    >::SetTimer { timer_id: NEXT_ROUND_TIMER, duration_secs: NEXT_ROUND_DELAY_SECS })
                }
                &&& final(self).state().game_state == GameState::Pending ==> final(self).commands().len()
                    == old(self).commands().len() + 1
            },
            old(self).stones_alternate() ==> final(self).stones_alternate(),
    {
        if self.view_state.game_state != GameState::Pending {
            return;
        }
        if !self.view_state.check_legality(&payload, player_id) {
            return;
        }
        let ghost before = self.command_list@;
        proof {
            if self.view_state@.turn_balanced(self.is_host_starting) {
                lemma_legal_move_keeps_turn_balance(
                    self.view_state@,
                    payload,
                    player_id,
                    self.is_host_starting,
                );
            }
        }
        let delta = ViewStateDelta::StonePlaced {
            is_circle: (player_id == 0),
            column: payload.column,
            row: payload.row,
        };
        self.view_state.apply_delta(&delta);
        self.command_list.push(BackendCommand::Delta(delta));
        if self.view_state.game_state != GameState::Pending {
            self.command_list.push(
                BackendCommand::SetTimer { timer_id: NEXT_ROUND_TIMER, duration_secs: NEXT_ROUND_DELAY_SECS },
            );
        }
        assert(self.command_list@ =~= before + move_commands(self.view_state@, delta));
    }

    /// A timer set by this backend fired. The next-round timer swaps who
    /// starts and begins a new round; the grace timer closes the room; any
    /// other timer is ignored.
    pub fn timer_triggered(&mut self, timer_id: u16)
        requires
            old(self).wf(),
        ensures
            final(self).wf(),
            final(self).spectators_allowed() == old(self).spectators_allowed(),
            timer_id == NEXT_ROUND_TIMER ==> {
                &&& final(self).host_starts() == !old(self).host_starts()
                &&& final(self).state() == ViewStateModel::initial(!old(self).host_starts())
                &&& final(self).commands() == old(self).commands().push(
                    BackendCommand::ResetViewState,
                )
            },
            timer_id == GUEST_GRACE_TIMER ==> {
                &&& final(self).host_starts() == old(self).host_starts()
                &&& final(self).state() == old(self).state()
                &&& final(self).commands() == old(self).commands().push(
                    BackendCommand::TerminateRoom,
                )
            },
            timer_id != NEXT_ROUND_TIMER && timer_id != GUEST_GRACE_TIMER ==> {
                &&& final(self).host_starts() == old(self).host_starts()
                &&& final(self).state() == old(self).state()
                &&& final(self).commands() == old(self).commands()
            },
            old(self).stones_alternate() ==> final(self).stones_alternate(),
            timer_id == NEXT_ROUND_TIMER ==> final(self).stones_alternate(),
    {
        proof {
            lemma_initial_turn_balance(!self.is_host_starting);
        }
        if timer_id == NEXT_ROUND_TIMER {
            self.is_host_starting = !self.is_host_starting;
            self.reset_game();
        } else if timer_id == GUEST_GRACE_TIMER {
            // Grace period expired with no reconnect: close the room.
            self.command_list.push(BackendCommand::TerminateRoom);
        }
    }

    /// The current view state.
    pub fn get_view_state(&self) -> (vs: &ViewState)
        ensures
            vs@ == self.state(),
    {
        &self.view_state
    }

    /// Hands out every queued command, oldest first, and empties the queue.
    pub fn drain_commands(&mut self) -> (drained: Vec<BackendCommand<ViewStateDelta>>)
        requires
            old(self).wf(),
        ensures
            drained@ == old(self).commands(),
            final(self).commands() == Seq::<BackendCommand<ViewStateDelta>>::empty(),
            final(self).wf(),
            final(self).state() == old(self).state(),
            final(self).host_starts() == old(self).host_starts(),
            final(self).spectators_allowed() == old(self).spectators_allowed(),
    {
        let mut drained: Vec<BackendCommand<ViewStateDelta>> = Vec::new();
        std::mem::swap(&mut drained, &mut self.command_list);
        drained
    }
}

/// An accepted move request keeps the stones alternating with the turn, for
/// whoever opened the round.
pub proof fn lemma_accepted_move_keeps_turn_balance(
    s: ViewStateModel,
    player_id: u16,
    payload: StonePlacement,
    starter: bool,
)
    requires
        s.wf(),
        judgeable(s, player_id, payload),
        accepts(s, player_id, payload),
        s.turn_balanced(starter),
    ensures
        s.after(move_delta(player_id, payload)).turn_balanced(starter),
        s.after(move_delta(player_id, payload)).wf(),
{
    lemma_legal_move_keeps_turn_balance(s, payload, player_id, starter);
}

/// A finished game takes no move: only the next-round timer starts play
/// again. A pending game takes exactly the legal moves: from the player
/// whose turn it is, onto an empty cell that is not grayed.
pub proof fn lemma_finished_game_takes_no_move(s: ViewStateModel, player_id: u16, payload: StonePlacement)
    ensures
        s.game_state != GameState::Pending ==> !accepts(s, player_id, payload),
        accepts(s, player_id, payload) <==> (s.game_state == GameState::Pending && (
        (player_id == 0 && s.next_move_host) || (player_id == 1 && !s.next_move_host))
            && s.board[payload.row as int][payload.column as int] == 0 && s.grayed_square != Some(
            (payload.row, payload.column),
        )),
{
}

/// What a player's arrival queues: the guest (player 1) always has its
/// grace timer cancelled, whatever the spectator setting; a spectator is
/// kicked exactly when spectators are not allowed; the host queues nothing.
pub proof fn lemma_arrival_laws(allow_spectators: bool, player: u16)
    ensures
        arrival_commands(allow_spectators, 1) == seq![
            (BackendCommand::<ViewStateDelta>::CancelTimer { timer_id: GUEST_GRACE_TIMER }),
        ],
        arrival_commands(allow_spectators, 1).contains(
            (BackendCommand::CancelTimer { timer_id: GUEST_GRACE_TIMER }),
        ),
        arrival_commands(allow_spectators, 0).len() == 0,
        player > 1 && !allow_spectators ==> arrival_commands(allow_spectators, player) == seq![
            (BackendCommand::<ViewStateDelta>::KickPlayer { player }),
        ],
        player > 1 && allow_spectators ==> arrival_commands(allow_spectators, player).len() == 0,
{
    assert(arrival_commands(allow_spectators, 1)[0] == (BackendCommand::<ViewStateDelta>::CancelTimer {
        timer_id: GUEST_GRACE_TIMER,
    }));
    assert(arrival_commands(allow_spectators, 1) =~= seq![
        (BackendCommand::<ViewStateDelta>::CancelTimer { timer_id: GUEST_GRACE_TIMER }),
    ]);
    assert(arrival_commands(allow_spectators, 0) =~= Seq::<BackendCommand<ViewStateDelta>>::empty());
    if player > 1 && !allow_spectators {
        assert(arrival_commands(allow_spectators, player) =~= seq![
            (BackendCommand::<ViewStateDelta>::KickPlayer { player }),
        ]);
    }
    if player > 1 && allow_spectators {
        assert(arrival_commands(allow_spectators, player) =~= Seq::<BackendCommand<ViewStateDelta>>::empty());
    }
}

/// What a player's departure queues: the host leaving closes the room, the
/// guest leaving starts its grace timer of `GUEST_GRACE_SECS`, anyone else
/// queues nothing.
pub proof fn lemma_departure_laws(player: u16)
    ensures
        departure_commands(0) == seq![BackendCommand::<ViewStateDelta>::TerminateRoom],
        departure_commands(1) == seq![
            (BackendCommand::<ViewStateDelta>::SetTimer { timer_id: GUEST_GRACE_TIMER, duration_secs: GUEST_GRACE_SECS }),
        ],
        player > 1 ==> departure_commands(player).len() == 0,
{
}

/// A move that ends the game, by either win or a draw, is followed by the
/// next-round timer; a move that leaves the game pending queues only its
/// delta. The delta always comes first.
pub proof fn lemma_game_end_sets_next_round_timer(after: ViewStateModel, delta: ViewStateDelta)
    ensures
        move_commands(after, delta)[0] == BackendCommand::Delta(delta),
        after.game_state != GameState::Pending ==> {
            &&& move_commands(after, delta).len() == 2
            &&& move_commands(after, delta).last() == (BackendCommand::<
                ViewStateDelta,
            >::SetTimer { timer_id: NEXT_ROUND_TIMER, duration_secs: NEXT_ROUND_DELAY_SECS })
        },
        after.game_state == GameState::Draw ==> move_commands(after, delta).last() == (BackendCommand::<
            ViewStateDelta,
        >::SetTimer { timer_id: NEXT_ROUND_TIMER, duration_secs: NEXT_ROUND_DELAY_SECS }),
        after.game_state == GameState::Pending ==> move_commands(after, delta) == seq![
            BackendCommand::Delta(delta),
        ],
{
    if after.game_state == GameState::Pending {
        assert(move_commands(after, delta) =~= seq![BackendCommand::Delta(delta)]);
    }
}

/// Two next-round timers in a row give the opening move back to the player
/// who had it: the starter alternates from round to round.
pub proof fn lemma_starter_alternates(logic: TicTacToeLogic, once: TicTacToeLogic, twice: TicTacToeLogic)
    requires
        logic.wf(),
        once.host_starts() == !logic.host_starts(),
        twice.host_starts() == !once.host_starts(),
        once.state() == ViewStateModel::initial(!logic.host_starts()),
        twice.state() == ViewStateModel::initial(!once.host_starts()),
    ensures
        twice.host_starts() == logic.host_starts(),
        twice.state().next_move_host == logic.host_starts(),
        once.state().next_move_host != twice.state().next_move_host,
{
}

} // verus!
