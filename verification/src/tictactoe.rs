//! Tic-tac-toe for a stake: the creator plays X and moves first, the joiner
//! plays O, and the first to fill one of the eight lines takes both stakes.
//! A full board without a line is a draw, and each stake goes back.

use vstd::prelude::*;
use crate::address::Address;
use crate::error::ArciumMxeError;
use crate::escrow::{credit, debit, pot, total_pot, Transfer, MIN_WAGER};

verus! {

/// The content of a free cell.
pub const EMPTY: u8 = 0;

/// The marker of the creator.
pub const MARK_X: u8 = 1;

/// The marker of the joiner.
pub const MARK_O: u8 = 2;

/// The eight winning lines, each by its three cells: the rows, the columns,
/// then the two diagonals. Cells are numbered row by row from the top left.
pub const WIN_PATTERNS: [[usize; 3]; 8] = [
    [0, 1, 2],
    [3, 4, 5],
    [6, 7, 8],
    [0, 3, 6],
    [1, 4, 7],
    [2, 5, 8],
    [0, 4, 8],
    [2, 4, 6],
];

/// The phase a tic-tac-toe game is in.
#[derive(Clone, Copy, Debug, PartialEq, Eq, Structural)]
pub enum TicTacToeState {
    /// Opened by the creator; no second player yet.
    WaitingForPlayer,
    /// X is to move.
    PlayerXTurn,
    /// O is to move.
    PlayerOTurn,
    /// X has completed a line.
    XWins,
    /// O has completed a line.
    OWins,
    /// The board is full and no line is complete.
    Draw,
    /// Called off by the creator before anyone joined.
    Cancelled,
}

impl Default for TicTacToeState {
    fn default() -> (s: TicTacToeState)
        ensures
            s == TicTacToeState::WaitingForPlayer,
    {
        TicTacToeState::WaitingForPlayer
    }
}

/// The record of one tic-tac-toe game.
#[derive(Clone, Copy, Debug, PartialEq, Eq)]
pub struct TicTacToeGame {
    /// The channel the game was opened in.
    pub channel: Address,
    /// The creator, who plays X.
    pub player_x: Address,
    /// The joiner, who plays O; absent until someone joins.
    pub player_o: Option<Address>,
    /// The stake of each player, in the smallest currency unit.
    pub wager: u64,
    /// The nine cells, row by row: `EMPTY`, `MARK_X` or `MARK_O`.
    pub board: [u8; 9],
    /// The number of moves made.
    pub move_count: u8,
    /// The winner; absent while the game runs and after a draw.
    pub winner: Option<Address>,
    /// The phase of the game.
    pub state: TicTacToeState,
    /// When the game was opened, in seconds of Unix time.
    pub created_at: i64,
    /// Whether everything owed has been paid out.
    pub claimed: bool,
    /// Whether X has taken back their stake after a draw.
    pub refunded_x: bool,
    /// Whether O has taken back their stake after a draw.
    pub refunded_o: bool,
    /// The bump seed of the record's address.
    pub bump: u8,
    /// The value the record holds in custody.
    pub custody: u128,
}

/// The marker that fills line `k`, if its three cells hold the same marker.
pub open spec fn line_marker(board: [u8; 9], k: int) -> Option<u8> {
    let line = WIN_PATTERNS[k];
    let a = board[line[0] as int];
    if a != EMPTY && a == board[line[1] as int] && a == board[line[2] as int] {
        Some(a)
    } else {
        None
    }
}

/// The marker of the first complete line among lines `k..8`.
pub open spec fn winner_from(board: [u8; 9], k: int) -> Option<u8>
    decreases 8 - k,
{
    if k < 0 || k >= 8 {
        None
    } else if line_marker(board, k) is Some {
        line_marker(board, k)
    } else {
        winner_from(board, k + 1)
    }
}

/// The marker that has won on `board`: that of the first complete line in
/// the order of `WIN_PATTERNS`, or none where no line is complete.
pub open spec fn winner_of(board: [u8; 9]) -> Option<u8> {
    winner_from(board, 0)
}

/// The cells of every line lie on the board.
pub proof fn lemma_lines_on_board(k: int)
    requires
        0 <= k < 8,
    ensures
        WIN_PATTERNS[k][0] < 9,
        WIN_PATTERNS[k][1] < 9,
        WIN_PATTERNS[k][2] < 9,
{
}

impl TicTacToeGame {
    /// The bytes a stored record takes: a tag of 8 bytes, then every field
    /// at its full size, an optional one with its presence byte.
    pub const SPACE: usize = 8 + 32 + 32 + (1 + 32) + 8 + 9 + 1 + (1 + 32) + 1 + 8 + 1 + 1 + 1
        + 1;

    /// Whether the game still waits for a second player.
    pub fn is_waiting_for_player(&self) -> (r: bool)
        ensures
            r == (self.state == TicTacToeState::WaitingForPlayer),
    {
        self.state == TicTacToeState::WaitingForPlayer
    }

    /// Whether `player` is the one to move: X on X's turn, the joiner on O's.
    pub open spec fn to_move(self, player: Address) -> bool {
        match self.state {
            TicTacToeState::PlayerXTurn => player == self.player_x,
            TicTacToeState::PlayerOTurn => self.player_o == Some(player),
            _ => false,
        }
    }

    /// Whether it is `player`'s turn.
    pub fn is_players_turn(&self, player: &Address) -> (r: bool)
        ensures
            r == self.to_move(*player),
    {
        match self.state {
            TicTacToeState::PlayerXTurn => *player == self.player_x,
            TicTacToeState::PlayerOTurn => self.player_o == Some(*player),
            _ => false,
        }
    }

    /// Whether a move can be made: it is X's turn or O's.
    pub open spec fn in_progress(self) -> bool {
        self.state == TicTacToeState::PlayerXTurn || self.state == TicTacToeState::PlayerOTurn
    }

    /// Whether the game is still being played.
    pub fn is_in_progress(&self) -> (r: bool)
        ensures
            r == self.in_progress(),
    {
        match self.state {
            TicTacToeState::PlayerXTurn | TicTacToeState::PlayerOTurn => true,
            _ => false,
        }
    }

    /// Whether the game has an outcome: a win or a draw.
    pub open spec fn finished(self) -> bool {
        self.state == TicTacToeState::XWins || self.state == TicTacToeState::OWins || self.state
            == TicTacToeState::Draw
    }

    /// Whether the game has ended in a win or a draw.
    pub fn is_finished(&self) -> (r: bool)
        ensures
            r == self.finished(),
    {
        match self.state {
            TicTacToeState::XWins | TicTacToeState::OWins | TicTacToeState::Draw => true,
            _ => false,
        }
    }

    /// Whether `position` is a cell of the board and free.
    pub fn is_valid_move(&self, position: u8) -> (r: bool)
        ensures
            r == (position < 9 && self.board[position as int] == EMPTY),
    {
        position < 9 && self.board[position as usize] == EMPTY
    }

    /// The marker that has completed a line, if any.
    pub fn check_winner(&self) -> (r: Option<u8>)
        ensures
            r == winner_of(self.board),
    {
        let mut k: usize = 0;
        while k < 8
            invariant
                k <= 8,
                winner_of(self.board) == winner_from(self.board, k as int),
            decreases 8 - k,
        {
            proof {
                lemma_lines_on_board(k as int);
            }
            let line = WIN_PATTERNS[k];
            let a = self.board[line[0]];
            if a != EMPTY && a == self.board[line[1]] && a == self.board[line[2]] {
                return Some(a);
            }
            k += 1;
        }
        None
    }

    /// Whether nine moves have been made.
    pub fn is_board_full(&self) -> (r: bool)
        ensures
            r == (self.move_count >= 9),
    {
        self.move_count >= 9
    }

    /// The marker of the player to move, `EMPTY` where nobody is.
    pub open spec fn marker_to_move(self) -> u8 {
        match self.state {
            TicTacToeState::PlayerXTurn => MARK_X,
            TicTacToeState::PlayerOTurn => MARK_O,
            _ => EMPTY,
        }
    }

    /// The marker of the player whose turn it is.
    pub fn current_marker(&self) -> (r: u8)
        ensures
            r == self.marker_to_move(),
    {
        match self.state {
            TicTacToeState::PlayerXTurn => MARK_X,
            TicTacToeState::PlayerOTurn => MARK_O,
            _ => EMPTY,
        }
    }
}


/// The board with `marker` written to cell `position` and every other cell
/// as it was.
pub open spec fn placed(board: [u8; 9], position: int, marker: u8) -> [u8; 9] {
    [
        if position == 0 { marker } else { board[0] },
        if position == 1 { marker } else { board[1] },
        if position == 2 { marker } else { board[2] },
        if position == 3 { marker } else { board[3] },
        if position == 4 { marker } else { board[4] },
        if position == 5 { marker } else { board[5] },
        if position == 6 { marker } else { board[6] },
        if position == 7 { marker } else { board[7] },
        if position == 8 { marker } else { board[8] },
    ]
}

/// 1 where the cell holds `marker`, else 0.
pub open spec fn holds(cell: u8, marker: u8) -> int {
    if cell == marker {
        1
    } else {
        0
    }
}

/// The number of cells of `board` that hold `marker`.
pub open spec fn count_of(board: [u8; 9], marker: u8) -> int {
    holds(board[0], marker) + holds(board[1], marker) + holds(board[2], marker) + holds(
        board[3],
        marker,
    ) + holds(board[4], marker) + holds(board[5], marker) + holds(board[6], marker) + holds(
        board[7],
        marker,
    ) + holds(board[8], marker)
}

impl TicTacToeGame {
    /// The stakes still to be taken back after a draw: one wager for each
    /// player who has not been refunded.
    pub open spec fn unrefunded(self) -> int {
        (if self.refunded_x {
            0int
        } else {
            self.wager as int
        }) + (if self.refunded_o {
            0int
        } else {
            self.wager as int
        })
    }

    /// What the record's custody must be in its phase: one stake while it
    /// waits for a joiner, both stakes while the game runs and until a
    /// winner is paid, after a draw the stakes not yet taken back, nothing
    /// once the winner is paid or the game is cancelled.
    pub open spec fn custody_due(self) -> int {
        match self.state {
            TicTacToeState::WaitingForPlayer => self.wager as int,
            TicTacToeState::PlayerXTurn | TicTacToeState::PlayerOTurn => pot(self.wager),
            TicTacToeState::XWins | TicTacToeState::OWins => if self.claimed {
                0
            } else {
                pot(self.wager)
            },
            TicTacToeState::Draw => self.unrefunded(),
            TicTacToeState::Cancelled => 0,
        }
    }

    /// The invariant of every record that the operations of this module
    /// produce.
    pub open spec fn wf(self) -> bool {
        &&& self.wager >= MIN_WAGER
        &&& self.custody == self.custody_due()
        &&& self.state != TicTacToeState::Draw ==> !self.refunded_x && !self.refunded_o
        &&& self.state == TicTacToeState::Draw ==> (self.claimed <==> self.refunded_x
            && self.refunded_o)
        &&& forall|i: int| 0 <= i < 9 ==> #[trigger] self.board[i] <= MARK_O
        &&& self.move_count == count_of(self.board, MARK_X) + count_of(self.board, MARK_O)
        &&& match self.state {
            TicTacToeState::WaitingForPlayer | TicTacToeState::Cancelled => {
                &&& self.player_o is None
                &&& self.move_count == 0
                &&& self.winner is None
                &&& !self.claimed
            },
            TicTacToeState::PlayerXTurn | TicTacToeState::PlayerOTurn => {
                &&& self.player_o matches Some(joiner)
                &&& joiner != self.player_x
                &&& self.winner is None
                &&& !self.claimed
                &&& winner_of(self.board) is None
                &&& self.move_count < 9
                &&& count_of(self.board, MARK_X) == count_of(self.board, MARK_O) + if self.state
                    == TicTacToeState::PlayerOTurn {
                    1int
                } else {
                    0int
                }
            },
            TicTacToeState::XWins => {
                &&& self.player_o matches Some(joiner)
                &&& joiner != self.player_x
                &&& self.winner == Some(self.player_x)
                &&& winner_of(self.board) == Some(MARK_X)
            },
            TicTacToeState::OWins => {
                &&& self.player_o matches Some(joiner)
                &&& joiner != self.player_x
                &&& self.winner == self.player_o
                &&& winner_of(self.board) == Some(MARK_O)
            },
            TicTacToeState::Draw => {
                &&& self.player_o matches Some(joiner)
                &&& joiner != self.player_x
                &&& self.winner is None
                &&& winner_of(self.board) is None
                &&& self.move_count == 9
            },
        }
    }
}

/// The record of a game that `creator` has just opened: an empty board and
/// one stake in custody.
pub open spec fn opened(creator: Address, channel: Address, wager: u64, created_at: i64, bump: u8)
    -> TicTacToeGame {
    TicTacToeGame {
        channel,
        player_x: creator,
        player_o: None,
        wager,
        board: [EMPTY, EMPTY, EMPTY, EMPTY, EMPTY, EMPTY, EMPTY, EMPTY, EMPTY],
        move_count: 0,
        winner: None,
        state: TicTacToeState::WaitingForPlayer,
        created_at,
        claimed: false,
        refunded_x: false,
        refunded_o: false,
        bump,
        custody: wager as u128,
    }
}

/// No line is complete on a board without markers.
pub proof fn lemma_no_winner_without_markers(board: [u8; 9])
    requires
        count_of(board, MARK_X) + count_of(board, MARK_O) == 0,
        forall|i: int| 0 <= i < 9 ==> #[trigger] board[i] <= MARK_O,
    ensures
        winner_of(board) is None,
{
    reveal_with_fuel(winner_from, 9);
}

/// Opening a game: refused with `InvalidWager` below the minimum stake;
/// otherwise the new record and the creator's deposit of one wager.
pub open spec fn create_step(
    creator: Address,
    channel: Address,
    wager: u64,
    created_at: i64,
    bump: u8,
) -> Result<(TicTacToeGame, Transfer), ArciumMxeError> {
    if wager < MIN_WAGER {
        Err(ArciumMxeError::InvalidWager)
    } else {
        Ok(
            (
                opened(creator, channel, wager, created_at, bump),
                Transfer::Deposit { from: creator, amount: wager },
            ),
        )
    }
}

/// Opens a tic-tac-toe game for `creator`, who plays X, in `channel`. The
/// returned deposit moves the creator's stake into custody.
pub fn create_ttt_game(creator: Address, channel: Address, wager: u64, created_at: i64, bump: u8)
    -> (r: Result<(TicTacToeGame, Transfer), ArciumMxeError>)
    ensures
        r == create_step(creator, channel, wager, created_at, bump),
        r matches Ok((game, _)) ==> game.wf(),
{
    if wager < MIN_WAGER {
        return Err(ArciumMxeError::InvalidWager);
    }
    let game = TicTacToeGame {
        channel,
        player_x: creator,
        player_o: None,
        wager,
        board: [EMPTY, EMPTY, EMPTY, EMPTY, EMPTY, EMPTY, EMPTY, EMPTY, EMPTY],
        move_count: 0,
        winner: None,
        state: TicTacToeState::WaitingForPlayer,
        created_at,
        claimed: false,
        refunded_x: false,
        refunded_o: false,
        bump,
        custody: wager as u128,
    };
    Ok((game, Transfer::Deposit { from: creator, amount: wager }))
}

/// Joining a game. Refused, in this order, with `InvalidGameState` unless
/// the game waits for a player, with `CannotJoinOwnGame` for the creator,
/// and with `Overflow` where custody cannot take a second stake. Otherwise
/// the joiner becomes O, X is to move, and the joiner deposits the creator's
/// wager.
pub open spec fn join_step(game: TicTacToeGame, joiner: Address) -> Result<
    (TicTacToeGame, Transfer),
    ArciumMxeError,
> {
    if game.state != TicTacToeState::WaitingForPlayer {
        Err(ArciumMxeError::InvalidGameState)
    } else if game.player_x == joiner {
        Err(ArciumMxeError::CannotJoinOwnGame)
    } else if game.custody + game.wager > u128::MAX {
        Err(ArciumMxeError::Overflow)
    } else {
        Ok(
            (
                TicTacToeGame {
                    player_o: Some(joiner),
                    state: TicTacToeState::PlayerXTurn,
                    custody: (game.custody + game.wager) as u128,
                    ..game
                },
                Transfer::Deposit { from: joiner, amount: game.wager },
            ),
        )
    }
}

/// Lets `joiner` join `game` as O.
pub fn join_ttt_game(game: &mut TicTacToeGame, joiner: Address) -> (r: Result<
    Transfer,
    ArciumMxeError,
>)
    ensures
        match join_step(*old(game), joiner) {
            Ok((next, transfer)) => r == Ok::<Transfer, ArciumMxeError>(transfer) && *final(game)
                == next,
            Err(e) => r == Err::<Transfer, ArciumMxeError>(e) && *final(game) == *old(game),
        },
        old(game).wf() ==> final(game).wf(),
{
    if !game.is_waiting_for_player() {
        return Err(ArciumMxeError::InvalidGameState);
    }
    if game.player_x == joiner {
        return Err(ArciumMxeError::CannotJoinOwnGame);
    }
    let custody = match credit(game.custody, game.wager) {
        Ok(custody) => custody,
        Err(e) => {
            return Err(e);
        },
    };
    proof {
        if game.wf() {
            lemma_no_winner_without_markers(game.board);
        }
    }
    game.player_o = Some(joiner);
    game.state = TicTacToeState::PlayerXTurn;
    game.custody = custody;
    Ok(Transfer::Deposit { from: joiner, amount: game.wager })
}


/// The record after a move has been placed and counted. In this order: a
/// complete line ends the game for the owner of its marker, X or else O;
/// without one, nine moves make a draw; otherwise the turn passes to the
/// other player.
pub open spec fn concluded(game: TicTacToeGame) -> TicTacToeGame {
    match winner_of(game.board) {
        Some(marker) => if marker == MARK_X {
            TicTacToeGame {
                winner: Some(game.player_x),
                state: TicTacToeState::XWins,
                ..game
            }
        } else {
            TicTacToeGame { winner: game.player_o, state: TicTacToeState::OWins, ..game }
        },
        None => if game.move_count >= 9 {
            TicTacToeGame { state: TicTacToeState::Draw, ..game }
        } else if game.state == TicTacToeState::PlayerXTurn {
            TicTacToeGame { state: TicTacToeState::PlayerOTurn, ..game }
        } else {
            TicTacToeGame { state: TicTacToeState::PlayerXTurn, ..game }
        },
    }
}

/// A move. Refused, in this order, with `GameNotInProgress` unless it is
/// X's turn or O's, with `NotYourTurn` unless the player is the one to
/// move, with `InvalidPosition` for a position above 8, with
/// `PositionOccupied` for a taken cell, and with `Overflow` where the move
/// counter is at its limit. Otherwise the mover's marker is written to the
/// cell, the move is counted, and the game is [`concluded`].
pub open spec fn move_step(game: TicTacToeGame, player: Address, position: u8) -> Result<
    TicTacToeGame,
    ArciumMxeError,
> {
    if !game.in_progress() {
        Err(ArciumMxeError::GameNotInProgress)
    } else if !game.to_move(player) {
        Err(ArciumMxeError::NotYourTurn)
    } else if position >= 9 {
        Err(ArciumMxeError::InvalidPosition)
    } else if game.board[position as int] != EMPTY {
        Err(ArciumMxeError::PositionOccupied)
    } else if game.move_count == u8::MAX {
        Err(ArciumMxeError::Overflow)
    } else {
        Ok(
            concluded(
                TicTacToeGame {
                    board: placed(game.board, position as int, game.marker_to_move()),
                    move_count: (game.move_count + 1) as u8,
                    ..game
                },
            ),
        )
    }
}

/// A complete line on a board of valid cells is X's or O's.
pub proof fn lemma_winner_is_a_marker(board: [u8; 9])
    requires
        forall|i: int| 0 <= i < 9 ==> #[trigger] board[i] <= MARK_O,
    ensures
        winner_of(board) matches Some(marker) ==> marker == MARK_X || marker == MARK_O,
{
    reveal_with_fuel(winner_from, 9);
}

/// Writing a marker to a free cell adds one to the count of that marker and
/// leaves the count of the other as it was.
pub proof fn lemma_placed_counts(board: [u8; 9], position: int, marker: u8)
    requires
        0 <= position < 9,
        board[position] == EMPTY,
        marker == MARK_X || marker == MARK_O,
    ensures
        count_of(placed(board, position, marker), marker) == count_of(board, marker) + 1,
        count_of(placed(board, position, marker), (MARK_X + MARK_O - marker) as u8) == count_of(
            board,
            (MARK_X + MARK_O - marker) as u8,
        ),
        forall|i: int|
            0 <= i < 9 ==> #[trigger] placed(board, position, marker)[i] == if i == position {
                marker
            } else {
                board[i]
            },
{
}

/// A move on a well-formed record gives a well-formed record.
pub proof fn lemma_move_keeps_wf(game: TicTacToeGame, player: Address, position: u8)
    requires
        game.wf(),
        move_step(game, player, position) is Ok,
    ensures
        move_step(game, player, position)->Ok_0.wf(),
{
    let marker = game.marker_to_move();
    let board = placed(game.board, position as int, marker);
    let moved = TicTacToeGame { board, move_count: (game.move_count + 1) as u8, ..game };
    let next = concluded(moved);
    assert(move_step(game, player, position) == Ok::<TicTacToeGame, ArciumMxeError>(next));
    lemma_placed_counts(game.board, position as int, marker);
    assert(forall|i: int| 0 <= i < 9 ==> #[trigger] board[i] <= MARK_O);
    lemma_winner_is_a_marker(board);
    assert(next.board == board);
    assert(next.move_count == game.move_count + 1);
    assert(next.move_count == count_of(board, MARK_X) + count_of(board, MARK_O));
}

/// Places the marker of `player` at `position`, then ends the game on a
/// complete line or a full board, or else passes the turn.
pub fn make_move(game: &mut TicTacToeGame, player: Address, position: u8) -> (r: Result<
    (),
    ArciumMxeError,
>)
    ensures
        match move_step(*old(game), player, position) {
            Ok(next) => r == Ok::<(), ArciumMxeError>(()) && *final(game) == next,
            Err(e) => r == Err::<(), ArciumMxeError>(e) && *final(game) == *old(game),
        },
        old(game).wf() ==> final(game).wf(),
{
    if !game.is_in_progress() {
        return Err(ArciumMxeError::GameNotInProgress);
    }
    if !game.is_players_turn(&player) {
        return Err(ArciumMxeError::NotYourTurn);
    }
    if position >= 9 {
        return Err(ArciumMxeError::InvalidPosition);
    }
    if !game.is_valid_move(position) {
        return Err(ArciumMxeError::PositionOccupied);
    }
    if game.move_count == u8::MAX {
        return Err(ArciumMxeError::Overflow);
    }
    let marker = game.current_marker();
    game.board[position as usize] = marker;
    game.move_count += 1;
    proof {
        assert(game.board =~= placed(old(game).board, position as int, marker));
        if old(game).wf() {
            lemma_move_keeps_wf(*old(game), player, position);
        }
    }
    match game.check_winner() {
        Some(winner_marker) => {
            if winner_marker == MARK_X {
                game.winner = Some(game.player_x);
                game.state = TicTacToeState::XWins;
            } else {
                game.winner = game.player_o;
                game.state = TicTacToeState::OWins;
            }
        },
        None => {
            if game.is_board_full() {
                game.state = TicTacToeState::Draw;
            } else if game.state == TicTacToeState::PlayerXTurn {
                game.state = TicTacToeState::PlayerOTurn;
            } else {
                game.state = TicTacToeState::PlayerXTurn;
            }
        },
    }
    Ok(())
}

/// Claiming after the game has ended. Refused with `GameNotFinished` unless
/// the game is won or drawn, then with `AlreadyClaimed` once everything is
/// paid.
///
/// After a win it is then refused, in this order, with `NotGameWinner`
/// unless the claimer played the winning marker, with `Overflow` where both
/// stakes do not fit in 64 bits, and with `InsufficientFunds` where custody
/// holds less than the pot. Otherwise the whole pot leaves custody for the
/// claimer and the record is marked claimed.
///
/// After a draw it is then refused, in this order, with `NotPlayer` for a
/// claimer who is neither X nor O, with `AlreadyClaimed` for a player who
/// has taken their stake back before, and with `InsufficientFunds` where
/// custody holds less than one wager. Otherwise one wager, the claimer's
/// own, leaves custody for the claimer, the claimer is marked refunded, and
/// the record is marked claimed once both players are.
///
/// Nothing else changes.
pub open spec fn claim_step(game: TicTacToeGame, claimer: Address) -> Result<
    (TicTacToeGame, Transfer),
    ArciumMxeError,
> {
    let is_x = claimer == game.player_x;
    let is_o = game.player_o == Some(claimer);
    if !game.finished() {
        Err(ArciumMxeError::GameNotFinished)
    } else if game.claimed {
        Err(ArciumMxeError::AlreadyClaimed)
    } else if game.state == TicTacToeState::Draw {
        if !is_x && !is_o {
            Err(ArciumMxeError::NotPlayer)
        } else if (is_x && game.refunded_x) || (!is_x && game.refunded_o) {
            Err(ArciumMxeError::AlreadyClaimed)
        } else if game.custody < game.wager {
            Err(ArciumMxeError::InsufficientFunds)
        } else {
            Ok(
                (
                    TicTacToeGame {
                        custody: (game.custody - game.wager) as u128,
                        refunded_x: is_x || game.refunded_x,
                        refunded_o: !is_x || game.refunded_o,
                        claimed: (is_x || game.refunded_x) && (!is_x || game.refunded_o),
                        ..game
                    },
                    Transfer::Payout { to: claimer, amount: game.wager },
                ),
            )
        }
    } else if (game.state == TicTacToeState::XWins && !is_x) || (game.state
        == TicTacToeState::OWins && !is_o) {
        Err(ArciumMxeError::NotGameWinner)
    } else if pot(game.wager) > u64::MAX {
        Err(ArciumMxeError::Overflow)
    } else if game.custody < pot(game.wager) {
        Err(ArciumMxeError::InsufficientFunds)
    } else {
        Ok(
            (
                TicTacToeGame {
                    custody: (game.custody - pot(game.wager)) as u128,
                    claimed: true,
                    ..game
                },
                Transfer::Payout { to: claimer, amount: pot(game.wager) as u64 },
            ),
        )
    }
}

/// Pays `claimer` what the outcome owes them: the pot to the winner, once;
/// after a draw their own wager to each player, once.
pub fn claim_ttt_winnings(game: &mut TicTacToeGame, claimer: Address) -> (r: Result<
    Transfer,
    ArciumMxeError,
>)
    ensures
        match claim_step(*old(game), claimer) {
            Ok((next, transfer)) => r == Ok::<Transfer, ArciumMxeError>(transfer) && *final(game)
                == next,
            Err(e) => r == Err::<Transfer, ArciumMxeError>(e) && *final(game) == *old(game),
        },
        old(game).wf() ==> final(game).wf(),
{
    if !game.is_finished() {
        return Err(ArciumMxeError::GameNotFinished);
    }
    if game.claimed {
        return Err(ArciumMxeError::AlreadyClaimed);
    }
    let is_player_x = claimer == game.player_x;
    let is_player_o = game.player_o == Some(claimer);
    match game.state {
        TicTacToeState::Draw => {
            if !is_player_x && !is_player_o {
                return Err(ArciumMxeError::NotPlayer);
            }
            let refunded = if is_player_x {
                game.refunded_x
            } else {
                game.refunded_o
            };
            if refunded {
                return Err(ArciumMxeError::AlreadyClaimed);
            }
            let rest = match debit(game.custody, game.wager) {
                Ok(rest) => rest,
                Err(e) => {
                    return Err(e);
                },
            };
            game.custody = rest;
            if is_player_x {
                game.refunded_x = true;
            } else {
                game.refunded_o = true;
            }
            game.claimed = game.refunded_x && game.refunded_o;
            Ok(Transfer::Payout { to: claimer, amount: game.wager })
        },
        _ => {
            let entitled = match game.state {
                TicTacToeState::XWins => is_player_x,
                _ => is_player_o,
            };
            if !entitled {
                return Err(ArciumMxeError::NotGameWinner);
            }
            let total = match total_pot(game.wager) {
                Ok(total) => total,
                Err(e) => {
                    return Err(e);
                },
            };
            let rest = match debit(game.custody, total) {
                Ok(rest) => rest,
                Err(e) => {
                    return Err(e);
                },
            };
            game.custody = rest;
            game.claimed = true;
            Ok(Transfer::Payout { to: claimer, amount: total })
        },
    }
}

/// Cancelling a game. Refused, in this order, with `NotGameCreator` unless
/// the caller is the creator, with `GameAlreadyStarted` unless the game
/// still waits for a player, and with `InsufficientFunds` where custody
/// holds less than the wager. Otherwise the creator's stake is refunded in
/// full and the game is cancelled.
pub open spec fn cancel_step(game: TicTacToeGame, caller: Address) -> Result<
    (TicTacToeGame, Transfer),
    ArciumMxeError,
> {
    if game.player_x != caller {
        Err(ArciumMxeError::NotGameCreator)
    } else if game.state != TicTacToeState::WaitingForPlayer {
        Err(ArciumMxeError::GameAlreadyStarted)
    } else if game.custody < game.wager {
        Err(ArciumMxeError::InsufficientFunds)
    } else {
        Ok(
            (
                TicTacToeGame {
                    state: TicTacToeState::Cancelled,
                    custody: (game.custody - game.wager) as u128,
                    ..game
                },
                Transfer::Payout { to: caller, amount: game.wager },
            ),
        )
    }
}

/// Cancels a game that nobody has joined and refunds the creator.
pub fn cancel_ttt_game(game: &mut TicTacToeGame, caller: Address) -> (r: Result<
    Transfer,
    ArciumMxeError,
>)
    ensures
        match cancel_step(*old(game), caller) {
            Ok((next, transfer)) => r == Ok::<Transfer, ArciumMxeError>(transfer) && *final(game)
                == next,
            Err(e) => r == Err::<Transfer, ArciumMxeError>(e) && *final(game) == *old(game),
        },
        old(game).wf() ==> final(game).wf(),
{
    if !(game.player_x == caller) {
        return Err(ArciumMxeError::NotGameCreator);
    }
    if !game.is_waiting_for_player() {
        return Err(ArciumMxeError::GameAlreadyStarted);
    }
    let rest = match debit(game.custody, game.wager) {
        Ok(rest) => rest,
        Err(e) => {
            return Err(e);
        },
    };
    game.custody = rest;
    game.state = TicTacToeState::Cancelled;
    Ok(Transfer::Payout { to: caller, amount: game.wager })
}

} // verus!
