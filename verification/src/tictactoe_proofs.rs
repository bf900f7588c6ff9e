//! What holds of every tic-tac-toe game, proved over the transition
//! functions of [`crate::tictactoe`].

use vstd::prelude::*;
use crate::address::Address;
use crate::error::ArciumMxeError;
use crate::escrow::{pot, Transfer, MIN_WAGER};
use crate::tictactoe::{
    cancel_step, claim_step, count_of, holds, join_step, lemma_move_keeps_wf,
    lemma_no_winner_without_markers, line_marker, move_step, opened, placed, winner_from,
    winner_of, TicTacToeGame, TicTacToeState, EMPTY, MARK_O, MARK_X, WIN_PATTERNS,
};

verus! {

/// One call on an open game, by anyone, with any arguments.
pub enum TicTacToeOp {
    Join { joiner: Address },
    Move { player: Address, position: u8 },
    Claim { claimer: Address },
    Cancel { caller: Address },
}

/// A game together with all that has moved in and out of its custody since
/// it was opened.
pub struct Ledgered {
    pub game: TicTacToeGame,
    /// The sum of all deposits, the creator's included.
    pub deposited: int,
    /// The sum of all payouts, refunds included.
    pub paid: int,
    /// The number of claims that were paid.
    pub claims_paid: int,
}

/// The effect of one call: a refused call changes nothing, an accepted one
/// gives the next record and books its transfer.
pub open spec fn apply(before: Ledgered, op: TicTacToeOp) -> Ledgered {
    let game = before.game;
    match op {
        TicTacToeOp::Join { joiner } => match join_step(game, joiner) {
            Ok((next, transfer)) => Ledgered {
                game: next,
                deposited: before.deposited + transfer.deposited(),
                paid: before.paid + transfer.paid_out(),
                ..before
            },
            Err(_) => before,
        },
        TicTacToeOp::Move { player, position } => match move_step(game, player, position) {
            Ok(next) => Ledgered { game: next, ..before },
            Err(_) => before,
        },
        TicTacToeOp::Claim { claimer } => match claim_step(game, claimer) {
            Ok((next, transfer)) => Ledgered {
                game: next,
                deposited: before.deposited + transfer.deposited(),
                paid: before.paid + transfer.paid_out(),
                claims_paid: before.claims_paid + 1,
            },
            Err(_) => before,
        },
        TicTacToeOp::Cancel { caller } => match cancel_step(game, caller) {
            Ok((next, transfer)) => Ledgered {
                game: next,
                deposited: before.deposited + transfer.deposited(),
                paid: before.paid + transfer.paid_out(),
                ..before
            },
            Err(_) => before,
        },
    }
}

/// The game and its books after the calls `ops`, made in order on a game
/// that was opened with `first`.
pub open spec fn play(first: TicTacToeGame, ops: Seq<TicTacToeOp>) -> Ledgered
    decreases ops.len(),
{
    if ops.len() == 0 {
        Ledgered { game: first, deposited: first.wager as int, paid: 0, claims_paid: 0 }
    } else {
        apply(play(first, ops.drop_last()), ops.last())
    }
}

/// The number of players who have staked: the creator, and the joiner once
/// there is one.
pub open spec fn parties(game: TicTacToeGame) -> int {
    if game.player_o is Some {
        2
    } else {
        1
    }
}

/// Whether the game was won by one of the players.
pub open spec fn won(game: TicTacToeGame) -> bool {
    game.state == TicTacToeState::XWins || game.state == TicTacToeState::OWins
}

/// `count` payments of `amount` each, for the counts that occur.
pub open spec fn times(count: int, amount: int) -> int {
    if count == 0 {
        0
    } else if count == 1 {
        amount
    } else {
        2 * amount
    }
}

/// The number of players who have taken their stake back after a draw.
pub open spec fn refunds(game: TicTacToeGame) -> int {
    (if game.refunded_x {
        1int
    } else {
        0int
    }) + (if game.refunded_o {
        1int
    } else {
        0int
    })
}

/// What the books must show for a well-formed game.
pub open spec fn balanced(l: Ledgered) -> bool {
    &&& l.game.wf()
    &&& l.deposited == times(parties(l.game), l.game.wager as int)
    &&& l.game.custody == l.deposited - l.paid
    &&& 0 <= l.claims_paid <= 2
    &&& l.paid == if l.game.state == TicTacToeState::Cancelled {
        l.game.wager as int
    } else if l.game.state == TicTacToeState::Draw {
        times(l.claims_paid, l.game.wager as int)
    } else {
        times(l.claims_paid, pot(l.game.wager))
    }
    &&& won(l.game) ==> (l.claims_paid == 1 <==> l.game.claimed) && l.claims_paid <= 1
    &&& l.game.state == TicTacToeState::Draw ==> l.claims_paid == refunds(l.game)
    &&& !l.game.finished() ==> l.claims_paid == 0
}

/// One call keeps the books balanced.
pub proof fn lemma_apply_keeps_balance(before: Ledgered, op: TicTacToeOp)
    requires
        balanced(before),
    ensures
        balanced(apply(before, op)),
        apply(before, op).game.wager == before.game.wager,
{
    match op {
        TicTacToeOp::Move { player, position } => {
            if move_step(before.game, player, position) is Ok {
                lemma_move_keeps_wf(before.game, player, position);
            }
        },
        TicTacToeOp::Join { joiner } => {
            if join_step(before.game, joiner) is Ok {
                lemma_no_winner_without_markers(before.game.board);
            }
        },
        _ => {},
    }
}

/// The books of a game that was opened well formed stay balanced.
pub proof fn lemma_play_balanced(first: TicTacToeGame, ops: Seq<TicTacToeOp>)
    requires
        first.wf(),
        first.state == TicTacToeState::WaitingForPlayer,
    ensures
        balanced(play(first, ops)),
        play(first, ops).game.wager == first.wager,
    decreases ops.len(),
{
    if ops.len() > 0 {
        lemma_play_balanced(first, ops.drop_last());
        lemma_apply_keeps_balance(play(first, ops.drop_last()), ops.last());
    }
}

/// Escrow conservation. Whatever calls are made on a game after it was
/// opened, in whatever order and by whomever: the record stays well formed;
/// what it holds in custody is exactly the wager times the number of players
/// who have staked, less what has been paid out; custody is never more than
/// both stakes; and after a win at most one claim is ever paid, of exactly
/// both stakes.
pub proof fn lemma_escrow_conservation(
    creator: Address,
    channel: Address,
    wager: u64,
    created_at: i64,
    bump: u8,
    ops: Seq<TicTacToeOp>,
)
    requires
        wager >= MIN_WAGER,
    ensures
        ({
            let first = opened(creator, channel, wager, created_at, bump);
            let now = play(first, ops);
            &&& now.game.wf()
            &&& now.game.wager == wager
            &&& now.game.custody == times(parties(now.game), wager as int) - now.paid
            &&& 0 <= now.game.custody <= pot(wager)
            &&& 0 <= now.claims_paid <= 2
            &&& won(now.game) ==> now.claims_paid <= 1 && now.paid == times(
                now.claims_paid,
                pot(wager),
            )
            &&& now.game.state == TicTacToeState::Draw ==> now.claims_paid == refunds(now.game)
                && now.paid == times(now.claims_paid, wager as int)
        }),
{
    let first = opened(creator, channel, wager, created_at, bump);
    assert(first.wf());
    lemma_play_balanced(first, ops);
}

/// At-most-once payout. After a win, a claim that is paid pays both stakes
/// to the claimer, who played the winning marker; every claim after it, by
/// anyone, is refused with `AlreadyClaimed` and moves nothing.
pub proof fn lemma_claim_pays_once(game: TicTacToeGame, first: Address, second: Address)
    requires
        won(game),
        claim_step(game, first) is Ok,
    ensures
        ({
            let (paid, transfer) = claim_step(game, first)->Ok_0;
            &&& transfer == Transfer::Payout { to: first, amount: pot(game.wager) as u64 }
            &&& pot(game.wager) <= u64::MAX
            &&& game.state == TicTacToeState::XWins ==> first == game.player_x
            &&& game.state == TicTacToeState::OWins ==> game.player_o == Some(first)
            &&& paid.claimed
            &&& claim_step(paid, second) == Err::<(TicTacToeGame, Transfer), ArciumMxeError>(
                ArciumMxeError::AlreadyClaimed,
            )
        }),
{
}

/// In a game that the operations produced, the player who can claim after a
/// win is the recorded winner, and anybody else, one of the players or not,
/// is refused with `NotGameWinner`. The winner is paid unless both stakes
/// do not fit in 64 bits.
pub proof fn lemma_claimant_is_winner(game: TicTacToeGame, claimer: Address)
    requires
        game.wf(),
        won(game),
        !game.claimed,
    ensures
        game.winner != Some(claimer) ==> claim_step(game, claimer) == Err::<
            (TicTacToeGame, Transfer),
            ArciumMxeError,
        >(ArciumMxeError::NotGameWinner),
        game.winner == Some(claimer) ==> if pot(game.wager) <= u64::MAX {
            claim_step(game, claimer) is Ok
        } else {
            claim_step(game, claimer) == Err::<(TicTacToeGame, Transfer), ArciumMxeError>(
                ArciumMxeError::Overflow,
            )
        },
{
}

/// After a draw each player takes back their own wager, in either order:
/// each of the two claims pays exactly one wager to its claimer, the second
/// clears custody and marks the record claimed, and any claim after that is
/// refused with `AlreadyClaimed`.
pub proof fn lemma_draw_refunds(game: TicTacToeGame, first: Address, second: Address, third: Address)
    requires
        game.wf(),
        game.state == TicTacToeState::Draw,
        !game.refunded_x,
        !game.refunded_o,
        first == game.player_x || game.player_o == Some(first),
        second == game.player_x || game.player_o == Some(second),
        first != second,
    ensures
        ({
            let one = claim_step(game, first);
            let two = claim_step(one->Ok_0.0, second);
            &&& game.custody == pot(game.wager)
            &&& one is Ok
            &&& one->Ok_0.1 == Transfer::Payout { to: first, amount: game.wager }
            &&& one->Ok_0.0.custody == game.wager
            &&& !one->Ok_0.0.claimed
            &&& two is Ok
            &&& two->Ok_0.1 == Transfer::Payout { to: second, amount: game.wager }
            &&& two->Ok_0.0.custody == 0
            &&& two->Ok_0.0.claimed
            &&& claim_step(two->Ok_0.0, third) == Err::<(TicTacToeGame, Transfer), ArciumMxeError>(
                ArciumMxeError::AlreadyClaimed,
            )
        }),
{
}

/// After a draw no player takes the other's stake. A player who has been
/// refunded is refused with `AlreadyClaimed` on every further claim, which
/// moves nothing: what is left in custody is the other player's wager, and
/// only the other player can take it. Someone who is neither player is
/// refused with `NotPlayer` while anything is left.
pub proof fn lemma_draw_refund_is_own_share(game: TicTacToeGame, claimer: Address, other: Address)
    requires
        game.wf(),
        game.state == TicTacToeState::Draw,
        claim_step(game, claimer) is Ok,
    ensures
        ({
            let (paid, transfer) = claim_step(game, claimer)->Ok_0;
            let is_x = claimer == game.player_x;
            &&& transfer == Transfer::Payout { to: claimer, amount: game.wager }
            &&& paid.custody == game.custody - game.wager
            &&& paid.custody == paid.unrefunded()
            &&& if is_x {
                !game.refunded_x && paid.refunded_x && paid.refunded_o == game.refunded_o
            } else {
                game.player_o == Some(claimer) && !game.refunded_o && paid.refunded_o
                    && paid.refunded_x == game.refunded_x
            }
            &&& claim_step(paid, claimer) == Err::<(TicTacToeGame, Transfer), ArciumMxeError>(
                ArciumMxeError::AlreadyClaimed,
            )
            &&& claim_step(paid, other) is Ok ==> other != claimer && (other == game.player_x
                || game.player_o == Some(other))
            &&& !paid.claimed && other != game.player_x && game.player_o != Some(other)
                ==> claim_step(paid, other) == Err::<(TicTacToeGame, Transfer), ArciumMxeError>(
                ArciumMxeError::NotPlayer,
            )
        }),
{
}

/// Whether the three cells of line `k` all hold `marker`.
pub open spec fn line_filled(board: [u8; 9], k: int, marker: u8) -> bool {
    &&& board[WIN_PATTERNS[k][0] as int] == marker
    &&& board[WIN_PATTERNS[k][1] as int] == marker
    &&& board[WIN_PATTERNS[k][2] as int] == marker
}

/// A marker is reported as the winner only if it fills a line, and no
/// winner is reported only if no marker fills any line.
pub proof fn lemma_winner_fills_a_line(board: [u8; 9])
    ensures
        winner_of(board) matches Some(marker) ==> marker != EMPTY && exists|k: int|
            0 <= k < 8 && #[trigger] line_filled(board, k, marker),
        winner_of(board) is None ==> forall|k: int, marker: u8|
            0 <= k < 8 && marker != EMPTY ==> !#[trigger] line_filled(board, k, marker),
{
    reveal_with_fuel(winner_from, 9);
    if winner_of(board) is Some {
        let marker = winner_of(board)->0;
        let k = if line_marker(board, 0) is Some {
            0int
        } else if line_marker(board, 1) is Some {
            1int
        } else if line_marker(board, 2) is Some {
            2int
        } else if line_marker(board, 3) is Some {
            3int
        } else if line_marker(board, 4) is Some {
            4int
        } else if line_marker(board, 5) is Some {
            5int
        } else if line_marker(board, 6) is Some {
            6int
        } else {
            7int
        };
        assert(line_filled(board, k, marker));
    } else {
        assert forall|k: int, marker: u8| 0 <= k < 8 && marker != EMPTY implies !#[trigger] line_filled(
            board,
            k,
            marker,
        ) by {
            assert(line_marker(board, k) is None);
        }
    }
}

/// Each of the eight lines wins: where one marker fills line `k` and the
/// other marker fills no line, that marker is the winner.
pub proof fn lemma_filled_line_wins(board: [u8; 9], k: int, marker: u8)
    requires
        0 <= k < 8,
        marker != EMPTY,
        line_filled(board, k, marker),
        forall|j: int, other: u8|
            0 <= j < 8 && other != EMPTY && other != marker ==> !#[trigger] line_filled(
                board,
                j,
                other,
            ),
    ensures
        winner_of(board) == Some(marker),
{
    assert(line_marker(board, k) == Some(marker));
    lemma_winner_fills_a_line(board);
    if winner_of(board) is Some {
        let found = winner_of(board)->0;
        let j = choose|j: int| 0 <= j < 8 && #[trigger] line_filled(board, j, found);
        assert(line_filled(board, j, found));
    } else {
        assert(!line_filled(board, k, marker));
    }
}

/// A move that completes a line wins the game for the mover: where the
/// mover's marker fills line `k` once it is placed, the game ends with X
/// winning if X moved and O winning if O moved, and the mover is recorded as
/// the winner.
pub proof fn lemma_completing_move_wins(
    game: TicTacToeGame,
    player: Address,
    position: u8,
    k: int,
)
    requires
        game.wf(),
        move_step(game, player, position) is Ok,
        0 <= k < 8,
        line_filled(placed(game.board, position as int, game.marker_to_move()), k, game.marker_to_move()),
    ensures
        ({
            let next = move_step(game, player, position)->Ok_0;
            &&& next.winner == Some(player)
            &&& next.state == if game.state == TicTacToeState::PlayerXTurn {
                TicTacToeState::XWins
            } else {
                TicTacToeState::OWins
            }
            &&& next.board == placed(game.board, position as int, game.marker_to_move())
            &&& next.custody == game.custody
        }),
{
    let marker = game.marker_to_move();
    let board = placed(game.board, position as int, marker);
    lemma_winner_fills_a_line(game.board);
    assert forall|j: int, other: u8|
        0 <= j < 8 && other != EMPTY && other != marker implies !#[trigger] line_filled(
        board,
        j,
        other,
    ) by {
        if line_filled(board, j, other) {
            assert(line_filled(game.board, j, other));
        }
    }
    lemma_filled_line_wins(board, k, marker);
}

/// A move that fills the board without completing a line ends the game in a
/// draw with no winner; a move after which no line is complete and a cell
/// is still free passes the turn to the other player.
pub proof fn lemma_move_without_line(game: TicTacToeGame, player: Address, position: u8)
    requires
        game.wf(),
        move_step(game, player, position) is Ok,
        winner_of(placed(game.board, position as int, game.marker_to_move())) is None,
    ensures
        ({
            let next = move_step(game, player, position)->Ok_0;
            let full = forall|i: int| 0 <= i < 9 ==> #[trigger] next.board[i] != EMPTY;
            &&& next.winner is None
            &&& full ==> next.state == TicTacToeState::Draw
            &&& !full ==> next.state == if game.state == TicTacToeState::PlayerXTurn {
                TicTacToeState::PlayerOTurn
            } else {
                TicTacToeState::PlayerXTurn
            }
        }),
{
    lemma_move_keeps_wf(game, player, position);
    let next = move_step(game, player, position)->Ok_0;
    lemma_count_full(next.board);
}

/// 1 where the cell is taken, else 0.
pub open spec fn taken(cell: u8) -> int {
    if cell != EMPTY {
        1
    } else {
        0
    }
}

/// Nine numbers that are each 0 or 1 add up to nine exactly when each is 1.
proof fn lemma_nine_ones(t: Seq<int>)
    requires
        t.len() == 9,
        forall|i: int| 0 <= i < 9 ==> 0 <= #[trigger] t[i] <= 1,
    ensures
        t[0] + t[1] + t[2] + t[3] + t[4] + t[5] + t[6] + t[7] + t[8] <= 9,
        t[0] + t[1] + t[2] + t[3] + t[4] + t[5] + t[6] + t[7] + t[8] == 9 <==> forall|i: int|
            0 <= i < 9 ==> #[trigger] t[i] == 1,
{
    assert(0 <= t[0] <= 1 && 0 <= t[1] <= 1 && 0 <= t[2] <= 1 && 0 <= t[3] <= 1 && 0 <= t[4] <= 1
        && 0 <= t[5] <= 1 && 0 <= t[6] <= 1 && 0 <= t[7] <= 1 && 0 <= t[8] <= 1);
}

/// On a board of valid cells, nine markers are placed exactly when no cell
/// is free.
pub proof fn lemma_count_full(board: [u8; 9])
    requires
        forall|i: int| 0 <= i < 9 ==> #[trigger] board[i] <= MARK_O,
    ensures
        count_of(board, MARK_X) + count_of(board, MARK_O) == 9 <==> forall|i: int|
            0 <= i < 9 ==> #[trigger] board[i] != EMPTY,
        count_of(board, MARK_X) + count_of(board, MARK_O) <= 9,
{
    let t = Seq::new(9, |i: int| taken(board[i]));
    assert forall|i: int| 0 <= i < 9 implies holds(#[trigger] board[i], MARK_X) + holds(
        board[i],
        MARK_O,
    ) == t[i] by {
        assert(board[i] <= MARK_O);
    }
    lemma_nine_ones(t);
    assert(count_of(board, MARK_X) + count_of(board, MARK_O) == t[0] + t[1] + t[2] + t[3] + t[4]
        + t[5] + t[6] + t[7] + t[8]);
    assert((forall|i: int| 0 <= i < 9 ==> #[trigger] t[i] == 1) <==> (forall|i: int|
        0 <= i < 9 ==> #[trigger] board[i] != EMPTY)) by {
        if forall|i: int| 0 <= i < 9 ==> #[trigger] t[i] == 1 {
            assert forall|i: int| 0 <= i < 9 implies #[trigger] board[i] != EMPTY by {
                assert(t[i] == 1);
            }
        }
        if forall|i: int| 0 <= i < 9 ==> #[trigger] board[i] != EMPTY {
            assert forall|i: int| 0 <= i < 9 implies #[trigger] t[i] == 1 by {
                assert(board[i] != EMPTY);
            }
        }
    }
}

/// Turn alternation. A move by anyone but the player to move is refused and
/// so changes nothing: with `NotYourTurn` while the game runs, with
/// `GameNotInProgress` otherwise. After an accepted move that does not end
/// the game, the mover is not the one to move.
pub proof fn lemma_turns_alternate(game: TicTacToeGame, player: Address, position: u8)
    ensures
        !game.to_move(player) ==> move_step(game, player, position) == Err::<
            TicTacToeGame,
            ArciumMxeError,
        >(
            if game.in_progress() {
                ArciumMxeError::NotYourTurn
            } else {
                ArciumMxeError::GameNotInProgress
            },
        ),
        game.wf() && move_step(game, player, position) is Ok ==> !move_step(
            game,
            player,
            position,
        )->Ok_0.to_move(player),
{
}

/// A cell, once taken, never changes: an accepted move writes the mover's
/// marker to one free cell and leaves every other cell as it was, and no
/// other operation touches the board.
pub proof fn lemma_cells_stay(game: TicTacToeGame, party: Address, position: u8)
    ensures
        move_step(game, party, position) matches Ok(next) ==> {
            &&& game.board[position as int] == EMPTY
            &&& next.board[position as int] == game.marker_to_move()
            &&& forall|i: int| 0 <= i < 9 && i != position ==> #[trigger] next.board[i] == game.board[i]
        },
        join_step(game, party) matches Ok((next, _)) ==> next.board == game.board,
        claim_step(game, party) matches Ok((next, _)) ==> next.board == game.board,
        cancel_step(game, party) matches Ok((next, _)) ==> next.board == game.board,
{
}

/// Settlement moves value and sets `claimed` and the refund marks, and
/// nothing else: a paid claim and a cancellation leave the players, the
/// board, the move count, the outcome and the winner as they were.
pub proof fn lemma_settlement_keeps_outcome(game: TicTacToeGame, party: Address)
    ensures
        claim_step(game, party) matches Ok((next, _)) ==> next == (TicTacToeGame {
            claimed: next.claimed,
            refunded_x: next.refunded_x,
            refunded_o: next.refunded_o,
            custody: next.custody,
            ..game
        }),
        cancel_step(game, party) matches Ok((next, _)) ==> next == (TicTacToeGame {
            state: TicTacToeState::Cancelled,
            custody: next.custody,
            ..game
        }),
{
}

/// A cancelled game takes no further call: whatever is called, nothing
/// changes and nothing moves.
pub proof fn lemma_cancelled_is_final(game: TicTacToeGame, op: TicTacToeOp)
    requires
        game.state == TicTacToeState::Cancelled,
    ensures
        ({
            let before = Ledgered { game, deposited: 0, paid: 0, claims_paid: 0 };
            apply(before, op) == before
        }),
{
}


/// What is set stays set. Whatever is called on a game: a taken cell is
/// never written again, `claimed` and the two refund marks never go back to
/// false, and the wager and the creator never change. In a game that the operations produced,
/// the joiner and the winner, once set, stay too, and an outcome, once
/// reached, is never left.
pub proof fn lemma_set_once(game: TicTacToeGame, op: TicTacToeOp)
    ensures
        ({
            let after = apply(Ledgered { game, deposited: 0, paid: 0, claims_paid: 0 }, op).game;
            &&& forall|i: int|
                0 <= i < 9 && game.board[i] != EMPTY ==> #[trigger] after.board[i] == game.board[i]
            &&& game.claimed ==> after.claimed
            &&& game.refunded_x ==> after.refunded_x
            &&& game.refunded_o ==> after.refunded_o
            &&& after.wager == game.wager
            &&& after.player_x == game.player_x
            &&& after.channel == game.channel
            &&& after.created_at == game.created_at
            &&& game.wf() && game.player_o is Some ==> after.player_o == game.player_o
            &&& game.wf() && game.winner is Some ==> after.winner == game.winner
            &&& game.finished() ==> after.state == game.state
        }),
{
}


/// The game and its books after `claimers` have each tried to claim, in
/// order, starting from books that show nothing paid.
pub open spec fn claim_all(game: TicTacToeGame, claimers: Seq<Address>) -> Ledgered
    decreases claimers.len(),
{
    if claimers.len() == 0 {
        Ledgered { game, deposited: 0, paid: 0, claims_paid: 0 }
    } else {
        apply(
            claim_all(game, claimers.drop_last()),
            TicTacToeOp::Claim { claimer: claimers.last() },
        )
    }
}

/// At-most-once payout, for any won game and any sequence of claim
/// attempts: at most one of them is paid, it pays exactly both stakes, and
/// the attempts change nothing in the record but `claimed` and custody.
pub proof fn lemma_claims_pay_at_most_once(game: TicTacToeGame, claimers: Seq<Address>)
    requires
        won(game),
    ensures
        ({
            let after = claim_all(game, claimers);
            &&& after.claims_paid == 0 || after.claims_paid == 1
            &&& after.claims_paid == 0 ==> after.paid == 0 && after.game == game
            &&& after.claims_paid == 1 ==> {
                &&& after.paid == pot(game.wager)
                &&& !game.claimed
                &&& after.game == (TicTacToeGame {
                    claimed: true,
                    custody: (game.custody - pot(game.wager)) as u128,
                    ..game
                })
            }
        }),
    decreases claimers.len(),
{
    if claimers.len() > 0 {
        lemma_claims_pay_at_most_once(game, claimers.drop_last());
    }
}


/// Every game ends. An accepted move is counted, a running game has made
/// fewer than nine moves, and a move that does not leave the game running
/// ends it in a win or a draw: no game takes more than nine moves.
pub proof fn lemma_game_ends(game: TicTacToeGame, player: Address, position: u8)
    requires
        game.wf(),
        move_step(game, player, position) is Ok,
    ensures
        ({
            let next = move_step(game, player, position)->Ok_0;
            &&& game.move_count < 9
            &&& next.move_count == game.move_count + 1
            &&& next.in_progress() || next.finished()
            &&& next.in_progress() ==> next.move_count < 9
        }),
{
    lemma_move_keeps_wf(game, player, position);
}


/// Joining always works on an open game. Whoever but the creator joins a
/// game that the operations produced and that waits for a player is
/// accepted, whatever the wager: the joiner deposits exactly one wager,
/// custody holds exactly two, X is to move, the joiner is recorded as O,
/// and nothing else changes: the board is empty and no move is counted.
pub proof fn lemma_join_doubles_custody(game: TicTacToeGame, joiner: Address)
    requires
        game.wf(),
        game.state == TicTacToeState::WaitingForPlayer,
        joiner != game.player_x,
    ensures
        game.custody == game.wager,
        game.move_count == 0,
        forall|i: int| 0 <= i < 9 ==> #[trigger] game.board[i] == EMPTY,
        join_step(game, joiner) == Ok::<(TicTacToeGame, Transfer), ArciumMxeError>(
            (
                TicTacToeGame {
                    player_o: Some(joiner),
                    state: TicTacToeState::PlayerXTurn,
                    custody: pot(game.wager) as u128,
                    ..game
                },
                Transfer::Deposit { from: joiner, amount: game.wager },
            ),
        ),
{
    assert forall|i: int| 0 <= i < 9 implies #[trigger] game.board[i] == EMPTY by {
        assert(game.board[i] <= MARK_O);
    }
}

} // verus!
