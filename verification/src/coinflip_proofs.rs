//! What holds of every coinflip game, proved over the transition functions
//! of [`crate::coinflip`].

use vstd::prelude::*;
use crate::address::Address;
use crate::coinflip::{
    cancel_step, claim_step, join_step, opened, reveal_step, CoinflipGame, GameState,
};
use crate::commitment::commitment_of;
use crate::error::ArciumMxeError;
use crate::escrow::{pot, Transfer, MIN_WAGER};

verus! {

/// One call on an open game, by anyone, with any arguments.
pub enum CoinflipOp {
    Join { joiner: Address, commitment: [u8; 32] },
    Reveal { revealer: Address, choice: u8, nonce: [u8; 32] },
    Claim { claimer: Address },
    Cancel { caller: Address },
}

/// A game together with all that has moved in and out of its custody since
/// it was opened.
pub struct Ledgered {
    pub game: CoinflipGame,
    /// The sum of all deposits, the creator's included.
    pub deposited: int,
    /// The sum of all payouts, refunds included.
    pub paid: int,
    /// The number of claims that were paid.
    pub claims_paid: int,
}

/// The effect of one call: a refused call changes nothing, an accepted one
/// gives the next record and books its transfer.
pub open spec fn apply(before: Ledgered, op: CoinflipOp) -> Ledgered {
    let game = before.game;
    match op {
        CoinflipOp::Join { joiner, commitment } => match join_step(game, joiner, commitment) {
            Ok((next, transfer)) => Ledgered {
                game: next,
                deposited: before.deposited + transfer.deposited(),
                paid: before.paid + transfer.paid_out(),
                ..before
            },
            Err(_) => before,
        },
        CoinflipOp::Reveal { revealer, choice, nonce } => match reveal_step(
            game,
            revealer,
            choice,
            nonce,
        ) {
            Ok(next) => Ledgered { game: next, ..before },
            Err(_) => before,
        },
        CoinflipOp::Claim { claimer } => match claim_step(game, claimer) {
            Ok((next, transfer)) => Ledgered {
                game: next,
                deposited: before.deposited + transfer.deposited(),
                paid: before.paid + transfer.paid_out(),
                claims_paid: before.claims_paid + 1,
            },
            Err(_) => before,
        },
        CoinflipOp::Cancel { caller } => match cancel_step(game, caller) {
            Ok((next, transfer)) => Ledgered {
                game: next,
                deposited: before.deposited + transfer.deposited(),
                paid: before.paid + transfer.paid_out(),
                ..before
            },
            Err(_) => before,
        },
    }
}

/// The game and its books after the calls `ops`, made in order on a game
/// that was opened with `first`.
pub open spec fn play(first: CoinflipGame, ops: Seq<CoinflipOp>) -> Ledgered
    decreases ops.len(),
{
    if ops.len() == 0 {
        Ledgered { game: first, deposited: first.wager as int, paid: 0, claims_paid: 0 }
    } else {
        apply(play(first, ops.drop_last()), ops.last())
    }
}

/// The number of players who have staked: the creator, and the joiner once
/// there is one.
pub open spec fn parties(game: CoinflipGame) -> int {
    if game.player_b is Some {
        2
    } else {
        1
    }
}

/// What the books must show for a well-formed game.
pub open spec fn balanced(l: Ledgered) -> bool {
    &&& l.game.wf()
    &&& l.deposited == l.game.wager * parties(l.game)
    &&& l.game.custody == l.deposited - l.paid
    &&& 0 <= l.claims_paid <= 1
    &&& l.claims_paid == 1 <==> l.game.claimed
    &&& l.paid == if l.game.state == GameState::Cancelled {
        l.game.wager as int
    } else if l.game.claimed {
        pot(l.game.wager)
    } else {
        0
    }
}

/// One call keeps the books balanced.
pub proof fn lemma_apply_keeps_balance(before: Ledgered, op: CoinflipOp)
    requires
        balanced(before),
    ensures
        balanced(apply(before, op)),
        apply(before, op).game.wager == before.game.wager,
{
}

/// Escrow conservation. Whatever calls are made on a game after it was
/// opened, in whatever order and by whomever: the record stays well formed;
/// what it holds in custody is exactly the wager times the number of players
/// who have staked, less what has been paid out; custody is never more than
/// both stakes; and at most one claim is ever paid, of exactly both stakes.
pub proof fn lemma_escrow_conservation(
    creator: Address,
    channel: Address,
    wager: u64,
    commitment: [u8; 32],
    created_at: i64,
    bump: u8,
    ops: Seq<CoinflipOp>,
)
    requires
        wager >= MIN_WAGER,
    ensures
        ({
            let first = opened(creator, channel, wager, commitment, created_at, bump);
            let now = play(first, ops);
            &&& now.game.wf()
            &&& now.game.wager == wager
            &&& now.game.custody == wager * parties(now.game) - now.paid
            &&& 0 <= now.game.custody <= pot(wager)
            &&& now.claims_paid <= 1
            &&& now.claims_paid == 1 ==> now.paid == pot(wager)
        }),
{
    let first = opened(creator, channel, wager, commitment, created_at, bump);
    lemma_play_balanced(first, ops);
}

/// The books of a game that was opened well formed stay balanced.
pub proof fn lemma_play_balanced(first: CoinflipGame, ops: Seq<CoinflipOp>)
    requires
        first.wf(),
        first.state == GameState::WaitingForPlayer,
    ensures
        balanced(play(first, ops)),
        play(first, ops).game.wager == first.wager,
    decreases ops.len(),
{
    if ops.len() > 0 {
        lemma_play_balanced(first, ops.drop_last());
        lemma_apply_keeps_balance(play(first, ops.drop_last()), ops.last());
    }
}

/// At-most-once payout. A claim that is paid pays both stakes to the
/// claimer, who is the winner; every claim after it is refused and moves
/// nothing: with `AlreadyClaimed` for the winner, with `NotGameWinner` for
/// anyone else.
pub proof fn lemma_claim_pays_once(game: CoinflipGame, first: Address, second: Address)
    requires
        claim_step(game, first) is Ok,
    ensures
        ({
            let (paid, transfer) = claim_step(game, first)->Ok_0;
            &&& transfer == Transfer::Payout { to: first, amount: pot(game.wager) as u64 }
            &&& pot(game.wager) <= u64::MAX
            &&& game.winner == Some(first)
            &&& paid.claimed
            &&& claim_step(paid, second) == Err::<(CoinflipGame, Transfer), ArciumMxeError>(
                if second == first {
                    ArciumMxeError::AlreadyClaimed
                } else {
                    ArciumMxeError::NotGameWinner
                },
            )
        }),
{
}

/// Once a game is claimed, no claim is accepted again, whatever else is
/// called in between.
pub proof fn lemma_claimed_stays_claimed(game: CoinflipGame, op: CoinflipOp, claimer: Address)
    requires
        game.state == GameState::Completed,
        game.claimed,
    ensures
        ({
            let after = apply(
                Ledgered { game, deposited: 0, paid: 0, claims_paid: 0 },
                op,
            );
            &&& after.game == game
            &&& after.paid == 0
            &&& claim_step(after.game, claimer) is Err
        }),
{
}

/// Coinflip fairness. With both choices revealed, the creator wins exactly
/// when the two choices are equal and the joiner exactly when they differ.
pub proof fn lemma_fair_winner(game: CoinflipGame, choice_a: u8, choice_b: u8, joiner: Address)
    requires
        game.choice_a == Some(choice_a),
        game.choice_b == Some(choice_b),
        game.player_b == Some(joiner),
        joiner != game.player_a,
    ensures
        game.winner_by_rule() == Some(game.player_a) <==> choice_a == choice_b,
        game.winner_by_rule() == Some(joiner) <==> choice_a != choice_b,
{
}

/// The winner of a completed game that the operations produced is the one
/// the rule names, for each of the four pairs of choices.
pub proof fn lemma_completed_winner(game: CoinflipGame)
    requires
        game.wf(),
        game.state == GameState::Completed,
    ensures
        game.choice_a is Some,
        game.choice_b is Some,
        game.player_b is Some,
        game.choice_a->0 <= 1,
        game.choice_b->0 <= 1,
        game.winner == if game.choice_a->0 == game.choice_b->0 {
            Some(game.player_a)
        } else {
            game.player_b
        },
        game.winner != Some(game.player_a) <==> game.winner == game.player_b,
{
}

/// The order of the two reveals does not matter: the creator first and the
/// joiner second gives the same record as the joiner first and the creator
/// second.
pub proof fn lemma_reveal_order(
    game: CoinflipGame,
    choice_a: u8,
    nonce_a: [u8; 32],
    choice_b: u8,
    nonce_b: [u8; 32],
)
    requires
        game.wf(),
        game.state == GameState::WaitingForReveal,
        game.choice_a is None,
        game.choice_b is None,
        reveal_step(game, game.player_a, choice_a, nonce_a) is Ok,
        reveal_step(game, game.player_b->0, choice_b, nonce_b) is Ok,
    ensures
        ({
            let a_first = reveal_step(game, game.player_a, choice_a, nonce_a)->Ok_0;
            let b_first = reveal_step(game, game.player_b->0, choice_b, nonce_b)->Ok_0;
            let a_then_b = reveal_step(a_first, game.player_b->0, choice_b, nonce_b);
            let b_then_a = reveal_step(b_first, game.player_a, choice_a, nonce_a);
            &&& a_then_b is Ok
            &&& a_then_b == b_then_a
            &&& a_then_b->Ok_0.state == GameState::Completed
        }),
{
}

/// A reveal is accepted only for the choice and nonce that the commitment
/// was made from, and writes only the revealer's own choice and nonce: the
/// other player's, both commitments, the players, the wager and custody stay
/// as they were.
pub proof fn lemma_reveal_touches_own_fields(
    game: CoinflipGame,
    revealer: Address,
    choice: u8,
    nonce: [u8; 32],
)
    requires
        reveal_step(game, revealer, choice, nonce) is Ok,
    ensures
        ({
            let next = reveal_step(game, revealer, choice, nonce)->Ok_0;
            &&& choice <= 1
            &&& next.player_a == game.player_a
            &&& next.player_b == game.player_b
            &&& next.wager == game.wager
            &&& next.custody == game.custody
            &&& next.claimed == game.claimed
            &&& next.commitment_a == game.commitment_a
            &&& next.commitment_b == game.commitment_b
            &&& if revealer == game.player_a {
                &&& game.choice_a is None
                &&& game.commitment_a@ == commitment_of(choice, nonce@)
                &&& next.choice_a == Some(choice)
                &&& next.nonce_a == Some(nonce)
                &&& next.choice_b == game.choice_b
                &&& next.nonce_b == game.nonce_b
            } else {
                &&& game.choice_b is None
                &&& game.player_b == Some(revealer)
                &&& game.commitment_b is Some
                &&& game.commitment_b->0@ == commitment_of(choice, nonce@)
                &&& next.choice_b == Some(choice)
                &&& next.nonce_b == Some(nonce)
                &&& next.choice_a == game.choice_a
                &&& next.nonce_a == game.nonce_a
            }
        }),
{
}

/// Settlement moves value and sets `claimed`, and nothing else: a paid claim
/// and a cancellation leave the players, commitments, choices, nonces and
/// winner as they were.
pub proof fn lemma_settlement_keeps_outcome(game: CoinflipGame, party: Address)
    ensures
        claim_step(game, party) matches Ok((next, _)) ==> next == (CoinflipGame {
            claimed: true,
            custody: next.custody,
            ..game
        }),
        cancel_step(game, party) matches Ok((next, _)) ==> next == (CoinflipGame {
            state: GameState::Cancelled,
            custody: next.custody,
            ..game
        }),
{
}

/// A cancelled game takes no further call: whatever is called, nothing
/// changes and nothing moves; a join in particular is refused with
/// `InvalidGameState`.
pub proof fn lemma_cancelled_is_final(game: CoinflipGame, op: CoinflipOp)
    requires
        game.state == GameState::Cancelled,
    ensures
        ({
            let before = Ledgered { game, deposited: 0, paid: 0, claims_paid: 0 };
            apply(before, op) == before
        }),
        forall|joiner: Address, commitment: [u8; 32]|
            #[trigger] join_step(game, joiner, commitment) == Err::<
                (CoinflipGame, Transfer),
                ArciumMxeError,
            >(ArciumMxeError::InvalidGameState),
{
}


/// What is set stays set. Whatever is called on a game: a revealed choice
/// and nonce are never written again, `claimed` never goes back to false,
/// the wager, the creator and the creator's commitment never change, and a
/// joiner, once there, stays. In a game that the operations produced, the
/// winner, once set, stays too.
pub proof fn lemma_set_once(game: CoinflipGame, op: CoinflipOp)
    ensures
        ({
            let after = apply(Ledgered { game, deposited: 0, paid: 0, claims_paid: 0 }, op).game;
            &&& game.choice_a is Some ==> after.choice_a == game.choice_a && after.nonce_a
                == game.nonce_a
            &&& game.choice_b is Some ==> after.choice_b == game.choice_b && after.nonce_b
                == game.nonce_b
            &&& game.claimed ==> after.claimed
            &&& after.wager == game.wager
            &&& after.player_a == game.player_a
            &&& after.commitment_a == game.commitment_a
            &&& after.channel == game.channel
            &&& after.created_at == game.created_at
            &&& game.wf() && game.player_b is Some ==> after.player_b == game.player_b
                && after.commitment_b == game.commitment_b
            &&& game.wf() && game.winner is Some ==> after.winner == game.winner
        }),
{
}


/// The game and its books after `claimers` have each tried to claim, in
/// order, starting from books that show nothing paid.
pub open spec fn claim_all(game: CoinflipGame, claimers: Seq<Address>) -> Ledgered
    decreases claimers.len(),
{
    if claimers.len() == 0 {
        Ledgered { game, deposited: 0, paid: 0, claims_paid: 0 }
    } else {
        apply(
            claim_all(game, claimers.drop_last()),
            CoinflipOp::Claim { claimer: claimers.last() },
        )
    }
}

/// At-most-once payout, for any record and any sequence of claim attempts:
/// at most one of them is paid, it pays exactly both stakes, and the
/// attempts change nothing in the record but `claimed` and custody.
pub proof fn lemma_claims_pay_at_most_once(game: CoinflipGame, claimers: Seq<Address>)
    ensures
        ({
            let after = claim_all(game, claimers);
            &&& after.claims_paid == 0 || after.claims_paid == 1
            &&& after.claims_paid == 0 ==> after.paid == 0 && after.game == game
            &&& after.claims_paid == 1 ==> {
                &&& after.paid == pot(game.wager)
                &&& !game.claimed
                &&& after.game == (CoinflipGame {
                    claimed: true,
                    custody: (game.custody - pot(game.wager)) as u128,
                    ..game
                })
            }
        }),
    decreases claimers.len(),
{
    if claimers.len() > 0 {
        lemma_claims_pay_at_most_once(game, claimers.drop_last());
    }
}


/// Joining always works on an open game. Whoever but the creator joins a
/// game that the operations produced and that waits for a player is
/// accepted, whatever the wager: the joiner deposits exactly one wager,
/// custody holds exactly two, reveals are awaited, the joiner and the
/// joiner's commitment are recorded, and nothing else changes.
pub proof fn lemma_join_doubles_custody(game: CoinflipGame, joiner: Address, commitment: [u8; 32])
    requires
        game.wf(),
        game.state == GameState::WaitingForPlayer,
        joiner != game.player_a,
    ensures
        game.custody == game.wager,
        join_step(game, joiner, commitment) == Ok::<(CoinflipGame, Transfer), ArciumMxeError>(
            (
                CoinflipGame {
                    player_b: Some(joiner),
                    commitment_b: Some(commitment),
                    state: GameState::WaitingForReveal,
                    custody: pot(game.wager) as u128,
                    ..game
                },
                Transfer::Deposit { from: joiner, amount: game.wager },
            ),
        ),
{
}

} // verus!
