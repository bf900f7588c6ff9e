//! The commit-reveal coinflip: two players each stake the same wager and
//! commit to a hidden bit; once both have revealed, equal bits make the
//! creator the winner and different bits the joiner.

use vstd::prelude::*;
use crate::address::Address;
use crate::commitment::{commit, commitment_of, digest_matches};
use crate::error::ArciumMxeError;
use crate::escrow::{credit, debit, pot, total_pot, Transfer, MIN_WAGER};

verus! {

/// The phase a coinflip game is in.
#[derive(Clone, Copy, Debug, PartialEq, Eq, Structural)]
pub enum GameState {
    /// Opened by the creator; no second player yet.
    WaitingForPlayer,
    /// Both players have staked and committed; reveals are awaited.
    WaitingForReveal,
    /// Both players have revealed and the winner is known.
    Completed,
    /// Called off by the creator before anyone joined.
    Cancelled,
}

impl Default for GameState {
    fn default() -> (s: GameState)
        ensures
            s == GameState::WaitingForPlayer,
    {
        GameState::WaitingForPlayer
    }
}

/// The record of one coinflip game.
#[derive(Clone, Copy, Debug, PartialEq, Eq)]
pub struct CoinflipGame {
    /// The channel the game was opened in.
    pub channel: Address,
    /// The creator.
    pub player_a: Address,
    /// The joiner, absent until someone joins.
    pub player_b: Option<Address>,
    /// The stake of each player, in the smallest currency unit.
    pub wager: u64,
    /// The creator's commitment.
    pub commitment_a: [u8; 32],
    /// The joiner's commitment, set on joining.
    pub commitment_b: Option<[u8; 32]>,
    /// The creator's revealed choice (0 heads, 1 tails).
    pub choice_a: Option<u8>,
    /// The creator's revealed nonce.
    pub nonce_a: Option<[u8; 32]>,
    /// The joiner's revealed choice.
    pub choice_b: Option<u8>,
    /// The joiner's revealed nonce.
    pub nonce_b: Option<[u8; 32]>,
    /// The winner, set when the second reveal arrives.
    pub winner: Option<Address>,
    /// The phase of the game.
    pub state: GameState,
    /// When the game was opened, in seconds of Unix time.
    pub created_at: i64,
    /// Whether the pot has been paid out.
    pub claimed: bool,
    /// The bump seed of the record's address.
    pub bump: u8,
    /// The value the record holds in custody.
    pub custody: u128,
}

impl CoinflipGame {
    /// The bytes a stored record takes: a tag of 8 bytes, then every field
    /// at its full size, an optional one with its presence byte.
    pub const SPACE: usize = 8 + 32 + 32 + (1 + 32) + 8 + 32 + (1 + 32) + (1 + 1) + (1 + 32) + (1
        + 1) + (1 + 32) + (1 + 32) + 1 + 8 + 1 + 1;

    /// Whether the game still waits for a second player.
    pub fn is_waiting_for_player(&self) -> (r: bool)
        ensures
            r == (self.state == GameState::WaitingForPlayer),
    {
        self.state == GameState::WaitingForPlayer
    }

    /// Whether the game waits for reveals.
    pub fn is_waiting_for_reveal(&self) -> (r: bool)
        ensures
            r == (self.state == GameState::WaitingForReveal),
    {
        self.state == GameState::WaitingForReveal
    }

    /// Whether the game has a winner.
    pub fn is_completed(&self) -> (r: bool)
        ensures
            r == (self.state == GameState::Completed),
    {
        self.state == GameState::Completed
    }

    /// The winner by the coinflip rule: none until both choices are revealed
    /// and a joiner is present; then the creator where the two choices are
    /// equal and the joiner where they differ.
    pub open spec fn winner_by_rule(self) -> Option<Address> {
        match (self.choice_a, self.choice_b, self.player_b) {
            (Some(a), Some(b), Some(joiner)) => if a == b {
                Some(self.player_a)
            } else {
                Some(joiner)
            },
            _ => None,
        }
    }

    /// The winner by the coinflip rule.
    pub fn compute_winner(&self) -> (r: Option<Address>)
        ensures
            r == self.winner_by_rule(),
    {
        match (self.choice_a, self.choice_b, self.player_b) {
            (Some(a), Some(b), Some(joiner)) => {
                if a == b {
                    Some(self.player_a)
                } else {
                    Some(joiner)
                }
            },
            _ => None,
        }
    }
}


impl CoinflipGame {
    /// Whether both players have revealed.
    pub open spec fn both_revealed(self) -> bool {
        self.choice_a is Some && self.choice_b is Some
    }

    /// What the record's custody must be in its phase: one stake while it
    /// waits for a joiner, both stakes from the join until the pot is paid,
    /// nothing once it is paid or the game is cancelled.
    pub open spec fn custody_due(self) -> int {
        match self.state {
            GameState::WaitingForPlayer => self.wager as int,
            GameState::WaitingForReveal => pot(self.wager),
            GameState::Completed => if self.claimed {
                0
            } else {
                pot(self.wager)
            },
            GameState::Cancelled => 0,
        }
    }

    /// Whether a revealed choice and nonce are consistent with a commitment:
    /// either nothing is revealed, or a bit and a nonce are, and they hash
    /// to the commitment.
    pub open spec fn reveal_sound(
        commitment: Seq<u8>,
        choice: Option<u8>,
        nonce: Option<[u8; 32]>,
    ) -> bool {
        match (choice, nonce) {
            (None, None) => true,
            (Some(c), Some(n)) => c <= 1 && commitment == commitment_of(c, n@),
            _ => false,
        }
    }

    /// The invariant of every record that the operations of this module
    /// produce.
    pub open spec fn wf(self) -> bool {
        &&& self.wager >= MIN_WAGER
        &&& self.custody == self.custody_due()
        &&& Self::reveal_sound(self.commitment_a@, self.choice_a, self.nonce_a)
        &&& match self.state {
            GameState::WaitingForPlayer | GameState::Cancelled => {
                &&& self.player_b is None
                &&& self.commitment_b is None
                &&& self.choice_a is None
                &&& self.choice_b is None
                &&& self.nonce_b is None
                &&& self.winner is None
                &&& !self.claimed
            },
            GameState::WaitingForReveal | GameState::Completed => {
                &&& self.player_b matches Some(joiner)
                &&& joiner != self.player_a
                &&& self.commitment_b matches Some(commitment)
                &&& Self::reveal_sound(commitment@, self.choice_b, self.nonce_b)
                &&& self.both_revealed() <==> self.state == GameState::Completed
                &&& self.winner == if self.state == GameState::Completed {
                    self.winner_by_rule()
                } else {
                    None
                }
                &&& self.claimed ==> self.state == GameState::Completed
            },
        }
    }
}

/// The record of a game that `creator` has just opened.
pub open spec fn opened(
    creator: Address,
    channel: Address,
    wager: u64,
    commitment: [u8; 32],
    created_at: i64,
    bump: u8,
) -> CoinflipGame {
    CoinflipGame {
        channel,
        player_a: creator,
        player_b: None,
        wager,
        commitment_a: commitment,
        commitment_b: None,
        choice_a: None,
        nonce_a: None,
        choice_b: None,
        nonce_b: None,
        winner: None,
        state: GameState::WaitingForPlayer,
        created_at,
        claimed: false,
        bump,
        custody: wager as u128,
    }
}

/// Opening a game: refused with `InvalidWager` below the minimum stake;
/// otherwise the new record and the creator's deposit of one wager.
pub open spec fn create_step(
    creator: Address,
    channel: Address,
    wager: u64,
    commitment: [u8; 32],
    created_at: i64,
    bump: u8,
) -> Result<(CoinflipGame, Transfer), ArciumMxeError> {
    if wager < MIN_WAGER {
        Err(ArciumMxeError::InvalidWager)
    } else {
        Ok(
            (
                opened(creator, channel, wager, commitment, created_at, bump),
                Transfer::Deposit { from: creator, amount: wager },
            ),
        )
    }
}

/// Opens a coinflip game for `creator` in `channel` with the creator's
/// commitment. The returned deposit moves the creator's stake into custody.
pub fn create_game(
    creator: Address,
    channel: Address,
    wager: u64,
    commitment: [u8; 32],
    created_at: i64,
    bump: u8,
) -> (r: Result<(CoinflipGame, Transfer), ArciumMxeError>)
    ensures
        r == create_step(creator, channel, wager, commitment, created_at, bump),
        r matches Ok((game, _)) ==> game.wf(),
{
    if wager < MIN_WAGER {
        return Err(ArciumMxeError::InvalidWager);
    }
    let game = CoinflipGame {
        channel,
        player_a: creator,
        player_b: None,
        wager,
        commitment_a: commitment,
        commitment_b: None,
        choice_a: None,
        nonce_a: None,
        choice_b: None,
        nonce_b: None,
        winner: None,
        state: GameState::WaitingForPlayer,
        created_at,
        claimed: false,
        bump,
        custody: wager as u128,
    };
    Ok((game, Transfer::Deposit { from: creator, amount: wager }))
}

/// Joining a game. Refused, in this order, with `InvalidGameState` unless
/// the game waits for a player, with `CannotJoinOwnGame` for the creator,
/// and with `Overflow` where custody cannot take a second stake. Otherwise
/// the joiner and the joiner's commitment are recorded, reveals are awaited,
/// and the joiner deposits the creator's wager.
pub open spec fn join_step(game: CoinflipGame, joiner: Address, commitment: [u8; 32]) -> Result<
    (CoinflipGame, Transfer),
    ArciumMxeError,
> {
    if game.state != GameState::WaitingForPlayer {
        Err(ArciumMxeError::InvalidGameState)
    } else if game.player_a == joiner {
        Err(ArciumMxeError::CannotJoinOwnGame)
    } else if game.custody + game.wager > u128::MAX {
        Err(ArciumMxeError::Overflow)
    } else {
        Ok(
            (
                CoinflipGame {
                    player_b: Some(joiner),
                    commitment_b: Some(commitment),
                    state: GameState::WaitingForReveal,
                    custody: (game.custody + game.wager) as u128,
                    ..game
                },
                Transfer::Deposit { from: joiner, amount: game.wager },
            ),
        )
    }
}

/// Lets `joiner` join `game` with a commitment of their own.
pub fn join_game(game: &mut CoinflipGame, joiner: Address, commitment: [u8; 32]) -> (r: Result<
    Transfer,
    ArciumMxeError,
>)
    ensures
        match join_step(*old(game), joiner, commitment) {
            Ok((next, transfer)) => r == Ok::<Transfer, ArciumMxeError>(transfer) && *final(game)
                == next,
            Err(e) => r == Err::<Transfer, ArciumMxeError>(e) && *final(game) == *old(game),
        },
        old(game).wf() ==> final(game).wf(),
{
    if !game.is_waiting_for_player() {
        return Err(ArciumMxeError::InvalidGameState);
    }
    if game.player_a == joiner {
        return Err(ArciumMxeError::CannotJoinOwnGame);
    }
    let custody = match credit(game.custody, game.wager) {
        Ok(custody) => custody,
        Err(e) => {
            return Err(e);
        },
    };
    game.player_b = Some(joiner);
    game.commitment_b = Some(commitment);
    game.state = GameState::WaitingForReveal;
    game.custody = custody;
    Ok(Transfer::Deposit { from: joiner, amount: game.wager })
}


/// The record once both reveals are in: the winner is set by the coinflip
/// rule and the game is completed. With a reveal outstanding the record
/// stays as it is.
pub open spec fn settled(game: CoinflipGame) -> CoinflipGame {
    if game.both_revealed() {
        CoinflipGame { winner: game.winner_by_rule(), state: GameState::Completed, ..game }
    } else {
        game
    }
}

/// A reveal, given the digest of the revealed choice and nonce. Refused, in
/// this order, with `InvalidGameState` unless reveals are awaited, with
/// `InvalidChoice` for a choice above 1, with `NotParticipant` for a caller
/// who is neither player, with `AlreadyRevealed` where that player's choice
/// is set, and with `InvalidCommitment` where the digest is not that
/// player's commitment. Otherwise the choice and nonce are recorded for that
/// player alone, and the game is settled if this was the second reveal.
pub open spec fn reveal_step_with(
    game: CoinflipGame,
    revealer: Address,
    choice: u8,
    nonce: [u8; 32],
    digest: Seq<u8>,
) -> Result<CoinflipGame, ArciumMxeError> {
    if game.state != GameState::WaitingForReveal {
        Err(ArciumMxeError::InvalidGameState)
    } else if choice > 1 {
        Err(ArciumMxeError::InvalidChoice)
    } else if revealer == game.player_a {
        if game.choice_a is Some {
            Err(ArciumMxeError::AlreadyRevealed)
        } else if digest != game.commitment_a@ {
            Err(ArciumMxeError::InvalidCommitment)
        } else {
            Ok(settled(CoinflipGame { choice_a: Some(choice), nonce_a: Some(nonce), ..game }))
        }
    } else if game.player_b == Some(revealer) {
        if game.choice_b is Some {
            Err(ArciumMxeError::AlreadyRevealed)
        } else if !(game.commitment_b matches Some(c) && digest == c@) {
            Err(ArciumMxeError::InvalidCommitment)
        } else {
            Ok(settled(CoinflipGame { choice_b: Some(choice), nonce_b: Some(nonce), ..game }))
        }
    } else {
        Err(ArciumMxeError::NotParticipant)
    }
}

/// A reveal: [`reveal_step_with`] on the Keccak-256 digest of the choice
/// byte followed by the nonce.
pub open spec fn reveal_step(game: CoinflipGame, revealer: Address, choice: u8, nonce: [u8; 32])
    -> Result<CoinflipGame, ArciumMxeError> {
    reveal_step_with(game, revealer, choice, nonce, commitment_of(choice, nonce@))
}

/// Records a reveal by `revealer`, where `digest` is the digest of the
/// revealed choice and nonce.
pub fn reveal_with_digest(
    game: &mut CoinflipGame,
    revealer: Address,
    choice: u8,
    nonce: [u8; 32],
    digest: &[u8; 32],
) -> (r: Result<(), ArciumMxeError>)
    ensures
        match reveal_step_with(*old(game), revealer, choice, nonce, digest@) {
            Ok(next) => r == Ok::<(), ArciumMxeError>(()) && *final(game) == next,
            Err(e) => r == Err::<(), ArciumMxeError>(e) && *final(game) == *old(game),
        },
        old(game).wf() && digest@ == commitment_of(choice, nonce@) ==> final(game).wf(),
{
    if !game.is_waiting_for_reveal() {
        return Err(ArciumMxeError::InvalidGameState);
    }
    if choice > 1 {
        return Err(ArciumMxeError::InvalidChoice);
    }
    if revealer == game.player_a {
        if game.choice_a.is_some() {
            return Err(ArciumMxeError::AlreadyRevealed);
        }
        if !digest_matches(&game.commitment_a, digest) {
            return Err(ArciumMxeError::InvalidCommitment);
        }
        game.choice_a = Some(choice);
        game.nonce_a = Some(nonce);
    } else if game.player_b == Some(revealer) {
        if game.choice_b.is_some() {
            return Err(ArciumMxeError::AlreadyRevealed);
        }
        let matches = match game.commitment_b {
            Some(commitment) => digest_matches(&commitment, digest),
            None => false,
        };
        if !matches {
            return Err(ArciumMxeError::InvalidCommitment);
        }
        game.choice_b = Some(choice);
        game.nonce_b = Some(nonce);
    } else {
        return Err(ArciumMxeError::NotParticipant);
    }
    if game.choice_a.is_some() && game.choice_b.is_some() {
        game.winner = game.compute_winner();
        game.state = GameState::Completed;
    }
    Ok(())
}

/// Reveals `choice` and `nonce` for `revealer`: hashes them, checks the
/// digest against the revealer's commitment and records the reveal. The
/// second reveal settles the game.
pub fn reveal_choice(game: &mut CoinflipGame, revealer: Address, choice: u8, nonce: [u8; 32]) -> (r:
    Result<(), ArciumMxeError>)
    ensures
        match reveal_step(*old(game), revealer, choice, nonce) {
            Ok(next) => r == Ok::<(), ArciumMxeError>(()) && *final(game) == next,
            Err(e) => r == Err::<(), ArciumMxeError>(e) && *final(game) == *old(game),
        },
        old(game).wf() ==> final(game).wf(),
{
    let digest = commit(choice, &nonce);
    reveal_with_digest(game, revealer, choice, nonce, &digest)
}

/// Claiming the pot. Refused, in this order, with `InvalidGameState` unless
/// the game is completed, with `NotGameWinner` unless the claimer is the
/// winner, with `AlreadyClaimed` once the pot is paid, with `Overflow` where
/// both stakes do not fit in 64 bits, and with `InsufficientFunds` where
/// custody holds less than the pot. Otherwise the whole pot leaves custody
/// for the claimer and the record is marked claimed; nothing else changes.
pub open spec fn claim_step(game: CoinflipGame, claimer: Address) -> Result<
    (CoinflipGame, Transfer),
    ArciumMxeError,
> {
    if game.state != GameState::Completed {
        Err(ArciumMxeError::InvalidGameState)
    } else if game.winner != Some(claimer) {
        Err(ArciumMxeError::NotGameWinner)
    } else if game.claimed {
        Err(ArciumMxeError::AlreadyClaimed)
    } else if pot(game.wager) > u64::MAX {
        Err(ArciumMxeError::Overflow)
    } else if game.custody < pot(game.wager) {
        Err(ArciumMxeError::InsufficientFunds)
    } else {
        Ok(
            (
                CoinflipGame {
                    claimed: true,
                    custody: (game.custody - pot(game.wager)) as u128,
                    ..game
                },
                Transfer::Payout { to: claimer, amount: pot(game.wager) as u64 },
            ),
        )
    }
}

/// Pays the pot of a completed game to `claimer`, once.
pub fn claim_winnings(game: &mut CoinflipGame, claimer: Address) -> (r: Result<
    Transfer,
    ArciumMxeError,
>)
    ensures
        match claim_step(*old(game), claimer) {
            Ok((next, transfer)) => r == Ok::<Transfer, ArciumMxeError>(transfer) && *final(game)
                == next,
            Err(e) => r == Err::<Transfer, ArciumMxeError>(e) && *final(game) == *old(game),
        },
        old(game).wf() ==> final(game).wf(),
{
    if !game.is_completed() {
        return Err(ArciumMxeError::InvalidGameState);
    }
    if !(game.winner == Some(claimer)) {
        return Err(ArciumMxeError::NotGameWinner);
    }
    if game.claimed {
        return Err(ArciumMxeError::AlreadyClaimed);
    }
    let total = match total_pot(game.wager) {
        Ok(total) => total,
        Err(e) => {
            return Err(e);
        },
    };
    let rest = match debit(game.custody, total) {
        Ok(rest) => rest,
        Err(e) => {
            return Err(e);
        },
    };
    game.custody = rest;
    game.claimed = true;
    Ok(Transfer::Payout { to: claimer, amount: total })
}

/// Cancelling a game. Refused, in this order, with `NotGameCreator` unless
/// the caller is the creator, with `GameAlreadyStarted` unless the game
/// still waits for a player, and with `InsufficientFunds` where custody
/// holds less than the wager. Otherwise the creator's stake is refunded in
/// full and the game is cancelled.
pub open spec fn cancel_step(game: CoinflipGame, caller: Address) -> Result<
    (CoinflipGame, Transfer),
    ArciumMxeError,
> {
    if game.player_a != caller {
        Err(ArciumMxeError::NotGameCreator)
    } else if game.state != GameState::WaitingForPlayer {
        Err(ArciumMxeError::GameAlreadyStarted)
    } else if game.custody < game.wager {
        Err(ArciumMxeError::InsufficientFunds)
    } else {
        Ok(
            (
                CoinflipGame {
                    state: GameState::Cancelled,
                    custody: (game.custody - game.wager) as u128,
                    ..game
                },
                Transfer::Payout { to: caller, amount: game.wager },
            ),
        )
    }
}

/// Cancels a game that nobody has joined and refunds the creator.
pub fn cancel_game(game: &mut CoinflipGame, caller: Address) -> (r: Result<
    Transfer,
    ArciumMxeError,
>)
    ensures
        match cancel_step(*old(game), caller) {
            Ok((next, transfer)) => r == Ok::<Transfer, ArciumMxeError>(transfer) && *final(game)
                == next,
            Err(e) => r == Err::<Transfer, ArciumMxeError>(e) && *final(game) == *old(game),
        },
        old(game).wf() ==> final(game).wf(),
{
    if !(game.player_a == caller) {
        return Err(ArciumMxeError::NotGameCreator);
    }
    if !game.is_waiting_for_player() {
        return Err(ArciumMxeError::GameAlreadyStarted);
    }
    let rest = match debit(game.custody, game.wager) {
        Ok(rest) => rest,
        Err(e) => {
            return Err(e);
        },
    };
    game.custody = rest;
    game.state = GameState::Cancelled;
    Ok(Transfer::Payout { to: caller, amount: game.wager })
}

} // verus!
