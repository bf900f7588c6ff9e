//! Why a game operation was refused.

use vstd::prelude::*;

verus! {

/// The reasons for which a coinflip or tic-tac-toe operation is refused.
///
/// A refused operation leaves the game record exactly as it was.
#[derive(Clone, Copy, Debug, PartialEq, Eq, Structural)]
pub enum ArciumMxeError {
    /// The wager is below the minimum stake.
    InvalidWager,
    /// The game already has two players.
    GameFull,
    /// The would-be joiner is the creator.
    CannotJoinOwnGame,
    /// The game is not in the state that the operation needs.
    InvalidGameState,
    /// The revealed choice and nonce do not hash to the stored commitment.
    InvalidCommitment,
    /// Only the creator may cancel.
    NotGameCreator,
    /// A second player has joined, so the game can no longer be cancelled.
    GameAlreadyStarted,
    /// The caller is neither of the two players.
    NotParticipant,
    /// The caller is not the winner.
    NotGameWinner,
    /// A choice other than 0 (heads) or 1 (tails).
    InvalidChoice,
    /// The caller has revealed before.
    AlreadyRevealed,
    /// The winnings were paid out before.
    AlreadyClaimed,
    /// It is the other player's turn.
    NotYourTurn,
    /// A board position outside 0..=8.
    InvalidPosition,
    /// The board cell is taken.
    PositionOccupied,
    /// No move can be made: the game has not started or is over.
    GameNotInProgress,
    /// Nothing can be claimed yet: the game has no outcome.
    GameNotFinished,
    /// The claimer is neither of the two players.
    NotPlayer,
    /// The caller may not perform this action.
    NotAuthorized,
    /// A sum or product does not fit in its number type.
    Overflow,
    /// The record holds less in custody than the payment asks for.
    InsufficientFunds,
}

impl ArciumMxeError {
    /// The text shown to a user for each error.
    pub open spec fn text(self) -> Seq<char> {
        match self {
            ArciumMxeError::InvalidWager => "Invalid wager amount (minimum 0.001 SOL)"@,
            ArciumMxeError::GameFull => "Game already has two players"@,
            ArciumMxeError::CannotJoinOwnGame => "Cannot join your own game"@,
            ArciumMxeError::InvalidGameState => "Game is not in the correct state for this action"@,
            ArciumMxeError::InvalidCommitment => "Invalid commitment hash - does not match revealed choice and nonce"@,
            ArciumMxeError::NotGameCreator => "Only the game creator can cancel"@,
            ArciumMxeError::GameAlreadyStarted => "Game already started, cannot cancel"@,
            ArciumMxeError::NotParticipant => "Only game participants can reveal"@,
            ArciumMxeError::NotGameWinner => "Only the winner can claim winnings"@,
            ArciumMxeError::InvalidChoice => "Choice must be 0 (heads) or 1 (tails)"@,
            ArciumMxeError::AlreadyRevealed => "Already revealed your choice"@,
            ArciumMxeError::AlreadyClaimed => "Winnings already claimed"@,
            ArciumMxeError::NotYourTurn => "Not your turn"@,
            ArciumMxeError::InvalidPosition => "Invalid board position (must be 0-8)"@,
            ArciumMxeError::PositionOccupied => "Position already occupied"@,
            ArciumMxeError::GameNotInProgress => "Game is not in progress"@,
            ArciumMxeError::GameNotFinished => "Game has not finished yet"@,
            ArciumMxeError::NotPlayer => "Only players can claim winnings"@,
            ArciumMxeError::NotAuthorized => "Not authorized to perform this action"@,
            ArciumMxeError::Overflow => "Arithmetic overflow"@,
            ArciumMxeError::InsufficientFunds => "Insufficient funds"@,
        }
    }

    /// The message for this error.
    pub fn message(&self) -> (s: &'static str)
        ensures
            s@ == self.text(),
    {
        match self {
            ArciumMxeError::InvalidWager => "Invalid wager amount (minimum 0.001 SOL)",
            ArciumMxeError::GameFull => "Game already has two players",
            ArciumMxeError::CannotJoinOwnGame => "Cannot join your own game",
            ArciumMxeError::InvalidGameState => "Game is not in the correct state for this action",
            ArciumMxeError::InvalidCommitment => "Invalid commitment hash - does not match revealed choice and nonce",
            ArciumMxeError::NotGameCreator => "Only the game creator can cancel",
            ArciumMxeError::GameAlreadyStarted => "Game already started, cannot cancel",
            ArciumMxeError::NotParticipant => "Only game participants can reveal",
            ArciumMxeError::NotGameWinner => "Only the winner can claim winnings",
            ArciumMxeError::InvalidChoice => "Choice must be 0 (heads) or 1 (tails)",
            ArciumMxeError::AlreadyRevealed => "Already revealed your choice",
            ArciumMxeError::AlreadyClaimed => "Winnings already claimed",
            ArciumMxeError::NotYourTurn => "Not your turn",
            ArciumMxeError::InvalidPosition => "Invalid board position (must be 0-8)",
            ArciumMxeError::PositionOccupied => "Position already occupied",
            ArciumMxeError::GameNotInProgress => "Game is not in progress",
            ArciumMxeError::GameNotFinished => "Game has not finished yet",
            ArciumMxeError::NotPlayer => "Only players can claim winnings",
            ArciumMxeError::NotAuthorized => "Not authorized to perform this action",
            ArciumMxeError::Overflow => "Arithmetic overflow",
            ArciumMxeError::InsufficientFunds => "Insufficient funds",
        }
    }
}

} // verus!
