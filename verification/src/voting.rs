//! Anonymous polls: a poll's question and options, its encrypted tallies,
//! and the rules for voting, revealing and closing.
//!
//! Votes are tallied under encryption by a confidential-compute service.
//! This module never sees a vote: it keeps, for each option, the handle of
//! the encrypted tally that the service handed back, and the public number
//! of votes cast.

use vstd::prelude::*;
use vstd::utf8::encode_utf8;
use crate::address::Address;

verus! {

/// The most bytes a question may take.
pub const MAX_QUESTION_LEN: usize = 200;

/// The most bytes an option may take.
pub const MAX_OPTION_LEN: usize = 50;

/// The most options a poll may have.
pub const MAX_OPTIONS: usize = 4;

/// The shortest time a poll may run: one minute, in seconds.
pub const MIN_DURATION_SECONDS: i64 = 60;

/// The longest time a poll may run: thirty days, in seconds.
pub const MAX_DURATION_SECONDS: i64 = 30 * 24 * 60 * 60;

/// Why a poll operation was refused.
#[derive(Clone, Copy, Debug, PartialEq, Eq, Structural)]
pub enum VotingError {
    /// The question takes more than `MAX_QUESTION_LEN` bytes.
    QuestionTooLong,
    /// An option takes more than `MAX_OPTION_LEN` bytes.
    OptionTooLong,
    /// Fewer than two options, or more than `MAX_OPTIONS`.
    InvalidOptionsCount,
    /// The poll would run for less than `MIN_DURATION_SECONDS`.
    DurationTooShort,
    /// The poll would run for more than `MAX_DURATION_SECONDS`.
    DurationTooLong,
    /// The poll has no option of that index.
    InvalidOptionIndex,
    /// Voting is over.
    PollEnded,
    /// Voting is not over yet.
    PollNotEnded,
    /// The voter has voted before.
    AlreadyVoted,
    /// The results are revealed already.
    AlreadyRevealed,
    /// The results are not revealed yet.
    NotRevealed,
    /// The caller may not perform this action.
    NotAuthorized,
    /// The revealed counts are not one per option, or do not add up to the
    /// number of votes cast.
    InvalidPlaintextCount,
    /// A count or a time does not fit in 64 bits.
    Overflow,
}

impl VotingError {
    /// The text shown to a user for each error.
    pub open spec fn text(self) -> Seq<char> {
        match self {
            VotingError::QuestionTooLong => "Question exceeds maximum length of 200 characters"@,
            VotingError::OptionTooLong => "Option exceeds maximum length of 50 characters"@,
            VotingError::InvalidOptionsCount => "Poll must have between 2 and 4 options"@,
            VotingError::DurationTooShort => "Poll duration must be at least 1 minute"@,
            VotingError::DurationTooLong => "Poll duration cannot exceed 30 days"@,
            VotingError::InvalidOptionIndex => "Invalid option index"@,
            VotingError::PollEnded => "Poll has ended"@,
            VotingError::PollNotEnded => "Poll has not ended yet"@,
            VotingError::AlreadyVoted => "User has already voted on this poll"@,
            VotingError::AlreadyRevealed => "Results have already been revealed"@,
            VotingError::NotRevealed => "Results must be revealed before closing"@,
            VotingError::NotAuthorized => "Not authorized to perform this action"@,
            VotingError::InvalidPlaintextCount => "Invalid plaintext count"@,
            VotingError::Overflow => "Vote count overflow"@,
        }
    }

    /// The message for this error.
    pub fn message(&self) -> (s: &'static str)
        ensures
            s@ == self.text(),
    {
        match self {
            VotingError::QuestionTooLong => "Question exceeds maximum length of 200 characters",
            VotingError::OptionTooLong => "Option exceeds maximum length of 50 characters",
            VotingError::InvalidOptionsCount => "Poll must have between 2 and 4 options",
            VotingError::DurationTooShort => "Poll duration must be at least 1 minute",
            VotingError::DurationTooLong => "Poll duration cannot exceed 30 days",
            VotingError::InvalidOptionIndex => "Invalid option index",
            VotingError::PollEnded => "Poll has ended",
            VotingError::PollNotEnded => "Poll has not ended yet",
            VotingError::AlreadyVoted => "User has already voted on this poll",
            VotingError::AlreadyRevealed => "Results have already been revealed",
            VotingError::NotRevealed => "Results must be revealed before closing",
            VotingError::NotAuthorized => "Not authorized to perform this action",
            VotingError::InvalidPlaintextCount => "Invalid plaintext count",
            VotingError::Overflow => "Vote count overflow",
        }
    }
}

/// The record of a poll.
#[derive(Clone, Debug, PartialEq, Eq)]
pub struct Poll {
    /// The channel the poll was put to.
    pub channel: Address,
    /// The wallet that created the poll.
    pub creator: Address,
    /// The question.
    pub question: String,
    /// The options; those past `options_count` are empty.
    pub options: [String; 4],
    /// The number of options, 2 to 4.
    pub options_count: u8,
    /// For each option, the handle of its encrypted tally.
    pub vote_counts: [u128; 4],
    /// The number of votes cast.
    pub total_votes: u64,
    /// When voting ends, in seconds of Unix time.
    pub end_time: i64,
    /// Whether the results have been revealed.
    pub revealed: bool,
    /// For each option, its votes, once revealed.
    pub revealed_counts: [u64; 4],
    /// The bump seed of the record's address.
    pub bump: u8,
}

/// A poll record as a mathematical value.
pub struct PollView {
    pub channel: Address,
    pub creator: Address,
    pub question: Seq<char>,
    pub options: Seq<Seq<char>>,
    pub options_count: u8,
    pub vote_counts: Seq<u128>,
    pub total_votes: u64,
    pub end_time: i64,
    pub revealed: bool,
    pub revealed_counts: Seq<u64>,
    pub bump: u8,
}

impl View for Poll {
    type V = PollView;

    open spec fn view(&self) -> PollView {
        PollView {
            channel: self.channel,
            creator: self.creator,
            question: self.question@,
            options: Seq::new(4, |i: int| self.options[i]@),
            options_count: self.options_count,
            vote_counts: self.vote_counts@,
            total_votes: self.total_votes,
            end_time: self.end_time,
            revealed: self.revealed,
            revealed_counts: self.revealed_counts@,
            bump: self.bump,
        }
    }
}

/// The record that a wallet has voted on a poll. It does not say for what.
#[derive(Clone, Copy, Debug, PartialEq, Eq)]
pub struct VoteRecord {
    /// The poll.
    pub poll: Address,
    /// The voter's wallet.
    pub voter: Address,
    /// When the vote was cast, in seconds of Unix time.
    pub voted_at: i64,
    /// The bump seed of the record's address.
    pub bump: u8,
}

impl VoteRecord {
    /// The bytes a stored vote record takes.
    pub const SPACE: usize = 8 + 32 + 32 + 8 + 1;
}

/// Whether voting is open at `current_time`: before the end and not yet
/// revealed.
pub open spec fn active_at(poll: PollView, current_time: i64) -> bool {
    current_time < poll.end_time && !poll.revealed
}

/// Whether voting is over at `current_time` and the results still await
/// their reveal.
pub open spec fn ended_unrevealed_at(poll: PollView, current_time: i64) -> bool {
    current_time >= poll.end_time && !poll.revealed
}

impl Poll {
    /// The bytes a stored poll takes.
    pub const SPACE: usize = 8 + 32 + 32 + (4 + MAX_QUESTION_LEN) + MAX_OPTIONS * (4
        + MAX_OPTION_LEN) + 1 + MAX_OPTIONS * 16 + 8 + 8 + 1 + MAX_OPTIONS * 8 + 1;

    /// Whether votes are still taken at `current_time`.
    pub fn is_active(&self, current_time: i64) -> (r: bool)
        ensures
            r == active_at(self@, current_time),
    {
        current_time < self.end_time && !self.revealed
    }

    /// Whether the poll has ended at `current_time` without its results
    /// being revealed.
    pub fn is_ended_not_revealed(&self, current_time: i64) -> (r: bool)
        ensures
            r == ended_unrevealed_at(self@, current_time),
    {
        current_time >= self.end_time && !self.revealed
    }
}

/// The number of bytes a text takes in UTF-8.
pub open spec fn byte_len(text: Seq<char>) -> nat {
    encode_utf8(text).len()
}


/// Why a poll with this question, these options and this duration is not
/// created, if it is not. In this order: `QuestionTooLong`,
/// `InvalidOptionsCount` for fewer than 2 or more than `MAX_OPTIONS`
/// options, `OptionTooLong` where any option is, `DurationTooShort`,
/// `DurationTooLong`.
pub open spec fn poll_refusal(
    question: Seq<char>,
    options: Seq<Seq<char>>,
    duration_seconds: i64,
) -> Option<VotingError> {
    if byte_len(question) > MAX_QUESTION_LEN {
        Some(VotingError::QuestionTooLong)
    } else if options.len() < 2 || options.len() > MAX_OPTIONS {
        Some(VotingError::InvalidOptionsCount)
    } else if exists|i: int| 0 <= i < options.len() && byte_len(#[trigger] options[i]) > MAX_OPTION_LEN {
        Some(VotingError::OptionTooLong)
    } else if duration_seconds < MIN_DURATION_SECONDS {
        Some(VotingError::DurationTooShort)
    } else if duration_seconds > MAX_DURATION_SECONDS {
        Some(VotingError::DurationTooLong)
    } else {
        None
    }
}

/// The number of bytes that `text` takes.
pub fn text_len(text: &String) -> (n: usize)
    ensures
        n == byte_len(text@),
{
    text.as_str().as_bytes().len()
}

/// The views of the texts of `options`, in order.
pub open spec fn texts(options: Seq<String>) -> Seq<Seq<char>> {
    Seq::new(options.len(), |i: int| options[i]@)
}

/// Checks the question, the options and the duration of a poll to be
/// created.
#[verifier::loop_isolation(false)]
pub fn check_poll(question: &String, options: &Vec<String>, duration_seconds: i64) -> (r: Result<
    (),
    VotingError,
>)
    ensures
        match poll_refusal(question@, texts(options@), duration_seconds) {
            Some(e) => r == Err::<(), VotingError>(e),
            None => r is Ok,
        },
{
    if text_len(question) > MAX_QUESTION_LEN {
        return Err(VotingError::QuestionTooLong);
    }
    if options.len() < 2 || options.len() > MAX_OPTIONS {
        return Err(VotingError::InvalidOptionsCount);
    }
    let mut i: usize = 0;
    while i < options.len()
        invariant
            i <= options.len(),
            forall|j: int| 0 <= j < i ==> byte_len(#[trigger] texts(options@)[j]) <= MAX_OPTION_LEN,
        decreases options.len() - i,
    {
        if text_len(&options[i]) > MAX_OPTION_LEN {
            assert(texts(options@)[i as int] == options@[i as int]@);
            assert(byte_len(texts(options@)[i as int]) > MAX_OPTION_LEN);
            return Err(VotingError::OptionTooLong);
        }
        i += 1;
    }
    if duration_seconds < MIN_DURATION_SECONDS {
        return Err(VotingError::DurationTooShort);
    }
    if duration_seconds > MAX_DURATION_SECONDS {
        return Err(VotingError::DurationTooLong);
    }
    Ok(())
}

/// The options of a poll as it stores them: the given ones in order, then
/// empty texts up to four.
pub open spec fn padded(options: Seq<Seq<char>>) -> Seq<Seq<char>> {
    Seq::new(
        4,
        |i: int|
            if i < options.len() {
                options[i]
            } else {
                Seq::<char>::empty()
            },
    )
}

/// Creates a poll that runs for `duration_seconds` from `now`. Refused as
/// [`poll_refusal`] says, then with `Overflow` where the end of voting does
/// not fit in 64 bits. `encrypted_zeros` are the handles of four encrypted
/// tallies of zero, one for each option slot.
pub fn create_poll(
    creator: Address,
    channel: Address,
    question: String,
    options: Vec<String>,
    duration_seconds: i64,
    now: i64,
    bump: u8,
    encrypted_zeros: [u128; 4],
) -> (r: Result<Poll, VotingError>)
    ensures
        match poll_refusal(question@, texts(options@), duration_seconds) {
            Some(e) => r == Err::<Poll, VotingError>(e),
            None => if now + duration_seconds > i64::MAX {
                r == Err::<Poll, VotingError>(VotingError::Overflow)
            } else {
                r is Ok && r->Ok_0@ == (PollView {
                    channel,
                    creator,
                    question: question@,
                    options: padded(texts(options@)),
                    options_count: options@.len() as u8,
                    vote_counts: encrypted_zeros@,
                    total_votes: 0,
                    end_time: (now + duration_seconds) as i64,
                    revealed: false,
                    revealed_counts: seq![0u64, 0u64, 0u64, 0u64],
                    bump,
                })
            },
        },
{
    match check_poll(&question, &options, duration_seconds) {
        Ok(()) => {},
        Err(e) => {
            return Err(e);
        },
    }
    let end_time = match now.checked_add(duration_seconds) {
        Some(end_time) => end_time,
        None => {
            return Err(VotingError::Overflow);
        },
    };
    let mut stored = [String::new(), String::new(), String::new(), String::new()];
    let mut i: usize = 0;
    while i < options.len()
        invariant
            i <= options.len() <= 4,
            forall|j: int| 0 <= j < i ==> (#[trigger] stored[j])@ == options@[j]@,
            forall|j: int| i <= j < 4 ==> (#[trigger] stored[j])@ == Seq::<char>::empty(),
        decreases options.len() - i,
    {
        stored[i] = options[i].clone();
        i += 1;
    }
    let poll = Poll {
        channel,
        creator,
        question,
        options: stored,
        options_count: options.len() as u8,
        vote_counts: encrypted_zeros,
        total_votes: 0,
        end_time,
        revealed: false,
        revealed_counts: [0, 0, 0, 0],
        bump,
    };
    assert(poll@.options =~= padded(texts(options@)));
    assert(poll@.revealed_counts =~= seq![0u64, 0u64, 0u64, 0u64]);
    Ok(poll)
}

/// Why a vote for option `option_index` at `now` is not taken, if it is
/// not. In this order: `InvalidOptionIndex` where the poll has no such
/// option, `PollEnded` where voting is over or the results are revealed,
/// `Overflow` where the vote counter is at its limit.
pub open spec fn vote_refusal(poll: PollView, option_index: u8, now: i64) -> Option<VotingError> {
    if option_index >= poll.options_count || option_index >= MAX_OPTIONS {
        Some(VotingError::InvalidOptionIndex)
    } else if !active_at(poll, now) {
        Some(VotingError::PollEnded)
    } else if poll.total_votes == u64::MAX {
        Some(VotingError::Overflow)
    } else {
        None
    }
}

/// Checks that a vote for `option_index` can be taken at `now` and gives
/// the handle of that option's encrypted tally, to which the service is to
/// add the encrypted vote.
pub fn check_vote(poll: &Poll, option_index: u8, now: i64) -> (r: Result<u128, VotingError>)
    ensures
        match vote_refusal(poll@, option_index, now) {
            Some(e) => r == Err::<u128, VotingError>(e),
            None => r == Ok::<u128, VotingError>(poll@.vote_counts[option_index as int]),
        },
{
    if option_index >= poll.options_count || option_index as usize >= MAX_OPTIONS {
        return Err(VotingError::InvalidOptionIndex);
    }
    if !poll.is_active(now) {
        return Err(VotingError::PollEnded);
    }
    if poll.total_votes == u64::MAX {
        return Err(VotingError::Overflow);
    }
    Ok(poll.vote_counts[option_index as usize])
}

/// Takes a vote: stores `new_count`, the handle of the option's encrypted
/// tally with the encrypted vote added, counts the vote, and returns the
/// record that the voter has voted. Refused as [`vote_refusal`] says; a
/// refused vote changes nothing.
pub fn cast_vote(
    poll: &mut Poll,
    poll_key: Address,
    voter: Address,
    option_index: u8,
    new_count: u128,
    now: i64,
    bump: u8,
) -> (r: Result<VoteRecord, VotingError>)
    ensures
        match vote_refusal(old(poll)@, option_index, now) {
            Some(e) => r == Err::<VoteRecord, VotingError>(e) && final(poll)@ == old(poll)@,
            None => {
                &&& r == Ok::<VoteRecord, VotingError>(
                    VoteRecord { poll: poll_key, voter, voted_at: now, bump },
                )
                &&& final(poll)@ == (PollView {
                    vote_counts: old(poll)@.vote_counts.update(option_index as int, new_count),
                    total_votes: (old(poll).total_votes + 1) as u64,
                    ..old(poll)@
                })
            },
        },
{
    match check_vote(poll, option_index, now) {
        Ok(_) => {},
        Err(e) => {
            return Err(e);
        },
    }
    poll.vote_counts[option_index as usize] = new_count;
    poll.total_votes += 1;
    assert(poll@.options =~= old(poll)@.options);
    Ok(VoteRecord { poll: poll_key, voter, voted_at: now, bump })
}

/// The sum of the counts.
pub open spec fn total(counts: Seq<u64>) -> int
    decreases counts.len(),
{
    if counts.len() == 0 {
        0
    } else {
        total(counts.drop_last()) + counts.last()
    }
}

/// The four stored counts once `plaintexts` are written over the first of
/// them.
pub open spec fn overwritten(stored: Seq<u64>, plaintexts: Seq<u64>) -> Seq<u64> {
    Seq::new(
        4,
        |i: int|
            if i < plaintexts.len() {
                plaintexts[i]
            } else {
                stored[i]
            },
    )
}

/// Writes `plaintexts` over the first of the four stored counts; what
/// `plaintexts` holds beyond four is left out.
pub fn overwrite(stored: [u64; 4], plaintexts: &Vec<u64>) -> (counts: [u64; 4])
    ensures
        counts@ == overwritten(stored@, plaintexts@),
{
    let mut counts = stored;
    let mut i: usize = 0;
    while i < plaintexts.len() && i < 4
        invariant
            i <= 4,
            i <= plaintexts.len(),
            forall|j: int| 0 <= j < i ==> #[trigger] counts[j] == plaintexts@[j],
            forall|j: int| i <= j < 4 ==> #[trigger] counts[j] == stored[j],
        decreases 4 - i,
    {
        counts[i] = plaintexts[i];
        i += 1;
    }
    assert(counts@ =~= overwritten(stored@, plaintexts@));
    counts
}

/// Why these counts are not taken as the results at `now`, if they are
/// not. In this order: `AlreadyRevealed`, `PollNotEnded` while voting is
/// open, `InvalidPlaintextCount` unless there is one count for each option,
/// and `InvalidPlaintextCount` unless the counts add up to the number of
/// votes cast.
pub open spec fn reveal_refusal(poll: PollView, plaintexts: Seq<u64>, now: i64) -> Option<
    VotingError,
> {
    if poll.revealed {
        Some(VotingError::AlreadyRevealed)
    } else if !ended_unrevealed_at(poll, now) {
        Some(VotingError::PollNotEnded)
    } else if plaintexts.len() != poll.options_count || plaintexts.len() > MAX_OPTIONS {
        Some(VotingError::InvalidPlaintextCount)
    } else if total(plaintexts) != poll.total_votes {
        Some(VotingError::InvalidPlaintextCount)
    } else {
        None
    }
}

/// The sum of the counts, or nothing where it does not fit in 64 bits.
pub fn sum_counts(counts: &Vec<u64>) -> (r: Option<u64>)
    ensures
        0 <= total(counts@),
        r == if total(counts@) <= u64::MAX {
            Some(total(counts@) as u64)
        } else {
            None
        },
{
    proof {
        lemma_total_nonnegative(counts@);
    }
    let mut sum: u64 = 0;
    let mut i: usize = 0;
    while i < counts.len()
        invariant
            i <= counts.len(),
            sum == total(counts@.take(i as int)),
        decreases counts.len() - i,
    {
        proof {
            assert(counts@.take(i + 1).drop_last() =~= counts@.take(i as int));
            lemma_total_grows(counts@, i + 1);
        }
        match sum.checked_add(counts[i]) {
            Some(next) => {
                sum = next;
            },
            None => {
                return None;
            },
        }
        i += 1;
    }
    assert(counts@.take(counts@.len() as int) =~= counts@);
    Some(sum)
}

/// The sum of a beginning of the counts is at most the sum of all.
pub proof fn lemma_total_grows(counts: Seq<u64>, n: int)
    requires
        0 <= n <= counts.len(),
    ensures
        0 <= total(counts.take(n)) <= total(counts),
    decreases counts.len() - n,
{
    if n == counts.len() {
        assert(counts.take(n) =~= counts);
        lemma_total_nonnegative(counts);
    } else {
        lemma_total_grows(counts, n + 1);
        assert(counts.take(n + 1).drop_last() =~= counts.take(n));
        lemma_total_nonnegative(counts.take(n));
    }
}

/// A sum of counts is not negative.
pub proof fn lemma_total_nonnegative(counts: Seq<u64>)
    ensures
        0 <= total(counts),
    decreases counts.len(),
{
    if counts.len() > 0 {
        lemma_total_nonnegative(counts.drop_last());
    }
}

/// Stores the decrypted counts as the poll's results and marks the poll
/// revealed. Refused as [`reveal_refusal`] says; a refused reveal changes
/// nothing.
pub fn reveal_results(poll: &mut Poll, plaintexts: &Vec<u64>, now: i64) -> (r: Result<
    (),
    VotingError,
>)
    ensures
        match reveal_refusal(old(poll)@, plaintexts@, now) {
            Some(e) => r == Err::<(), VotingError>(e) && final(poll)@ == old(poll)@,
            None => {
                &&& r is Ok
                &&& final(poll)@ == (PollView {
                    revealed: true,
                    revealed_counts: overwritten(old(poll)@.revealed_counts, plaintexts@),
                    ..old(poll)@
                })
            },
        },
{
    if poll.revealed {
        return Err(VotingError::AlreadyRevealed);
    }
    if !poll.is_ended_not_revealed(now) {
        return Err(VotingError::PollNotEnded);
    }
    if plaintexts.len() != poll.options_count as usize || plaintexts.len() > MAX_OPTIONS {
        return Err(VotingError::InvalidPlaintextCount);
    }
    let sum = sum_counts(plaintexts);
    if sum != Some(poll.total_votes) {
        return Err(VotingError::InvalidPlaintextCount);
    }
    poll.revealed_counts = overwrite(poll.revealed_counts, plaintexts);
    poll.revealed = true;
    assert(poll@.options =~= old(poll)@.options);
    Ok(())
}

/// Why a poll is not closed by `closer`, if it is not: `NotRevealed` until
/// the results are revealed, then `NotAuthorized` unless the closer created
/// the poll.
pub open spec fn close_refusal(poll: PollView, closer: Address) -> Option<VotingError> {
    if !poll.revealed {
        Some(VotingError::NotRevealed)
    } else if poll.creator != closer {
        Some(VotingError::NotAuthorized)
    } else {
        None
    }
}

/// Checks that `closer` may close the poll: its results are revealed and
/// the closer created it.
pub fn close_poll(poll: &Poll, closer: Address) -> (r: Result<(), VotingError>)
    ensures
        match close_refusal(poll@, closer) {
            Some(e) => r == Err::<(), VotingError>(e),
            None => r is Ok,
        },
{
    if !poll.revealed {
        return Err(VotingError::NotRevealed);
    }
    if !(poll.creator == closer) {
        return Err(VotingError::NotAuthorized);
    }
    Ok(())
}

} // verus!
