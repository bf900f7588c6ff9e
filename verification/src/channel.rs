//! Encrypted chat channels: who owns a channel, who is a member, and what a
//! member must stake to join a token-gated one.
//!
//! Token balances live with the token ledger. An operation that locks or
//! releases a stake returns the [`TokenTransfer`] that the ledger must
//! perform together with the change to the records.

use vstd::prelude::*;
use crate::address::Address;

verus! {

/// The most bytes of encrypted metadata a channel may carry.
pub const MAX_METADATA_SIZE: usize = 512;

/// The most members a channel may have.
pub const MAX_MEMBERS: u16 = 100;

/// The kind of a channel.
#[derive(Clone, Copy, Debug, PartialEq, Eq, Structural)]
pub enum ChannelType {
    /// A chat of two.
    DirectMessage,
    /// A group by invitation.
    PrivateGroup,
    /// A group that asks for a token stake.
    TokenGated,
    /// A group anyone may join.
    Public,
}

/// Why a channel operation was refused.
#[derive(Clone, Copy, Debug, PartialEq, Eq, Structural)]
pub enum ErrorCode {
    /// The metadata is longer than `MAX_METADATA_SIZE`.
    MetadataTooLarge,
    /// The channel has `MAX_MEMBERS` members.
    ChannelFull,
    /// The channel has been switched off.
    ChannelInactive,
    /// The wallet holds fewer tokens than the channel asks for.
    InsufficientTokens,
    /// The member record belongs to another channel.
    NotChannelMember,
    /// The member has left.
    MemberNotActive,
    /// The member is in the channel already.
    MemberAlreadyActive,
    /// The caller is not the channel's owner.
    NotChannelOwner,
    /// The caller is not the wallet of the member record.
    UnauthorizedSender,
    /// A token-gated operation was given too few accounts.
    TokenAccountRequired,
    /// The token account belongs to another wallet.
    TokenAccountOwnerMismatch,
    /// The token account holds another token.
    TokenMintMismatch,
    /// The channel asks for no token.
    NotTokenGatedChannel,
    /// A sum does not fit in 64 bits.
    Overflow,
}

impl ErrorCode {
    /// The text shown to a user for each error.
    pub open spec fn text(self) -> Seq<char> {
        match self {
            ErrorCode::MetadataTooLarge => "Metadata size exceeds maximum allowed"@,
            ErrorCode::ChannelFull => "Channel has reached maximum member capacity"@,
            ErrorCode::ChannelInactive => "Channel is not active"@,
            ErrorCode::InsufficientTokens => "Insufficient token balance for channel access"@,
            ErrorCode::NotChannelMember => "Sender is not a member of this channel"@,
            ErrorCode::MemberNotActive => "Member is not active"@,
            ErrorCode::MemberAlreadyActive => "Member is already active in this channel"@,
            ErrorCode::NotChannelOwner => "Only channel owner can perform this action"@,
            ErrorCode::UnauthorizedSender => "Unauthorized sender"@,
            ErrorCode::TokenAccountRequired => "Token account required for token-gated channel"@,
            ErrorCode::TokenAccountOwnerMismatch => "Token account owner does not match wallet"@,
            ErrorCode::TokenMintMismatch => "Token mint does not match channel requirement"@,
            ErrorCode::NotTokenGatedChannel => "Channel is not token-gated"@,
            ErrorCode::Overflow => "Arithmetic overflow"@,
        }
    }

    /// The message for this error.
    pub fn message(&self) -> (s: &'static str)
        ensures
            s@ == self.text(),
    {
        match self {
            ErrorCode::MetadataTooLarge => "Metadata size exceeds maximum allowed",
            ErrorCode::ChannelFull => "Channel has reached maximum member capacity",
            ErrorCode::ChannelInactive => "Channel is not active",
            ErrorCode::InsufficientTokens => "Insufficient token balance for channel access",
            ErrorCode::NotChannelMember => "Sender is not a member of this channel",
            ErrorCode::MemberNotActive => "Member is not active",
            ErrorCode::MemberAlreadyActive => "Member is already active in this channel",
            ErrorCode::NotChannelOwner => "Only channel owner can perform this action",
            ErrorCode::UnauthorizedSender => "Unauthorized sender",
            ErrorCode::TokenAccountRequired => "Token account required for token-gated channel",
            ErrorCode::TokenAccountOwnerMismatch => "Token account owner does not match wallet",
            ErrorCode::TokenMintMismatch => "Token mint does not match channel requirement",
            ErrorCode::NotTokenGatedChannel => "Channel is not token-gated",
            ErrorCode::Overflow => "Arithmetic overflow",
        }
    }
}

/// The record of a channel.
#[derive(Clone, Debug, PartialEq, Eq)]
pub struct Channel {
    /// The number the owner gave the channel.
    pub channel_id: u64,
    /// The owner.
    pub owner: Address,
    /// The channel's metadata, encrypted by the clients.
    pub encrypted_metadata: Vec<u8>,
    /// The kind of channel.
    pub channel_type: ChannelType,
    /// The number of active members.
    pub member_count: u16,
    /// The number of messages logged.
    pub message_count: u64,
    /// When the channel was created, in seconds of Unix time.
    pub created_at: i64,
    /// Whether the channel takes members and messages.
    pub is_active: bool,
    /// The token a member must stake, if any.
    pub required_token_mint: Option<Address>,
    /// The amount of that token a member must stake.
    pub min_token_amount: Option<u64>,
    /// The bump seed of the record's address.
    pub bump: u8,
}

/// A channel record as a mathematical value.
pub struct ChannelView {
    pub channel_id: u64,
    pub owner: Address,
    pub encrypted_metadata: Seq<u8>,
    pub channel_type: ChannelType,
    pub member_count: u16,
    pub message_count: u64,
    pub created_at: i64,
    pub is_active: bool,
    pub required_token_mint: Option<Address>,
    pub min_token_amount: Option<u64>,
    pub bump: u8,
}

impl View for Channel {
    type V = ChannelView;

    open spec fn view(&self) -> ChannelView {
        ChannelView {
            channel_id: self.channel_id,
            owner: self.owner,
            encrypted_metadata: self.encrypted_metadata@,
            channel_type: self.channel_type,
            member_count: self.member_count,
            message_count: self.message_count,
            created_at: self.created_at,
            is_active: self.is_active,
            required_token_mint: self.required_token_mint,
            min_token_amount: self.min_token_amount,
            bump: self.bump,
        }
    }
}

impl Channel {
    /// The bytes a stored channel takes, without the 8-byte tag.
    pub const LEN: usize = 8 + 32 + (4 + MAX_METADATA_SIZE) + 1 + 2 + 8 + 8 + 1 + 33 + 9 + 1;
}

/// The record of one wallet's membership in one channel.
#[derive(Clone, Copy, Debug, PartialEq, Eq)]
pub struct Member {
    /// The channel.
    pub channel: Address,
    /// The member's wallet.
    pub wallet: Address,
    /// When the member last joined, in seconds of Unix time.
    pub joined_at: i64,
    /// Whether the member is in the channel now.
    pub is_active: bool,
    /// The bump seed of the record's address.
    pub bump: u8,
}

impl Member {
    /// The bytes a stored member record takes, without the 8-byte tag.
    pub const LEN: usize = 32 + 32 + 8 + 1 + 1;
}

/// The record of a channel's vault of staked tokens.
#[derive(Clone, Copy, Debug, PartialEq, Eq)]
pub struct TokenVault {
    /// The channel.
    pub channel: Address,
    /// The token the vault holds.
    pub token_mint: Address,
    /// The sum of all stakes locked in the vault.
    pub total_locked: u64,
    /// The bump seed of the record's address.
    pub bump: u8,
    /// The bump seed of the address that signs for the vault.
    pub auth_bump: u8,
}

impl TokenVault {
    /// The bytes a stored vault record takes, without the 8-byte tag.
    pub const LEN: usize = 32 + 32 + 8 + 1 + 1;
}

/// The record of one member's stake in one channel.
#[derive(Clone, Copy, Debug, PartialEq, Eq)]
pub struct MemberStake {
    /// The member's wallet.
    pub member: Address,
    /// The channel.
    pub channel: Address,
    /// The amount locked; 0 once it has been returned.
    pub locked_amount: u64,
    /// When the stake was locked, in seconds of Unix time.
    pub lock_timestamp: i64,
    /// The bump seed of the record's address.
    pub bump: u8,
}

impl MemberStake {
    /// The bytes a stored stake record takes, without the 8-byte tag.
    pub const LEN: usize = 32 + 32 + 8 + 8 + 1;
}

/// The notice that a message was logged.
#[derive(Clone, Debug, PartialEq, Eq)]
pub struct MessageLogged {
    /// The channel.
    pub channel: Address,
    /// The sender's wallet.
    pub sender: Address,
    /// The hash of the message; the message itself is kept elsewhere.
    pub message_hash: [u8; 32],
    /// Where the message is kept, encrypted.
    pub encrypted_ipfs_cid: Vec<u8>,
    /// The number of the message in its channel, from 1.
    pub message_number: u64,
    /// When the message was logged, in seconds of Unix time.
    pub timestamp: i64,
}

/// What is read of a token account: whose it is, of which token, how much.
#[derive(Clone, Copy, Debug, PartialEq, Eq)]
pub struct TokenHolding {
    pub owner: Address,
    pub mint: Address,
    pub amount: u64,
}

/// One movement of staked tokens between a member's wallet and a vault.
#[derive(Clone, Copy, Debug, PartialEq, Eq)]
pub enum TokenTransfer {
    /// `amount` leaves the token account of `wallet` for the vault.
    Lock { wallet: Address, amount: u64 },
    /// `amount` leaves the vault for the token account of `wallet`.
    Release { wallet: Address, amount: u64 },
}

/// The channel that `owner` has just created.
pub open spec fn new_channel(
    owner: Address,
    channel_id: u64,
    encrypted_metadata: Seq<u8>,
    channel_type: ChannelType,
    created_at: i64,
    bump: u8,
) -> ChannelView {
    ChannelView {
        channel_id,
        owner,
        encrypted_metadata,
        channel_type,
        member_count: 1,
        message_count: 0,
        created_at,
        is_active: true,
        required_token_mint: None,
        min_token_amount: None,
        bump,
    }
}

/// Creates a channel whose first member is its owner. Refused with
/// `MetadataTooLarge` for metadata of more than `MAX_METADATA_SIZE` bytes.
pub fn create_channel(
    owner: Address,
    channel_id: u64,
    encrypted_metadata: Vec<u8>,
    channel_type: ChannelType,
    created_at: i64,
    bump: u8,
) -> (r: Result<Channel, ErrorCode>)
    ensures
        encrypted_metadata@.len() > MAX_METADATA_SIZE ==> r == Err::<Channel, ErrorCode>(
            ErrorCode::MetadataTooLarge,
        ),
        encrypted_metadata@.len() <= MAX_METADATA_SIZE ==> r is Ok && r->Ok_0@ == new_channel(
            owner,
            channel_id,
            encrypted_metadata@,
            channel_type,
            created_at,
            bump,
        ),
{
    if encrypted_metadata.len() > MAX_METADATA_SIZE {
        return Err(ErrorCode::MetadataTooLarge);
    }
    Ok(
        Channel {
            channel_id,
            owner,
            encrypted_metadata,
            channel_type,
            member_count: 1,
            message_count: 0,
            created_at,
            is_active: true,
            required_token_mint: None,
            min_token_amount: None,
            bump,
        },
    )
}

/// Creates a channel and the creator's member record in one step. Refused
/// with `MetadataTooLarge` for metadata of more than `MAX_METADATA_SIZE`
/// bytes.
pub fn create_channel_and_join(
    creator: Address,
    channel_key: Address,
    channel_id: u64,
    encrypted_metadata: Vec<u8>,
    channel_type: ChannelType,
    created_at: i64,
    channel_bump: u8,
    member_bump: u8,
) -> (r: Result<(Channel, Member), ErrorCode>)
    ensures
        encrypted_metadata@.len() > MAX_METADATA_SIZE ==> r == Err::<(Channel, Member), ErrorCode>(
            ErrorCode::MetadataTooLarge,
        ),
        encrypted_metadata@.len() <= MAX_METADATA_SIZE ==> r is Ok && r->Ok_0.0@ == new_channel(
            creator,
            channel_id,
            encrypted_metadata@,
            channel_type,
            created_at,
            channel_bump,
        ) && r->Ok_0.1 == (Member {
            channel: channel_key,
            wallet: creator,
            joined_at: created_at,
            is_active: true,
            bump: member_bump,
        }),
{
    if encrypted_metadata.len() > MAX_METADATA_SIZE {
        return Err(ErrorCode::MetadataTooLarge);
    }
    let channel = Channel {
        channel_id,
        owner: creator,
        encrypted_metadata,
        channel_type,
        member_count: 1,
        message_count: 0,
        created_at,
        is_active: true,
        required_token_mint: None,
        min_token_amount: None,
        bump: channel_bump,
    };
    let member = Member {
        channel: channel_key,
        wallet: creator,
        joined_at: created_at,
        is_active: true,
        bump: member_bump,
    };
    Ok((channel, member))
}


/// Changes a channel's metadata, its activity, both or neither. Refused
/// with `NotChannelOwner` unless the caller owns the channel, then with
/// `MetadataTooLarge` for new metadata of more than `MAX_METADATA_SIZE`
/// bytes; a refused update changes nothing.
pub fn update_channel(
    channel: &mut Channel,
    caller: Address,
    new_encrypted_metadata: Option<Vec<u8>>,
    new_is_active: Option<bool>,
) -> (r: Result<(), ErrorCode>)
    ensures
        old(channel).owner != caller ==> r == Err::<(), ErrorCode>(ErrorCode::NotChannelOwner),
        old(channel).owner == caller && new_encrypted_metadata is Some
            && new_encrypted_metadata->0@.len() > MAX_METADATA_SIZE ==> r == Err::<(), ErrorCode>(
            ErrorCode::MetadataTooLarge,
        ),
        old(channel).owner == caller && (new_encrypted_metadata matches Some(m) ==> m@.len()
            <= MAX_METADATA_SIZE) ==> r is Ok,
        r is Err ==> final(channel)@ == old(channel)@,
        r is Ok ==> final(channel)@ == (ChannelView {
            encrypted_metadata: match new_encrypted_metadata {
                Some(m) => m@,
                None => old(channel)@.encrypted_metadata,
            },
            is_active: match new_is_active {
                Some(active) => active,
                None => old(channel).is_active,
            },
            ..old(channel)@
        }),
{
    if !(channel.owner == caller) {
        return Err(ErrorCode::NotChannelOwner);
    }
    match new_encrypted_metadata {
        Some(metadata) => {
            if metadata.len() > MAX_METADATA_SIZE {
                return Err(ErrorCode::MetadataTooLarge);
            }
            channel.encrypted_metadata = metadata;
        },
        None => {},
    }
    match new_is_active {
        Some(is_active) => {
            channel.is_active = is_active;
        },
        None => {},
    }
    Ok(())
}

/// Makes a channel ask every joining wallet for a stake of
/// `min_token_amount` of the token `required_token_mint`. Refused with
/// `NotChannelOwner` unless the caller owns the channel.
pub fn set_token_gate(
    channel: &mut Channel,
    caller: Address,
    required_token_mint: Address,
    min_token_amount: u64,
) -> (r: Result<(), ErrorCode>)
    ensures
        old(channel).owner != caller ==> r == Err::<(), ErrorCode>(ErrorCode::NotChannelOwner)
            && final(channel)@ == old(channel)@,
        old(channel).owner == caller ==> r is Ok && final(channel)@ == (ChannelView {
            required_token_mint: Some(required_token_mint),
            min_token_amount: Some(min_token_amount),
            ..old(channel)@
        }),
{
    if !(channel.owner == caller) {
        return Err(ErrorCode::NotChannelOwner);
    }
    channel.required_token_mint = Some(required_token_mint);
    channel.min_token_amount = Some(min_token_amount);
    Ok(())
}

/// Opening the vault of a token-gated channel. Refused with
/// `NotTokenGatedChannel` where the channel asks for no token, then with
/// `NotChannelOwner` unless the caller owns the channel. Otherwise an empty
/// vault for the channel's token.
pub open spec fn vault_step(
    channel: ChannelView,
    channel_key: Address,
    caller: Address,
    bump: u8,
    auth_bump: u8,
) -> Result<TokenVault, ErrorCode> {
    match channel.required_token_mint {
        None => Err(ErrorCode::NotTokenGatedChannel),
        Some(token_mint) => if channel.owner != caller {
            Err(ErrorCode::NotChannelOwner)
        } else {
            Ok(TokenVault { channel: channel_key, token_mint, total_locked: 0, bump, auth_bump })
        },
    }
}

/// Opens the vault that will hold the stakes of a token-gated channel.
pub fn initialize_vault(
    channel: &Channel,
    channel_key: Address,
    caller: Address,
    bump: u8,
    auth_bump: u8,
) -> (r: Result<TokenVault, ErrorCode>)
    ensures
        r == vault_step(channel@, channel_key, caller, bump, auth_bump),
{
    match channel.required_token_mint {
        None => Err(ErrorCode::NotTokenGatedChannel),
        Some(token_mint) => {
            if !(channel.owner == caller) {
                return Err(ErrorCode::NotChannelOwner);
            }
            Ok(TokenVault { channel: channel_key, token_mint, total_locked: 0, bump, auth_bump })
        },
    }
}

/// Why a message is not logged, if it is not. In this order:
/// `NotChannelMember` where the member record is of another channel,
/// `UnauthorizedSender` where it is of another wallet, `ChannelInactive`,
/// `MemberNotActive`, and `Overflow` where the message counter is at its
/// limit.
pub open spec fn log_refusal(
    channel: ChannelView,
    channel_key: Address,
    member: Member,
    sender: Address,
) -> Option<ErrorCode> {
    if member.channel != channel_key {
        Some(ErrorCode::NotChannelMember)
    } else if member.wallet != sender {
        Some(ErrorCode::UnauthorizedSender)
    } else if !channel.is_active {
        Some(ErrorCode::ChannelInactive)
    } else if !member.is_active {
        Some(ErrorCode::MemberNotActive)
    } else if channel.message_count == u64::MAX {
        Some(ErrorCode::Overflow)
    } else {
        None
    }
}

/// Logs the hash of a message sent by an active member: counts the message
/// and returns the notice of it, numbered with the new count.
pub fn log_message(
    channel: &mut Channel,
    channel_key: Address,
    member: &Member,
    sender: Address,
    message_hash: [u8; 32],
    encrypted_ipfs_cid: Vec<u8>,
    timestamp: i64,
) -> (r: Result<MessageLogged, ErrorCode>)
    ensures
        match log_refusal(old(channel)@, channel_key, *member, sender) {
            Some(e) => r == Err::<MessageLogged, ErrorCode>(e) && final(channel)@ == old(
                channel,
            )@,
            None => {
                &&& final(channel)@ == (ChannelView {
                    message_count: (old(channel).message_count + 1) as u64,
                    ..old(channel)@
                })
                &&& r matches Ok(logged)
                &&& logged.channel == channel_key
                &&& logged.sender == sender
                &&& logged.message_hash == message_hash
                &&& logged.encrypted_ipfs_cid@ == encrypted_ipfs_cid@
                &&& logged.message_number == old(channel).message_count + 1
                &&& logged.timestamp == timestamp
            },
        },
{
    if !(member.channel == channel_key) {
        return Err(ErrorCode::NotChannelMember);
    }
    if !(member.wallet == sender) {
        return Err(ErrorCode::UnauthorizedSender);
    }
    if !channel.is_active {
        return Err(ErrorCode::ChannelInactive);
    }
    if !member.is_active {
        return Err(ErrorCode::MemberNotActive);
    }
    if channel.message_count == u64::MAX {
        return Err(ErrorCode::Overflow);
    }
    channel.message_count += 1;
    Ok(
        MessageLogged {
            channel: channel_key,
            sender,
            message_hash,
            encrypted_ipfs_cid,
            message_number: channel.message_count,
            timestamp,
        },
    )
}


/// The token accounts that an operation on a token-gated channel is given,
/// each as far as it is read.
#[derive(Clone, Copy, Debug, PartialEq, Eq)]
pub struct StakeAccounts {
    /// The wallet's account of the channel's token.
    pub user_token_account: Option<TokenHolding>,
    /// The channel's vault record.
    pub token_vault: Option<TokenVault>,
    /// Whether the vault's token account is given.
    pub vault_token_account: bool,
    /// Whether the address that signs for the vault is given.
    pub vault_authority: bool,
    /// Whether the token program is given.
    pub token_program: bool,
}

/// What a channel asks of a joining wallet: the token and the amount, where
/// both are set.
pub open spec fn gate(channel: ChannelView) -> Option<(Address, u64)> {
    match (channel.required_token_mint, channel.min_token_amount) {
        (Some(mint), Some(amount)) => Some((mint, amount)),
        _ => None,
    }
}

/// Locking a stake of `amount` of the token `mint` for `wallet`, where a
/// stake record is at hand or not. Refused, in this order, with
/// `TokenAccountRequired` without the wallet's token account, with
/// `TokenAccountOwnerMismatch` where that account is another wallet's, with
/// `TokenMintMismatch` where it holds another token, with
/// `InsufficientTokens` where it holds less than `amount`, with
/// `TokenAccountRequired` without the vault's token account, the vault, the
/// stake record or the token program, and with `Overflow` where the vault's
/// total does not fit in 64 bits. Otherwise the vault with `amount` added
/// to its total.
pub open spec fn lock_step(
    mint: Address,
    amount: u64,
    wallet: Address,
    accounts: StakeAccounts,
    has_stake_record: bool,
) -> Result<TokenVault, ErrorCode> {
    match accounts.user_token_account {
        None => Err(ErrorCode::TokenAccountRequired),
        Some(holding) => if holding.owner != wallet {
            Err(ErrorCode::TokenAccountOwnerMismatch)
        } else if holding.mint != mint {
            Err(ErrorCode::TokenMintMismatch)
        } else if holding.amount < amount {
            Err(ErrorCode::InsufficientTokens)
        } else if !accounts.vault_token_account {
            Err(ErrorCode::TokenAccountRequired)
        } else {
            match accounts.token_vault {
                None => Err(ErrorCode::TokenAccountRequired),
                Some(vault) => if !has_stake_record || !accounts.token_program {
                    Err(ErrorCode::TokenAccountRequired)
                } else if vault.total_locked + amount > u64::MAX {
                    Err(ErrorCode::Overflow)
                } else {
                    Ok(TokenVault { total_locked: (vault.total_locked + amount) as u64, ..vault })
                },
            }
        },
    }
}

/// Checks what a token gate asks of `wallet` and adds the stake to the
/// vault's total.
pub fn lock_stake(
    mint: Address,
    amount: u64,
    wallet: Address,
    accounts: &StakeAccounts,
    has_stake_record: bool,
) -> (r: Result<TokenVault, ErrorCode>)
    ensures
        r == lock_step(mint, amount, wallet, *accounts, has_stake_record),
{
    let holding = match accounts.user_token_account {
        Some(holding) => holding,
        None => {
            return Err(ErrorCode::TokenAccountRequired);
        },
    };
    if !(holding.owner == wallet) {
        return Err(ErrorCode::TokenAccountOwnerMismatch);
    }
    if !(holding.mint == mint) {
        return Err(ErrorCode::TokenMintMismatch);
    }
    if holding.amount < amount {
        return Err(ErrorCode::InsufficientTokens);
    }
    if !accounts.vault_token_account {
        return Err(ErrorCode::TokenAccountRequired);
    }
    let vault = match accounts.token_vault {
        Some(vault) => vault,
        None => {
            return Err(ErrorCode::TokenAccountRequired);
        },
    };
    if !has_stake_record || !accounts.token_program {
        return Err(ErrorCode::TokenAccountRequired);
    }
    match vault.total_locked.checked_add(amount) {
        Some(total_locked) => Ok(
            TokenVault {
                channel: vault.channel,
                token_mint: vault.token_mint,
                total_locked,
                bump: vault.bump,
                auth_bump: vault.auth_bump,
            },
        ),
        None => Err(ErrorCode::Overflow),
    }
}

/// What a join needs to know of its accounts.
#[derive(Clone, Copy, Debug, PartialEq, Eq)]
pub struct JoinChannel {
    /// The address of the channel record.
    pub channel_key: Address,
    /// The joining wallet.
    pub member_wallet: Address,
    /// The bump seed of the member record to create.
    pub member_bump: u8,
    /// The bump seed of the stake record to create, where one is given.
    pub member_stake_bump: Option<u8>,
    /// The token accounts.
    pub stake_accounts: StakeAccounts,
}

/// A stake that was locked or released: the vault and the stake record as
/// they are afterwards, and the movement of tokens to perform.
#[derive(Clone, Copy, Debug, PartialEq, Eq)]
pub struct StakeChange {
    pub vault: TokenVault,
    pub stake: MemberStake,
    pub transfer: TokenTransfer,
}

/// What a join has made: the member record and, where the channel is token
/// gated, the locked stake.
#[derive(Clone, Copy, Debug, PartialEq, Eq)]
pub struct Joined {
    pub member: Member,
    pub staked: Option<StakeChange>,
}

/// A join. Refused, in this order, with `ChannelInactive`, with
/// `ChannelFull` at `MAX_MEMBERS` members, and, where the channel asks for
/// a stake, as [`lock_step`] says. Otherwise a new active member record for
/// the wallet; where the channel asks for a stake, also the vault with the
/// stake added, a new stake record of that amount, and the transfer that
/// locks it.
pub open spec fn join_step(channel: ChannelView, ctx: JoinChannel, now: i64) -> Result<
    Joined,
    ErrorCode,
> {
    let member = Member {
        channel: ctx.channel_key,
        wallet: ctx.member_wallet,
        joined_at: now,
        is_active: true,
        bump: ctx.member_bump,
    };
    if !channel.is_active {
        Err(ErrorCode::ChannelInactive)
    } else if channel.member_count >= MAX_MEMBERS {
        Err(ErrorCode::ChannelFull)
    } else {
        match gate(channel) {
            None => Ok(Joined { member, staked: None }),
            Some((mint, amount)) => match lock_step(
                mint,
                amount,
                ctx.member_wallet,
                ctx.stake_accounts,
                ctx.member_stake_bump is Some,
            ) {
                Err(e) => Err(e),
                Ok(vault) => Ok(
                    Joined {
                        member,
                        staked: Some(
                            StakeChange {
                                vault,
                                stake: MemberStake {
                                    member: ctx.member_wallet,
                                    channel: ctx.channel_key,
                                    locked_amount: amount,
                                    lock_timestamp: now,
                                    bump: ctx.member_stake_bump->0,
                                },
                                transfer: TokenTransfer::Lock {
                                    wallet: ctx.member_wallet,
                                    amount,
                                },
                            },
                        ),
                    },
                ),
            },
        }
    }
}

/// Adds a wallet to a channel as a new member, locking the stake that a
/// token-gated channel asks for. An accepted join adds one to the channel's
/// member count; a refused one changes nothing.
pub fn join_channel(channel: &mut Channel, ctx: &JoinChannel, now: i64) -> (r: Result<
    Joined,
    ErrorCode,
>)
    ensures
        r == join_step(old(channel)@, *ctx, now),
        r is Err ==> final(channel)@ == old(channel)@,
        r is Ok ==> final(channel)@ == (ChannelView {
            member_count: (old(channel).member_count + 1) as u16,
            ..old(channel)@
        }),
{
    if !channel.is_active {
        return Err(ErrorCode::ChannelInactive);
    }
    if channel.member_count >= MAX_MEMBERS {
        return Err(ErrorCode::ChannelFull);
    }
    let member = Member {
        channel: ctx.channel_key,
        wallet: ctx.member_wallet,
        joined_at: now,
        is_active: true,
        bump: ctx.member_bump,
    };
    let staked = match (channel.required_token_mint, channel.min_token_amount) {
        (Some(mint), Some(amount)) => {
            let vault = match lock_stake(
                mint,
                amount,
                ctx.member_wallet,
                &ctx.stake_accounts,
                ctx.member_stake_bump.is_some(),
            ) {
                Ok(vault) => vault,
                Err(e) => {
                    return Err(e);
                },
            };
            let bump = match ctx.member_stake_bump {
                Some(bump) => bump,
                None => {
                    return Err(ErrorCode::TokenAccountRequired);
                },
            };
            Some(
                StakeChange {
                    vault,
                    stake: MemberStake {
                        member: ctx.member_wallet,
                        channel: ctx.channel_key,
                        locked_amount: amount,
                        lock_timestamp: now,
                        bump,
                    },
                    transfer: TokenTransfer::Lock { wallet: ctx.member_wallet, amount },
                },
            )
        },
        _ => None,
    };
    channel.member_count += 1;
    Ok(Joined { member, staked })
}

/// What a rejoin needs to know of its accounts.
#[derive(Clone, Copy, Debug, PartialEq, Eq)]
pub struct RejoinChannel {
    /// The rejoining wallet.
    pub member_wallet: Address,
    /// The stake record of the wallet's earlier membership, where given.
    pub member_stake: Option<MemberStake>,
    /// The token accounts.
    pub stake_accounts: StakeAccounts,
}

/// A rejoin. Refused, in this order, with `UnauthorizedSender` where the
/// member record is of another wallet, with `ChannelInactive`, with
/// `MemberAlreadyActive`, with `ChannelFull` at `MAX_MEMBERS` members, and,
/// where the channel asks for a stake, as [`lock_step`] says. Otherwise the
/// member record is active again from `now`; where the channel asks for a
/// stake, the vault has the stake added, the old stake record holds that
/// amount from `now`, and the transfer locks it.
pub open spec fn rejoin_step(channel: ChannelView, member: Member, ctx: RejoinChannel, now: i64)
    -> Result<(Member, Option<StakeChange>), ErrorCode> {
    let rejoined = Member { is_active: true, joined_at: now, ..member };
    if member.wallet != ctx.member_wallet {
        Err(ErrorCode::UnauthorizedSender)
    } else if !channel.is_active {
        Err(ErrorCode::ChannelInactive)
    } else if member.is_active {
        Err(ErrorCode::MemberAlreadyActive)
    } else if channel.member_count >= MAX_MEMBERS {
        Err(ErrorCode::ChannelFull)
    } else {
        match gate(channel) {
            None => Ok((rejoined, None)),
            Some((mint, amount)) => match lock_step(
                mint,
                amount,
                ctx.member_wallet,
                ctx.stake_accounts,
                ctx.member_stake is Some,
            ) {
                Err(e) => Err(e),
                Ok(vault) => Ok(
                    (
                        rejoined,
                        Some(
                            StakeChange {
                                vault,
                                stake: MemberStake {
                                    locked_amount: amount,
                                    lock_timestamp: now,
                                    ..ctx.member_stake->0
                                },
                                transfer: TokenTransfer::Lock {
                                    wallet: ctx.member_wallet,
                                    amount,
                                },
                            },
                        ),
                    ),
                ),
            },
        }
    }
}

/// Brings a member who has left back into the channel, locking the stake
/// anew where the channel asks for one. An accepted rejoin adds one to the
/// channel's member count; a refused one changes nothing.
pub fn rejoin_channel(channel: &mut Channel, member: &mut Member, ctx: &RejoinChannel, now: i64)
    -> (r: Result<Option<StakeChange>, ErrorCode>)
    ensures
        match rejoin_step(old(channel)@, *old(member), *ctx, now) {
            Err(e) => {
                &&& r == Err::<Option<StakeChange>, ErrorCode>(e)
                &&& final(channel)@ == old(channel)@
                &&& *final(member) == *old(member)
            },
            Ok((rejoined, staked)) => {
                &&& r == Ok::<Option<StakeChange>, ErrorCode>(staked)
                &&& *final(member) == rejoined
                &&& final(channel)@ == (ChannelView {
                    member_count: (old(channel).member_count + 1) as u16,
                    ..old(channel)@
                })
            },
        },
{
    if !(member.wallet == ctx.member_wallet) {
        return Err(ErrorCode::UnauthorizedSender);
    }
    if !channel.is_active {
        return Err(ErrorCode::ChannelInactive);
    }
    if member.is_active {
        return Err(ErrorCode::MemberAlreadyActive);
    }
    if channel.member_count >= MAX_MEMBERS {
        return Err(ErrorCode::ChannelFull);
    }
    let staked = match (channel.required_token_mint, channel.min_token_amount) {
        (Some(mint), Some(amount)) => {
            let vault = match lock_stake(
                mint,
                amount,
                ctx.member_wallet,
                &ctx.stake_accounts,
                ctx.member_stake.is_some(),
            ) {
                Ok(vault) => vault,
                Err(e) => {
                    return Err(e);
                },
            };
            let old_stake = match ctx.member_stake {
                Some(stake) => stake,
                None => {
                    return Err(ErrorCode::TokenAccountRequired);
                },
            };
            Some(
                StakeChange {
                    vault,
                    stake: MemberStake {
                        member: old_stake.member,
                        channel: old_stake.channel,
                        locked_amount: amount,
                        lock_timestamp: now,
                        bump: old_stake.bump,
                    },
                    transfer: TokenTransfer::Lock { wallet: ctx.member_wallet, amount },
                },
            )
        },
        _ => None,
    };
    member.is_active = true;
    member.joined_at = now;
    channel.member_count += 1;
    Ok(staked)
}

/// What a leave needs to know of its accounts.
#[derive(Clone, Copy, Debug, PartialEq, Eq)]
pub struct LeaveChannel {
    /// The leaving wallet.
    pub member_wallet: Address,
    /// The wallet's stake record, where given.
    pub member_stake: Option<MemberStake>,
    /// The token accounts.
    pub stake_accounts: StakeAccounts,
}

/// The stake to return on leaving: the one of the given stake record, where
/// it still holds something.
pub open spec fn stake_to_return(ctx: LeaveChannel) -> Option<MemberStake> {
    match ctx.member_stake {
        Some(stake) => if stake.locked_amount > 0 {
            Some(stake)
        } else {
            None
        },
        None => None,
    }
}

/// A leave. Refused with `UnauthorizedSender` where the member record is of
/// another wallet and, where a stake is to be returned, with
/// `TokenAccountRequired` unless the vault, its token account, the wallet's
/// token account, the vault's signing address and the token program are all
/// given. Otherwise the stake, where there is one to return, leaves the
/// vault: the vault's total goes down by it, but not below 0, the stake
/// record holds nothing, and the transfer releases the whole amount.
pub open spec fn leave_step(member: Member, ctx: LeaveChannel) -> Result<
    Option<StakeChange>,
    ErrorCode,
> {
    if member.wallet != ctx.member_wallet {
        Err(ErrorCode::UnauthorizedSender)
    } else {
        match stake_to_return(ctx) {
            None => Ok(None),
            Some(stake) => {
                let accounts = ctx.stake_accounts;
                if accounts.token_vault is None || !accounts.vault_token_account
                    || accounts.user_token_account is None || !accounts.vault_authority
                    || !accounts.token_program {
                    Err(ErrorCode::TokenAccountRequired)
                } else {
                    let vault = accounts.token_vault->0;
                    Ok(
                        Some(
                            StakeChange {
                                vault: TokenVault {
                                    total_locked: if vault.total_locked >= stake.locked_amount {
                                        (vault.total_locked - stake.locked_amount) as u64
                                    } else {
                                        0
                                    },
                                    ..vault
                                },
                                stake: MemberStake { locked_amount: 0, ..stake },
                                transfer: TokenTransfer::Release {
                                    wallet: ctx.member_wallet,
                                    amount: stake.locked_amount,
                                },
                            },
                        ),
                    )
                }
            },
        }
    }
}

/// Takes a member out of a channel and returns the member's stake, if one
/// is locked. An accepted leave marks the member record inactive and takes
/// one off the channel's member count, which stays at 0 where it was 0; a
/// refused one changes nothing.
pub fn leave_channel(channel: &mut Channel, member: &mut Member, ctx: &LeaveChannel) -> (r: Result<
    Option<StakeChange>,
    ErrorCode,
>)
    ensures
        r == leave_step(*old(member), *ctx),
        r is Err ==> final(channel)@ == old(channel)@ && *final(member) == *old(member),
        r is Ok ==> *final(member) == (Member { is_active: false, ..*old(member) })
            && final(channel)@ == (ChannelView {
            member_count: if old(channel).member_count > 0 {
                (old(channel).member_count - 1) as u16
            } else {
                0
            },
            ..old(channel)@
        }),
{
    if !(member.wallet == ctx.member_wallet) {
        return Err(ErrorCode::UnauthorizedSender);
    }
    let returned = match ctx.member_stake {
        Some(stake) => {
            if stake.locked_amount > 0 {
                let accounts = &ctx.stake_accounts;
                let vault = match accounts.token_vault {
                    Some(vault) => vault,
                    None => {
                        return Err(ErrorCode::TokenAccountRequired);
                    },
                };
                if !accounts.vault_token_account || accounts.user_token_account.is_none()
                    || !accounts.vault_authority || !accounts.token_program {
                    return Err(ErrorCode::TokenAccountRequired);
                }
                Some(
                    StakeChange {
                        vault: TokenVault {
                            channel: vault.channel,
                            token_mint: vault.token_mint,
                            total_locked: vault.total_locked.saturating_sub(stake.locked_amount),
                            bump: vault.bump,
                            auth_bump: vault.auth_bump,
                        },
                        stake: MemberStake {
                            member: stake.member,
                            channel: stake.channel,
                            locked_amount: 0,
                            lock_timestamp: stake.lock_timestamp,
                            bump: stake.bump,
                        },
                        transfer: TokenTransfer::Release {
                            wallet: ctx.member_wallet,
                            amount: stake.locked_amount,
                        },
                    },
                )
            } else {
                None
            }
        },
        None => None,
    };
    member.is_active = false;
    channel.member_count = channel.member_count.saturating_sub(1);
    Ok(returned)
}

} // verus!
