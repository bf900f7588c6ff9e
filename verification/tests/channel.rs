use shield_chat::address::Address;
use shield_chat::channel::{
    create_channel, create_channel_and_join, initialize_vault, join_channel, leave_channel,
    lock_stake, log_message, rejoin_channel, set_token_gate, update_channel, Channel, ChannelType,
    ErrorCode, JoinChannel, Joined, LeaveChannel, Member, MemberStake, MessageLogged,
    RejoinChannel, StakeAccounts, StakeChange, TokenHolding, TokenTransfer, TokenVault,
    MAX_MEMBERS, MAX_METADATA_SIZE,
};

fn addr(tag: u8) -> Address {
    Address::new([tag; 32])
}

fn owner() -> Address {
    addr(1)
}

fn wallet() -> Address {
    addr(2)
}

fn other() -> Address {
    addr(3)
}

fn channel_key() -> Address {
    addr(0xCC)
}

fn mint() -> Address {
    addr(0x77)
}

fn open_channel() -> Channel {
    create_channel(owner(), 9, vec![1, 2, 3], ChannelType::Public, 1_000, 250).unwrap()
}

fn gated_channel(amount: u64) -> Channel {
    let mut channel = open_channel();
    set_token_gate(&mut channel, owner(), mint(), amount).unwrap();
    channel
}

fn vault(total_locked: u64) -> TokenVault {
    TokenVault { channel: channel_key(), token_mint: mint(), total_locked, bump: 5, auth_bump: 6 }
}

fn no_accounts() -> StakeAccounts {
    StakeAccounts {
        user_token_account: None,
        token_vault: None,
        vault_token_account: false,
        vault_authority: false,
        token_program: false,
    }
}

fn all_accounts(balance: u64, locked: u64) -> StakeAccounts {
    StakeAccounts {
        user_token_account: Some(TokenHolding { owner: wallet(), mint: mint(), amount: balance }),
        token_vault: Some(vault(locked)),
        vault_token_account: true,
        vault_authority: true,
        token_program: true,
    }
}

fn join_ctx(stake_accounts: StakeAccounts, member_stake_bump: Option<u8>) -> JoinChannel {
    JoinChannel {
        channel_key: channel_key(),
        member_wallet: wallet(),
        member_bump: 11,
        member_stake_bump,
        stake_accounts,
    }
}

fn member(is_active: bool) -> Member {
    Member { channel: channel_key(), wallet: wallet(), joined_at: 500, is_active, bump: 11 }
}

fn stake(locked_amount: u64) -> MemberStake {
    MemberStake {
        member: wallet(),
        channel: channel_key(),
        locked_amount,
        lock_timestamp: 400,
        bump: 12,
    }
}

#[test]
fn create_channel_sets_every_field() {
    let channel =
        create_channel(owner(), 42, vec![9, 8, 7], ChannelType::PrivateGroup, 1_234, 200).unwrap();
    assert_eq!(
        channel,
        Channel {
            channel_id: 42,
            owner: owner(),
            encrypted_metadata: vec![9, 8, 7],
            channel_type: ChannelType::PrivateGroup,
            member_count: 1,
            message_count: 0,
            created_at: 1_234,
            is_active: true,
            required_token_mint: None,
            min_token_amount: None,
            bump: 200,
        }
    );
}

#[test]
fn create_channel_limits_the_metadata() {
    assert_eq!(MAX_METADATA_SIZE, 512);
    assert!(create_channel(owner(), 1, vec![0; 512], ChannelType::Public, 0, 0).is_ok());
    assert!(create_channel(owner(), 1, vec![], ChannelType::Public, 0, 0).is_ok());
    assert_eq!(
        create_channel(owner(), 1, vec![0; 513], ChannelType::Public, 0, 0),
        Err(ErrorCode::MetadataTooLarge)
    );
}

#[test]
fn create_channel_and_join_makes_the_creator_a_member() {
    let (channel, member) = create_channel_and_join(
        owner(),
        channel_key(),
        7,
        vec![5; 10],
        ChannelType::DirectMessage,
        99,
        3,
        4,
    )
    .unwrap();
    assert_eq!(
        channel,
        Channel {
            channel_id: 7,
            owner: owner(),
            encrypted_metadata: vec![5; 10],
            channel_type: ChannelType::DirectMessage,
            member_count: 1,
            message_count: 0,
            created_at: 99,
            is_active: true,
            required_token_mint: None,
            min_token_amount: None,
            bump: 3,
        }
    );
    assert_eq!(
        member,
        Member { channel: channel_key(), wallet: owner(), joined_at: 99, is_active: true, bump: 4 }
    );
    assert_eq!(
        create_channel_and_join(
            owner(),
            channel_key(),
            7,
            vec![5; 513],
            ChannelType::DirectMessage,
            99,
            3,
            4
        ),
        Err(ErrorCode::MetadataTooLarge)
    );
}

#[test]
fn update_channel_is_for_the_owner() {
    let mut channel = open_channel();
    let before = channel.clone();
    assert_eq!(
        update_channel(&mut channel, other(), Some(vec![1]), Some(false)),
        Err(ErrorCode::NotChannelOwner)
    );
    assert_eq!(channel, before);
}

#[test]
fn update_channel_changes_what_is_given() {
    let mut channel = open_channel();
    let before = channel.clone();
    assert_eq!(update_channel(&mut channel, owner(), None, None), Ok(()));
    assert_eq!(channel, before);
    assert_eq!(update_channel(&mut channel, owner(), Some(vec![4, 4]), None), Ok(()));
    assert_eq!(channel, Channel { encrypted_metadata: vec![4, 4], ..before.clone() });
    assert_eq!(update_channel(&mut channel, owner(), None, Some(false)), Ok(()));
    assert_eq!(
        channel,
        Channel { encrypted_metadata: vec![4, 4], is_active: false, ..before.clone() }
    );
    assert_eq!(update_channel(&mut channel, owner(), Some(vec![0; 512]), Some(true)), Ok(()));
    assert_eq!(channel, Channel { encrypted_metadata: vec![0; 512], ..before });
}

#[test]
fn update_channel_refuses_large_metadata_whole() {
    let mut channel = open_channel();
    let before = channel.clone();
    assert_eq!(
        update_channel(&mut channel, owner(), Some(vec![0; 513]), Some(false)),
        Err(ErrorCode::MetadataTooLarge)
    );
    assert_eq!(channel, before);
}

#[test]
fn set_token_gate_is_for_the_owner() {
    let mut channel = open_channel();
    let before = channel.clone();
    assert_eq!(
        set_token_gate(&mut channel, other(), mint(), 10),
        Err(ErrorCode::NotChannelOwner)
    );
    assert_eq!(channel, before);
    assert_eq!(set_token_gate(&mut channel, owner(), mint(), 10), Ok(()));
    assert_eq!(
        channel,
        Channel { required_token_mint: Some(mint()), min_token_amount: Some(10), ..before }
    );
}

#[test]
fn initialize_vault_needs_a_gate_and_the_owner() {
    let channel = open_channel();
    assert_eq!(
        initialize_vault(&channel, channel_key(), owner(), 1, 2),
        Err(ErrorCode::NotTokenGatedChannel)
    );
    // Whether the channel asks for a token is looked at before the caller.
    assert_eq!(
        initialize_vault(&channel, channel_key(), other(), 1, 2),
        Err(ErrorCode::NotTokenGatedChannel)
    );
    let channel = gated_channel(10);
    assert_eq!(
        initialize_vault(&channel, channel_key(), other(), 1, 2),
        Err(ErrorCode::NotChannelOwner)
    );
    assert_eq!(
        initialize_vault(&channel, channel_key(), owner(), 1, 2),
        Ok(TokenVault {
            channel: channel_key(),
            token_mint: mint(),
            total_locked: 0,
            bump: 1,
            auth_bump: 2
        })
    );
}

#[test]
fn log_message_counts_and_reports() {
    let mut channel = open_channel();
    let before = channel.clone();
    let logged =
        log_message(&mut channel, channel_key(), &member(true), wallet(), [7; 32], vec![1, 2], 55)
            .unwrap();
    assert_eq!(
        logged,
        MessageLogged {
            channel: channel_key(),
            sender: wallet(),
            message_hash: [7; 32],
            encrypted_ipfs_cid: vec![1, 2],
            message_number: 1,
            timestamp: 55,
        }
    );
    assert_eq!(channel, Channel { message_count: 1, ..before });
    let logged =
        log_message(&mut channel, channel_key(), &member(true), wallet(), [8; 32], vec![], 56)
            .unwrap();
    assert_eq!(logged.message_number, 2);
    assert_eq!(channel.message_count, 2);
}

#[test]
fn log_message_refusals_in_order() {
    let mut channel = open_channel();
    channel.is_active = false;
    let before = channel.clone();
    let foreign = Member { channel: other(), is_active: false, ..member(true) };
    // Another channel's member record, though the sender is wrong too.
    assert_eq!(
        log_message(&mut channel, channel_key(), &foreign, other(), [0; 32], vec![], 0),
        Err(ErrorCode::NotChannelMember)
    );
    // The member record of another wallet, though the channel is inactive.
    assert_eq!(
        log_message(&mut channel, channel_key(), &member(false), other(), [0; 32], vec![], 0),
        Err(ErrorCode::UnauthorizedSender)
    );
    // An inactive channel, though the member is inactive too.
    assert_eq!(
        log_message(&mut channel, channel_key(), &member(false), wallet(), [0; 32], vec![], 0),
        Err(ErrorCode::ChannelInactive)
    );
    assert_eq!(channel, before);
    channel.is_active = true;
    assert_eq!(
        log_message(&mut channel, channel_key(), &member(false), wallet(), [0; 32], vec![], 0),
        Err(ErrorCode::MemberNotActive)
    );
    channel.message_count = u64::MAX;
    assert_eq!(
        log_message(&mut channel, channel_key(), &member(true), wallet(), [0; 32], vec![], 0),
        Err(ErrorCode::Overflow)
    );
    assert_eq!(channel.message_count, u64::MAX);
}

#[test]
fn join_an_open_channel() {
    let mut channel = open_channel();
    let before = channel.clone();
    let joined = join_channel(&mut channel, &join_ctx(no_accounts(), None), 777).unwrap();
    assert_eq!(
        joined,
        Joined {
            member: Member {
                channel: channel_key(),
                wallet: wallet(),
                joined_at: 777,
                is_active: true,
                bump: 11
            },
            staked: None,
        }
    );
    assert_eq!(channel, Channel { member_count: 2, ..before });
}

#[test]
fn join_needs_an_active_channel_with_room() {
    let mut channel = open_channel();
    channel.is_active = false;
    channel.member_count = MAX_MEMBERS;
    let before = channel.clone();
    assert_eq!(
        join_channel(&mut channel, &join_ctx(no_accounts(), None), 0),
        Err(ErrorCode::ChannelInactive)
    );
    assert_eq!(channel, before);
    channel.is_active = true;
    assert_eq!(
        join_channel(&mut channel, &join_ctx(no_accounts(), None), 0),
        Err(ErrorCode::ChannelFull)
    );
    assert_eq!(channel.member_count, 100);
    channel.member_count = 99;
    assert!(join_channel(&mut channel, &join_ctx(no_accounts(), None), 0).is_ok());
    assert_eq!(channel.member_count, 100);
    assert_eq!(
        join_channel(&mut channel, &join_ctx(no_accounts(), None), 0),
        Err(ErrorCode::ChannelFull)
    );
}

#[test]
fn join_a_gated_channel_locks_the_stake() {
    let mut channel = gated_channel(40);
    let before = channel.clone();
    let joined =
        join_channel(&mut channel, &join_ctx(all_accounts(40, 100), Some(13)), 900).unwrap();
    assert_eq!(
        joined.staked,
        Some(StakeChange {
            vault: vault(140),
            stake: MemberStake {
                member: wallet(),
                channel: channel_key(),
                locked_amount: 40,
                lock_timestamp: 900,
                bump: 13
            },
            transfer: TokenTransfer::Lock { wallet: wallet(), amount: 40 },
        })
    );
    assert!(joined.member.is_active);
    assert_eq!(channel, Channel { member_count: 2, ..before });
}

#[test]
fn a_gate_with_only_a_mint_or_only_an_amount_asks_for_nothing() {
    let mut channel = open_channel();
    channel.required_token_mint = Some(mint());
    let joined = join_channel(&mut channel, &join_ctx(no_accounts(), None), 1).unwrap();
    assert_eq!(joined.staked, None);
    let mut channel = open_channel();
    channel.min_token_amount = Some(5);
    let joined = join_channel(&mut channel, &join_ctx(no_accounts(), None), 1).unwrap();
    assert_eq!(joined.staked, None);
}

#[test]
fn lock_stake_refusals_in_order() {
    let full = all_accounts(40, 100);
    let check = |accounts: StakeAccounts, has_stake: bool| {
        lock_stake(mint(), 40, wallet(), &accounts, has_stake)
    };
    assert_eq!(check(full, true), Ok(vault(140)));
    assert_eq!(
        check(StakeAccounts { user_token_account: None, ..no_accounts() }, false),
        Err(ErrorCode::TokenAccountRequired)
    );
    let holding = |owner: Address, mint: Address, amount: u64| {
        Some(TokenHolding { owner, mint, amount })
    };
    assert_eq!(
        check(
            StakeAccounts { user_token_account: holding(other(), other(), 0), ..no_accounts() },
            false
        ),
        Err(ErrorCode::TokenAccountOwnerMismatch)
    );
    assert_eq!(
        check(
            StakeAccounts { user_token_account: holding(wallet(), other(), 0), ..no_accounts() },
            false
        ),
        Err(ErrorCode::TokenMintMismatch)
    );
    assert_eq!(
        check(
            StakeAccounts { user_token_account: holding(wallet(), mint(), 39), ..no_accounts() },
            false
        ),
        Err(ErrorCode::InsufficientTokens)
    );
    assert_eq!(
        check(StakeAccounts { vault_token_account: false, ..full }, true),
        Err(ErrorCode::TokenAccountRequired)
    );
    assert_eq!(
        check(StakeAccounts { token_vault: None, ..full }, true),
        Err(ErrorCode::TokenAccountRequired)
    );
    assert_eq!(check(full, false), Err(ErrorCode::TokenAccountRequired));
    assert_eq!(
        check(StakeAccounts { token_program: false, ..full }, true),
        Err(ErrorCode::TokenAccountRequired)
    );
    // The vault's signing address is not needed to lock.
    assert_eq!(check(StakeAccounts { vault_authority: false, ..full }, true), Ok(vault(140)));
    assert_eq!(
        check(StakeAccounts { token_vault: Some(vault(u64::MAX - 39)), ..full }, true),
        Err(ErrorCode::Overflow)
    );
    assert_eq!(
        check(StakeAccounts { token_vault: Some(vault(u64::MAX - 40)), ..full }, true),
        Ok(vault(u64::MAX))
    );
}

#[test]
fn a_refused_gated_join_changes_nothing() {
    let mut channel = gated_channel(40);
    let before = channel.clone();
    assert_eq!(
        join_channel(&mut channel, &join_ctx(all_accounts(39, 0), Some(1)), 0),
        Err(ErrorCode::InsufficientTokens)
    );
    assert_eq!(
        join_channel(&mut channel, &join_ctx(all_accounts(40, 0), None), 0),
        Err(ErrorCode::TokenAccountRequired)
    );
    assert_eq!(
        join_channel(&mut channel, &join_ctx(no_accounts(), Some(1)), 0),
        Err(ErrorCode::TokenAccountRequired)
    );
    assert_eq!(channel, before);
}

#[test]
fn leave_without_a_stake() {
    let mut channel = open_channel();
    channel.member_count = 5;
    let before = channel.clone();
    let mut leaving = member(true);
    let ctx =
        LeaveChannel { member_wallet: wallet(), member_stake: None, stake_accounts: no_accounts() };
    assert_eq!(leave_channel(&mut channel, &mut leaving, &ctx), Ok(None));
    assert_eq!(leaving, member(false));
    assert_eq!(channel, Channel { member_count: 4, ..before });
    // A stake record that holds nothing is not returned.
    let ctx = LeaveChannel {
        member_wallet: wallet(),
        member_stake: Some(stake(0)),
        stake_accounts: no_accounts(),
    };
    assert_eq!(leave_channel(&mut channel, &mut leaving, &ctx), Ok(None));
    assert_eq!(channel.member_count, 3);
}

#[test]
fn leave_does_not_count_below_zero() {
    let mut channel = open_channel();
    channel.member_count = 0;
    let mut leaving = member(true);
    let ctx =
        LeaveChannel { member_wallet: wallet(), member_stake: None, stake_accounts: no_accounts() };
    assert_eq!(leave_channel(&mut channel, &mut leaving, &ctx), Ok(None));
    assert_eq!(channel.member_count, 0);
}

#[test]
fn leave_is_for_the_members_own_wallet() {
    let mut channel = open_channel();
    let before = channel.clone();
    let mut leaving = member(true);
    let ctx =
        LeaveChannel { member_wallet: other(), member_stake: None, stake_accounts: no_accounts() };
    assert_eq!(
        leave_channel(&mut channel, &mut leaving, &ctx),
        Err(ErrorCode::UnauthorizedSender)
    );
    assert_eq!(leaving, member(true));
    assert_eq!(channel, before);
}

#[test]
fn leave_returns_the_stake() {
    let mut channel = gated_channel(40);
    channel.member_count = 2;
    let mut leaving = member(true);
    let ctx = LeaveChannel {
        member_wallet: wallet(),
        member_stake: Some(stake(40)),
        stake_accounts: all_accounts(0, 100),
    };
    assert_eq!(
        leave_channel(&mut channel, &mut leaving, &ctx),
        Ok(Some(StakeChange {
            vault: vault(60),
            stake: stake(0),
            transfer: TokenTransfer::Release { wallet: wallet(), amount: 40 },
        }))
    );
    assert!(!leaving.is_active);
    assert_eq!(channel.member_count, 1);
    // A vault that holds less than the stake goes to zero.
    let ctx = LeaveChannel { stake_accounts: all_accounts(0, 10), ..ctx };
    let change = leave_channel(&mut channel, &mut leaving, &ctx).unwrap().unwrap();
    assert_eq!(change.vault.total_locked, 0);
    assert_eq!(change.transfer, TokenTransfer::Release { wallet: wallet(), amount: 40 });
}

#[test]
fn leave_with_a_stake_needs_every_token_account() {
    let full = all_accounts(0, 100);
    for accounts in [
        StakeAccounts { token_vault: None, ..full },
        StakeAccounts { vault_token_account: false, ..full },
        StakeAccounts { user_token_account: None, ..full },
        StakeAccounts { vault_authority: false, ..full },
        StakeAccounts { token_program: false, ..full },
    ] {
        let mut channel = gated_channel(40);
        let before = channel.clone();
        let mut leaving = member(true);
        let ctx = LeaveChannel {
            member_wallet: wallet(),
            member_stake: Some(stake(40)),
            stake_accounts: accounts,
        };
        assert_eq!(
            leave_channel(&mut channel, &mut leaving, &ctx),
            Err(ErrorCode::TokenAccountRequired)
        );
        assert_eq!(leaving, member(true));
        assert_eq!(channel, before);
    }
}

#[test]
fn rejoin_reactivates_the_member() {
    let mut channel = open_channel();
    let before = channel.clone();
    let mut back = member(false);
    let ctx = RejoinChannel {
        member_wallet: wallet(),
        member_stake: None,
        stake_accounts: no_accounts(),
    };
    assert_eq!(rejoin_channel(&mut channel, &mut back, &ctx, 2_000), Ok(None));
    assert_eq!(back, Member { is_active: true, joined_at: 2_000, ..member(false) });
    assert_eq!(channel, Channel { member_count: 2, ..before });
}

#[test]
fn rejoin_refusals_in_order() {
    let mut channel = open_channel();
    channel.is_active = false;
    channel.member_count = MAX_MEMBERS;
    let before = channel.clone();
    let ctx = |member_wallet: Address| RejoinChannel {
        member_wallet,
        member_stake: None,
        stake_accounts: no_accounts(),
    };
    let mut active = member(true);
    assert_eq!(
        rejoin_channel(&mut channel, &mut active, &ctx(other()), 0),
        Err(ErrorCode::UnauthorizedSender)
    );
    assert_eq!(
        rejoin_channel(&mut channel, &mut active, &ctx(wallet()), 0),
        Err(ErrorCode::ChannelInactive)
    );
    channel.is_active = true;
    assert_eq!(
        rejoin_channel(&mut channel, &mut active, &ctx(wallet()), 0),
        Err(ErrorCode::MemberAlreadyActive)
    );
    let mut gone = member(false);
    assert_eq!(
        rejoin_channel(&mut channel, &mut gone, &ctx(wallet()), 0),
        Err(ErrorCode::ChannelFull)
    );
    assert_eq!(active, member(true));
    assert_eq!(gone, member(false));
    assert_eq!(channel, Channel { is_active: true, ..before });
}

#[test]
fn rejoin_a_gated_channel_locks_the_stake_again() {
    let mut channel = gated_channel(25);
    let mut back = member(false);
    let ctx = RejoinChannel {
        member_wallet: wallet(),
        member_stake: Some(stake(0)),
        stake_accounts: all_accounts(30, 5),
    };
    assert_eq!(
        rejoin_channel(&mut channel, &mut back, &ctx, 3_000),
        Ok(Some(StakeChange {
            vault: vault(30),
            stake: MemberStake { locked_amount: 25, lock_timestamp: 3_000, ..stake(0) },
            transfer: TokenTransfer::Lock { wallet: wallet(), amount: 25 },
        }))
    );
    assert!(back.is_active);
    assert_eq!(channel.member_count, 2);

    let mut channel = gated_channel(25);
    let before = channel.clone();
    let mut back = member(false);
    let ctx = RejoinChannel { member_stake: None, ..ctx };
    assert_eq!(
        rejoin_channel(&mut channel, &mut back, &ctx, 3_000),
        Err(ErrorCode::TokenAccountRequired)
    );
    assert_eq!(back, member(false));
    assert_eq!(channel, before);
}

#[test]
fn channel_record_sizes_and_messages() {
    assert_eq!(MAX_MEMBERS, 100);
    assert_eq!(Channel::LEN, 8 + 32 + 516 + 1 + 2 + 8 + 8 + 1 + 33 + 9 + 1);
    assert_eq!(Member::LEN, 74);
    assert_eq!(TokenVault::LEN, 74);
    assert_eq!(MemberStake::LEN, 81);
    assert_eq!(ErrorCode::ChannelFull.message(), "Channel has reached maximum member capacity");
    assert_eq!(ErrorCode::Overflow.message(), "Arithmetic overflow");
    assert_eq!(
        ErrorCode::TokenAccountRequired.message(),
        "Token account required for token-gated channel"
    );
}
