use defi_suite::address::Address;
use defi_suite::cpi::{Attribute, CoreInstruction, Cpi, TokenInstruction};
use defi_suite::staking::{
    claim, core_program_address, create_collection, save_collection_info, initialize_config, mint_nft, stake, unstake, Claim,
    CollectionInfo, CoreAccount, CreateCollection, CreateCollectionArgs, CreateCollectionBumps, InitializeConfig,
    InitializeConfigBumps, MintNFT, Rejection, Stake, StakeAccount, StakeBumps, StakeConfig, StakeError, Unstake,
    UserAccount,
};

const DAY: i64 = 86400;

fn addr(n: u8) -> Address {
    Address::new([n; 32])
}

fn core_account(key: u8, data_is_empty: bool) -> CoreAccount {
    CoreAccount { key: addr(key), owner: core_program_address(), data_is_empty }
}

fn config() -> StakeConfig {
    StakeConfig { admin: addr(1), points_per_stake: 10, max_stake: 2, freeze_period: 3, rewards_bump: 250, bump: 251 }
}

fn stake_accounts(amount_staked: u8) -> Stake {
    Stake {
        staker: addr(40),
        stake_account_key: addr(41),
        user_account: UserAccount { points: 5, amount_staked, bump: 249 },
        config_key: addr(42),
        config: config(),
        asset: core_account(43, false),
        collection: core_account(44, false),
        core_program: core_program_address(),
    }
}

fn unstake_accounts(staked_at: i64, points: u32, amount_staked: u8) -> Unstake {
    Unstake {
        staker: addr(40),
        stake_account: StakeAccount { owner: addr(40), mint: addr(43), staked_at, bump: 248 },
        stake_account_key: addr(41),
        user_account: UserAccount { points, amount_staked, bump: 249 },
        config_key: addr(42),
        config: config(),
        asset: core_account(43, false),
        collection: core_account(44, false),
        core_program: core_program_address(),
    }
}

#[test]
fn core_program_address_is_mpl_core() {
    assert_eq!(core_program_address().to_base58(), "CoREENxT6tW1HoK8ypY1SxRMZTcVPm7R94rH4PZNhX7d");
}

#[test]
fn initialize_config_records_arguments() {
    let c = initialize_config(
        &InitializeConfig { admin: addr(1) },
        10,
        2,
        3,
        &InitializeConfigBumps { config: 251, reward_mint: 250 },
    );
    assert_eq!(c, config());
}

#[test]
fn stake_freezes_asset_and_counts_it() {
    let mut s = stake_accounts(0);
    let (record, cpi) = stake(&mut s, &StakeBumps { stake_account: 247 }, 1_700_000_000).unwrap();
    assert_eq!(record, StakeAccount { owner: addr(40), mint: addr(43), staked_at: 1_700_000_000, bump: 247 });
    assert_eq!(
        cpi,
        Cpi::Core {
            core_ix: CoreInstruction::AddFreezeDelegate {
                asset: addr(43),
                collection: addr(44),
                payer: addr(40),
                frozen: true,
                init_authority: addr(41),
            },
            signer: None,
        }
    );
    assert_eq!(s.user_account.amount_staked, 1);
    assert_eq!(s.user_account.points, 5);
}

#[test]
fn stake_at_maximum_is_refused() {
    let mut s = stake_accounts(2);
    assert_eq!(stake(&mut s, &StakeBumps { stake_account: 1 }, 0), Err(Rejection::Program(StakeError::MaxStakeReached)));
    assert_eq!(s.user_account.amount_staked, 2);
}

#[test]
fn stake_account_checks() {
    let mut s = stake_accounts(0);
    s.asset.owner = addr(9);
    assert_eq!(stake(&mut s, &StakeBumps { stake_account: 1 }, 0), Err(Rejection::ConstraintRaw));
    let mut s = stake_accounts(0);
    s.asset.data_is_empty = true;
    assert_eq!(stake(&mut s, &StakeBumps { stake_account: 1 }, 0), Err(Rejection::Program(StakeError::AssetNotInitialized)));
    let mut s = stake_accounts(0);
    s.collection.data_is_empty = true;
    assert_eq!(
        stake(&mut s, &StakeBumps { stake_account: 1 }, 0),
        Err(Rejection::Program(StakeError::CollectionNotInitialized))
    );
    let mut s = stake_accounts(0);
    s.core_program = addr(9);
    assert_eq!(stake(&mut s, &StakeBumps { stake_account: 1 }, 0), Err(Rejection::ConstraintAddress));
}

#[test]
fn unstake_after_freeze_credits_points_per_day() {
    let mut u = unstake_accounts(1_000_000, 5, 1);
    let cpis = unstake(&mut u, 1_000_000 + 4 * DAY + 100).unwrap();
    assert_eq!(u.user_account.points, 45);
    assert_eq!(u.user_account.amount_staked, 0);
    assert_eq!(cpis.len(), 3);
    assert_eq!(
        cpis[0],
        Cpi::Core {
            core_ix: CoreInstruction::UpdateFreezeDelegate {
                asset: addr(43),
                collection: addr(44),
                payer: addr(40),
                authority: addr(41),
                frozen: false,
            },
            signer: Some(vec![b"stake".to_vec(), vec![42u8; 32], vec![43u8; 32], vec![248u8]]),
        }
    );
    assert_eq!(
        cpis[1],
        Cpi::Core {
            core_ix: CoreInstruction::RemoveFreezeDelegate { asset: addr(43), collection: addr(44), payer: addr(40) },
            signer: None,
        }
    );
    assert_eq!(cpis[2], Cpi::CloseAccount { account: addr(41), destination: addr(40) });
}

#[test]
fn unstake_before_freeze_is_refused() {
    let mut u = unstake_accounts(1_000_000, 5, 1);
    assert_eq!(
        unstake(&mut u, 1_000_000 + 3 * DAY - 1),
        Err(Rejection::Program(StakeError::FreezePeriodNotPassed))
    );
    assert_eq!(u.user_account.points, 5);
    assert_eq!(u.user_account.amount_staked, 1);
}

#[test]
fn unstake_by_another_signer_is_refused() {
    let mut u = unstake_accounts(0, 0, 1);
    u.staker = addr(99);
    assert_eq!(unstake(&mut u, 10 * DAY), Err(Rejection::Program(StakeError::NotOwner)));
}

#[test]
fn unstake_exactly_at_freeze_period() {
    let mut u = unstake_accounts(0, 0, 1);
    unstake(&mut u, 3 * DAY).unwrap();
    assert_eq!(u.user_account.points, 30);
}

#[test]
fn negative_elapsed_time_counts_zero_days() {
    let mut u = unstake_accounts(100, 0, 1);
    u.config.freeze_period = 0;
    unstake(&mut u, 100 - DAY + 1).unwrap();
    assert_eq!(u.user_account.points, 0);
}

#[test]
fn stake_then_unstake_restores_count() {
    let mut s = stake_accounts(1);
    let (record, _) = stake(&mut s, &StakeBumps { stake_account: 248 }, 0).unwrap();
    assert_eq!(s.user_account.amount_staked, 2);
    let mut u = unstake_accounts(record.staked_at, s.user_account.points, s.user_account.amount_staked);
    unstake(&mut u, 5 * DAY).unwrap();
    assert_eq!(u.user_account.amount_staked, 1);
    assert_eq!(u.user_account.points, 5 + 50);
}

#[test]
fn later_unstake_earns_no_less() {
    let mut a = unstake_accounts(0, 0, 1);
    let mut b = unstake_accounts(0, 0, 1);
    unstake(&mut a, 3 * DAY).unwrap();
    unstake(&mut b, 7 * DAY + 5).unwrap();
    assert!(a.user_account.points <= b.user_account.points);
    assert_eq!(b.user_account.points, 70);
}

fn claim_accounts(points: u32) -> Claim {
    Claim {
        claimer: addr(50),
        rewards_mint: addr(51),
        associated_token_account: addr(52),
        config_key: addr(42),
        config: config(),
        user_account: UserAccount { points, amount_staked: 0, bump: 1 },
    }
}

#[test]
fn claim_mints_all_points_and_clears_them() {
    let mut c = claim_accounts(77);
    let cpi = claim(&mut c).unwrap();
    assert_eq!(
        cpi,
        Cpi::Token {
            token_ix: TokenInstruction::MintTo { mint: addr(51), to: addr(52), authority: addr(42), amount: 77 },
            signer: Some(vec![b"config".to_vec(), vec![251u8]]),
        }
    );
    assert_eq!(c.user_account.points, 0);
    assert_eq!(claim(&mut c), Err(Rejection::Program(StakeError::NoPointsToClaim)));
    let seeds = c.signer_seeds();
    assert_eq!(seeds, vec![b"config".to_vec(), vec![251u8]]);
}

#[test]
fn claim_without_points_is_refused() {
    let mut c = claim_accounts(0);
    assert_eq!(c.claim_reward(), Err(StakeError::NoPointsToClaim));
}

fn args(name: &str, uri: &str) -> CreateCollectionArgs {
    CreateCollectionArgs {
        name: name.to_string(),
        uri: uri.to_string(),
        nft_name: "Item".to_string(),
        nft_uri: "https://example.org/item.json".to_string(),
    }
}

fn create_accounts(collection_empty: bool) -> CreateCollection {
    CreateCollection {
        authority: addr(60),
        collection: CoreAccount { key: addr(61), owner: addr(0), data_is_empty: collection_empty },
        collection_info_key: addr(62),
        core_program: core_program_address(),
    }
}

#[test]
fn create_collection_records_and_invokes() {
    let (info, cpi) = create_collection(
        &create_accounts(true),
        args("Club", "https://example.org/c.json"),
        &CreateCollectionBumps { collection_info: 246 },
    )
    .unwrap();
    assert_eq!(
        info,
        CollectionInfo {
            collection: addr(61),
            authority: addr(60),
            name: "Club".to_string(),
            uri: "https://example.org/c.json".to_string(),
            nft_name: "Item".to_string(),
            nft_uri: "https://example.org/item.json".to_string(),
            bump: 246,
        }
    );
    assert_eq!(
        cpi,
        Cpi::Core {
            core_ix: CoreInstruction::CreateCollection {
                collection: addr(61),
                payer: addr(60),
                update_authority: addr(62),
                name: "Club".to_string(),
                uri: "https://example.org/c.json".to_string(),
            },
            signer: Some(vec![b"collection_info".to_vec(), vec![61u8; 32], vec![246u8]]),
        }
    );
}

#[test]
fn create_collection_refusals() {
    assert_eq!(
        create_collection(&create_accounts(false), args("a", "b"), &CreateCollectionBumps { collection_info: 1 }),
        Err(Rejection::Program(StakeError::CollectionAlreadyInitialized))
    );
    let mut a = create_accounts(true);
    a.core_program = addr(5);
    assert_eq!(
        create_collection(&a, args("a", "b"), &CreateCollectionBumps { collection_info: 1 }),
        Err(Rejection::ConstraintAddress)
    );
}

#[test]
fn oversized_collection_record_fails_only_when_saved() {
    let long_uri = "u".repeat(431);
    let (info, _cpi) =
        create_collection(&create_accounts(true), args("n", &long_uri), &CreateCollectionBumps { collection_info: 1 })
            .unwrap();
    assert_eq!(save_collection_info(info), Err(Rejection::AccountDidNotSerialize));
    let fitting_uri = "u".repeat(430);
    let (info, _cpi) =
        create_collection(&create_accounts(true), args("n", &fitting_uri), &CreateCollectionBumps { collection_info: 1 })
            .unwrap();
    assert_eq!(save_collection_info(info.clone()), Ok(info));
}

fn mint_accounts() -> MintNFT {
    MintNFT {
        asset: CoreAccount { key: addr(70), owner: addr(0), data_is_empty: true },
        minter: Address::new([0u8; 32]),
        collection: core_account(61, false),
        collection_info_key: addr(62),
        collection_info: CollectionInfo {
            collection: addr(61),
            authority: addr(60),
            name: "Club".to_string(),
            uri: "https://example.org/c.json".to_string(),
            nft_name: "Item".to_string(),
            nft_uri: "https://example.org/item.json".to_string(),
            bump: 246,
        },
        core_program: core_program_address(),
    }
}

#[test]
fn mint_nft_names_asset_and_records_minter_and_time() {
    let cpi = mint_nft(&mint_accounts(), -1_700_000_123).unwrap();
    assert_eq!(
        cpi,
        Cpi::Core {
            core_ix: CoreInstruction::CreateAsset {
                asset: addr(70),
                collection: addr(61),
                authority: addr(62),
                payer: Address::new([0u8; 32]),
                name: "Item".to_string(),
                uri: "https://example.org/c.json".to_string(),
                attributes: vec![
                    Attribute { key: "Minter".to_string(), value: "11111111111111111111111111111111".to_string() },
                    Attribute { key: "Timestamp".to_string(), value: "-1700000123".to_string() },
                ],
            },
            signer: Some(vec![b"collection_info".to_vec(), vec![61u8; 32], vec![246u8]]),
        }
    );
    let seeds = mint_accounts().signer_seeds();
    assert_eq!(seeds, vec![b"collection_info".to_vec(), vec![61u8; 32], vec![246u8]]);
}

#[test]
fn mint_nft_refusals() {
    let mut m = mint_accounts();
    m.asset.data_is_empty = false;
    assert_eq!(mint_nft(&m, 0), Err(Rejection::Program(StakeError::AssetAlreadyInitialized)));
    let mut m = mint_accounts();
    m.collection.owner = addr(3);
    assert_eq!(mint_nft(&m, 0), Err(Rejection::Program(StakeError::InvalidCollection)));
    let mut m = mint_accounts();
    m.collection.data_is_empty = true;
    assert_eq!(mint_nft(&m, 0), Err(Rejection::Program(StakeError::CollectionNotInitialized)));
    let mut m = mint_accounts();
    m.core_program = addr(3);
    assert_eq!(mint_nft(&m, 0), Err(Rejection::ConstraintAddress));
}

#[test]
fn unstake_signer_seeds() {
    let u = unstake_accounts(0, 0, 1);
    assert_eq!(u.signer_seeds(), vec![b"stake".to_vec(), vec![42u8; 32], vec![43u8; 32], vec![248u8]]);
}

#[test]
fn unstake_just_before_stake_time_earns_no_more_than_later() {
    let mut early = unstake_accounts(1_000_000, 0, 1);
    early.config.freeze_period = 0;
    let mut late = early;
    unstake(&mut early, 1_000_000 - DAY + 1).unwrap();
    unstake(&mut late, 1_000_000 + DAY - 1).unwrap();
    assert_eq!(early.user_account.points, 0);
    assert_eq!(late.user_account.points, 0);
    let mut later = unstake_accounts(1_000_000, 0, 1);
    later.config.freeze_period = 0;
    unstake(&mut later, 1_000_000 + DAY).unwrap();
    assert_eq!(later.user_account.points, 10);
}
