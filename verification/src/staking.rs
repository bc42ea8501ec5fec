use vstd::prelude::*;
use vstd::string::StringExecFns;
use crate::address::Address;
use crate::cpi::{close_owned, effects, Attribute, CoreCall, CoreInstruction, Cpi, Effect, TokenInstruction};
use crate::text::{decimal_of, decimal_text};
use crate::address::base58_text;
use crate::seeds::{
    collection_info_prefix, collection_info_prefix_bytes, config_prefix, config_prefix_bytes, seed_list,
    stake_prefix, stake_prefix_bytes,
};

verus! {

/// Errors of the NFT staking program.
#[derive(Clone, Copy, Debug, PartialEq, Eq, Structural)]
pub enum StakeError {
    NotOwner,
    AssetNotInitialized,
    CollectionNotInitialized,
    FreezePeriodNotPassed,
    MaxStakeReached,
    NoPointsToClaim,
    AssetAlreadyInitialized,
    InvalidCollection,
    CollectionAlreadyInitialized,
}

/// Why an instruction was refused: a program error (from an account
/// constraint or from the instruction itself), a plain account constraint that
/// failed (`ConstraintRaw`), or an account that is not at the required address
/// (`ConstraintAddress`), or an account record too large for the space the
/// account was created with (`AccountDidNotSerialize`).
/// The account checks modelled here are the ones written as `constraint = ...`
/// and `address = ...` in the program; its seeds/bump, signer, mutability,
/// `init` and `close` constraints are Anchor's and are left to it.
#[derive(Clone, Copy, Debug, PartialEq, Eq, Structural)]
pub enum Rejection {
    Program(StakeError),
    ConstraintRaw,
    ConstraintAddress,
    AccountDidNotSerialize,
}

/// What the program reads of an account that the Core program owns (an asset
/// or a collection).
#[derive(Clone, Copy, Debug, PartialEq, Eq)]
pub struct CoreAccount {
    pub key: Address,
    pub owner: Address,
    pub data_is_empty: bool,
}

/// The address of the Metaplex Core program,
/// `CoREENxT6tW1HoK8ypY1SxRMZTcVPm7R94rH4PZNhX7d`.
pub open spec fn core_program_id() -> Seq<u8> {
    seq![
        0xafu8, 0x54, 0xab, 0x10, 0xbd, 0x97, 0xa5, 0x42, 0xa0, 0x9e, 0xf7, 0xb3, 0x98, 0x89, 0xdd, 0x0c,
        0xd3, 0x94, 0xa4, 0xcc, 0xe9, 0xdf, 0xa6, 0xcd, 0xc9, 0x7e, 0xbe, 0x2d, 0x23, 0x5b, 0xa7, 0x48,
    ]
}

/// The address of the Metaplex Core program.
pub fn core_program_address() -> (a: Address)
    ensures
        a.bytes@ == core_program_id(),
{
    let a = Address {
        bytes: [
            0xafu8, 0x54, 0xab, 0x10, 0xbd, 0x97, 0xa5, 0x42, 0xa0, 0x9e, 0xf7, 0xb3, 0x98, 0x89, 0xdd, 0x0c,
            0xd3, 0x94, 0xa4, 0xcc, 0xe9, 0xdf, 0xa6, 0xcd, 0xc9, 0x7e, 0xbe, 0x2d, 0x23, 0x5b, 0xa7, 0x48,
        ],
    };
    proof {
        assert(a.bytes@ =~= core_program_id());
    }
    a
}

/// The information the program keeps about a collection it created.
#[derive(Clone, Debug, PartialEq, Eq)]
pub struct CollectionInfo {
    pub collection: Address,
    pub authority: Address,
    pub name: String,
    pub uri: String,
    pub nft_name: String,
    pub nft_uri: String,
    pub bump: u8,
}

/// The number of bytes of a text in UTF-8.
pub open spec fn utf8_len(text: Seq<char>) -> nat {
    vstd::utf8::encode_utf8(text).len()
}

/// The serialized size of a collection info record: two addresses, four texts
/// each preceded by its 4-byte length, and the bump.
pub open spec fn collection_info_size(info: CollectionInfo) -> nat {
    32 + 32 + 4 + utf8_len(info.name@) + 4 + utf8_len(info.uri@) + 4 + utf8_len(info.nft_name@) + 4 + utf8_len(
        info.nft_uri@,
    ) + 1
}

/// The space the account holds for a collection info record, sized for names
/// of up to 32 bytes and URIs of up to 200 bytes.
pub open spec fn collection_info_space() -> nat {
    32 + 32 + (4 + 32) + (4 + 200) + (4 + 32) + (4 + 200) + 1
}

impl CollectionInfo {
    /// Whether the record fits in the space of its account.
    pub fn fits_in_account(&self) -> (b: bool)
        requires
            utf8_len(self.name@) <= usize::MAX,
            utf8_len(self.uri@) <= usize::MAX,
            utf8_len(self.nft_name@) <= usize::MAX,
            utf8_len(self.nft_uri@) <= usize::MAX,
        ensures
            b == (collection_info_size(*self) <= collection_info_space()),
    {
        let total: u128 = 32 + 32 + 4 + self.name.as_str().len() as u128 + 4 + self.uri.as_str().len() as u128 + 4
            + self.nft_name.as_str().len() as u128 + 4 + self.nft_uri.as_str().len() as u128 + 1;
        total <= 545
    }
}

/// The record of one staked asset.
#[derive(Clone, Copy, Debug, PartialEq, Eq)]
pub struct StakeAccount {
    pub owner: Address,
    pub mint: Address,
    pub staked_at: i64,
    pub bump: u8,
}

/// The program's global configuration.
#[derive(Clone, Copy, Debug, PartialEq, Eq)]
pub struct StakeConfig {
    pub admin: Address,
    pub points_per_stake: u8,
    pub max_stake: u8,
    pub freeze_period: u32,
    pub rewards_bump: u8,
    pub bump: u8,
}

/// A staker's points and number of staked assets.
#[derive(Clone, Copy, Debug, PartialEq, Eq)]
pub struct UserAccount {
    pub points: u32,
    pub amount_staked: u8,
    pub bump: u8,
}


/// The seeds with which the program signs for a collection's info account.
pub open spec fn collection_info_seeds(collection: Address, bump: u8) -> Seq<Seq<u8>> {
    seq![collection_info_prefix(), collection.bytes@, seq![bump]]
}

/// The seeds with which the program signs for a stake account.
pub open spec fn stake_seeds(config: Address, asset: Address, bump: u8) -> Seq<Seq<u8>> {
    seq![stake_prefix(), config.bytes@, asset.bytes@, seq![bump]]
}

/// The seeds with which the program signs for its configuration account.
pub open spec fn config_seeds(bump: u8) -> Seq<Seq<u8>> {
    seq![config_prefix(), seq![bump]]
}

/// `[b"collection_info", collection, [bump]]`.
pub fn collection_info_signer_seeds(collection: &Address, bump: u8) -> (seeds: Vec<Vec<u8>>)
    ensures
        seeds.deep_view() == collection_info_seeds(*collection, bump),
{
    let mut parts: Vec<Vec<u8>> = Vec::new();
    parts.push(collection_info_prefix_bytes());
    parts.push(collection.to_bytes());
    proof {
        assert(parts.deep_view()[0] == collection_info_prefix());
        assert(parts.deep_view()[1] == collection.bytes@);
        assert(parts.deep_view() =~= seq![collection_info_prefix(), collection.bytes@]);
    }
    let seeds = seed_list(parts, bump);
    proof {
        assert(seeds.deep_view() =~= collection_info_seeds(*collection, bump));
    }
    seeds
}

/// `[b"stake", config, asset, [bump]]`.
pub fn stake_signer_seeds(config: &Address, asset: &Address, bump: u8) -> (seeds: Vec<Vec<u8>>)
    ensures
        seeds.deep_view() == stake_seeds(*config, *asset, bump),
{
    let mut parts: Vec<Vec<u8>> = Vec::new();
    parts.push(stake_prefix_bytes());
    parts.push(config.to_bytes());
    parts.push(asset.to_bytes());
    proof {
        assert(parts.deep_view()[0] == stake_prefix());
        assert(parts.deep_view()[1] == config.bytes@);
        assert(parts.deep_view()[2] == asset.bytes@);
        assert(parts.deep_view() =~= seq![stake_prefix(), config.bytes@, asset.bytes@]);
    }
    let seeds = seed_list(parts, bump);
    proof {
        assert(seeds.deep_view() =~= stake_seeds(*config, *asset, bump));
    }
    seeds
}

/// `[b"config", [bump]]`.
pub fn config_signer_seeds(bump: u8) -> (seeds: Vec<Vec<u8>>)
    ensures
        seeds.deep_view() == config_seeds(bump),
{
    let mut parts: Vec<Vec<u8>> = Vec::new();
    parts.push(config_prefix_bytes());
    proof {
        assert(parts.deep_view()[0] == config_prefix());
        assert(parts.deep_view() =~= seq![config_prefix()]);
    }
    let seeds = seed_list(parts, bump);
    proof {
        assert(seeds.deep_view() =~= config_seeds(bump));
    }
    seeds
}

/// Whether an account is owned by the Core program.
fn owned_by_core(account: &CoreAccount) -> (b: bool)
    ensures
        b == (account.owner.bytes@ == core_program_id()),
{
    let core = core_program_address();
    account.owner.equals(&core)
}

/// Whether an address is the Core program's.
fn is_core_program(a: &Address) -> (b: bool)
    ensures
        b == (a.bytes@ == core_program_id()),
{
    let core = core_program_address();
    a.equals(&core)
}

/// The check of an asset and of its collection that staking and unstaking
/// share: both owned by Core and initialized, then the Core program's address.
pub open spec fn asset_checks(
    asset: CoreAccount,
    collection: CoreAccount,
    core_program: Address,
) -> Result<(), Rejection> {
    if asset.owner.bytes@ != core_program_id() {
        Err(Rejection::ConstraintRaw)
    } else if asset.data_is_empty {
        Err(Rejection::Program(StakeError::AssetNotInitialized))
    } else if collection.owner.bytes@ != core_program_id() {
        Err(Rejection::ConstraintRaw)
    } else if collection.data_is_empty {
        Err(Rejection::Program(StakeError::CollectionNotInitialized))
    } else if core_program.bytes@ != core_program_id() {
        Err(Rejection::ConstraintAddress)
    } else {
        Ok(())
    }
}

fn check_asset_and_collection(asset: &CoreAccount, collection: &CoreAccount, core_program: &Address) -> (res:
    Result<(), Rejection>)
    ensures
        res == asset_checks(*asset, *collection, *core_program),
{
    if !owned_by_core(asset) {
        return Err(Rejection::ConstraintRaw);
    }
    if asset.data_is_empty {
        return Err(Rejection::Program(StakeError::AssetNotInitialized));
    }
    if !owned_by_core(collection) {
        return Err(Rejection::ConstraintRaw);
    }
    if collection.data_is_empty {
        return Err(Rejection::Program(StakeError::CollectionNotInitialized));
    }
    if !is_core_program(core_program) {
        return Err(Rejection::ConstraintAddress);
    }
    Ok(())
}

/// The bumps found for the accounts that `initialize_config` creates.
#[derive(Clone, Copy, Debug, PartialEq, Eq)]
pub struct InitializeConfigBumps {
    pub config: u8,
    pub reward_mint: u8,
}

/// The accounts of `initialize_config`.
#[derive(Clone, Copy, Debug, PartialEq, Eq)]
pub struct InitializeConfig {
    pub admin: Address,
}

impl InitializeConfig {
    /// The new configuration, with the signer as its admin.
    pub fn initialize_config(
        &self,
        points_per_stake: u8,
        max_stake: u8,
        freeze_period: u32,
        bumps: &InitializeConfigBumps,
    ) -> (config: StakeConfig)
        ensures
            config == (StakeConfig {
                admin: self.admin,
                points_per_stake,
                max_stake,
                freeze_period,
                rewards_bump: bumps.reward_mint,
                bump: bumps.config,
            }),
    {
        StakeConfig {
            admin: self.admin,
            points_per_stake,
            max_stake,
            freeze_period,
            rewards_bump: bumps.reward_mint,
            bump: bumps.config,
        }
    }
}

/// The names and URIs of a new collection and of the assets minted in it.
#[derive(Clone, Debug, PartialEq, Eq)]
pub struct CreateCollectionArgs {
    pub name: String,
    pub uri: String,
    pub nft_name: String,
    pub nft_uri: String,
}

/// The bump found for the collection info account.
#[derive(Clone, Copy, Debug, PartialEq, Eq)]
pub struct CreateCollectionBumps {
    pub collection_info: u8,
}

/// The accounts of `create_collection`.
#[derive(Clone, Copy, Debug, PartialEq, Eq)]
pub struct CreateCollection {
    pub authority: Address,
    pub collection: CoreAccount,
    pub collection_info_key: Address,
    pub core_program: Address,
}

impl CreateCollection {
    /// The account checks: the collection account is still empty, and the
    /// Core program is the real one.
    /// The seeds/bump, signer, mutability, `init` and `close` constraints of
    /// these accounts are Anchor's checks, made before the handler runs; they
    /// are not part of this check.
    pub open spec fn checks(self) -> Result<(), Rejection> {
        if !self.collection.data_is_empty {
            Err(Rejection::Program(StakeError::CollectionAlreadyInitialized))
        } else if self.core_program.bytes@ != core_program_id() {
            Err(Rejection::ConstraintAddress)
        } else {
            Ok(())
        }
    }

    pub fn validate(&self) -> (res: Result<(), Rejection>)
        ensures
            res == self.checks(),
    {
        if !self.collection.data_is_empty {
            return Err(Rejection::Program(StakeError::CollectionAlreadyInitialized));
        }
        if !is_core_program(&self.core_program) {
            return Err(Rejection::ConstraintAddress);
        }
        Ok(())
    }

    /// The Core `CreateCollectionV2` of the collection, paid by the authority,
    /// with the info account as update authority, signed for the info account.
    pub open spec fn creation_effect(self, name: Seq<char>, uri: Seq<char>, bump: u8) -> Effect {
        Effect::Core {
            call: CoreCall::CreateCollection {
                collection: self.collection.key,
                payer: self.authority,
                update_authority: self.collection_info_key,
                name,
                uri,
            },
            signer: Some(collection_info_seeds(self.collection.key, bump)),
        }
    }

    /// The collection info record and the Core `CreateCollectionV2` invocation,
    /// signed for the info account, that makes it the collection's update authority.
    pub fn create_collection(&self, args: CreateCollectionArgs, bumps: &CreateCollectionBumps) -> (res: (
        CollectionInfo,
        Cpi,
    ))
        ensures
            res.0.collection == self.collection.key,
            res.0.authority == self.authority,
            res.0.name@ == args.name@,
            res.0.uri@ == args.uri@,
            res.0.nft_name@ == args.nft_name@,
            res.0.nft_uri@ == args.nft_uri@,
            res.0.bump == bumps.collection_info,
            res.1@ == self.creation_effect(args.name@, args.uri@, bumps.collection_info),
    {
        let info = CollectionInfo {
            collection: self.collection.key,
            authority: self.authority,
            name: args.name.clone(),
            uri: args.uri.clone(),
            nft_name: args.nft_name,
            nft_uri: args.nft_uri,
            bump: bumps.collection_info,
        };
        let cpi = Cpi::Core {
            core_ix: CoreInstruction::CreateCollection {
                collection: self.collection.key,
                payer: self.authority,
                update_authority: self.collection_info_key,
                name: args.name.clone(),
                uri: args.uri.clone(),
            },
            signer: Some(collection_info_signer_seeds(&self.collection.key, bumps.collection_info)),
        };
        (info, cpi)
    }
}

/// The accounts of `mint_nft`.
#[derive(Clone, Debug, PartialEq, Eq)]
pub struct MintNFT {
    pub asset: CoreAccount,
    pub minter: Address,
    pub collection: CoreAccount,
    pub collection_info_key: Address,
    pub collection_info: CollectionInfo,
    pub core_program: Address,
}

impl MintNFT {
    /// The account checks: the asset account is still empty, the collection is
    /// owned by Core and initialized, and the Core program is the real one.
    /// The seeds/bump, signer, mutability, `init` and `close` constraints of
    /// these accounts are Anchor's checks, made before the handler runs; they
    /// are not part of this check.
    pub open spec fn checks(self) -> Result<(), Rejection> {
        if !self.asset.data_is_empty {
            Err(Rejection::Program(StakeError::AssetAlreadyInitialized))
        } else if self.collection.owner.bytes@ != core_program_id() {
            Err(Rejection::Program(StakeError::InvalidCollection))
        } else if self.collection.data_is_empty {
            Err(Rejection::Program(StakeError::CollectionNotInitialized))
        } else if self.core_program.bytes@ != core_program_id() {
            Err(Rejection::ConstraintAddress)
        } else {
            Ok(())
        }
    }

    pub fn validate(&self) -> (res: Result<(), Rejection>)
        ensures
            res == self.checks(),
    {
        if !self.asset.data_is_empty {
            return Err(Rejection::Program(StakeError::AssetAlreadyInitialized));
        }
        if !owned_by_core(&self.collection) {
            return Err(Rejection::Program(StakeError::InvalidCollection));
        }
        if self.collection.data_is_empty {
            return Err(Rejection::Program(StakeError::CollectionNotInitialized));
        }
        if !is_core_program(&self.core_program) {
            return Err(Rejection::ConstraintAddress);
        }
        Ok(())
    }

    /// The Core `CreateV2` of the asset in the collection, with the info
    /// account as authority, paid by the minter, named with the collection's
    /// asset name and the collection's URI, recording the minter (base58) and
    /// the time `now` (decimal) as attributes, signed for the info account.
    pub open spec fn mint_effect(self, now: i64) -> Effect {
        Effect::Core {
            call: CoreCall::CreateAsset {
                asset: self.asset.key,
                collection: self.collection.key,
                authority: self.collection_info_key,
                payer: self.minter,
                name: self.collection_info.nft_name@,
                uri: self.collection_info.uri@,
                attributes: seq![("Minter"@, base58_text(self.minter.bytes@)), ("Timestamp"@, decimal_of(now as int))],
            },
            signer: Some(collection_info_seeds(self.collection.key, self.collection_info.bump)),
        }
    }

    /// The seeds with which the program signs the mint, for the collection info account.
    pub fn signer_seeds(&self) -> (seeds: Vec<Vec<u8>>)
        ensures
            seeds.deep_view() == collection_info_seeds(self.collection.key, self.collection_info.bump),
    {
        collection_info_signer_seeds(&self.collection.key, self.collection_info.bump)
    }

    /// The Core `CreateV2` invocation, signed for the collection info account,
    /// that mints the asset into the collection. Its name is the collection's
    /// asset name and its URI the collection's URI; its attributes record the
    /// minter (base58) and the time of minting (`now`, in decimal).
    pub fn mint_nft(&self, now: i64) -> (cpi: Cpi)
        ensures
            cpi@ == self.mint_effect(now),
            cpi@ == (Effect::Core {
                call: CoreCall::CreateAsset {
                    asset: self.asset.key,
                    collection: self.collection.key,
                    authority: self.collection_info_key,
                    payer: self.minter,
                    name: self.collection_info.nft_name@,
                    uri: self.collection_info.uri@,
                    attributes: seq![("Minter"@, base58_text(self.minter.bytes@)), ("Timestamp"@, decimal_of(now as int))],
                },
                signer: Some(collection_info_seeds(self.collection.key, self.collection_info.bump)),
            }),
    {
        let mut attributes: Vec<Attribute> = Vec::new();
        attributes.push(Attribute { key: String::from_str("Minter"), value: self.minter.to_base58() });
        attributes.push(Attribute { key: String::from_str("Timestamp"), value: decimal_text(now) });
        proof {
            assert(attributes@.map_values(|x: Attribute| x.text()) =~= seq![
                ("Minter"@, base58_text(self.minter.bytes@)),
                ("Timestamp"@, decimal_of(now as int)),
            ]);
        }
        Cpi::Core {
            core_ix: CoreInstruction::CreateAsset {
                asset: self.asset.key,
                collection: self.collection.key,
                authority: self.collection_info_key,
                payer: self.minter,
                name: self.collection_info.nft_name.clone(),
                uri: self.collection_info.uri.clone(),
                attributes,
            },
            signer: Some(self.signer_seeds()),
        }
    }
}


/// The user account after one more asset is staked.
pub open spec fn after_stake(u: UserAccount) -> UserAccount {
    UserAccount { amount_staked: (u.amount_staked + 1) as u8, ..u }
}

/// Whether a user may stake one more asset under this configuration.
pub open spec fn may_stake(config: StakeConfig, u: UserAccount) -> bool {
    config.max_stake > u.amount_staked
}

/// Rust's `/` on integers: the quotient rounded toward zero.
pub open spec fn div_toward_zero(a: int, b: int) -> int {
    if a >= 0 {
        a / b
    } else {
        -((-a) / b)
    }
}

/// The staking time in whole days, as the program computes it:
/// `((now - staked_at) / 86400) as u32`.
pub open spec fn days_staked(now: i64, staked_at: i64) -> u32 {
    div_toward_zero(now - staked_at, 86400) as u32
}

/// `(elapsed / 86400) as u32`: the elapsed seconds in whole days, rounded
/// toward zero and truncated to 32 bits.
pub fn whole_days(elapsed: i64) -> (days: u32)
    ensures
        days == div_toward_zero(elapsed as int, 86400) as u32,
{
    (elapsed / 86400) as u32
}

/// The points that an unstake after `days` days earns.
pub open spec fn earned_points(config: StakeConfig, days: u32) -> int {
    config.points_per_stake as int * days as int
}

/// The user account after an asset staked for `days` days is unstaked.
pub open spec fn after_unstake(u: UserAccount, config: StakeConfig, days: u32) -> UserAccount {
    UserAccount {
        points: (u.points + earned_points(config, days)) as u32,
        amount_staked: (u.amount_staked - 1) as u8,
        ..u
    }
}

/// The bump found for the new stake account.
#[derive(Clone, Copy, Debug, PartialEq, Eq)]
pub struct StakeBumps {
    pub stake_account: u8,
}

/// The accounts of `stake`.
#[derive(Clone, Copy, Debug, PartialEq, Eq)]
pub struct Stake {
    pub staker: Address,
    pub stake_account_key: Address,
    pub user_account: UserAccount,
    pub config_key: Address,
    pub config: StakeConfig,
    pub asset: CoreAccount,
    pub collection: CoreAccount,
    pub core_program: Address,
}

impl Stake {
    pub open spec fn checks(self) -> Result<(), Rejection> {
        asset_checks(self.asset, self.collection, self.core_program)
    }

    /// The account checks: asset and collection owned by Core and initialized,
    /// and the Core program is the real one.
    /// The seeds/bump, signer, mutability, `init` and `close` constraints of
    /// these accounts are Anchor's checks, made before the handler runs; they
    /// are not part of this check.
    pub fn validate(&self) -> (res: Result<(), Rejection>)
        ensures
            res == self.checks(),
    {
        check_asset_and_collection(&self.asset, &self.collection, &self.core_program)
    }

    /// The Core `AddPluginV1` that freezes the asset with the stake account as
    /// the freeze plugin's authority, paid by the staker, with no signature of the program.
    pub open spec fn freeze_effect(self) -> Effect {
        Effect::Core {
            call: CoreCall::AddFreezeDelegate {
                asset: self.asset.key,
                collection: self.collection.key,
                payer: self.staker,
                frozen: true,
                init_authority: self.stake_account_key,
            },
            signer: None,
        }
    }

    /// The new stake account's record.
    pub open spec fn stake_record(self, bump: u8, now: i64) -> StakeAccount {
        StakeAccount { owner: self.staker, mint: self.asset.key, staked_at: now, bump }
    }

    /// Stakes the asset if the user is below the maximum: the Core invocation
    /// that freezes the asset with the stake account as freeze authority, the
    /// new stake account, and one more staked asset on the user account.
    pub fn stake_nft(&mut self, bumps: &StakeBumps, now: i64) -> (res: Result<(StakeAccount, Cpi), StakeError>)
        ensures
            res is Ok <==> old(self).config.max_stake > old(self).user_account.amount_staked,
            res is Ok <==> may_stake(old(self).config, old(self).user_account),
            res is Ok ==> final(self).user_account.amount_staked == old(self).user_account.amount_staked + 1
                && final(self).user_account.points == old(self).user_account.points,
            res matches Ok(r) ==> r.0.owner == old(self).staker && r.0.mint == old(self).asset.key && r.0.staked_at
                == now,
            res matches Err(e) ==> e == StakeError::MaxStakeReached && *final(self) == *old(self),
            res matches Ok(r) ==> {
                &&& r.0 == old(self).stake_record(bumps.stake_account, now)
                &&& r.1@ == old(self).freeze_effect()
                &&& *final(self) == (Stake { user_account: after_stake(old(self).user_account), ..*old(self) })
            },
    {
        if !(self.config.max_stake > self.user_account.amount_staked) {
            return Err(StakeError::MaxStakeReached);
        }
        let cpi = Cpi::Core {
            core_ix: CoreInstruction::AddFreezeDelegate {
                asset: self.asset.key,
                collection: self.collection.key,
                payer: self.staker,
                frozen: true,
                init_authority: self.stake_account_key,
            },
            signer: None,
        };
        let record = StakeAccount {
            owner: self.staker,
            mint: self.asset.key,
            staked_at: now,
            bump: bumps.stake_account,
        };
        self.user_account.amount_staked = self.user_account.amount_staked + 1;
        Ok((record, cpi))
    }
}

/// The accounts of `unstake`.
#[derive(Clone, Copy, Debug, PartialEq, Eq)]
pub struct Unstake {
    pub staker: Address,
    pub stake_account: StakeAccount,
    pub stake_account_key: Address,
    pub user_account: UserAccount,
    pub config_key: Address,
    pub config: StakeConfig,
    pub asset: CoreAccount,
    pub collection: CoreAccount,
    pub core_program: Address,
}

impl Unstake {
    pub open spec fn checks(self) -> Result<(), Rejection> {
        if self.stake_account.owner != self.staker {
            Err(Rejection::Program(StakeError::NotOwner))
        } else {
            asset_checks(self.asset, self.collection, self.core_program)
        }
    }

    /// The account checks: the stake account belongs to the staker, then the
    /// same asset and collection checks as staking.
    /// The seeds/bump, signer, mutability, `init` and `close` constraints of
    /// these accounts are Anchor's checks, made before the handler runs; they
    /// are not part of this check.
    pub fn validate(&self) -> (res: Result<(), Rejection>)
        ensures
            res == self.checks(),
    {
        if !self.stake_account.owner.equals(&self.staker) {
            return Err(Rejection::Program(StakeError::NotOwner));
        }
        proof {
            assert(self.stake_account.owner.bytes == self.staker.bytes);
        }
        check_asset_and_collection(&self.asset, &self.collection, &self.core_program)
    }

    /// The freeze period is over at time `now`.
    pub open spec fn may_unstake(self, now: i64) -> bool {
        days_staked(now, self.stake_account.staked_at) >= self.config.freeze_period
    }

    /// The arithmetic of an accepted unstake stays in range: the points earned,
    /// the user's new total, and the staked count.
    pub open spec fn unstake_in_range(self, now: i64) -> bool {
        let days = days_staked(now, self.stake_account.staked_at);
        &&& earned_points(self.config, days) <= u32::MAX
        &&& self.user_account.points + earned_points(self.config, days) <= u32::MAX
        &&& self.user_account.amount_staked >= 1
    }

    /// The Core `UpdatePluginV1` that thaws the asset, with the stake account as
    /// authority, paid by the staker, signed for the stake account.
    pub open spec fn thaw_effect(self) -> Effect {
        Effect::Core {
            call: CoreCall::UpdateFreezeDelegate {
                asset: self.asset.key,
                collection: self.collection.key,
                payer: self.staker,
                authority: self.stake_account_key,
                frozen: false,
            },
            signer: Some(stake_seeds(self.config_key, self.asset.key, self.stake_account.bump)),
        }
    }

    /// The Core `RemovePluginV1` of the freeze plugin, paid by the staker,
    /// with no signature of the program.
    pub open spec fn removal_effect(self) -> Effect {
        Effect::Core {
            call: CoreCall::RemoveFreezeDelegate {
                asset: self.asset.key,
                collection: self.collection.key,
                payer: self.staker,
            },
            signer: None,
        }
    }

    /// What the unstake handler invokes: thaw, then remove the freeze plugin.
    pub open spec fn handler_effects(self) -> Seq<Effect> {
        seq![self.thaw_effect(), self.removal_effect()]
    }

    /// What the `unstake` instruction does: the handler's invocations, then
    /// the stake account closed to the staker.
    pub open spec fn instruction_effects(self) -> Seq<Effect> {
        self.handler_effects().push(Effect::CloseAccount { account: self.stake_account_key, destination: self.staker })
    }

    /// The seeds with which the program signs for the stake account.
    pub fn signer_seeds(&self) -> (seeds: Vec<Vec<u8>>)
        ensures
            seeds.deep_view() == stake_seeds(self.config_key, self.asset.key, self.stake_account.bump),
    {
        stake_signer_seeds(&self.config_key, &self.asset.key, self.stake_account.bump)
    }

    /// Unstakes the asset once the freeze period is over: credits
    /// `points_per_stake` points per whole day staked, thaws the asset (signed
    /// for the stake account), removes its freeze plugin, and counts one staked
    /// asset less.
    pub fn unstake_staked_nft(&mut self, now: i64) -> (res: Result<Vec<Cpi>, StakeError>)
        requires
            i64::MIN <= now - old(self).stake_account.staked_at <= i64::MAX,
            old(self).may_unstake(now) ==> old(self).unstake_in_range(now),
        ensures
            res is Ok <==> old(self).may_unstake(now),
            res is Ok <==> ({
                let e: int = now - old(self).stake_account.staked_at;
                (if e >= 0 { e / 86400 } else { -((-e) / 86400) }) as u32 >= old(self).config.freeze_period
            }),
            res is Ok ==> {
                let e: int = now - old(self).stake_account.staked_at;
                let days: u32 = (if e >= 0 { e / 86400 } else { -((-e) / 86400) }) as u32;
                &&& final(self).user_account.points == old(self).user_account.points
                    + old(self).config.points_per_stake as int * days as int
                &&& final(self).user_account.amount_staked == old(self).user_account.amount_staked - 1
            },
            res matches Err(e) ==> e == StakeError::FreezePeriodNotPassed && *final(self) == *old(self),
            res matches Ok(cpis) ==> {
                &&& effects(cpis@) == old(self).handler_effects()
                &&& *final(self) == (Unstake {
                    user_account: after_unstake(
                        old(self).user_account,
                        old(self).config,
                        days_staked(now, old(self).stake_account.staked_at),
                    ),
                    ..*old(self)
                })
            },
    {
        let elapsed: i64 = now - self.stake_account.staked_at;
        let time_elapsed: u32 = whole_days(elapsed);
        if !(time_elapsed >= self.config.freeze_period) {
            return Err(StakeError::FreezePeriodNotPassed);
        }
        let points: u32 = (self.config.points_per_stake as u32) * time_elapsed;
        self.user_account.points = self.user_account.points + points;
        let mut cpis: Vec<Cpi> = Vec::new();
        cpis.push(
            Cpi::Core {
                core_ix: CoreInstruction::UpdateFreezeDelegate {
                    asset: self.asset.key,
                    collection: self.collection.key,
                    payer: self.staker,
                    authority: self.stake_account_key,
                    frozen: false,
                },
                signer: Some(self.signer_seeds()),
            },
        );
        cpis.push(
            Cpi::Core {
                core_ix: CoreInstruction::RemoveFreezeDelegate {
                    asset: self.asset.key,
                    collection: self.collection.key,
                    payer: self.staker,
                },
                signer: None,
            },
        );
        self.user_account.amount_staked = self.user_account.amount_staked - 1;
        proof {
            assert(effects(cpis@) =~= old(self).handler_effects());
        }
        Ok(cpis)
    }
}

/// The accounts of `claim`.
#[derive(Clone, Copy, Debug, PartialEq, Eq)]
pub struct Claim {
    pub claimer: Address,
    pub rewards_mint: Address,
    pub associated_token_account: Address,
    pub config_key: Address,
    pub config: StakeConfig,
    pub user_account: UserAccount,
}

impl Claim {
    /// The minting of `amount` reward tokens to the claimer, signed by the config.
    pub open spec fn reward_mint(self, amount: u64) -> Effect {
        Effect::Token {
            ix: TokenInstruction::MintTo {
                mint: self.rewards_mint,
                to: self.associated_token_account,
                authority: self.config_key,
                amount,
            },
            signer: Some(config_seeds(self.config.bump)),
        }
    }

    /// The accounts after a claim: the user's points cleared.
    pub open spec fn after_claim(self) -> Claim {
        Claim { user_account: UserAccount { points: 0, ..self.user_account }, ..self }
    }

    /// The seeds with which the program signs for its configuration account.
    pub fn signer_seeds(&self) -> (seeds: Vec<Vec<u8>>)
        ensures
            seeds.deep_view() == config_seeds(self.config.bump),
    {
        config_signer_seeds(self.config.bump)
    }

    /// Pays out all of the user's points as reward tokens and clears them.
    pub fn claim_reward(&mut self) -> (res: Result<Cpi, StakeError>)
        ensures
            res is Ok <==> old(self).user_account.points > 0,
            res matches Err(e) ==> e == StakeError::NoPointsToClaim && *final(self) == *old(self),
            res matches Ok(cpi) ==> {
                &&& cpi@ == old(self).reward_mint(old(self).user_account.points as u64)
                &&& cpi@ == (Effect::Token {
                    ix: TokenInstruction::MintTo {
                        mint: old(self).rewards_mint,
                        to: old(self).associated_token_account,
                        authority: old(self).config_key,
                        amount: old(self).user_account.points as u64,
                    },
                    signer: Some(config_seeds(old(self).config.bump)),
                })
                &&& *final(self) == old(self).after_claim()
            },
    {
        if !(self.user_account.points > 0) {
            return Err(StakeError::NoPointsToClaim);
        }
        let cpi = Cpi::Token {
            token_ix: TokenInstruction::MintTo {
                mint: self.rewards_mint,
                to: self.associated_token_account,
                authority: self.config_key,
                amount: self.user_account.points as u64,
            },
            signer: Some(self.signer_seeds()),
        };
        self.user_account.points = 0;
        Ok(cpi)
    }
}


/// The `initialize_config` instruction.
pub fn initialize_config(
    accounts: &InitializeConfig,
    points_per_stake: u8,
    max_stake: u8,
    freeze_period: u32,
    bumps: &InitializeConfigBumps,
) -> (config: StakeConfig)
    ensures
        config == (StakeConfig {
            admin: accounts.admin,
            points_per_stake,
            max_stake,
            freeze_period,
            rewards_bump: bumps.reward_mint,
            bump: bumps.config,
        }),
{
    accounts.initialize_config(points_per_stake, max_stake, freeze_period, bumps)
}

/// The `create_collection` instruction's handler: the account checks, then the
/// record and the collection's creation. The record is written to its account
/// only when the instruction ends, after the invocation; see `save_collection_info`.
pub fn create_collection(accounts: &CreateCollection, args: CreateCollectionArgs, bumps: &CreateCollectionBumps) -> (res:
    Result<(CollectionInfo, Cpi), Rejection>)
    ensures
        res is Ok <==> accounts.checks() is Ok,
        res matches Err(e) ==> accounts.checks() == Err::<(), Rejection>(e),
        res matches Ok(r) ==> {
            &&& r.0.collection == accounts.collection.key
            &&& r.0.authority == accounts.authority
            &&& r.0.name@ == args.name@
            &&& r.0.uri@ == args.uri@
            &&& r.0.nft_name@ == args.nft_name@
            &&& r.0.nft_uri@ == args.nft_uri@
            &&& r.0.bump == bumps.collection_info
            &&& r.1@ == accounts.creation_effect(args.name@, args.uri@, bumps.collection_info)
        },
{
    match accounts.validate() {
        Ok(()) => {},
        Err(e) => return Err(e),
    }
    Ok(accounts.create_collection(args, bumps))
}

/// The end of `create_collection`, after the collection's creation has
/// succeeded: the record is written to its account, which fails when it does
/// not fit in the space the account was created with.
pub fn save_collection_info(info: CollectionInfo) -> (res: Result<CollectionInfo, Rejection>)
    requires
        utf8_len(info.name@) <= usize::MAX,
        utf8_len(info.uri@) <= usize::MAX,
        utf8_len(info.nft_name@) <= usize::MAX,
        utf8_len(info.nft_uri@) <= usize::MAX,
    ensures
        res is Ok <==> collection_info_size(info) <= collection_info_space(),
        res matches Err(e) ==> e == Rejection::AccountDidNotSerialize,
        res matches Ok(saved) ==> saved == info,
{
    if info.fits_in_account() {
        Ok(info)
    } else {
        Err(Rejection::AccountDidNotSerialize)
    }
}

/// The `mint_nft` instruction: the account checks, then the mint at time `now`.
pub fn mint_nft(accounts: &MintNFT, now: i64) -> (res: Result<Cpi, Rejection>)
    ensures
        res is Ok <==> accounts.checks() is Ok,
        res matches Err(e) ==> accounts.checks() == Err::<(), Rejection>(e),
        res matches Ok(cpi) ==> cpi@ == accounts.mint_effect(now),
        res matches Ok(cpi) ==> cpi@ == (Effect::Core {
                call: CoreCall::CreateAsset {
                    asset: accounts.asset.key,
                    collection: accounts.collection.key,
                    authority: accounts.collection_info_key,
                    payer: accounts.minter,
                    name: accounts.collection_info.nft_name@,
                    uri: accounts.collection_info.uri@,
                    attributes: seq![("Minter"@, base58_text(accounts.minter.bytes@)), ("Timestamp"@, decimal_of(now as int))],
                },
                signer: Some(collection_info_seeds(accounts.collection.key, accounts.collection_info.bump)),
            }),
{
    match accounts.validate() {
        Ok(()) => {},
        Err(e) => return Err(e),
    }
    Ok(accounts.mint_nft(now))
}

/// The `stake` instruction: the account checks, then the stake at time `now`.
pub fn stake(accounts: &mut Stake, bumps: &StakeBumps, now: i64) -> (res: Result<(StakeAccount, Cpi), Rejection>)
    ensures
        res is Ok <==> old(accounts).checks() is Ok && may_stake(old(accounts).config, old(accounts).user_account),
        old(accounts).checks() matches Err(e) ==> res == Err::<(StakeAccount, Cpi), Rejection>(e),
        old(accounts).checks() is Ok && !may_stake(old(accounts).config, old(accounts).user_account) ==> res == Err::<
            (StakeAccount, Cpi),
            Rejection,
        >(Rejection::Program(StakeError::MaxStakeReached)),
        res is Err ==> *final(accounts) == *old(accounts),
        res matches Ok(r) ==> {
            &&& r.0 == old(accounts).stake_record(bumps.stake_account, now)
            &&& r.1@ == old(accounts).freeze_effect()
            &&& *final(accounts) == (Stake { user_account: after_stake(old(accounts).user_account), ..*old(accounts) })
        },
{
    match accounts.validate() {
        Ok(()) => {},
        Err(e) => return Err(e),
    }
    match accounts.stake_nft(bumps, now) {
        Ok(r) => Ok(r),
        Err(e) => Err(Rejection::Program(e)),
    }
}

/// The `unstake` instruction: the account checks, the unstake at time `now`,
/// then the stake account closed to the staker.
pub fn unstake(accounts: &mut Unstake, now: i64) -> (res: Result<Vec<Cpi>, Rejection>)
    requires
        old(accounts).checks() is Ok ==> i64::MIN <= now - old(accounts).stake_account.staked_at <= i64::MAX,
        old(accounts).checks() is Ok && old(accounts).may_unstake(now) ==> old(accounts).unstake_in_range(now),
    ensures
        res is Ok <==> old(accounts).checks() is Ok && old(accounts).may_unstake(now),
        old(accounts).checks() matches Err(e) ==> res == Err::<Vec<Cpi>, Rejection>(e),
        old(accounts).checks() is Ok && !old(accounts).may_unstake(now) ==> res == Err::<Vec<Cpi>, Rejection>(
            Rejection::Program(StakeError::FreezePeriodNotPassed),
        ),
        res is Err ==> *final(accounts) == *old(accounts),
        res is Ok ==> *final(accounts) == (Unstake {
            user_account: after_unstake(
                old(accounts).user_account,
                old(accounts).config,
                days_staked(now, old(accounts).stake_account.staked_at),
            ),
            ..*old(accounts)
        }),
        res matches Ok(cpis) ==> effects(cpis@) == old(accounts).instruction_effects(),
{
    match accounts.validate() {
        Ok(()) => {},
        Err(e) => return Err(e),
    }
    let ghost before = *accounts;
    match accounts.unstake_staked_nft(now) {
        Ok(cpis) => {
            let mut cpis = cpis;
            let ghost handler = cpis@;
            cpis.push(close_owned(accounts.stake_account_key, accounts.staker));
            proof {
                assert(effects(handler) =~= before.handler_effects());
                assert(cpis@ == handler.push(cpis@[2]));
                assert(effects(cpis@) =~= before.instruction_effects());
            }
            Ok(cpis)
        },
        Err(e) => Err(Rejection::Program(e)),
    }
}

/// The `claim` instruction.
pub fn claim(accounts: &mut Claim) -> (res: Result<Cpi, Rejection>)
    ensures
        res is Ok <==> old(accounts).user_account.points > 0,
        res matches Err(e) ==> e == Rejection::Program(StakeError::NoPointsToClaim) && *final(accounts) == *old(
            accounts,
        ),
        res matches Ok(cpi) ==> {
            &&& cpi@ == old(accounts).reward_mint(old(accounts).user_account.points as u64)
            &&& cpi@ == (Effect::Token {
                ix: TokenInstruction::MintTo {
                    mint: old(accounts).rewards_mint,
                    to: old(accounts).associated_token_account,
                    authority: old(accounts).config_key,
                    amount: old(accounts).user_account.points as u64,
                },
                signer: Some(config_seeds(old(accounts).config.bump)),
            })
            &&& *final(accounts) == old(accounts).after_claim()
        },
{
    match accounts.claim_reward() {
        Ok(cpi) => Ok(cpi),
        Err(e) => Err(Rejection::Program(e)),
    }
}

/// Staking an asset and unstaking it again: the unstake thaws the asset that
/// the stake froze, with the stake account the stake created as authority,
/// closes that stake account to the staker, leaves the user's staked count as
/// it was before the stake, and adds exactly the points earned for the days staked.
pub proof fn stake_then_unstake_round_trip(s: Stake, u: Unstake, bump: u8, staked_at: i64, now: i64)
    requires
        may_stake(s.config, s.user_account),
        u == (Unstake {
            staker: s.staker,
            stake_account: s.stake_record(bump, staked_at),
            stake_account_key: s.stake_account_key,
            user_account: after_stake(s.user_account),
            config_key: s.config_key,
            config: s.config,
            asset: s.asset,
            collection: s.collection,
            core_program: s.core_program,
        }),
        s.user_account.points + earned_points(s.config, days_staked(now, staked_at)) <= u32::MAX,
    ensures
        s.freeze_effect() matches Effect::Core { call: CoreCall::AddFreezeDelegate { asset, collection, init_authority, frozen, .. }, .. }
            && asset == s.asset.key && collection == s.collection.key && init_authority == s.stake_account_key && frozen,
        u.instruction_effects()[0] matches Effect::Core { call: CoreCall::UpdateFreezeDelegate { asset, collection, authority, frozen, .. }, .. }
            && asset == s.asset.key && collection == s.collection.key && authority == s.stake_account_key && !frozen,
        u.instruction_effects()[2] == (Effect::CloseAccount { account: s.stake_account_key, destination: s.staker }),
        after_unstake(u.user_account, u.config, days_staked(now, u.stake_account.staked_at)).amount_staked
            == s.user_account.amount_staked,
        after_unstake(u.user_account, u.config, days_staked(now, u.stake_account.staked_at)).points
            == s.user_account.points + earned_points(s.config, days_staked(now, staked_at)),
{
}

/// A user never holds more staked assets than the configured maximum: a stake
/// is accepted only below it, and brings the count at most up to it.
pub proof fn stake_never_exceeds_max(u: UserAccount, config: StakeConfig)
    requires
        may_stake(config, u),
    ensures
        after_stake(u).amount_staked <= config.max_stake,
        after_stake(u).amount_staked == u.amount_staked + 1,
{
}

/// A claim that succeeds leaves the user with no points, so a second claim on
/// the accounts it leaves is refused.
pub proof fn second_claim_is_refused(c: Claim)
    requires
        c.user_account.points > 0,
    ensures
        !(c.after_claim().user_account.points > 0),
        c.after_claim().user_account.amount_staked == c.user_account.amount_staked,
{
}

/// For a non-negative elapsed time below 2^32 days, `days_staked` is the number
/// of whole days elapsed.
pub proof fn days_staked_counts_whole_days(now: i64, staked_at: i64)
    requires
        0 <= now - staked_at < 86400 * 0x1_0000_0000,
    ensures
        days_staked(now, staked_at) as int * 86400 <= now - staked_at,
        now - staked_at < (days_staked(now, staked_at) as int + 1) * 86400,
{
    let e: int = now - staked_at;
    assert(0 <= e / 86400 < 0x1_0000_0000);
    assert((e / 86400) as u32 == e / 86400);
}

/// Unstaking later never earns fewer points, from any time less than a day
/// before the stake until 2^32 days after it (beyond these bounds the day count
/// wraps as the program's `as u32` does).
pub proof fn later_unstake_earns_no_less(u: UserAccount, config: StakeConfig, staked_at: i64, t1: i64, t2: i64)
    requires
        -86400 < t1 - staked_at,
        t1 <= t2,
        t2 - staked_at < 86400 * 0x1_0000_0000,
        u.points + earned_points(config, days_staked(t2, staked_at)) <= u32::MAX,
    ensures
        earned_points(config, days_staked(t1, staked_at)) <= earned_points(config, days_staked(t2, staked_at)),
        after_unstake(u, config, days_staked(t1, staked_at)).points <= after_unstake(
            u,
            config,
            days_staked(t2, staked_at),
        ).points,
{
    let e1: int = t1 - staked_at;
    let e2: int = t2 - staked_at;
    let d1: int = div_toward_zero(e1, 86400);
    let d2: int = div_toward_zero(e2, 86400);
    if e1 < 0 {
        assert((-e1) / 86400 == 0);
    } else {
        assert(e1 / 86400 <= e2 / 86400) by (nonlinear_arith)
            requires
                0 <= e1 <= e2,
        ;
    }
    assert(0 <= d1 <= d2 < 0x1_0000_0000);
    assert(d1 as u32 == d1);
    assert(d2 as u32 == d2);
    let p: int = config.points_per_stake as int;
    assert(p * d1 <= p * d2) by (nonlinear_arith)
        requires
            0 <= p,
            d1 <= d2,
    ;
    assert(0 <= p * d1) by (nonlinear_arith)
        requires
            0 <= p,
            0 <= d1,
    ;
}


/// A successful claim mints exactly the user's points, all of them, as reward
/// tokens to the claimer's token account, and leaves the user with none.
pub proof fn claim_mints_exactly_the_points(c: Claim)
    requires
        c.user_account.points > 0,
    ensures
        c.reward_mint(c.user_account.points as u64) matches Effect::Token { ix, .. } && ix == (TokenInstruction::MintTo {
            mint: c.rewards_mint,
            to: c.associated_token_account,
            authority: c.config_key,
            amount: c.user_account.points as u64,
        }),
        c.after_claim().user_account.points == 0,
{
}

/// The `Minter` attribute of a minted asset is the base58 text of the minter's
/// own address, who also pays; it depends on nothing else of the accounts.
pub proof fn minter_attribute_names_the_minter(m: MintNFT, other: MintNFT, now: i64)
    requires
        other.minter == m.minter,
    ensures
        m.mint_effect(now) matches Effect::Core { call: CoreCall::CreateAsset { attributes, payer, .. }, .. }
            && attributes.len() == 2 && attributes[0] == ("Minter"@, base58_text(m.minter.bytes@)) && payer == m.minter,
        m.mint_effect(now) matches Effect::Core { call: CoreCall::CreateAsset { attributes: a1, .. }, .. }
            && other.mint_effect(now) matches Effect::Core { call: CoreCall::CreateAsset { attributes: a2, .. }, .. }
            && a1[0] == a2[0],
{
}

} // verus!
