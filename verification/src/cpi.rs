use vstd::prelude::*;
use crate::address::Address;

verus! {

/// The values a program reads from an SPL token account.
#[derive(Clone, Copy, Debug, PartialEq, Eq)]
pub struct TokenAccount {
    pub key: Address,
    pub amount: u64,
}

/// The values a program reads from an SPL mint.
#[derive(Clone, Copy, Debug, PartialEq, Eq)]
pub struct Mint {
    pub key: Address,
    pub supply: u64,
    pub decimals: u8,
}

/// An instruction of the SPL token program, with the accounts it names.
#[derive(Clone, Copy, Debug, PartialEq, Eq)]
pub enum TokenInstruction {
    Transfer { from: Address, to: Address, authority: Address, amount: u64 },
    TransferChecked {
        from: Address,
        mint: Address,
        to: Address,
        authority: Address,
        amount: u64,
        decimals: u8,
    },
    MintTo { mint: Address, to: Address, authority: Address, amount: u64 },
    Burn { mint: Address, from: Address, authority: Address, amount: u64 },
    CloseAccount { account: Address, destination: Address, authority: Address },
}

/// A key/value attribute attached to a Core asset.
#[derive(Clone, Debug, PartialEq, Eq)]
pub struct Attribute {
    pub key: String,
    pub value: String,
}

/// An instruction of the Metaplex Core program, with the accounts and data it
/// names. Every variant passes the system program; the values that no field
/// carries are fixed by the variant, as each one's description says.
#[derive(Clone, Debug, PartialEq, Eq)]
pub enum CoreInstruction {
    /// `AddPluginV1` on `asset` in `collection`, paid by `payer`, with no
    /// explicit instruction authority (`authority: None`), adding the plugin
    /// `FreezeDelegate { frozen }` whose plugin authority is
    /// `PluginAuthority::Address { address: init_authority }`.
    AddFreezeDelegate {
        asset: Address,
        collection: Address,
        payer: Address,
        frozen: bool,
        init_authority: Address,
    },
    /// `UpdatePluginV1` on `asset` in `collection`, paid by `payer`, with
    /// `authority: Some(authority)`, setting the plugin `FreezeDelegate { frozen }`.
    UpdateFreezeDelegate {
        asset: Address,
        collection: Address,
        payer: Address,
        authority: Address,
        frozen: bool,
    },
    /// `RemovePluginV1` on `asset` in `collection`, paid by `payer`, with no
    /// explicit authority (`authority: None`), removing the plugin type
    /// `PluginType::FreezeDelegate`.
    RemoveFreezeDelegate { asset: Address, collection: Address, payer: Address },
    /// `CreateCollectionV2` of `collection`, paid by `payer`, with
    /// `update_authority: Some(update_authority)`, the given name and URI,
    /// no plugins (`plugins: []`) and no external plugin adapters (`[]`).
    CreateCollection {
        collection: Address,
        payer: Address,
        update_authority: Address,
        name: String,
        uri: String,
    },
    /// `CreateV2` of `asset` in `collection: Some(collection)`, with
    /// `authority: Some(authority)`, paid by `payer`, with no update authority
    /// (`update_authority: None`), the given name and URI, exactly one plugin
    /// `PluginAuthorityPair { plugin: Attributes { attribute_list: attributes },
    /// authority: None }`, and no external plugin adapters (`[]`).
    CreateAsset {
        asset: Address,
        collection: Address,
        authority: Address,
        payer: Address,
        name: String,
        uri: String,
        attributes: Vec<Attribute>,
    },
}

/// One effect that an instruction asks for: a cross-program invocation, or
/// the closing of an account the program owns (Anchor's `close = destination`,
/// which moves the account's lamports to `destination` when the instruction
/// ends). A `signer` of `Some(seeds)` means the program signs the invocation
/// for its program-derived address with these seeds; `None` means it adds no
/// signature of its own.
#[derive(Clone, Debug, PartialEq, Eq)]
pub enum Cpi {
    Token { token_ix: TokenInstruction, signer: Option<Vec<Vec<u8>>> },
    SystemTransfer { from: Address, to: Address, lamports: u64 },
    Core { core_ix: CoreInstruction, signer: Option<Vec<Vec<u8>>> },
    CloseAccount { account: Address, destination: Address },
}

/// A Core instruction as mathematical values.
pub enum CoreCall {
    AddFreezeDelegate { asset: Address, collection: Address, payer: Address, frozen: bool, init_authority: Address },
    UpdateFreezeDelegate { asset: Address, collection: Address, payer: Address, authority: Address, frozen: bool },
    RemoveFreezeDelegate { asset: Address, collection: Address, payer: Address },
    CreateCollection {
        collection: Address,
        payer: Address,
        update_authority: Address,
        name: Seq<char>,
        uri: Seq<char>,
    },
    CreateAsset {
        asset: Address,
        collection: Address,
        authority: Address,
        payer: Address,
        name: Seq<char>,
        uri: Seq<char>,
        attributes: Seq<(Seq<char>, Seq<char>)>,
    },
}

/// An effect as mathematical values: the signer seeds as byte sequences.
pub enum Effect {
    Token { ix: TokenInstruction, signer: Option<Seq<Seq<u8>>> },
    SystemTransfer { from: Address, to: Address, lamports: u64 },
    Core { call: CoreCall, signer: Option<Seq<Seq<u8>>> },
    CloseAccount { account: Address, destination: Address },
}

impl Attribute {
    /// The attribute as a pair of texts.
    pub open spec fn text(self) -> (Seq<char>, Seq<char>) {
        (self.key@, self.value@)
    }
}

/// Signer seeds as byte sequences.
pub open spec fn signer_view(signer: Option<Vec<Vec<u8>>>) -> Option<Seq<Seq<u8>>> {
    match signer {
        Some(seeds) => Some(seeds.deep_view()),
        None => None,
    }
}

impl View for CoreInstruction {
    type V = CoreCall;

    open spec fn view(&self) -> CoreCall {
        match *self {
            CoreInstruction::AddFreezeDelegate { asset, collection, payer, frozen, init_authority } =>
                CoreCall::AddFreezeDelegate { asset, collection, payer, frozen, init_authority },
            CoreInstruction::UpdateFreezeDelegate { asset, collection, payer, authority, frozen } =>
                CoreCall::UpdateFreezeDelegate { asset, collection, payer, authority, frozen },
            CoreInstruction::RemoveFreezeDelegate { asset, collection, payer } =>
                CoreCall::RemoveFreezeDelegate { asset, collection, payer },
            CoreInstruction::CreateCollection { collection, payer, update_authority, name, uri } =>
                CoreCall::CreateCollection { collection, payer, update_authority, name: name@, uri: uri@ },
            CoreInstruction::CreateAsset { asset, collection, authority, payer, name, uri, attributes } =>
                CoreCall::CreateAsset {
                    asset,
                    collection,
                    authority,
                    payer,
                    name: name@,
                    uri: uri@,
                    attributes: attributes@.map_values(|a: Attribute| a.text()),
                },
        }
    }
}

impl View for Cpi {
    type V = Effect;

    open spec fn view(&self) -> Effect {
        match *self {
            Cpi::Token { token_ix, signer } => Effect::Token { ix: token_ix, signer: signer_view(signer) },
            Cpi::SystemTransfer { from, to, lamports } => Effect::SystemTransfer { from, to, lamports },
            Cpi::Core { core_ix, signer } => Effect::Core { call: core_ix@, signer: signer_view(signer) },
            Cpi::CloseAccount { account, destination } => Effect::CloseAccount { account, destination },
        }
    }
}

/// The effects of a list of `Cpi` values.
pub open spec fn effects(cpis: Seq<Cpi>) -> Seq<Effect> {
    cpis.map_values(|c: Cpi| c@)
}

/// The seeds that sign an effect, if any.
pub open spec fn signer_of(e: Effect) -> Option<Seq<Seq<u8>>> {
    match e {
        Effect::Token { signer, .. } => signer,
        Effect::Core { signer, .. } => signer,
        _ => None,
    }
}

/// The closing of an account the program owns, its lamports going to `destination`.
pub fn close_owned(account: Address, destination: Address) -> (cpi: Cpi)
    ensures
        cpi@ == (Effect::CloseAccount { account, destination }),
{
    Cpi::CloseAccount { account, destination }
}

} // verus!
