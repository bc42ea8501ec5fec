use vstd::prelude::*;
use vstd::bytes::{spec_u64_to_le_bytes, u64_to_le_bytes};
use crate::address::Address;
use crate::cpi::{close_owned, effects, signer_of, signer_view, Cpi, Effect, Mint, TokenAccount, TokenInstruction};
use crate::seeds::{escrow_prefix, escrow_prefix_bytes, seed_list};

verus! {

/// The escrow record: the maker offers the vault's tokens of `mint_a` for
/// `receive` tokens of `mint_b`.
#[derive(Clone, Copy, Debug, PartialEq, Eq)]
pub struct Escrow {
    pub seed: u64,
    pub maker: Address,
    pub mint_a: Address,
    pub mint_b: Address,
    pub receive: u64,
    pub bump: u8,
}

/// The seeds with which the program signs for an escrow of `maker`.
pub open spec fn escrow_seeds(maker: Address, seed: u64, bump: u8) -> Seq<Seq<u8>> {
    seq![escrow_prefix(), maker.bytes@, spec_u64_to_le_bytes(seed), seq![bump]]
}

/// `[b"escrow", maker, seed.to_le_bytes(), [bump]]`.
pub fn escrow_signer_seeds(maker: &Address, seed: u64, bump: u8) -> (seeds: Vec<Vec<u8>>)
    ensures
        seeds.deep_view() == escrow_seeds(*maker, seed, bump),
{
    let mut parts: Vec<Vec<u8>> = Vec::new();
    parts.push(escrow_prefix_bytes());
    parts.push(maker.to_bytes());
    parts.push(u64_to_le_bytes(seed));
    proof {
        assert(parts.deep_view()[0] == escrow_prefix());
        assert(parts.deep_view()[1] == maker.bytes@);
        assert(parts.deep_view()[2] == spec_u64_to_le_bytes(seed));
        assert(parts.deep_view() =~= seq![escrow_prefix(), maker.bytes@, spec_u64_to_le_bytes(seed)]);
    }
    let seeds = seed_list(parts, bump);
    proof {
        assert(seeds.deep_view() =~= escrow_seeds(*maker, seed, bump));
    }
    seeds
}

/// A `transfer_checked` of `amount` tokens of `mint`, signed with `signer`.
pub open spec fn checked_transfer(
    from: Address,
    mint: Mint,
    to: Address,
    authority: Address,
    amount: u64,
    signer: Option<Seq<Seq<u8>>>,
) -> Effect {
    Effect::Token {
        ix: TokenInstruction::TransferChecked {
            from,
            mint: mint.key,
            to,
            authority,
            amount,
            decimals: mint.decimals,
        },
        signer,
    }
}

/// Closing the vault, its rent going to `destination`, with the escrow as
/// authority, signed with `signer`.
pub open spec fn vault_close(vault: Address, destination: Address, escrow_key: Address, signer: Option<Seq<Seq<u8>>>) -> Effect {
    Effect::Token {
        ix: TokenInstruction::CloseAccount { account: vault, destination, authority: escrow_key },
        signer,
    }
}

fn make_checked_transfer(
    from: Address,
    mint: &Mint,
    to: Address,
    authority: Address,
    amount: u64,
    signer: Option<Vec<Vec<u8>>>,
) -> (cpi: Cpi)
    ensures
        cpi@ == checked_transfer(from, *mint, to, authority, amount, signer_view(signer)),
{
    Cpi::Token {
        token_ix: TokenInstruction::TransferChecked {
            from,
            mint: mint.key,
            to,
            authority,
            amount,
            decimals: mint.decimals,
        },
        signer,
    }
}

fn make_vault_close(vault: Address, destination: Address, escrow_key: Address, signer: Option<Vec<Vec<u8>>>) -> (cpi: Cpi)
    ensures
        cpi@ == vault_close(vault, destination, escrow_key, signer_view(signer)),
{
    Cpi::Token {
        token_ix: TokenInstruction::CloseAccount { account: vault, destination, authority: escrow_key },
        signer,
    }
}

/// The accounts of a refund.
#[derive(Clone, Copy, Debug, PartialEq, Eq)]
pub struct Refund {
    pub maker: Address,
    pub mint_a: Mint,
    pub maker_ata_a: Address,
    pub escrow_key: Address,
    pub escrow: Escrow,
    pub vault: TokenAccount,
}

impl Refund {
    /// The seeds the refund signs with: the signing maker's key, the escrow's seed and bump.
    pub open spec fn seeds(self) -> Seq<Seq<u8>> {
        escrow_seeds(self.maker, self.escrow.seed, self.escrow.bump)
    }

    /// What the refund handler invokes: the whole vault back to the maker, then
    /// the vault closed to the maker, both signed for the escrow.
    pub open spec fn handler_effects(self) -> Seq<Effect> {
        seq![
            checked_transfer(self.vault.key, self.mint_a, self.maker_ata_a, self.escrow_key, self.vault.amount, Some(self.seeds())),
            vault_close(self.vault.key, self.maker, self.escrow_key, Some(self.seeds())),
        ]
    }

    /// What the `do_refund` instruction does: the handler's invocations, then
    /// the escrow account closed to the maker.
    pub open spec fn instruction_effects(self) -> Seq<Effect> {
        self.handler_effects().push(Effect::CloseAccount { account: self.escrow_key, destination: self.maker })
    }

    /// `[b"escrow", maker, seed.to_le_bytes(), [bump]]`, with the signing maker's key.
    pub fn signer_seeds(&self) -> (seeds: Vec<Vec<u8>>)
        ensures
            seeds.deep_view() == self.seeds(),
    {
        escrow_signer_seeds(&self.maker, self.escrow.seed, self.escrow.bump)
    }

    /// Returns the whole vault to the maker, then closes the vault with its rent
    /// going to the maker; both signed for the escrow.
    pub fn refund_and_close_vault(&self) -> (cpis: Vec<Cpi>)
        ensures
            effects(cpis@) == self.handler_effects(),
            cpis@.len() == 2 && cpis@[0]@ is Token && cpis@[0]@->ix == (TokenInstruction::TransferChecked {
                from: self.vault.key,
                mint: self.mint_a.key,
                to: self.maker_ata_a,
                authority: self.escrow_key,
                amount: self.vault.amount,
                decimals: self.mint_a.decimals,
            }),
    {
        let mut cpis: Vec<Cpi> = Vec::new();
        cpis.push(
            make_checked_transfer(
                self.vault.key,
                &self.mint_a,
                self.maker_ata_a,
                self.escrow_key,
                self.vault.amount,
                Some(self.signer_seeds()),
            ),
        );
        cpis.push(make_vault_close(self.vault.key, self.maker, self.escrow_key, Some(self.signer_seeds())));
        proof {
            assert(effects(cpis@) =~= self.handler_effects());
        }
        cpis
    }
}

/// The accounts of a take in one instruction.
#[derive(Clone, Copy, Debug, PartialEq, Eq)]
pub struct Take {
    pub taker: Address,
    pub maker: Address,
    pub mint_a: Mint,
    pub mint_b: Mint,
    pub taker_ata_a: Address,
    pub taker_ata_b: Address,
    pub maker_ata_b: Address,
    pub escrow_key: Address,
    pub escrow: Escrow,
    pub vault: TokenAccount,
}

impl Take {
    /// The seeds a take signs with: the escrow's maker, seed and bump.
    pub open spec fn seeds(self) -> Seq<Seq<u8>> {
        escrow_seeds(self.escrow.maker, self.escrow.seed, self.escrow.bump)
    }

    /// The taker pays the maker `receive` of token B, with the taker's own signature.
    pub open spec fn deposit_effect(self) -> Effect {
        checked_transfer(self.taker_ata_b, self.mint_b, self.maker_ata_b, self.taker, self.escrow.receive, None)
    }

    /// The vault pays the taker all it holds of token A, signed for the escrow.
    pub open spec fn withdraw_effect(self) -> Effect {
        checked_transfer(self.vault.key, self.mint_a, self.taker_ata_a, self.escrow_key, self.vault.amount, Some(self.seeds()))
    }

    /// The vault is closed to the maker, signed for the escrow.
    pub open spec fn close_effect(self) -> Effect {
        vault_close(self.vault.key, self.maker, self.escrow_key, Some(self.seeds()))
    }

    /// `[b"escrow", escrow.maker, seed.to_le_bytes(), [bump]]`.
    pub fn signer_seeds(&self) -> (seeds: Vec<Vec<u8>>)
        ensures
            seeds.deep_view() == self.seeds(),
    {
        escrow_signer_seeds(&self.escrow.maker, self.escrow.seed, self.escrow.bump)
    }

    /// The taker pays the maker the `receive` amount of token B.
    pub fn deposit(&self) -> (cpi: Cpi)
        ensures
            cpi@ == self.deposit_effect(),
            cpi@ is Token && cpi@->ix == (TokenInstruction::TransferChecked {
                from: self.taker_ata_b,
                mint: self.mint_b.key,
                to: self.maker_ata_b,
                authority: self.taker,
                amount: self.escrow.receive,
                decimals: self.mint_b.decimals,
            }),
    {
        make_checked_transfer(self.taker_ata_b, &self.mint_b, self.maker_ata_b, self.taker, self.escrow.receive, None)
    }

    /// The vault pays the taker all it holds of token A, signed for the escrow.
    pub fn withdraw(&self) -> (cpi: Cpi)
        ensures
            cpi@ == self.withdraw_effect(),
            cpi@ is Token && cpi@->ix == (TokenInstruction::TransferChecked {
                from: self.vault.key,
                mint: self.mint_a.key,
                to: self.taker_ata_a,
                authority: self.escrow_key,
                amount: self.vault.amount,
                decimals: self.mint_a.decimals,
            }),
    {
        make_checked_transfer(
            self.vault.key,
            &self.mint_a,
            self.taker_ata_a,
            self.escrow_key,
            self.vault.amount,
            Some(self.signer_seeds()),
        )
    }

    /// The vault is closed, its rent going to the maker, signed for the escrow.
    pub fn close(&self) -> (cpi: Cpi)
        ensures
            cpi@ == self.close_effect(),
    {
        make_vault_close(self.vault.key, self.maker, self.escrow_key, Some(self.signer_seeds()))
    }
}

/// The accounts of the closing step of a take in three instructions.
#[derive(Clone, Copy, Debug, PartialEq, Eq)]
pub struct TakeClose {
    pub maker: Address,
    pub escrow_key: Address,
    pub escrow: Escrow,
    pub vault: TokenAccount,
    pub mint_a: Mint,
}

impl TakeClose {
    pub open spec fn seeds(self) -> Seq<Seq<u8>> {
        escrow_seeds(self.escrow.maker, self.escrow.seed, self.escrow.bump)
    }

    /// The vault closed to the maker, signed for the escrow.
    pub open spec fn close_effect(self) -> Effect {
        vault_close(self.vault.key, self.maker, self.escrow_key, Some(self.seeds()))
    }

    /// What the `do_take_close` instruction does: the vault closed, then the
    /// escrow account closed, both to the maker.
    pub open spec fn instruction_effects(self) -> Seq<Effect> {
        seq![self.close_effect(), Effect::CloseAccount { account: self.escrow_key, destination: self.maker }]
    }

    /// `[b"escrow", escrow.maker, seed.to_le_bytes(), [bump]]`.
    pub fn signer_seeds(&self) -> (seeds: Vec<Vec<u8>>)
        ensures
            seeds.deep_view() == self.seeds(),
    {
        escrow_signer_seeds(&self.escrow.maker, self.escrow.seed, self.escrow.bump)
    }

    /// The vault is closed, its rent going to the maker, signed for the escrow.
    pub fn take_close(&self) -> (cpi: Cpi)
        ensures
            cpi@ == self.close_effect(),
    {
        make_vault_close(self.vault.key, self.maker, self.escrow_key, Some(self.signer_seeds()))
    }
}

/// The accounts of the paying step of a take in three instructions.
#[derive(Clone, Copy, Debug, PartialEq, Eq)]
pub struct TakeDeposit {
    pub taker: Address,
    pub maker: Address,
    pub mint_b: Mint,
    pub taker_ata_b: Address,
    pub maker_ata_b: Address,
    pub escrow: Escrow,
}

impl TakeDeposit {
    /// The taker pays the maker `receive` of token B, with the taker's own signature.
    pub open spec fn deposit_effect(self) -> Effect {
        checked_transfer(self.taker_ata_b, self.mint_b, self.maker_ata_b, self.taker, self.escrow.receive, None)
    }

    /// The taker pays the maker the `receive` amount of token B.
    pub fn take_deposit(&self) -> (cpi: Cpi)
        ensures
            cpi@ == self.deposit_effect(),
    {
        make_checked_transfer(self.taker_ata_b, &self.mint_b, self.maker_ata_b, self.taker, self.escrow.receive, None)
    }
}

/// The accounts of the withdrawing step of a take in three instructions.
#[derive(Clone, Copy, Debug, PartialEq, Eq)]
pub struct TakeWithdraw {
    pub taker: Address,
    pub mint_a: Mint,
    pub taker_ata_a: Address,
    pub escrow_key: Address,
    pub escrow: Escrow,
    pub vault: TokenAccount,
}

impl TakeWithdraw {
    pub open spec fn seeds(self) -> Seq<Seq<u8>> {
        escrow_seeds(self.escrow.maker, self.escrow.seed, self.escrow.bump)
    }

    /// The vault pays the taker all it holds of token A, signed for the escrow.
    pub open spec fn withdraw_effect(self) -> Effect {
        checked_transfer(self.vault.key, self.mint_a, self.taker_ata_a, self.escrow_key, self.vault.amount, Some(self.seeds()))
    }

    /// `[b"escrow", escrow.maker, seed.to_le_bytes(), [bump]]`.
    pub fn signer_seeds(&self) -> (seeds: Vec<Vec<u8>>)
        ensures
            seeds.deep_view() == self.seeds(),
    {
        escrow_signer_seeds(&self.escrow.maker, self.escrow.seed, self.escrow.bump)
    }

    /// The vault pays the taker all it holds of token A, signed for the escrow.
    pub fn take_withdraw(&self) -> (cpi: Cpi)
        ensures
            cpi@ == self.withdraw_effect(),
    {
        make_checked_transfer(
            self.vault.key,
            &self.mint_a,
            self.taker_ata_a,
            self.escrow_key,
            self.vault.amount,
            Some(self.signer_seeds()),
        )
    }
}

/// The `do_refund` instruction.
pub fn do_refund(accounts: &Refund) -> (cpis: Vec<Cpi>)
    ensures
        effects(cpis@) == accounts.instruction_effects(),
{
    let mut cpis = accounts.refund_and_close_vault();
    let ghost before = cpis@;
    cpis.push(close_owned(accounts.escrow_key, accounts.maker));
    proof {
        assert(effects(cpis@) =~= accounts.instruction_effects()) by {
            assert(effects(before) =~= accounts.handler_effects());
            assert(cpis@ == before.push(cpis@[2]));
        }
    }
    cpis
}

/// The `do_take_deposit` instruction.
pub fn do_take_deposit(accounts: &TakeDeposit) -> (cpi: Cpi)
    ensures
        cpi@ == accounts.deposit_effect(),
{
    accounts.take_deposit()
}

/// The `do_take_withdraw` instruction.
pub fn do_take_withdraw(accounts: &TakeWithdraw) -> (cpi: Cpi)
    ensures
        cpi@ == accounts.withdraw_effect(),
{
    accounts.take_withdraw()
}

/// The `do_take_close` instruction.
pub fn do_take_close(accounts: &TakeClose) -> (cpis: Vec<Cpi>)
    ensures
        effects(cpis@) == accounts.instruction_effects(),
{
    let mut cpis: Vec<Cpi> = Vec::new();
    cpis.push(accounts.take_close());
    cpis.push(close_owned(accounts.escrow_key, accounts.maker));
    proof {
        assert(effects(cpis@) =~= accounts.instruction_effects());
    }
    cpis
}

/// Taking in three instructions (`do_take_deposit`, `do_take_withdraw`,
/// `do_take_close`) over the accounts of a one-instruction take does what the
/// take's `deposit`, `withdraw` and `close` do, with the same signatures, and
/// then also closes the escrow account to the maker.
pub proof fn split_take_matches_take(t: Take, d: TakeDeposit, w: TakeWithdraw, c: TakeClose)
    requires
        d == (TakeDeposit {
            taker: t.taker,
            maker: t.maker,
            mint_b: t.mint_b,
            taker_ata_b: t.taker_ata_b,
            maker_ata_b: t.maker_ata_b,
            escrow: t.escrow,
        }),
        w == (TakeWithdraw {
            taker: t.taker,
            mint_a: t.mint_a,
            taker_ata_a: t.taker_ata_a,
            escrow_key: t.escrow_key,
            escrow: t.escrow,
            vault: t.vault,
        }),
        c == (TakeClose { maker: t.maker, escrow_key: t.escrow_key, escrow: t.escrow, vault: t.vault, mint_a: t.mint_a }),
    ensures
        seq![d.deposit_effect(), w.withdraw_effect()] + c.instruction_effects() == seq![
            t.deposit_effect(),
            t.withdraw_effect(),
            t.close_effect(),
            Effect::CloseAccount { account: t.escrow_key, destination: t.maker },
        ],
{
    assert(seq![d.deposit_effect(), w.withdraw_effect()] + c.instruction_effects() =~= seq![
        t.deposit_effect(),
        t.withdraw_effect(),
        t.close_effect(),
        Effect::CloseAccount { account: t.escrow_key, destination: t.maker },
    ]);
}

/// A refund by the escrow's own maker signs its two token invocations with the
/// same seeds as a take of that escrow signs its withdrawal and vault closing.
pub proof fn refund_signs_like_take(r: Refund, t: Take)
    requires
        r.maker == r.escrow.maker,
        r.escrow == t.escrow,
    ensures
        signer_of(r.instruction_effects()[0]) == signer_of(t.withdraw_effect()),
        signer_of(r.instruction_effects()[1]) == signer_of(t.close_effect()),
        signer_of(t.withdraw_effect()) == Some(escrow_seeds(t.escrow.maker, t.escrow.seed, t.escrow.bump)),
{
}

} // verus!
