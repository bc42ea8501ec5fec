use vstd::prelude::*;
use vstd::bytes::{spec_u64_to_le_bytes, u64_to_le_bytes};
use crate::address::Address;
use crate::cpi::{effects, Cpi, Effect, Mint, TokenAccount, TokenInstruction};
use crate::seeds::{config_prefix, config_prefix_bytes, seed_list};

verus! {

/// Errors of the AMM program.
#[derive(Clone, Copy, Debug, PartialEq, Eq, Structural)]
pub enum AMMError {
    ConfigLocked,
    InvalidAmount,
    InsufficientLiquidity,
    ExceededMaxSlippage,
    InvalidAuthorityAddress,
}

impl AMMError {
    /// The error number reported to clients: the variant's position after the
    /// custom-error offset 6000.
    pub fn code(&self) -> (n: u32)
        ensures
            n == 6000 + match *self {
                AMMError::ConfigLocked => 0int,
                AMMError::InvalidAmount => 1,
                AMMError::InsufficientLiquidity => 2,
                AMMError::ExceededMaxSlippage => 3,
                AMMError::InvalidAuthorityAddress => 4,
            },
    {
        match self {
            AMMError::ConfigLocked => 6000,
            AMMError::InvalidAmount => 6001,
            AMMError::InsufficientLiquidity => 6002,
            AMMError::ExceededMaxSlippage => 6003,
            AMMError::InvalidAuthorityAddress => 6004,
        }
    }

    /// The error's message.
    pub fn message(&self) -> (text: &'static str)
        ensures
            text@ == match *self {
                AMMError::ConfigLocked => "Config is locked"@,
                AMMError::InvalidAmount => "Invalid amount provided"@,
                AMMError::InsufficientLiquidity => "Insufficient liquidity provided"@,
                AMMError::ExceededMaxSlippage => "Exceeded maximum slippage"@,
                AMMError::InvalidAuthorityAddress => "Not valid authority"@,
            },
    {
        match self {
            AMMError::ConfigLocked => "Config is locked",
            AMMError::InvalidAmount => "Invalid amount provided",
            AMMError::InsufficientLiquidity => "Insufficient liquidity provided",
            AMMError::ExceededMaxSlippage => "Exceeded maximum slippage",
            AMMError::InvalidAuthorityAddress => "Not valid authority",
        }
    }
}

/// The pool's configuration account.
#[derive(Clone, Copy, Debug, PartialEq, Eq)]
pub struct Config {
    pub seed: u64,
    pub authority: Option<Address>,
    pub mint_x: Address,
    pub mint_y: Address,
    pub fee: u16,
    pub locked: bool,
    pub config_bump: u8,
    pub lp_bump: u8,
}

/// The seeds with which the program signs for its configuration account.
pub open spec fn config_seeds(c: Config) -> Seq<Seq<u8>> {
    seq![config_prefix(), spec_u64_to_le_bytes(c.seed), seq![c.config_bump]]
}

impl Config {
    /// `[b"config", seed.to_le_bytes(), [config_bump]]`.
    pub fn signer_seeds(&self) -> (seeds: Vec<Vec<u8>>)
        ensures
            seeds.deep_view() == config_seeds(*self),
    {
        let prefix = config_prefix_bytes();
        let seed_bytes = u64_to_le_bytes(self.seed);
        let mut parts: Vec<Vec<u8>> = Vec::new();
        parts.push(prefix);
        parts.push(seed_bytes);
        proof {
            assert(parts.deep_view()[0] == config_prefix());
            assert(parts.deep_view()[1] == spec_u64_to_le_bytes(self.seed));
            assert(parts.deep_view() =~= seq![config_prefix(), spec_u64_to_le_bytes(self.seed)]);
        }
        let seeds = seed_list(parts, self.config_bump);
        proof {
            assert(seeds.deep_view() =~= config_seeds(*self));
        }
        seeds
    }
}


/// The deposit or withdrawal amounts that the constant-product curve quotes
/// for a number of liquidity tokens.
#[derive(Clone, Copy, Debug, PartialEq, Eq)]
pub struct XYAmounts {
    pub x: u64,
    pub y: u64,
}

/// The arguments with which an instruction asks the constant-product curve
/// for the token amounts of `amount` liquidity tokens:
/// `xy_deposit_amounts_from_l` or `xy_withdraw_amounts_from_l` of
/// (`vault_x`, `vault_y`, `supply`, `amount`, `precision`).
#[derive(Clone, Copy, Debug, PartialEq, Eq)]
pub struct LiquidityQuery {
    pub vault_x: u64,
    pub vault_y: u64,
    pub supply: u64,
    pub amount: u64,
    pub precision: u32,
}

/// The arguments with which a swap asks the curve for its output:
/// `delta_y_from_x_swap_amount` when `x_to_y`, else
/// `delta_x_from_y_swap_amount`, of (`vault_x`, `vault_y`, `amount_in`).
#[derive(Clone, Copy, Debug, PartialEq, Eq)]
pub struct SwapQuery {
    pub x_to_y: bool,
    pub vault_x: u64,
    pub vault_y: u64,
    pub amount_in: u64,
}

/// The accounts of a deposit into the pool.
#[derive(Clone, Copy, Debug, PartialEq, Eq)]
pub struct Deposit {
    pub depositer: Address,
    pub mint_lp: Mint,
    pub vault_x: TokenAccount,
    pub vault_y: TokenAccount,
    pub config_key: Address,
    pub config: Config,
    pub depositer_ata_x: Address,
    pub depositer_ata_y: Address,
    pub depositer_ata_lp: Address,
}

impl Deposit {
    /// No liquidity token exists and both vaults are empty.
    pub open spec fn pool_is_empty(self) -> bool {
        self.mint_lp.supply == 0 && self.vault_x.amount == 0 && self.vault_y.amount == 0
    }

    /// The transfer of `amount` of token X (or Y) from the depositor into its vault.
    pub open spec fn transfer_in(self, is_x: bool, amount: u64) -> Effect {
        Effect::Token {
            ix: TokenInstruction::Transfer {
                from: if is_x { self.depositer_ata_x } else { self.depositer_ata_y },
                to: if is_x { self.vault_x.key } else { self.vault_y.key },
                authority: self.depositer,
                amount,
            },
            signer: None,
        }
    }

    /// The minting of `amount` liquidity tokens to the depositor, signed by the config.
    pub open spec fn lp_mint(self, amount: u64) -> Effect {
        Effect::Token {
            ix: TokenInstruction::MintTo {
                mint: self.mint_lp.key,
                to: self.depositer_ata_lp,
                authority: self.config_key,
                amount,
            },
            signer: Some(config_seeds(self.config)),
        }
    }

    /// What a deposit of `amount` liquidity tokens decides: the X and Y amounts
    /// taken from the depositor, or the error. `quote` is what the curve's
    /// `xy_deposit_amounts_from_l(vault_x, vault_y, supply, amount, 6)` returned
    /// (`None` for its error); it is consulted only when the pool is not empty.
    pub open spec fn deposit_outcome(
        self,
        amount: u64,
        max_x: u64,
        max_y: u64,
        quote: Option<XYAmounts>,
    ) -> Result<XYAmounts, AMMError> {
        if self.config.locked {
            Err(AMMError::ConfigLocked)
        } else if amount == 0 {
            Err(AMMError::InvalidAmount)
        } else {
            let q = if self.pool_is_empty() {
                Some(XYAmounts { x: max_x, y: max_y })
            } else {
                quote
            };
            match q {
                None => Err(AMMError::InsufficientLiquidity),
                Some(a) => if a.x <= max_x && a.y <= max_y {
                    Ok(a)
                } else {
                    Err(AMMError::ExceededMaxSlippage)
                },
            }
        }
    }

    /// What the deposit of `amount` liquidity tokens asks the curve: the vaults'
    /// balances, the liquidity supply, `amount`, and a precision of 6.
    pub fn curve_query(&self, amount: u64) -> (q: LiquidityQuery)
        ensures
            q == (LiquidityQuery {
                vault_x: self.vault_x.amount,
                vault_y: self.vault_y.amount,
                supply: self.mint_lp.supply,
                amount,
                precision: 6,
            }),
    {
        LiquidityQuery {
            vault_x: self.vault_x.amount,
            vault_y: self.vault_y.amount,
            supply: self.mint_lp.supply,
            amount,
            precision: 6,
        }
    }

    /// Whether the deposit's amounts come from the curve (the pool is not empty).
    pub fn needs_quote(&self) -> (b: bool)
        ensures
            b == !self.pool_is_empty(),
    {
        !(self.mint_lp.supply == 0 && self.vault_x.amount == 0 && self.vault_y.amount == 0)
    }

    /// Decides a deposit of `amount` liquidity tokens for at most `max_x` of X
    /// and `max_y` of Y: the X transfer, the Y transfer and the LP minting, in
    /// that order.
    pub fn deposit_to_pool(&self, amount: u64, max_x: u64, max_y: u64, quote: Option<XYAmounts>) -> (res:
        Result<Vec<Cpi>, AMMError>)
        ensures
            match res {
                Ok(cpis) => match self.deposit_outcome(amount, max_x, max_y, quote) {
                    Ok(a) => effects(cpis@) == seq![
                        self.transfer_in(true, a.x),
                        self.transfer_in(false, a.y),
                        self.lp_mint(amount),
                    ],
                    Err(_) => false,
                },
                Err(e) => self.deposit_outcome(amount, max_x, max_y, quote) == Err::<XYAmounts, AMMError>(e),
            },
            self.config.locked ==> res == Err::<Vec<Cpi>, AMMError>(AMMError::ConfigLocked),
            !self.config.locked && amount == 0 ==> res == Err::<Vec<Cpi>, AMMError>(AMMError::InvalidAmount),
            res matches Ok(cpis) ==> {
                let x: u64 = if self.mint_lp.supply == 0 && self.vault_x.amount == 0 && self.vault_y.amount == 0 {
                    max_x
                } else {
                    quote.unwrap().x
                };
                let y: u64 = if self.mint_lp.supply == 0 && self.vault_x.amount == 0 && self.vault_y.amount == 0 {
                    max_y
                } else {
                    quote.unwrap().y
                };
                &&& x <= max_x
                &&& y <= max_y
                &&& cpis@.len() == 3
                &&& cpis@[0]@ == (Effect::Token {
                    ix: TokenInstruction::Transfer {
                        from: self.depositer_ata_x,
                        to: self.vault_x.key,
                        authority: self.depositer,
                        amount: x,
                    },
                    signer: None,
                })
                &&& cpis@[1]@ == (Effect::Token {
                    ix: TokenInstruction::Transfer {
                        from: self.depositer_ata_y,
                        to: self.vault_y.key,
                        authority: self.depositer,
                        amount: y,
                    },
                    signer: None,
                })
                &&& cpis@[2]@ == (Effect::Token {
                    ix: TokenInstruction::MintTo {
                        mint: self.mint_lp.key,
                        to: self.depositer_ata_lp,
                        authority: self.config_key,
                        amount,
                    },
                    signer: Some(config_seeds(self.config)),
                })
            },
    {
        if self.config.locked {
            return Err(AMMError::ConfigLocked);
        }
        if amount == 0 {
            return Err(AMMError::InvalidAmount);
        }
        let (x, y) = if self.mint_lp.supply == 0 && self.vault_x.amount == 0 && self.vault_y.amount == 0 {
            (max_x, max_y)
        } else {
            match quote {
                Some(a) => (a.x, a.y),
                None => return Err(AMMError::InsufficientLiquidity),
            }
        };
        if !(x <= max_x && y <= max_y) {
            return Err(AMMError::ExceededMaxSlippage);
        }
        let mut cpis: Vec<Cpi> = Vec::new();
        cpis.push(self.deposit_tokens(true, x));
        cpis.push(self.deposit_tokens(false, y));
        cpis.push(self.mint_lp_tokens(amount));
        proof {
            assert(effects(cpis@) =~= seq![
                self.transfer_in(true, x),
                self.transfer_in(false, y),
                self.lp_mint(amount),
            ]);
        }
        Ok(cpis)
    }

    /// The transfer of `amount` of X (`is_x`) or Y from the depositor into the vault.
    pub fn deposit_tokens(&self, is_x: bool, amount: u64) -> (cpi: Cpi)
        ensures
            cpi@ == self.transfer_in(is_x, amount),
    {
        let (from, to) = if is_x {
            (self.depositer_ata_x, self.vault_x.key)
        } else {
            (self.depositer_ata_y, self.vault_y.key)
        };
        Cpi::Token {
            token_ix: TokenInstruction::Transfer { from, to, authority: self.depositer, amount },
            signer: None,
        }
    }

    /// The minting of `amount` liquidity tokens to the depositor.
    pub fn mint_lp_tokens(&self, amount: u64) -> (cpi: Cpi)
        ensures
            cpi@ == self.lp_mint(amount),
    {
        Cpi::Token {
            token_ix: TokenInstruction::MintTo {
                mint: self.mint_lp.key,
                to: self.depositer_ata_lp,
                authority: self.config_key,
                amount,
            },
            signer: Some(self.config.signer_seeds()),
        }
    }
}


/// The accounts of a withdrawal from the pool.
#[derive(Clone, Copy, Debug, PartialEq, Eq)]
pub struct Withdraw {
    pub withdrawer: Address,
    pub mint_lp: Mint,
    pub vault_x: TokenAccount,
    pub vault_y: TokenAccount,
    pub withdrawer_ata_x: Address,
    pub withdrawer_ata_y: Address,
    pub withdrawer_ata_lp: Address,
    pub config_key: Address,
    pub config: Config,
}

impl Withdraw {
    /// The transfer of `amount` of X (or Y) out of its vault to the withdrawer,
    /// signed by the config.
    pub open spec fn transfer_out(self, is_x: bool, amount: u64) -> Effect {
        Effect::Token {
            ix: TokenInstruction::Transfer {
                from: if is_x { self.vault_x.key } else { self.vault_y.key },
                to: if is_x { self.withdrawer_ata_x } else { self.withdrawer_ata_y },
                authority: self.config_key,
                amount,
            },
            signer: Some(config_seeds(self.config)),
        }
    }

    /// The burning of `amount` of the withdrawer's liquidity tokens.
    pub open spec fn lp_burn(self, amount: u64) -> Effect {
        Effect::Token {
            ix: TokenInstruction::Burn {
                mint: self.mint_lp.key,
                from: self.withdrawer_ata_lp,
                authority: self.withdrawer,
                amount,
            },
            signer: None,
        }
    }

    /// What the withdrawal of `amount` liquidity tokens asks the curve: the
    /// vaults' balances, the liquidity supply, `amount`, and a precision of 6.
    pub fn curve_query(&self, amount: u64) -> (q: LiquidityQuery)
        ensures
            q == (LiquidityQuery {
                vault_x: self.vault_x.amount,
                vault_y: self.vault_y.amount,
                supply: self.mint_lp.supply,
                amount,
                precision: 6,
            }),
    {
        LiquidityQuery {
            vault_x: self.vault_x.amount,
            vault_y: self.vault_y.amount,
            supply: self.mint_lp.supply,
            amount,
            precision: 6,
        }
    }

    /// Whether enough liquidity tokens exist for a withdrawal of `amount`.
    pub open spec fn liquidity_suffices(self, amount: u64) -> bool {
        self.mint_lp.supply > 0 && self.mint_lp.supply >= amount
    }

    /// What a withdrawal of `amount` liquidity tokens decides: the X and Y
    /// amounts paid out, or the error. `quote` is what the curve's
    /// `xy_withdraw_amounts_from_l(vault_x, vault_y, supply, amount, 6)`
    /// returned (`None` for its error).
    pub open spec fn withdraw_outcome(self, amount: u64, min_x: u64, min_y: u64, quote: Option<XYAmounts>) -> Result<
        XYAmounts,
        AMMError,
    > {
        if !self.liquidity_suffices(amount) {
            Err(AMMError::InsufficientLiquidity)
        } else {
            match quote {
                None => Err(AMMError::InsufficientLiquidity),
                Some(a) => if a.x >= min_x && a.y >= min_y {
                    Ok(a)
                } else {
                    Err(AMMError::ExceededMaxSlippage)
                },
            }
        }
    }

    /// Decides a withdrawal of `amount` liquidity tokens for at least `min_x`
    /// of X and `min_y` of Y: the LP burn, then the X and the Y transfers.
    pub fn withdraw(&self, amount: u64, min_x: u64, min_y: u64, quote: Option<XYAmounts>) -> (res: Result<
        Vec<Cpi>,
        AMMError,
    >)
        ensures
            match res {
                Ok(cpis) => match self.withdraw_outcome(amount, min_x, min_y, quote) {
                    Ok(a) => effects(cpis@) == seq![
                        self.lp_burn(amount),
                        self.transfer_out(true, a.x),
                        self.transfer_out(false, a.y),
                    ],
                    Err(_) => false,
                },
                Err(e) => self.withdraw_outcome(amount, min_x, min_y, quote) == Err::<XYAmounts, AMMError>(e),
            },
            0 < self.mint_lp.supply && amount <= self.mint_lp.supply && quote is Some && quote.unwrap().x >= min_x
                && quote.unwrap().y >= min_y ==> res is Ok,
            res is Ok ==> 0 < self.mint_lp.supply && amount <= self.mint_lp.supply,
            res matches Ok(cpis) ==> {
                &&& quote is Some
                &&& quote.unwrap().x >= min_x
                &&& quote.unwrap().y >= min_y
                &&& cpis@.len() == 3
                &&& cpis@[0]@ == (Effect::Token {
                    ix: TokenInstruction::Burn {
                        mint: self.mint_lp.key,
                        from: self.withdrawer_ata_lp,
                        authority: self.withdrawer,
                        amount,
                    },
                    signer: None,
                })
                &&& cpis@[1]@ == (Effect::Token {
                    ix: TokenInstruction::Transfer {
                        from: self.vault_x.key,
                        to: self.withdrawer_ata_x,
                        authority: self.config_key,
                        amount: quote.unwrap().x,
                    },
                    signer: Some(config_seeds(self.config)),
                })
                &&& cpis@[2]@ == (Effect::Token {
                    ix: TokenInstruction::Transfer {
                        from: self.vault_y.key,
                        to: self.withdrawer_ata_y,
                        authority: self.config_key,
                        amount: quote.unwrap().y,
                    },
                    signer: Some(config_seeds(self.config)),
                })
            },
    {
        if !(self.mint_lp.supply > 0 && self.mint_lp.supply >= amount) {
            return Err(AMMError::InsufficientLiquidity);
        }
        let a = match quote {
            Some(a) => a,
            None => return Err(AMMError::InsufficientLiquidity),
        };
        if !(a.x >= min_x && a.y >= min_y) {
            return Err(AMMError::ExceededMaxSlippage);
        }
        let mut cpis: Vec<Cpi> = Vec::new();
        cpis.push(self.burn_lp(amount));
        cpis.push(self.withdraw_tokens(true, a.x));
        cpis.push(self.withdraw_tokens(false, a.y));
        proof {
            assert(effects(cpis@) =~= seq![
                self.lp_burn(amount),
                self.transfer_out(true, a.x),
                self.transfer_out(false, a.y),
            ]);
        }
        Ok(cpis)
    }

    /// The transfer of `amount` of X (`is_x`) or Y from the vault to the withdrawer.
    pub fn withdraw_tokens(&self, is_x: bool, amount: u64) -> (cpi: Cpi)
        ensures
            cpi@ == self.transfer_out(is_x, amount),
    {
        let (from, to) = if is_x {
            (self.vault_x.key, self.withdrawer_ata_x)
        } else {
            (self.vault_y.key, self.withdrawer_ata_y)
        };
        Cpi::Token {
            token_ix: TokenInstruction::Transfer { from, to, authority: self.config_key, amount },
            signer: Some(self.config.signer_seeds()),
        }
    }

    /// The burning of `amount` of the withdrawer's liquidity tokens.
    pub fn burn_lp(&self, amount: u64) -> (cpi: Cpi)
        ensures
            cpi@ == self.lp_burn(amount),
    {
        Cpi::Token {
            token_ix: TokenInstruction::Burn {
                mint: self.mint_lp.key,
                from: self.withdrawer_ata_lp,
                authority: self.withdrawer,
                amount,
            },
            signer: None,
        }
    }
}

/// The accounts of a swap.
#[derive(Clone, Copy, Debug, PartialEq, Eq)]
pub struct Swap {
    pub user: Address,
    pub vault_x: TokenAccount,
    pub vault_y: TokenAccount,
    pub user_ata_x: Address,
    pub user_ata_y: Address,
    pub config_key: Address,
    pub config: Config,
    pub authority: Address,
}

/// The fee in lamports that a swap of `amount_in` pays: `fee * amount_in / 10_000`.
pub open spec fn swap_fee(fee: u16, amount_in: u64) -> int {
    (fee as int * amount_in as int) / 10_000
}

impl Swap {
    /// What a swap of `amount_in` asks the curve: the direction, the vaults'
    /// balances and `amount_in`.
    pub fn curve_query(&self, is_x_to_y: bool, amount_in: u64) -> (q: SwapQuery)
        ensures
            q == (SwapQuery {
                x_to_y: is_x_to_y,
                vault_x: self.vault_x.amount,
                vault_y: self.vault_y.amount,
                amount_in,
            }),
    {
        SwapQuery { x_to_y: is_x_to_y, vault_x: self.vault_x.amount, vault_y: self.vault_y.amount, amount_in }
    }

    /// The account that receives the fees is the config's authority.
    pub open spec fn authority_matches(self) -> bool {
        self.config.authority == Some(self.authority)
    }

    /// The transfer of `amount` of X (or Y) from the user into its vault.
    pub open spec fn transfer_in(self, is_x: bool, amount: u64) -> Effect {
        Effect::Token {
            ix: TokenInstruction::Transfer {
                from: if is_x { self.user_ata_x } else { self.user_ata_y },
                to: if is_x { self.vault_x.key } else { self.vault_y.key },
                authority: self.user,
                amount,
            },
            signer: None,
        }
    }

    /// The transfer of `amount` of X (or Y) from its vault to the user, signed by the config.
    pub open spec fn transfer_out(self, is_x: bool, amount: u64) -> Effect {
        Effect::Token {
            ix: TokenInstruction::Transfer {
                from: if is_x { self.vault_x.key } else { self.vault_y.key },
                to: if is_x { self.user_ata_x } else { self.user_ata_y },
                authority: self.config_key,
                amount,
            },
            signer: Some(config_seeds(self.config)),
        }
    }

    /// The invocations of an accepted swap: the fee in lamports to the authority,
    /// the input into its vault, the output out of the other vault.
    pub open spec fn swap_cpis(self, is_x_to_y: bool, amount_in: u64, amount_out: u64) -> Seq<Effect> {
        seq![
            Effect::SystemTransfer {
                from: self.user,
                to: self.authority,
                lamports: swap_fee(self.config.fee, amount_in) as u64,
            },
            self.transfer_in(is_x_to_y, amount_in),
            self.transfer_out(!is_x_to_y, amount_out),
        ]
    }

    /// The account check of the swap that carries a program error: the config's
    /// authority must be the given authority account.
    pub fn check_authority(&self) -> (res: Result<(), AMMError>)
        ensures
            res is Ok <==> self.authority_matches(),
            res matches Err(e) ==> e == AMMError::InvalidAuthorityAddress,
    {
        match &self.config.authority {
            Some(a) => if a.equals(&self.authority) {
                proof {
                    assert(a.bytes == self.authority.bytes);
                }
                Ok(())
            } else {
                Err(AMMError::InvalidAuthorityAddress)
            },
            None => Err(AMMError::InvalidAuthorityAddress),
        }
    }

    /// Decides a swap of `amount_in` of X (`is_x_to_y`) or Y for at least
    /// `min_amount_out` of the other token. `amount_out` is what the curve's
    /// `delta_y_from_x_swap_amount` (or `delta_x_from_y_swap_amount`) quoted for
    /// the vaults' balances and `amount_in`.
    pub fn swap_tokens(&self, is_x_to_y: bool, amount_in: u64, min_amount_out: u64, amount_out: u64) -> (res:
        Result<Vec<Cpi>, AMMError>)
        requires
            self.config.fee as int * amount_in as int <= u64::MAX,
        ensures
            res is Ok <==> amount_out >= min_amount_out,
            res matches Err(e) ==> e == AMMError::ExceededMaxSlippage,
            res matches Ok(cpis) ==> effects(cpis@) == self.swap_cpis(is_x_to_y, amount_in, amount_out),
            res matches Ok(cpis) ==> cpis@.len() == 3 && cpis@[0]@ == (Effect::SystemTransfer {
                from: self.user,
                to: self.authority,
                lamports: ((self.config.fee as int * amount_in as int) / 10_000) as u64,
            }),
            res matches Ok(cpis) ==> cpis@.len() == 3 && cpis@[1]@ == (Effect::Token {
                ix: TokenInstruction::Transfer {
                    from: if is_x_to_y { self.user_ata_x } else { self.user_ata_y },
                    to: if is_x_to_y { self.vault_x.key } else { self.vault_y.key },
                    authority: self.user,
                    amount: amount_in,
                },
                signer: None,
            }) && cpis@[2]@ == (Effect::Token {
                ix: TokenInstruction::Transfer {
                    from: if is_x_to_y { self.vault_y.key } else { self.vault_x.key },
                    to: if is_x_to_y { self.user_ata_y } else { self.user_ata_x },
                    authority: self.config_key,
                    amount: amount_out,
                },
                signer: Some(config_seeds(self.config)),
            }),
    {
        let fee: u64 = self.config.fee as u64 * amount_in / 10_000;
        if !(amount_out >= min_amount_out) {
            return Err(AMMError::ExceededMaxSlippage);
        }
        let mut cpis: Vec<Cpi> = Vec::new();
        cpis.push(Cpi::SystemTransfer { from: self.user, to: self.authority, lamports: fee });
        cpis.push(self.deposit_tokens(is_x_to_y, amount_in));
        cpis.push(self.withdraw_tokens(!is_x_to_y, amount_out));
        proof {
            assert(effects(cpis@) =~= self.swap_cpis(is_x_to_y, amount_in, amount_out));
        }
        Ok(cpis)
    }

    /// The transfer of `amount` of X (`is_x`) or Y from the user into the vault.
    pub fn deposit_tokens(&self, is_x: bool, amount: u64) -> (cpi: Cpi)
        ensures
            cpi@ == self.transfer_in(is_x, amount),
    {
        let (from, to) = if is_x {
            (self.user_ata_x, self.vault_x.key)
        } else {
            (self.user_ata_y, self.vault_y.key)
        };
        Cpi::Token {
            token_ix: TokenInstruction::Transfer { from, to, authority: self.user, amount },
            signer: None,
        }
    }

    /// The transfer of `amount` of X (`is_x`) or Y from the vault to the user.
    pub fn withdraw_tokens(&self, is_x: bool, amount: u64) -> (cpi: Cpi)
        ensures
            cpi@ == self.transfer_out(is_x, amount),
    {
        let (from, to) = if is_x {
            (self.vault_x.key, self.user_ata_x)
        } else {
            (self.vault_y.key, self.user_ata_y)
        };
        Cpi::Token {
            token_ix: TokenInstruction::Transfer { from, to, authority: self.config_key, amount },
            signer: Some(self.config.signer_seeds()),
        }
    }
}

/// The `deposit` instruction.
pub fn deposit(accounts: &Deposit, amount: u64, max_x: u64, max_y: u64, quote: Option<XYAmounts>) -> (res: Result<
    Vec<Cpi>,
    AMMError,
>)
    ensures
        match res {
            Ok(cpis) => match accounts.deposit_outcome(amount, max_x, max_y, quote) {
                Ok(a) => effects(cpis@) == seq![
                    accounts.transfer_in(true, a.x),
                    accounts.transfer_in(false, a.y),
                    accounts.lp_mint(amount),
                ],
                Err(_) => false,
            },
            Err(e) => accounts.deposit_outcome(amount, max_x, max_y, quote) == Err::<XYAmounts, AMMError>(e),
        },
{
    accounts.deposit_to_pool(amount, max_x, max_y, quote)
}

/// The `withdraw` instruction.
pub fn withdraw(accounts: &Withdraw, amount: u64, min_x: u64, min_y: u64, quote: Option<XYAmounts>) -> (res: Result<
    Vec<Cpi>,
    AMMError,
>)
    ensures
        match res {
            Ok(cpis) => match accounts.withdraw_outcome(amount, min_x, min_y, quote) {
                Ok(a) => effects(cpis@) == seq![
                    accounts.lp_burn(amount),
                    accounts.transfer_out(true, a.x),
                    accounts.transfer_out(false, a.y),
                ],
                Err(_) => false,
            },
            Err(e) => accounts.withdraw_outcome(amount, min_x, min_y, quote) == Err::<XYAmounts, AMMError>(e),
        },
        0 < accounts.mint_lp.supply && amount <= accounts.mint_lp.supply && quote is Some && quote.unwrap().x >= min_x
            && quote.unwrap().y >= min_y ==> res is Ok,
        res is Ok ==> 0 < accounts.mint_lp.supply && amount <= accounts.mint_lp.supply,
{
    accounts.withdraw(amount, min_x, min_y, quote)
}

/// The `swap` instruction: the authority check, then the swap itself.
pub fn swap(accounts: &Swap, is_x_to_y: bool, amount_in: u64, min_amount_out: u64, amount_out: u64) -> (res: Result<
    Vec<Cpi>,
    AMMError,
>)
    requires
        accounts.authority_matches() ==> accounts.config.fee as int * amount_in as int <= u64::MAX,
    ensures
        !accounts.authority_matches() ==> res == Err::<Vec<Cpi>, AMMError>(AMMError::InvalidAuthorityAddress),
        accounts.authority_matches() ==> (res is Ok <==> amount_out >= min_amount_out),
        accounts.authority_matches() && amount_out < min_amount_out ==> res == Err::<Vec<Cpi>, AMMError>(
            AMMError::ExceededMaxSlippage,
        ),
        res matches Ok(cpis) ==> effects(cpis@) == accounts.swap_cpis(is_x_to_y, amount_in, amount_out),
        res matches Ok(cpis) ==> cpis@.len() == 3 && cpis@[0]@ == (Effect::SystemTransfer {
            from: accounts.user,
            to: accounts.authority,
            lamports: ((accounts.config.fee as int * amount_in as int) / 10_000) as u64,
        }),
{
    match accounts.check_authority() {
        Ok(()) => {},
        Err(e) => return Err(e),
    }
    accounts.swap_tokens(is_x_to_y, amount_in, min_amount_out, amount_out)
}


/// A deposit never takes more of either token than the depositor allowed.
pub proof fn deposit_respects_maxima(d: Deposit, amount: u64, max_x: u64, max_y: u64, quote: Option<XYAmounts>)
    ensures
        d.deposit_outcome(amount, max_x, max_y, quote) matches Ok(a) ==> a.x <= max_x && a.y <= max_y,
{
}

/// A locked pool accepts no deposit, whatever its arguments.
pub proof fn locked_pool_refuses_deposits(
    d: Deposit,
    amount: u64,
    max_x: u64,
    max_y: u64,
    quote: Option<XYAmounts>,
)
    requires
        d.config.locked,
    ensures
        d.deposit_outcome(amount, max_x, max_y, quote) == Err::<XYAmounts, AMMError>(AMMError::ConfigLocked),
{
}

/// The first deposit into an empty, unlocked pool takes exactly the maxima the
/// depositor gave, whatever the curve would quote.
pub proof fn first_deposit_sets_the_price(
    d: Deposit,
    amount: u64,
    max_x: u64,
    max_y: u64,
    quote: Option<XYAmounts>,
)
    requires
        !d.config.locked,
        amount > 0,
        d.pool_is_empty(),
    ensures
        d.deposit_outcome(amount, max_x, max_y, quote) == Ok::<XYAmounts, AMMError>(XYAmounts { x: max_x, y: max_y }),
{
}

/// A withdrawal pays at least the minima the withdrawer asked for, and burns no
/// more liquidity tokens than exist.
pub proof fn withdraw_respects_minima(w: Withdraw, amount: u64, min_x: u64, min_y: u64, quote: Option<XYAmounts>)
    ensures
        w.withdraw_outcome(amount, min_x, min_y, quote) matches Ok(a) ==> {
            &&& a.x >= min_x
            &&& a.y >= min_y
            &&& 0 < w.mint_lp.supply
            &&& amount <= w.mint_lp.supply
        },
{
}

/// With a fee of at most 100% (10 000 basis points), the fee a swap pays is at
/// most its input amount.
pub proof fn swap_fee_at_most_input(fee: u16, amount_in: u64)
    requires
        fee <= 10_000,
    ensures
        0 <= swap_fee(fee, amount_in) <= amount_in,
{
    assert(0 <= fee as int * amount_in as int <= 10_000 * amount_in as int) by (nonlinear_arith)
        requires
            fee <= 10_000,
    ;
}


/// A swap charges the same fee whichever way it goes: its first invocation
/// sends exactly `fee * amount_in / 10_000` lamports from the user to the
/// config's authority, for X-to-Y and Y-to-X alike, whatever the output.
pub proof fn swap_fee_does_not_depend_on_direction(s: Swap, amount_in: u64, out_x_to_y: u64, out_y_to_x: u64)
    ensures
        s.swap_cpis(true, amount_in, out_x_to_y)[0] == s.swap_cpis(false, amount_in, out_y_to_x)[0],
        s.swap_cpis(false, amount_in, out_y_to_x)[0] == (Effect::SystemTransfer {
            from: s.user,
            to: s.authority,
            lamports: ((s.config.fee as int * amount_in as int) / 10_000) as u64,
        }),
{
}

/// Any withdrawal of up to the whole liquidity supply (the last provider
/// leaving included) is accepted when the curve quotes amounts that meet the
/// minima, and it pays exactly the quoted amounts.
pub proof fn withdraw_up_to_whole_supply_is_accepted(w: Withdraw, amount: u64, min_x: u64, min_y: u64, a: XYAmounts)
    requires
        0 < w.mint_lp.supply,
        amount <= w.mint_lp.supply,
        a.x >= min_x,
        a.y >= min_y,
    ensures
        w.withdraw_outcome(amount, min_x, min_y, Some(a)) == Ok::<XYAmounts, AMMError>(a),
{
}

} // verus!
