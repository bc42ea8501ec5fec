use defi_suite::address::Address;
use defi_suite::amm::{
    deposit, swap, withdraw, AMMError, Config, Deposit, LiquidityQuery, Swap, SwapQuery, Withdraw, XYAmounts,
};
use defi_suite::cpi::{Cpi, Mint, TokenAccount, TokenInstruction};

fn addr(n: u8) -> Address {
    Address::new([n; 32])
}

fn config(locked: bool, fee: u16, authority: Option<Address>) -> Config {
    Config {
        seed: 0x0102030405060708,
        authority,
        mint_x: addr(1),
        mint_y: addr(2),
        fee,
        locked,
        config_bump: 254,
        lp_bump: 253,
    }
}

fn deposit_accounts(locked: bool, supply: u64, vx: u64, vy: u64) -> Deposit {
    Deposit {
        depositer: addr(10),
        mint_lp: Mint { key: addr(3), supply, decimals: 6 },
        vault_x: TokenAccount { key: addr(4), amount: vx },
        vault_y: TokenAccount { key: addr(5), amount: vy },
        config_key: addr(6),
        config: config(locked, 30, Some(addr(7))),
        depositer_ata_x: addr(11),
        depositer_ata_y: addr(12),
        depositer_ata_lp: addr(13),
    }
}

fn config_seeds() -> Vec<Vec<u8>> {
    vec![b"config".to_vec(), 0x0102030405060708u64.to_le_bytes().to_vec(), vec![254u8]]
}

fn transfer(from: u8, to: u8, authority: u8, amount: u64, pda_signed: bool) -> Cpi {
    Cpi::Token {
        token_ix: TokenInstruction::Transfer { from: addr(from), to: addr(to), authority: addr(authority), amount },
        signer: if pda_signed { Some(config_seeds()) } else { None },
    }
}

#[test]
fn first_deposit_takes_the_maxima() {
    let d = deposit_accounts(false, 0, 0, 0);
    assert!(!d.needs_quote());
    let cpis = deposit(&d, 100, 500, 700, Some(XYAmounts { x: 1, y: 1 })).unwrap();
    assert_eq!(cpis.len(), 3);
    assert_eq!(cpis[0], transfer(11, 4, 10, 500, false));
    assert_eq!(cpis[1], transfer(12, 5, 10, 700, false));
    assert_eq!(
        cpis[2],
        Cpi::Token {
            token_ix: TokenInstruction::MintTo { mint: addr(3), to: addr(13), authority: addr(6), amount: 100 },
            signer: Some(config_seeds()),
        }
    );
}

#[test]
fn later_deposit_uses_the_quote() {
    let d = deposit_accounts(false, 1000, 5000, 7000);
    assert!(d.needs_quote());
    let cpis = d.deposit_to_pool(100, 600, 800, Some(XYAmounts { x: 500, y: 700 })).unwrap();
    assert_eq!(cpis[0], transfer(11, 4, 10, 500, false));
    assert_eq!(cpis[1], transfer(12, 5, 10, 700, false));
}

#[test]
fn locked_pool_refuses_deposit() {
    let d = deposit_accounts(true, 0, 0, 0);
    assert_eq!(deposit(&d, 100, 500, 700, None), Err(AMMError::ConfigLocked));
}

#[test]
fn zero_deposit_is_invalid() {
    let d = deposit_accounts(false, 0, 0, 0);
    assert_eq!(deposit(&d, 0, 500, 700, None), Err(AMMError::InvalidAmount));
}

#[test]
fn failed_quote_means_insufficient_liquidity() {
    let d = deposit_accounts(false, 1000, 5000, 7000);
    assert_eq!(deposit(&d, 100, 500, 700, None), Err(AMMError::InsufficientLiquidity));
}

#[test]
fn deposit_above_maxima_is_refused() {
    let d = deposit_accounts(false, 1000, 5000, 7000);
    assert_eq!(
        deposit(&d, 100, 499, 700, Some(XYAmounts { x: 500, y: 700 })),
        Err(AMMError::ExceededMaxSlippage)
    );
    assert_eq!(
        deposit(&d, 100, 500, 699, Some(XYAmounts { x: 500, y: 700 })),
        Err(AMMError::ExceededMaxSlippage)
    );
}

fn withdraw_accounts(supply: u64) -> Withdraw {
    Withdraw {
        withdrawer: addr(20),
        mint_lp: Mint { key: addr(3), supply, decimals: 6 },
        vault_x: TokenAccount { key: addr(4), amount: 5000 },
        vault_y: TokenAccount { key: addr(5), amount: 7000 },
        withdrawer_ata_x: addr(21),
        withdrawer_ata_y: addr(22),
        withdrawer_ata_lp: addr(23),
        config_key: addr(6),
        config: config(false, 30, None),
    }
}

#[test]
fn withdraw_burns_then_pays_out() {
    let w = withdraw_accounts(1000);
    let cpis = withdraw(&w, 100, 400, 600, Some(XYAmounts { x: 500, y: 700 })).unwrap();
    assert_eq!(cpis.len(), 3);
    assert_eq!(
        cpis[0],
        Cpi::Token {
            token_ix: TokenInstruction::Burn { mint: addr(3), from: addr(23), authority: addr(20), amount: 100 },
            signer: None,
        }
    );
    assert_eq!(cpis[1], transfer(4, 21, 6, 500, true));
    assert_eq!(cpis[2], transfer(5, 22, 6, 700, true));
}

#[test]
fn withdraw_from_empty_pool_or_above_supply_is_refused() {
    assert_eq!(
        withdraw(&withdraw_accounts(0), 0, 0, 0, Some(XYAmounts { x: 0, y: 0 })),
        Err(AMMError::InsufficientLiquidity)
    );
    assert_eq!(
        withdraw(&withdraw_accounts(1000), 1001, 0, 0, Some(XYAmounts { x: 1, y: 1 })),
        Err(AMMError::InsufficientLiquidity)
    );
    assert_eq!(withdraw(&withdraw_accounts(1000), 10, 0, 0, None), Err(AMMError::InsufficientLiquidity));
}

#[test]
fn withdraw_below_minima_is_refused() {
    let w = withdraw_accounts(1000);
    assert_eq!(
        w.withdraw(100, 501, 0, Some(XYAmounts { x: 500, y: 700 })),
        Err(AMMError::ExceededMaxSlippage)
    );
    assert_eq!(
        w.withdraw(100, 0, 701, Some(XYAmounts { x: 500, y: 700 })),
        Err(AMMError::ExceededMaxSlippage)
    );
}

fn swap_accounts(fee: u16, authority: Option<Address>) -> Swap {
    Swap {
        user: addr(30),
        vault_x: TokenAccount { key: addr(4), amount: 5000 },
        vault_y: TokenAccount { key: addr(5), amount: 7000 },
        user_ata_x: addr(31),
        user_ata_y: addr(32),
        config_key: addr(6),
        config: config(false, fee, authority),
        authority: addr(7),
    }
}

#[test]
fn swap_x_for_y_pays_fee_and_moves_both_sides() {
    let s = swap_accounts(30, Some(addr(7)));
    let cpis = swap(&s, true, 1_000_000, 900, 950).unwrap();
    assert_eq!(cpis.len(), 3);
    assert_eq!(cpis[0], Cpi::SystemTransfer { from: addr(30), to: addr(7), lamports: 3000 });
    assert_eq!(cpis[1], transfer(31, 4, 30, 1_000_000, false));
    assert_eq!(cpis[2], transfer(5, 32, 6, 950, true));
}

#[test]
fn swap_y_for_x_goes_the_other_way() {
    let s = swap_accounts(25, Some(addr(7)));
    let cpis = swap(&s, false, 399, 10, 10).unwrap();
    assert_eq!(cpis[0], Cpi::SystemTransfer { from: addr(30), to: addr(7), lamports: 0 });
    assert_eq!(cpis[1], transfer(32, 5, 30, 399, false));
    assert_eq!(cpis[2], transfer(4, 31, 6, 10, true));
}

#[test]
fn swap_below_minimum_output_is_refused() {
    let s = swap_accounts(30, Some(addr(7)));
    assert_eq!(swap(&s, true, 1000, 951, 950), Err(AMMError::ExceededMaxSlippage));
}

#[test]
fn swap_with_wrong_authority_is_refused() {
    assert_eq!(swap(&swap_accounts(30, Some(addr(8))), true, 1000, 0, 950), Err(AMMError::InvalidAuthorityAddress));
    assert_eq!(swap(&swap_accounts(30, None), true, 1000, 0, 950), Err(AMMError::InvalidAuthorityAddress));
}

#[test]
fn fee_of_full_basis_points_is_the_whole_input() {
    let s = swap_accounts(10_000, Some(addr(7)));
    let cpis = s.swap_tokens(true, 12_345, 0, 1).unwrap();
    assert_eq!(cpis[0], Cpi::SystemTransfer { from: addr(30), to: addr(7), lamports: 12_345 });
}

#[test]
fn config_signer_seeds() {
    let c = config(false, 30, None);
    let seeds = c.signer_seeds();
    assert_eq!(seeds, vec![b"config".to_vec(), 0x0102030405060708u64.to_le_bytes().to_vec(), vec![254u8]]);
}

#[test]
fn amm_error_codes_and_messages() {
    assert_eq!(AMMError::ConfigLocked.code(), 6000);
    assert_eq!(AMMError::InvalidAmount.code(), 6001);
    assert_eq!(AMMError::InsufficientLiquidity.code(), 6002);
    assert_eq!(AMMError::ExceededMaxSlippage.code(), 6003);
    assert_eq!(AMMError::InvalidAuthorityAddress.code(), 6004);
    assert_eq!(AMMError::ConfigLocked.message(), "Config is locked");
    assert_eq!(AMMError::InvalidAuthorityAddress.message(), "Not valid authority");
    assert_eq!(AMMError::ExceededMaxSlippage.message(), "Exceeded maximum slippage");
}

#[test]
fn curve_queries_name_the_pool_state() {
    let d = deposit_accounts(false, 1000, 5000, 7000);
    assert_eq!(d.curve_query(100), LiquidityQuery { vault_x: 5000, vault_y: 7000, supply: 1000, amount: 100, precision: 6 });
    let w = withdraw_accounts(1000);
    assert_eq!(w.curve_query(9), LiquidityQuery { vault_x: 5000, vault_y: 7000, supply: 1000, amount: 9, precision: 6 });
    let s = swap_accounts(30, None);
    assert_eq!(s.curve_query(false, 77), SwapQuery { x_to_y: false, vault_x: 5000, vault_y: 7000, amount_in: 77 });
}
