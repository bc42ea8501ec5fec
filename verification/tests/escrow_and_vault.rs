use defi_suite::address::Address;
use defi_suite::cpi::{Cpi, Mint, TokenAccount, TokenInstruction};
use defi_suite::escrow::{
    do_refund, do_take_close, do_take_deposit, do_take_withdraw, Escrow, Refund, Take, TakeClose, TakeDeposit,
    TakeWithdraw,
};
use defi_suite::vault::ErrorMsg;

fn addr(n: u8) -> Address {
    Address::new([n; 32])
}

fn escrow() -> Escrow {
    Escrow { seed: 42, maker: addr(1), mint_a: addr(2), mint_b: addr(3), receive: 250, bump: 255 }
}

fn mint_a() -> Mint {
    Mint { key: addr(2), supply: 1_000_000, decimals: 6 }
}

fn mint_b() -> Mint {
    Mint { key: addr(3), supply: 1_000_000, decimals: 9 }
}

fn take() -> Take {
    Take {
        taker: addr(10),
        maker: addr(1),
        mint_a: mint_a(),
        mint_b: mint_b(),
        taker_ata_a: addr(11),
        taker_ata_b: addr(12),
        maker_ata_b: addr(13),
        escrow_key: addr(14),
        escrow: escrow(),
        vault: TokenAccount { key: addr(15), amount: 400 },
    }
}

fn checked(from: u8, mint: u8, to: u8, authority: u8, amount: u64, decimals: u8, pda_signed: bool) -> Cpi {
    Cpi::Token {
        token_ix: TokenInstruction::TransferChecked {
            from: addr(from),
            mint: addr(mint),
            to: addr(to),
            authority: addr(authority),
            amount,
            decimals,
        },
        signer: if pda_signed { Some(escrow_seeds()) } else { None },
    }
}

fn escrow_seeds() -> Vec<Vec<u8>> {
    vec![b"escrow".to_vec(), vec![1u8; 32], 42u64.to_le_bytes().to_vec(), vec![255u8]]
}

fn close_vault() -> Cpi {
    Cpi::Token {
        token_ix: TokenInstruction::CloseAccount { account: addr(15), destination: addr(1), authority: addr(14) },
        signer: Some(escrow_seeds()),
    }
}

#[test]
fn take_pays_maker_then_empties_and_closes_vault() {
    let t = take();
    assert_eq!(t.deposit(), checked(12, 3, 13, 10, 250, 9, false));
    assert_eq!(t.withdraw(), checked(15, 2, 11, 14, 400, 6, true));
    assert_eq!(t.close(), close_vault());
}

#[test]
fn split_take_matches_take() {
    let t = take();
    let d = TakeDeposit {
        taker: t.taker,
        maker: t.maker,
        mint_b: t.mint_b,
        taker_ata_b: t.taker_ata_b,
        maker_ata_b: t.maker_ata_b,
        escrow: t.escrow,
    };
    let w = TakeWithdraw {
        taker: t.taker,
        mint_a: t.mint_a,
        taker_ata_a: t.taker_ata_a,
        escrow_key: t.escrow_key,
        escrow: t.escrow,
        vault: t.vault,
    };
    let c = TakeClose { maker: t.maker, escrow_key: t.escrow_key, escrow: t.escrow, vault: t.vault, mint_a: t.mint_a };
    assert_eq!(do_take_deposit(&d), t.deposit());
    assert_eq!(do_take_withdraw(&w), t.withdraw());
    assert_eq!(do_take_close(&c), vec![t.close(), Cpi::CloseAccount { account: addr(14), destination: addr(1) }]);
    assert_eq!(w.signer_seeds(), t.signer_seeds());
    assert_eq!(c.signer_seeds(), t.signer_seeds());
}

#[test]
fn refund_returns_vault_to_maker() {
    let r = Refund {
        maker: addr(1),
        mint_a: mint_a(),
        maker_ata_a: addr(16),
        escrow_key: addr(14),
        escrow: escrow(),
        vault: TokenAccount { key: addr(15), amount: 400 },
    };
    let cpis = do_refund(&r);
    assert_eq!(
        cpis,
        vec![
            checked(15, 2, 16, 14, 400, 6, true),
            close_vault(),
            Cpi::CloseAccount { account: addr(14), destination: addr(1) },
        ]
    );
    assert_eq!(r.signer_seeds(), take().signer_seeds());
}

#[test]
fn escrow_signer_seeds() {
    let seeds = take().signer_seeds();
    assert_eq!(seeds, vec![b"escrow".to_vec(), vec![1u8; 32], 42u64.to_le_bytes().to_vec(), vec![255u8]]);
}

#[test]
fn vault_error() {
    assert_eq!(ErrorMsg::InsufficientBalance.code(), 6000);
    assert_eq!(ErrorMsg::InsufficientBalance.message(), "Insufficient balance in vault");
}
