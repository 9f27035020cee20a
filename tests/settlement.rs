use anchor_lang::prelude::Pubkey;
use escrow_take::accounts::{Escrow, Mint, TokenAccount};
use escrow_take::derivation::{authority_matches, escrow_signer_seeds, verify_escrow_authority};
use escrow_take::take::{ErrorCode, Take};
use escrow_take::{keys_equal, u64_le_bytes};

const PROGRAM: [u8; 32] = [7; 32];
const TAKER: [u8; 32] = [1; 32];
const MAKER: [u8; 32] = [2; 32];
const MINT_A: [u8; 32] = [3; 32];
const MINT_B: [u8; 32] = [4; 32];
const SEED: u64 = 42;

fn escrow_pda(maker: [u8; 32], seed: u64) -> ([u8; 32], u8) {
    let program = Pubkey::new_from_array(PROGRAM);
    let (pda, bump) = Pubkey::find_program_address(
        &[b"escrow", maker.as_ref(), &seed.to_le_bytes()],
        &program,
    );
    (pda.to_bytes(), bump)
}

fn account(key: u8, mint: [u8; 32], owner: [u8; 32], amount: u64) -> TokenAccount {
    TokenAccount { key: [key; 32], mint, owner, amount, lamports: 2_000 }
}

/// Maker deposited `deposited` of asset A asking `receive` of asset B; the
/// taker holds `taker_b` of asset B.
fn attempt(deposited: u64, receive: u64, taker_b: u64) -> Take {
    let (pda, bump) = escrow_pda(MAKER, SEED);
    Take {
        program_id: PROGRAM,
        taker: TAKER,
        maker: MAKER,
        maker_lamports: 10_000,
        mint_a: Mint { key: MINT_A, decimals: 6 },
        mint_b: Mint { key: MINT_B, decimals: 9 },
        taker_ata_a: account(10, MINT_A, TAKER, 0),
        taker_ata_b: account(11, MINT_B, TAKER, taker_b),
        escrow_address: pda,
        escrow: Some(Escrow { seed: SEED, maker: MAKER, mint_a: MINT_A, mint_b: MINT_B, receive, bump }),
        escrow_lamports: 3_000,
        vault: Some(account(12, MINT_A, pda, deposited)),
        maker_ata_b: account(13, MINT_B, MAKER, 0),
    }
}

#[test]
fn settlement_scenario_pays_both_legs_and_retires_record() {
    let mut t = attempt(50, 20, 30);
    let st = t.settle().expect("settlement succeeds");
    assert_eq!(t.maker_ata_b.amount, 20);
    assert_eq!(t.taker_ata_a.amount, 50);
    assert_eq!(t.taker_ata_b.amount, 10);
    assert!(t.vault.is_none());
    assert!(t.escrow.is_none());
    assert_eq!(t.escrow_lamports, 0);
    assert_eq!(t.maker_lamports, 10_000 + 2_000 + 3_000);
    assert_eq!(st.payment.amount, 20);
    assert_eq!(st.payment.from, [11; 32]);
    assert_eq!(st.payment.to, [13; 32]);
    assert_eq!(st.payment.authority, TAKER);
    assert_eq!(st.payment.decimals, 9);
    assert!(st.payment.signer_seeds.is_empty());
    assert_eq!(st.release.amount, 50);
    assert_eq!(st.release.from, [12; 32]);
    assert_eq!(st.release.to, [10; 32]);
    assert_eq!(st.release.decimals, 6);
    assert_eq!(st.release.authority, escrow_pda(MAKER, SEED).0);
    assert_eq!(st.close_vault.account, [12; 32]);
    assert_eq!(st.close_vault.destination, MAKER);
    assert_eq!(st.release.signer_seeds, escrow_signer_seeds(&MAKER, SEED, escrow_pda(MAKER, SEED).1));
}

#[test]
fn settlement_scenario_short_balance_changes_nothing() {
    let mut t = attempt(50, 20, 15);
    let before = t;
    assert_eq!(t.settle().unwrap_err(), ErrorCode::InsufficientFunds);
    assert_eq!(t, before);
    assert_eq!(t.vault.unwrap().amount, 50);
    assert!(t.escrow.is_some());
    assert_eq!(t.taker_ata_b.amount, 15);
    assert_eq!(t.maker_ata_b.amount, 0);
}

#[test]
fn settlement_moves_only_the_asked_amount() {
    let mut t = attempt(5, 100, 1000);
    t.settle().unwrap();
    assert_eq!(t.taker_ata_b.amount, 900);
    assert_eq!(t.maker_ata_b.amount, 100);
}

#[test]
fn settlement_with_exact_balance_empties_taker_account() {
    let mut t = attempt(50, 20, 20);
    t.settle().unwrap();
    assert_eq!(t.taker_ata_b.amount, 0);
    assert_eq!(t.maker_ata_b.amount, 20);
}

#[test]
fn settlement_rejects_a_bump_that_does_not_derive() {
    let mut t = attempt(50, 20, 30);
    let mut e = t.escrow.unwrap();
    e.bump = e.bump.wrapping_sub(1);
    t.escrow = Some(e);
    let before = t;
    assert_eq!(t.settle().unwrap_err(), ErrorCode::DerivationMismatch);
    assert_eq!(t, before);
}

#[test]
fn settlement_rejects_a_record_at_another_address() {
    let mut t = attempt(50, 20, 30);
    t.escrow_address = [9; 32];
    t.vault = Some(account(12, MINT_A, [9; 32], 50));
    let before = t;
    assert_eq!(t.settle().unwrap_err(), ErrorCode::DerivationMismatch);
    assert_eq!(t, before);
}

#[test]
fn settlement_rejects_a_vault_of_another_authority() {
    let mut t = attempt(50, 20, 30);
    t.vault = Some(account(12, MINT_A, TAKER, 50));
    let before = t;
    assert_eq!(t.settle().unwrap_err(), ErrorCode::VaultMismatch);
    assert_eq!(t, before);
}

#[test]
fn settlement_rejects_a_missing_vault() {
    let mut t = attempt(50, 20, 30);
    t.vault = None;
    assert_eq!(t.settle().unwrap_err(), ErrorCode::VaultMismatch);
}

#[test]
fn settlement_rejects_another_maker() {
    let mut t = attempt(50, 20, 30);
    t.maker = [5; 32];
    t.maker_ata_b.owner = [5; 32];
    assert_eq!(t.settle().unwrap_err(), ErrorCode::MakerMismatch);
}

#[test]
fn settlement_rejects_another_asset() {
    let mut t = attempt(50, 20, 30);
    t.mint_b.key = [6; 32];
    assert_eq!(t.settle().unwrap_err(), ErrorCode::MintMismatch);
}

#[test]
fn settlement_rejects_a_token_account_of_another_owner() {
    let mut t = attempt(50, 20, 30);
    t.maker_ata_b.owner = TAKER;
    assert_eq!(t.settle().unwrap_err(), ErrorCode::TokenAccountMismatch);
    let mut t = attempt(50, 20, 30);
    t.taker_ata_b.mint = MINT_A;
    assert_eq!(t.settle().unwrap_err(), ErrorCode::TokenAccountMismatch);
}

#[test]
fn settlement_rejects_the_maker_as_taker() {
    let mut t = attempt(50, 20, 30);
    t.taker = MAKER;
    assert_eq!(t.settle().unwrap_err(), ErrorCode::SelfSettlement);
}

#[test]
fn settlement_refuses_a_balance_that_would_overflow() {
    let mut t = attempt(50, 20, 30);
    t.maker_ata_b.amount = u64::MAX - 5;
    let before = t;
    assert_eq!(t.settle().unwrap_err(), ErrorCode::Overflow);
    assert_eq!(t, before);
}

#[test]
fn settlement_after_cancellation_finds_no_record() {
    let mut t = attempt(50, 20, 30);
    let mut refund_to = account(14, MINT_A, MAKER, 1);
    let (refund, close) = t.cancel(&mut refund_to).unwrap();
    assert_eq!(refund_to.amount, 51);
    assert_eq!(refund.amount, 50);
    assert_eq!(refund.to, [14; 32]);
    assert_eq!(close.destination, MAKER);
    assert_eq!(t.maker_lamports, 15_000);
    assert!(t.escrow.is_none());
    let before = t;
    assert_eq!(t.settle().unwrap_err(), ErrorCode::RecordNotFound);
    assert_eq!(t, before);
    assert_eq!(t.cancel(&mut refund_to).unwrap_err(), ErrorCode::RecordNotFound);
}

#[test]
fn cancellation_after_settlement_finds_no_record() {
    let mut t = attempt(50, 20, 30);
    t.settle().unwrap();
    let mut refund_to = account(14, MINT_A, MAKER, 0);
    assert_eq!(t.cancel(&mut refund_to).unwrap_err(), ErrorCode::RecordNotFound);
    assert_eq!(refund_to.amount, 0);
    assert_eq!(t.settle().unwrap_err(), ErrorCode::RecordNotFound);
}

#[test]
fn cancellation_rejects_a_refund_account_of_another_owner() {
    let mut t = attempt(50, 20, 30);
    let mut refund_to = account(14, MINT_A, TAKER, 0);
    assert_eq!(t.cancel(&mut refund_to).unwrap_err(), ErrorCode::TokenAccountMismatch);
    assert!(t.escrow.is_some());
}

#[test]
fn deposit_pays_the_maker() {
    let mut t = attempt(50, 20, 30);
    let pay = t.deposit().unwrap();
    assert_eq!(pay.amount, 20);
    assert_eq!(t.taker_ata_b.amount, 10);
    assert_eq!(t.maker_ata_b.amount, 20);
    assert!(t.vault.is_some());
}

#[test]
fn deposit_refuses_a_short_balance() {
    let mut t = attempt(50, 20, 19);
    let before = t;
    assert_eq!(t.deposit().unwrap_err(), ErrorCode::InsufficientFunds);
    assert_eq!(t, before);
}

#[test]
fn withdraw_releases_the_whole_vault_and_closes_it() {
    let mut t = attempt(50, 20, 30);
    let (release, close) = t.withdraw_and_close_vault().unwrap();
    assert_eq!(release.amount, 50);
    assert_eq!(close.account, [12; 32]);
    assert_eq!(t.taker_ata_a.amount, 50);
    assert_eq!(t.maker_lamports, 12_000);
    assert!(t.vault.is_none());
    assert!(t.escrow.is_some());
    assert_eq!(t.withdraw_and_close_vault().unwrap_err(), ErrorCode::VaultMismatch);
}

#[test]
fn close_escrow_retires_the_record_once() {
    let mut t = attempt(50, 20, 30);
    t.close_escrow().unwrap();
    assert!(t.escrow.is_none());
    assert_eq!(t.maker_lamports, 13_000);
    assert_eq!(t.close_escrow().unwrap_err(), ErrorCode::RecordNotFound);
}

#[test]
fn validate_accepts_matching_accounts() {
    assert_eq!(attempt(50, 20, 30).validate(), Ok(()));
    let mut t = attempt(50, 20, 30);
    t.escrow = None;
    assert_eq!(t.validate(), Err(ErrorCode::RecordNotFound));
}

#[test]
fn derived_authority_is_recognized() {
    let (pda, bump) = escrow_pda(MAKER, SEED);
    assert!(verify_escrow_authority(&MAKER, SEED, bump, &PROGRAM, &pda));
    assert!(!verify_escrow_authority(&MAKER, SEED + 1, bump, &PROGRAM, &pda));
    assert!(!verify_escrow_authority(&MAKER, SEED, bump, &PROGRAM, &PROGRAM));
}

#[test]
fn signer_seeds_hold_tag_maker_seed_and_bump() {
    let seeds = escrow_signer_seeds(&MAKER, 0x0102, 254);
    assert_eq!(seeds.len(), 4);
    assert_eq!(seeds[0], b"escrow".to_vec());
    assert_eq!(seeds[1], MAKER.to_vec());
    assert_eq!(seeds[2], vec![2, 1, 0, 0, 0, 0, 0, 0]);
    assert_eq!(seeds[3], vec![254]);
}

#[test]
fn le_bytes_and_key_comparison() {
    assert_eq!(u64_le_bytes(u64::MAX), vec![255; 8]);
    assert_eq!(u64_le_bytes(SEED), SEED.to_le_bytes().to_vec());
    assert!(keys_equal(&MAKER, &MAKER));
    assert!(!keys_equal(&MAKER, &TAKER));
    assert!(authority_matches(Some(MAKER), &MAKER));
    assert!(!authority_matches(Some(TAKER), &MAKER));
    assert!(!authority_matches(None, &MAKER));
}
