use fractionalize_cnft::key::Key;
use fractionalize_cnft::ledger::{Ledger, LedgerError, MintAccount, TokenAccount};
use fractionalize_cnft::protocol::{
    CustomError, FractionalizeError, LockNftAndMintFractions, RedeemFractionsAndUnlockNft,
    TokenInstruction,
};

fn k(n: u8) -> Key {
    Key { bytes: [n; 32] }
}

const USER: u8 = 1;
const OTHER: u8 = 2;
const MINT_AUTHORITY: u8 = 3;
const VAULT_AUTHORITY: u8 = 4;
const NFT_MINT: u8 = 10;
const FRACTION_MINT: u8 = 11;
const USER_NFT: u8 = 20;
const VAULT_NFT: u8 = 21;
const USER_FRACTION: u8 = 22;
const OTHER_FRACTION: u8 = 23;

fn holding(key: u8, mint: u8, owner: u8, amount: u64) -> TokenAccount {
    TokenAccount { key: k(key), mint: k(mint), owner: k(owner), amount }
}

fn setup() -> Ledger {
    Ledger {
        accounts: vec![
            holding(USER_NFT, NFT_MINT, USER, 1),
            holding(VAULT_NFT, NFT_MINT, VAULT_AUTHORITY, 0),
            holding(USER_FRACTION, FRACTION_MINT, USER, 0),
            holding(OTHER_FRACTION, FRACTION_MINT, OTHER, 0),
        ],
        mints: vec![
            MintAccount { key: k(NFT_MINT), authority: k(OTHER), supply: 1 },
            MintAccount { key: k(FRACTION_MINT), authority: k(MINT_AUTHORITY), supply: 0 },
        ],
    }
}

fn balance(l: &Ledger, key: u8) -> u64 {
    l.accounts.iter().find(|a| a.key.bytes == [key; 32]).unwrap().amount
}

fn supply(l: &Ledger, key: u8) -> u64 {
    l.mints.iter().find(|m| m.key.bytes == [key; 32]).unwrap().supply
}

fn lock_ctx(user: u8, mint_authority: u8) -> LockNftAndMintFractions {
    LockNftAndMintFractions {
        user: k(user),
        user_nft_account: k(USER_NFT),
        vault_nft_account: k(VAULT_NFT),
        fraction_mint: k(FRACTION_MINT),
        user_fraction_account: k(USER_FRACTION),
        fraction_mint_authority: k(mint_authority),
    }
}

fn redeem_ctx(vault_authority: u8) -> RedeemFractionsAndUnlockNft {
    RedeemFractionsAndUnlockNft {
        user: k(USER),
        user_fraction_account: k(USER_FRACTION),
        fraction_mint: k(FRACTION_MINT),
        user_nft_account: k(USER_NFT),
        vault_nft_account: k(VAULT_NFT),
        vault_authority: k(vault_authority),
    }
}

fn snapshot_amounts(l: &Ledger) -> (Vec<u64>, Vec<u64>) {
    (
        l.accounts.iter().map(|a| a.amount).collect(),
        l.mints.iter().map(|m| m.supply).collect(),
    )
}

#[test]
fn lock_then_redeem_full_cycle() {
    let mut l = setup();
    assert!(l.lock_and_mint(&lock_ctx(USER, MINT_AUTHORITY), 1_000_000).is_ok());
    assert_eq!(balance(&l, USER_FRACTION), 1_000_000);
    assert_eq!(balance(&l, VAULT_NFT), 1);
    assert_eq!(balance(&l, USER_NFT), 0);
    assert_eq!(supply(&l, FRACTION_MINT), 1_000_000);

    assert!(l.redeem_and_unlock(&redeem_ctx(VAULT_AUTHORITY)).is_ok());
    assert_eq!(supply(&l, FRACTION_MINT), 0);
    assert_eq!(balance(&l, USER_FRACTION), 0);
    assert_eq!(balance(&l, USER_NFT), 1);
    assert_eq!(balance(&l, VAULT_NFT), 0);
}

#[test]
fn redeem_after_reacquiring_all_fractions() {
    let mut l = setup();
    l.lock_and_mint(&lock_ctx(USER, MINT_AUTHORITY), 1_000_000).unwrap();
    let give = TokenInstruction::Transfer {
        from: k(USER_FRACTION),
        to: k(OTHER_FRACTION),
        authority: k(USER),
        amount: 1,
    };
    assert!(l.apply(&give).is_ok());

    let before = snapshot_amounts(&l);
    let r = l.redeem_and_unlock(&redeem_ctx(VAULT_AUTHORITY));
    assert!(matches!(
        r,
        Err(FractionalizeError::Custom(CustomError::InsufficientFractionTokens))
    ));
    assert_eq!(snapshot_amounts(&l), before);

    let back = TokenInstruction::Transfer {
        from: k(OTHER_FRACTION),
        to: k(USER_FRACTION),
        authority: k(OTHER),
        amount: 1,
    };
    assert!(l.apply(&back).is_ok());
    assert!(l.redeem_and_unlock(&redeem_ctx(VAULT_AUTHORITY)).is_ok());
    assert_eq!(supply(&l, FRACTION_MINT), 0);
    assert_eq!(balance(&l, USER_NFT), 1);
}

#[test]
fn lock_by_non_owner_is_refused() {
    let mut l = setup();
    let before = snapshot_amounts(&l);
    for amount in [1u64, 1_000_000, u64::MAX] {
        let r = l.lock_and_mint(&lock_ctx(OTHER, MINT_AUTHORITY), amount);
        assert!(matches!(r, Err(FractionalizeError::Custom(CustomError::InvalidOwner))));
    }
    assert_eq!(snapshot_amounts(&l), before);
}

#[test]
fn failed_mint_leaves_asset_with_owner() {
    let mut l = setup();
    let before = snapshot_amounts(&l);
    let r = l.lock_and_mint(&lock_ctx(USER, OTHER), 1_000_000);
    assert!(matches!(r, Err(FractionalizeError::Ledger(LedgerError::OwnerMismatch))));
    assert_eq!(snapshot_amounts(&l), before);
    assert_eq!(balance(&l, USER_NFT), 1);
    assert_eq!(balance(&l, VAULT_NFT), 0);
}

#[test]
fn failed_release_keeps_fractions() {
    let mut l = setup();
    l.lock_and_mint(&lock_ctx(USER, MINT_AUTHORITY), 500).unwrap();
    let before = snapshot_amounts(&l);
    let r = l.redeem_and_unlock(&redeem_ctx(USER));
    assert!(matches!(r, Err(FractionalizeError::Ledger(LedgerError::OwnerMismatch))));
    assert_eq!(snapshot_amounts(&l), before);
    assert_eq!(supply(&l, FRACTION_MINT), 500);
    assert_eq!(balance(&l, USER_FRACTION), 500);
}

#[test]
fn lock_with_unknown_holding() {
    let mut l = setup();
    let mut ctx = lock_ctx(USER, MINT_AUTHORITY);
    ctx.user_nft_account = k(99);
    let r = l.lock_and_mint(&ctx, 5);
    assert!(matches!(r, Err(FractionalizeError::Ledger(LedgerError::AccountNotFound))));
}

#[test]
fn redeem_with_unknown_series() {
    let mut l = setup();
    let mut ctx = redeem_ctx(VAULT_AUTHORITY);
    ctx.fraction_mint = k(99);
    let r = l.redeem_and_unlock(&ctx);
    assert!(matches!(r, Err(FractionalizeError::Ledger(LedgerError::MintNotFound))));
}

#[test]
fn mint_overflow_is_refused_atomically() {
    let mut l = setup();
    l.lock_and_mint(&lock_ctx(USER, MINT_AUTHORITY), u64::MAX).unwrap();
    let mut second = setup();
    second.mints[1].supply = u64::MAX;
    let before = snapshot_amounts(&second);
    let r = second.lock_and_mint(&lock_ctx(USER, MINT_AUTHORITY), 1);
    assert!(matches!(r, Err(FractionalizeError::Ledger(LedgerError::Overflow))));
    assert_eq!(snapshot_amounts(&second), before);
}

#[test]
fn transfer_between_series_is_refused() {
    let mut l = setup();
    let bad = TokenInstruction::Transfer {
        from: k(USER_NFT),
        to: k(USER_FRACTION),
        authority: k(USER),
        amount: 1,
    };
    assert_eq!(l.apply(&bad), Err(LedgerError::MintMismatch));
    let too_much = TokenInstruction::Transfer {
        from: k(USER_NFT),
        to: k(VAULT_NFT),
        authority: k(USER),
        amount: 2,
    };
    assert_eq!(l.apply(&too_much), Err(LedgerError::InsufficientFunds));
}

#[test]
fn execute_is_all_or_nothing() {
    let mut l = setup();
    let before = snapshot_amounts(&l);
    let steps = vec![
        TokenInstruction::Transfer {
            from: k(USER_NFT),
            to: k(VAULT_NFT),
            authority: k(USER),
            amount: 1,
        },
        TokenInstruction::Burn {
            mint: k(FRACTION_MINT),
            from: k(USER_FRACTION),
            authority: k(USER),
            amount: 1,
        },
    ];
    assert_eq!(l.execute(&steps), Err(LedgerError::InsufficientFunds));
    assert_eq!(snapshot_amounts(&l), before);
}

#[test]
fn snapshot_copies_everything() {
    let l = setup();
    let c = l.snapshot();
    assert_eq!(snapshot_amounts(&c), snapshot_amounts(&l));
    assert_eq!(c.accounts.len(), 4);
    assert_eq!(c.mints.len(), 2);
}

#[test]
fn redeem_from_empty_vault_is_refused() {
    let mut l = setup();
    let before = snapshot_amounts(&l);
    let r = l.redeem_and_unlock(&redeem_ctx(VAULT_AUTHORITY));
    assert!(matches!(r, Err(FractionalizeError::Custom(CustomError::VaultNotLocked))));
    assert_eq!(snapshot_amounts(&l), before);
}

#[test]
fn second_redeem_after_double_lock_is_refused() {
    let mut l = setup();
    l.accounts[0].amount = 2;
    l.mints[0].supply = 2;
    l.lock_and_mint(&lock_ctx(USER, MINT_AUTHORITY), 10).unwrap();
    l.lock_and_mint(&lock_ctx(USER, MINT_AUTHORITY), 10).unwrap();
    assert!(l.redeem_and_unlock(&redeem_ctx(VAULT_AUTHORITY)).is_ok());
    assert_eq!(balance(&l, VAULT_NFT), 1);
    assert_eq!(supply(&l, FRACTION_MINT), 0);
    let r = l.redeem_and_unlock(&redeem_ctx(VAULT_AUTHORITY));
    assert!(matches!(r, Err(FractionalizeError::Custom(CustomError::VaultNotLocked))));
    assert_eq!(balance(&l, VAULT_NFT), 1);
}
