//! The two exchange operations: lock an asset for fractions, redeem fractions for the asset.
//!
//! Each operation validates what it reads and returns the ledger instructions to perform,
//! in order. The whole list must be applied as one atomic unit.
use vstd::prelude::*;

use crate::key::{key_eq, Key};
use crate::ledger::LedgerError;
use crate::token_layout::{
    le_u64, mint_ok, token_account_ok, unpack_mint, unpack_token_account,
};
use spl_token::solana_program::program_error::ProgramError;

verus! {

/// Refusals of the protocol itself.
#[derive(Clone, Copy, Debug, PartialEq, Eq, Structural)]
pub enum CustomError {
    /// The caller's fraction balance does not equal the outstanding supply.
    InsufficientFractionTokens,
    /// The caller is not the recorded owner of the asset holding.
    InvalidOwner,
    /// No fractions are outstanding, so the vault is not locked and holds nothing to
    /// release.
    VaultNotLocked,
}

/// Why an operation failed.
#[derive(Debug)]
pub enum FractionalizeError {
    /// A protocol check refused the call.
    Custom(CustomError),
    /// An account's data could not be read as a token account or mint.
    Program(ProgramError),
    /// The ledger refused an instruction.
    Ledger(LedgerError),
}

/// One mutation of the token ledger.
#[derive(Clone, Copy, Debug)]
pub enum TokenInstruction {
    /// Move `amount` from holding `from` to holding `to`, signed by `authority`.
    Transfer { from: Key, to: Key, authority: Key, amount: u64 },
    /// Create `amount` new tokens of `mint` in holding `to`, signed by `authority`.
    MintTo { mint: Key, to: Key, authority: Key, amount: u64 },
    /// Destroy `amount` tokens of `mint` held in `from`, signed by `authority`.
    Burn { mint: Key, from: Key, authority: Key, amount: u64 },
}

/// The accounts named by a lock-and-mint call.
#[derive(Clone, Copy, Debug)]
pub struct LockNftAndMintFractions {
    /// The caller, who signs the call.
    pub user: Key,
    /// The caller's holding of the asset.
    pub user_nft_account: Key,
    /// The vault's holding of the asset.
    pub vault_nft_account: Key,
    /// The fraction series.
    pub fraction_mint: Key,
    /// The caller's holding of fractions.
    pub user_fraction_account: Key,
    /// The series' minting authority, which signs the call.
    pub fraction_mint_authority: Key,
}

/// The accounts named by a redeem-and-unlock call.
#[derive(Clone, Copy, Debug)]
pub struct RedeemFractionsAndUnlockNft {
    /// The caller, who signs the call.
    pub user: Key,
    /// The caller's holding of fractions.
    pub user_fraction_account: Key,
    /// The fraction series.
    pub fraction_mint: Key,
    /// The caller's holding that receives the asset.
    pub user_nft_account: Key,
    /// The vault's holding of the asset.
    pub vault_nft_account: Key,
    /// The vault's custodial authority, which signs the release.
    pub vault_authority: Key,
}

/// The instructions of a lock: one asset unit into the vault, then the fractions minted.
pub open spec fn lock_steps(ctx: LockNftAndMintFractions, fraction_amount: u64) -> Seq<
    TokenInstruction,
> {
    seq![
        TokenInstruction::Transfer {
            from: ctx.user_nft_account,
            to: ctx.vault_nft_account,
            authority: ctx.user,
            amount: 1,
        },
        TokenInstruction::MintTo {
            mint: ctx.fraction_mint,
            to: ctx.user_fraction_account,
            authority: ctx.fraction_mint_authority,
            amount: fraction_amount,
        },
    ]
}

/// The instructions of a redemption: the whole supply burned, then the asset released.
pub open spec fn redeem_steps(ctx: RedeemFractionsAndUnlockNft, supply: u64) -> Seq<
    TokenInstruction,
> {
    seq![
        TokenInstruction::Burn {
            mint: ctx.fraction_mint,
            from: ctx.user_fraction_account,
            authority: ctx.user,
            amount: supply,
        },
        TokenInstruction::Transfer {
            from: ctx.vault_nft_account,
            to: ctx.user_nft_account,
            authority: ctx.vault_authority,
            amount: 1,
        },
    ]
}

/// Decides a lock from the recorded owner of the caller's asset holding.
///
/// Whether the vault is empty is not checked here: a lock into a vault that already
/// holds an asset adds a second unit to it. Callers that need one asset per vault must
/// check the vault's balance first.
pub fn plan_lock(ctx: &LockNftAndMintFractions, holding_owner: &Key, fraction_amount: u64) -> (r:
    Result<Vec<TokenInstruction>, CustomError>)
    requires
        fraction_amount > 0,
    ensures
        r is Ok <==> holding_owner@ == ctx.user@,
        r is Err ==> r == Err::<Vec<TokenInstruction>, CustomError>(CustomError::InvalidOwner),
        r is Ok ==> r->Ok_0@ == lock_steps(*ctx, fraction_amount),
{
    if !key_eq(holding_owner, &ctx.user) {
        return Err(CustomError::InvalidOwner);
    }
    let steps = vec![
        TokenInstruction::Transfer {
            from: ctx.user_nft_account,
            to: ctx.vault_nft_account,
            authority: ctx.user,
            amount: 1,
        },
        TokenInstruction::MintTo {
            mint: ctx.fraction_mint,
            to: ctx.user_fraction_account,
            authority: ctx.fraction_mint_authority,
            amount: fraction_amount,
        },
    ];
    assert(steps@ =~= lock_steps(*ctx, fraction_amount));
    Ok(steps)
}

/// Decides a redemption from the caller's fraction balance and the series' supply.
///
/// A redemption needs fractions outstanding: with a supply of zero the vault is not
/// locked and nothing may be released.
pub fn plan_redeem(ctx: &RedeemFractionsAndUnlockNft, balance: u64, supply: u64) -> (r: Result<
    Vec<TokenInstruction>,
    CustomError,
>)
    ensures
        r is Ok <==> balance == supply && supply > 0,
        r == Err::<Vec<TokenInstruction>, CustomError>(CustomError::InsufficientFractionTokens)
            <==> balance != supply,
        r == Err::<Vec<TokenInstruction>, CustomError>(CustomError::VaultNotLocked) <==> balance
            == supply && supply == 0,
        r is Ok ==> r->Ok_0@ == redeem_steps(*ctx, supply),
{
    if balance != supply {
        return Err(CustomError::InsufficientFractionTokens);
    }
    if supply == 0 {
        return Err(CustomError::VaultNotLocked);
    }
    let steps = vec![
        TokenInstruction::Burn {
            mint: ctx.fraction_mint,
            from: ctx.user_fraction_account,
            authority: ctx.user,
            amount: supply,
        },
        TokenInstruction::Transfer {
            from: ctx.vault_nft_account,
            to: ctx.user_nft_account,
            authority: ctx.vault_authority,
            amount: 1,
        },
    ];
    assert(steps@ =~= redeem_steps(*ctx, supply));
    Ok(steps)
}

/// Lock-and-mint on raw account data: reads the caller's asset holding, checks that the
/// caller owns it, and returns the transfer and mint to perform.
pub fn lock_nft_and_mint_fractions(
    ctx: &LockNftAndMintFractions,
    user_nft_account_data: &[u8],
    fraction_amount: u64,
) -> (r: Result<Vec<TokenInstruction>, FractionalizeError>)
    requires
        fraction_amount > 0,
    ensures
        !token_account_ok(user_nft_account_data@) ==> r matches Err(
            FractionalizeError::Program(_),
        ),
        token_account_ok(user_nft_account_data@) && user_nft_account_data@.subrange(32, 64)
            != ctx.user@ ==> r matches Err(
            FractionalizeError::Custom(CustomError::InvalidOwner),
        ),
        r is Ok <==> token_account_ok(user_nft_account_data@)
            && user_nft_account_data@.subrange(32, 64) == ctx.user@,
        r is Ok ==> r->Ok_0@ == lock_steps(*ctx, fraction_amount),
{
    let holding = match unpack_token_account(user_nft_account_data) {
        Ok(h) => h,
        Err(e) => return Err(FractionalizeError::Program(e)),
    };
    match plan_lock(ctx, &holding.owner, fraction_amount) {
        Ok(steps) => Ok(steps),
        Err(e) => Err(FractionalizeError::Custom(e)),
    }
}

/// Redeem-and-unlock on raw account data: reads the caller's fraction holding and the
/// series, checks that the caller holds the whole supply, and returns the burn and the
/// release to perform.
pub fn redeem_fractions_and_unlock_nft(
    ctx: &RedeemFractionsAndUnlockNft,
    user_fraction_account_data: &[u8],
    fraction_mint_data: &[u8],
) -> (r: Result<Vec<TokenInstruction>, FractionalizeError>)
    ensures
        !token_account_ok(user_fraction_account_data@) || !mint_ok(fraction_mint_data@) ==> r matches Err(
            FractionalizeError::Program(_),
        ),
        (r matches Err(FractionalizeError::Custom(CustomError::InsufficientFractionTokens)))
            <==> token_account_ok(user_fraction_account_data@) && mint_ok(fraction_mint_data@)
            && le_u64(user_fraction_account_data@, 64) != le_u64(fraction_mint_data@, 36),
        (r matches Err(FractionalizeError::Custom(CustomError::VaultNotLocked))) <==> token_account_ok(
            user_fraction_account_data@,
        ) && mint_ok(fraction_mint_data@) && le_u64(user_fraction_account_data@, 64) == le_u64(
            fraction_mint_data@,
            36,
        ) && le_u64(fraction_mint_data@, 36) == 0,
        !(r matches Err(FractionalizeError::Custom(CustomError::InvalidOwner))),
        r is Ok <==> token_account_ok(user_fraction_account_data@) && mint_ok(fraction_mint_data@)
            && le_u64(user_fraction_account_data@, 64) == le_u64(fraction_mint_data@, 36)
            && le_u64(fraction_mint_data@, 36) > 0,
        r is Ok ==> r->Ok_0@ == redeem_steps(*ctx, le_u64(fraction_mint_data@, 36) as u64),
{
    let holding = match unpack_token_account(user_fraction_account_data) {
        Ok(h) => h,
        Err(e) => return Err(FractionalizeError::Program(e)),
    };
    let mint = match unpack_mint(fraction_mint_data) {
        Ok(m) => m,
        Err(e) => return Err(FractionalizeError::Program(e)),
    };
    match plan_redeem(ctx, holding.amount, mint.supply) {
        Ok(steps) => Ok(steps),
        Err(e) => Err(FractionalizeError::Custom(e)),
    }
}

} // verus!
