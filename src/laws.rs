//! What the two operations guarantee together, over ledger states.
use vstd::prelude::*;

use crate::key::Key;
use crate::ledger::{
    account_index, first_account, first_mint, mint_index, run, step, LedgerState, MintAccount,
    TokenAccount,
};
use crate::protocol::{
    lock_steps, redeem_steps, LockNftAndMintFractions, RedeemFractionsAndUnlockNft,
    TokenInstruction,
};

verus! {

/// Balance of the holding with key `k` (zero where there is none).
pub open spec fn balance_of(l: LedgerState, k: Seq<u8>) -> int {
    let i = account_index(l.accounts, k);
    if i < 0 {
        0
    } else {
        l.accounts[i].amount as int
    }
}

/// Outstanding supply of the series with key `k` (zero where there is none).
pub open spec fn supply_of(l: LedgerState, k: Seq<u8>) -> int {
    let i = mint_index(l.mints, k);
    if i < 0 {
        0
    } else {
        l.mints[i].supply as int
    }
}

proof fn lemma_account_index_found(a: Seq<TokenAccount>, k: Seq<u8>)
    requires
        account_index(a, k) >= 0,
    ensures
        first_account(a, k, account_index(a, k)),
{
}

proof fn lemma_mint_index_found(m: Seq<MintAccount>, k: Seq<u8>)
    requires
        mint_index(m, k) >= 0,
    ensures
        first_mint(m, k, mint_index(m, k)),
{
}

proof fn lemma_same_account_keys(a: Seq<TokenAccount>, b: Seq<TokenAccount>)
    requires
        a.len() == b.len(),
        forall|i: int| 0 <= i < a.len() ==> #[trigger] a[i].key == b[i].key,
    ensures
        forall|k: Seq<u8>| account_index(a, k) == #[trigger] account_index(b, k),
{
    assert forall|k: Seq<u8>| account_index(a, k) == #[trigger] account_index(b, k) by {
        assert forall|i: int| first_account(a, k, i) <==> first_account(b, k, i) by {
            if first_account(a, k, i) {
                assert forall|j: int| 0 <= j < i implies b[j].key@ != k by {
                    assert(a[j].key == b[j].key);
                }
            }
            if first_account(b, k, i) {
                assert forall|j: int| 0 <= j < i implies a[j].key@ != k by {
                    assert(a[j].key == b[j].key);
                }
            }
        }
        if exists|i: int| first_account(a, k, i) {
            let ia = choose|i: int| first_account(a, k, i);
            let ib = choose|i: int| first_account(b, k, i);
            assert(first_account(b, k, ia));
            crate::ledger::lemma_first_account_unique(b, k, ia, ib);
        }
    }
}

proof fn lemma_same_mint_keys(a: Seq<MintAccount>, b: Seq<MintAccount>)
    requires
        a.len() == b.len(),
        forall|i: int| 0 <= i < a.len() ==> #[trigger] a[i].key == b[i].key,
    ensures
        forall|k: Seq<u8>| mint_index(a, k) == #[trigger] mint_index(b, k),
{
    assert forall|k: Seq<u8>| mint_index(a, k) == #[trigger] mint_index(b, k) by {
        assert forall|i: int| first_mint(a, k, i) <==> first_mint(b, k, i) by {
            if first_mint(a, k, i) {
                assert forall|j: int| 0 <= j < i implies b[j].key@ != k by {
                    assert(a[j].key == b[j].key);
                }
            }
            if first_mint(b, k, i) {
                assert forall|j: int| 0 <= j < i implies a[j].key@ != k by {
                    assert(a[j].key == b[j].key);
                }
            }
        }
        if exists|i: int| first_mint(a, k, i) {
            let ia = choose|i: int| first_mint(a, k, i);
            let ib = choose|i: int| first_mint(b, k, i);
            assert(first_mint(b, k, ia));
            crate::ledger::lemma_first_mint_unique(b, k, ia, ib);
        }
    }
}

/// A transfer between two distinct holdings moves `amount` from one to the other and
/// touches nothing else.
proof fn lemma_transfer_effect(l: LedgerState, from: Key, to: Key, authority: Key, amount: u64)
    requires
        from@ != to@,
        step(l, TokenInstruction::Transfer { from, to, authority, amount }) is Ok,
    ensures
        ({
            let l1 = step(l, TokenInstruction::Transfer { from, to, authority, amount })->Ok_0;
            &&& l1.mints == l.mints
            &&& balance_of(l1, from@) == balance_of(l, from@) - amount
            &&& balance_of(l1, to@) == balance_of(l, to@) + amount
            &&& forall|k: Seq<u8>|
                k != from@ && k != to@ ==> #[trigger] balance_of(l1, k) == balance_of(l, k)
            &&& forall|k: Seq<u8>| #[trigger] supply_of(l1, k) == supply_of(l, k)
        }),
{
    let a = l.accounts;
    let fi = account_index(a, from@);
    let ti = account_index(a, to@);
    lemma_account_index_found(a, from@);
    lemma_account_index_found(a, to@);
    let l1 = step(l, TokenInstruction::Transfer { from, to, authority, amount })->Ok_0;
    assert(fi != ti);
    lemma_same_account_keys(a, l1.accounts);
    assert forall|k: Seq<u8>|
        k != from@ && k != to@ implies #[trigger] balance_of(l1, k) == balance_of(l, k) by {
        let i = account_index(a, k);
        if i >= 0 {
            lemma_account_index_found(a, k);
        }
    }
}

/// Minting adds `amount` to the series' supply and to the receiving holding only.
proof fn lemma_mint_effect(l: LedgerState, mint: Key, to: Key, authority: Key, amount: u64)
    requires
        step(l, TokenInstruction::MintTo { mint, to, authority, amount }) is Ok,
    ensures
        ({
            let l1 = step(l, TokenInstruction::MintTo { mint, to, authority, amount })->Ok_0;
            &&& supply_of(l1, mint@) == supply_of(l, mint@) + amount
            &&& balance_of(l1, to@) == balance_of(l, to@) + amount
            &&& forall|k: Seq<u8>| k != to@ ==> #[trigger] balance_of(l1, k) == balance_of(l, k)
            &&& forall|k: Seq<u8>| k != mint@ ==> #[trigger] supply_of(l1, k) == supply_of(l, k)
        }),
{
    let a = l.accounts;
    let m = l.mints;
    lemma_account_index_found(a, to@);
    lemma_mint_index_found(m, mint@);
    let l1 = step(l, TokenInstruction::MintTo { mint, to, authority, amount })->Ok_0;
    lemma_same_account_keys(a, l1.accounts);
    lemma_same_mint_keys(m, l1.mints);
    assert forall|k: Seq<u8>| k != to@ implies #[trigger] balance_of(l1, k) == balance_of(l, k) by {
        if account_index(a, k) >= 0 {
            lemma_account_index_found(a, k);
        }
    }
    assert forall|k: Seq<u8>| k != mint@ implies #[trigger] supply_of(l1, k) == supply_of(l, k) by {
        if mint_index(m, k) >= 0 {
            lemma_mint_index_found(m, k);
        }
    }
}

/// Burning removes `amount` from the series' supply and from the burning holding only.
proof fn lemma_burn_effect(l: LedgerState, mint: Key, from: Key, authority: Key, amount: u64)
    requires
        step(l, TokenInstruction::Burn { mint, from, authority, amount }) is Ok,
    ensures
        ({
            let l1 = step(l, TokenInstruction::Burn { mint, from, authority, amount })->Ok_0;
            &&& supply_of(l1, mint@) == supply_of(l, mint@) - amount
            &&& balance_of(l1, from@) == balance_of(l, from@) - amount
            &&& forall|k: Seq<u8>| k != from@ ==> #[trigger] balance_of(l1, k) == balance_of(l, k)
            &&& forall|k: Seq<u8>| k != mint@ ==> #[trigger] supply_of(l1, k) == supply_of(l, k)
        }),
{
    let a = l.accounts;
    let m = l.mints;
    lemma_account_index_found(a, from@);
    lemma_mint_index_found(m, mint@);
    let l1 = step(l, TokenInstruction::Burn { mint, from, authority, amount })->Ok_0;
    lemma_same_account_keys(a, l1.accounts);
    lemma_same_mint_keys(m, l1.mints);
    assert forall|k: Seq<u8>| k != from@ implies #[trigger] balance_of(l1, k) == balance_of(l, k) by {
        if account_index(a, k) >= 0 {
            lemma_account_index_found(a, k);
        }
    }
    assert forall|k: Seq<u8>| k != mint@ implies #[trigger] supply_of(l1, k) == supply_of(l, k) by {
        if mint_index(m, k) >= 0 {
            lemma_mint_index_found(m, k);
        }
    }
}

/// Running two instructions is the first step followed by the second.
proof fn lemma_run_two(l: LedgerState, steps: Seq<TokenInstruction>)
    requires
        steps.len() == 2,
        run(l, steps) is Ok,
    ensures
        step(l, steps[0]) is Ok,
        step(step(l, steps[0])->Ok_0, steps[1]) is Ok,
        run(l, steps) == step(step(l, steps[0])->Ok_0, steps[1]),
{
    let l1 = step(l, steps[0])->Ok_0;
    assert(steps.drop_first()[0] == steps[1]);
    assert(steps.drop_first().drop_first().len() == 0);
    reveal_with_fuel(run, 3);
}

/// Conservation: starting from an empty vault and a series with no supply, a completed
/// lock leaves exactly `fraction_amount` fractions outstanding and the vault holding the
/// asset unit.
pub proof fn lemma_lock_conservation(
    l: LedgerState,
    ctx: LockNftAndMintFractions,
    fraction_amount: u64,
)
    requires
        fraction_amount > 0,
        supply_of(l, ctx.fraction_mint@) == 0,
        balance_of(l, ctx.vault_nft_account@) == 0,
        ctx.user_nft_account@ != ctx.vault_nft_account@,
        ctx.vault_nft_account@ != ctx.user_fraction_account@,
        ctx.user_nft_account@ != ctx.user_fraction_account@,
        run(l, lock_steps(ctx, fraction_amount)) is Ok,
    ensures
        ({
            let after = run(l, lock_steps(ctx, fraction_amount))->Ok_0;
            &&& supply_of(after, ctx.fraction_mint@) == fraction_amount
            &&& balance_of(after, ctx.vault_nft_account@) == 1
            &&& balance_of(after, ctx.user_fraction_account@) == balance_of(
                l,
                ctx.user_fraction_account@,
            ) + fraction_amount
        }),
{
    let s = lock_steps(ctx, fraction_amount);
    lemma_run_two(l, s);
    lemma_transfer_effect(l, ctx.user_nft_account, ctx.vault_nft_account, ctx.user, 1);
    let l1 = step(l, s[0])->Ok_0;
    lemma_mint_effect(
        l1,
        ctx.fraction_mint,
        ctx.user_fraction_account,
        ctx.fraction_mint_authority,
        fraction_amount,
    );
    assert(supply_of(l1, ctx.fraction_mint@) == supply_of(l, ctx.fraction_mint@));
    assert(balance_of(l1, ctx.user_fraction_account@) == balance_of(l, ctx.user_fraction_account@));
}

/// Owner of the holding with key `k` (empty where there is none).
pub open spec fn owner_of(l: LedgerState, k: Seq<u8>) -> Seq<u8> {
    let i = account_index(l.accounts, k);
    if i < 0 {
        Seq::empty()
    } else {
        l.accounts[i].owner@
    }
}

/// Two states with the same holdings and series, up to balances and supplies.
pub open spec fn same_shape(a: LedgerState, b: LedgerState) -> bool {
    &&& a.accounts.len() == b.accounts.len()
    &&& a.mints.len() == b.mints.len()
    &&& forall|i: int|
        0 <= i < a.accounts.len() ==> {
            &&& (#[trigger] b.accounts[i]).key == a.accounts[i].key
            &&& b.accounts[i].mint == a.accounts[i].mint
            &&& b.accounts[i].owner == a.accounts[i].owner
        }
    &&& forall|i: int|
        0 <= i < a.mints.len() ==> {
            &&& (#[trigger] b.mints[i]).key == a.mints[i].key
            &&& b.mints[i].authority == a.mints[i].authority
        }
}

proof fn lemma_step_shape(l: LedgerState, ins: TokenInstruction)
    requires
        step(l, ins) is Ok,
    ensures
        same_shape(l, step(l, ins)->Ok_0),
{
}

proof fn lemma_shape_indices(a: LedgerState, b: LedgerState)
    requires
        same_shape(a, b),
    ensures
        forall|k: Seq<u8>| account_index(a.accounts, k) == #[trigger] account_index(b.accounts, k),
        forall|k: Seq<u8>| mint_index(a.mints, k) == #[trigger] mint_index(b.mints, k),
{
    assert forall|i: int| 0 <= i < a.accounts.len() implies #[trigger] a.accounts[i].key
        == b.accounts[i].key by {
        assert(b.accounts[i].key == a.accounts[i].key);
    }
    assert forall|i: int| 0 <= i < a.mints.len() implies #[trigger] a.mints[i].key
        == b.mints[i].key by {
        assert(b.mints[i].key == a.mints[i].key);
    }
    lemma_same_account_keys(a.accounts, b.accounts);
    lemma_same_mint_keys(a.mints, b.mints);
}

/// Round trip: from an empty vault and a series with no supply, after a completed lock
/// the caller holds the whole supply, so a redemption through the same holdings
/// succeeds (given that the caller owns the fraction holding, which held nothing
/// before, and that the vault's authority signs the release). It puts the asset back
/// in the caller's holding, empties the vault and leaves no fractions outstanding.
pub proof fn lemma_round_trip(
    l: LedgerState,
    lock: LockNftAndMintFractions,
    redeem: RedeemFractionsAndUnlockNft,
    fraction_amount: u64,
)
    requires
        fraction_amount > 0,
        supply_of(l, lock.fraction_mint@) == 0,
        balance_of(l, lock.vault_nft_account@) == 0,
        balance_of(l, lock.user_fraction_account@) == 0,
        lock.user_nft_account@ != lock.vault_nft_account@,
        lock.vault_nft_account@ != lock.user_fraction_account@,
        lock.user_nft_account@ != lock.user_fraction_account@,
        redeem.user_fraction_account@ == lock.user_fraction_account@,
        redeem.fraction_mint@ == lock.fraction_mint@,
        redeem.user_nft_account@ == lock.user_nft_account@,
        redeem.vault_nft_account@ == lock.vault_nft_account@,
        owner_of(l, redeem.user_fraction_account@) == redeem.user@,
        owner_of(l, redeem.vault_nft_account@) == redeem.vault_authority@,
        run(l, lock_steps(lock, fraction_amount)) is Ok,
    ensures
        ({
            let mid = run(l, lock_steps(lock, fraction_amount))->Ok_0;
            let supply = supply_of(mid, redeem.fraction_mint@);
            &&& supply == fraction_amount
            &&& balance_of(mid, redeem.user_fraction_account@) == supply
            &&& run(mid, redeem_steps(redeem, supply as u64)) is Ok
            &&& ({
                let after = run(mid, redeem_steps(redeem, supply as u64))->Ok_0;
                &&& balance_of(after, lock.user_nft_account@) == balance_of(
                    l,
                    lock.user_nft_account@,
                )
                &&& balance_of(after, lock.vault_nft_account@) == 0
                &&& balance_of(after, lock.user_fraction_account@) == 0
                &&& supply_of(after, lock.fraction_mint@) == 0
            })
        }),
{
    let h = lock.user_nft_account;
    let v = lock.vault_nft_account;
    let f = lock.user_fraction_account;
    let m = lock.fraction_mint;
    let s = lock_steps(lock, fraction_amount);
    lemma_run_two(l, s);
    lemma_transfer_effect(l, h, v, lock.user, 1);
    let l1 = step(l, s[0])->Ok_0;
    lemma_mint_effect(l1, m, f, lock.fraction_mint_authority, fraction_amount);
    let mid = run(l, s)->Ok_0;
    lemma_step_shape(l, s[0]);
    lemma_step_shape(l1, s[1]);
    lemma_shape_indices(l, l1);
    lemma_shape_indices(l1, mid);
    assert(supply_of(l1, m@) == 0);
    assert(balance_of(l1, f@) == 0);
    assert(balance_of(mid, v@) == 1);
    assert(balance_of(mid, h@) == balance_of(l, h@) - 1);

    let hi = account_index(l.accounts, h@);
    let vi = account_index(l.accounts, v@);
    let fi = account_index(l.accounts, f@);
    let mi = mint_index(l.mints, m@);
    lemma_account_index_found(l.accounts, h@);
    lemma_account_index_found(l.accounts, v@);
    lemma_account_index_found(l1.accounts, f@);
    lemma_mint_index_found(l1.mints, m@);
    assert(l.accounts[hi].mint@ == l.accounts[vi].mint@);
    assert(l1.accounts[fi].mint@ == m@);
    assert(mid.accounts[fi].mint@ == m@);
    assert(mid.accounts[fi].owner@ == redeem.user@);

    let supply = supply_of(mid, m@) as u64;
    let r = redeem_steps(redeem, supply);
    let burn = TokenInstruction::Burn {
        mint: redeem.fraction_mint,
        from: redeem.user_fraction_account,
        authority: redeem.user,
        amount: supply,
    };
    assert(r[0] == burn);
    assert(step(mid, burn) is Ok);
    lemma_burn_effect(mid, redeem.fraction_mint, redeem.user_fraction_account, redeem.user, supply);
    let l3 = step(mid, burn)->Ok_0;
    lemma_step_shape(mid, burn);
    lemma_shape_indices(mid, l3);
    assert(balance_of(l3, v@) == 1);
    assert(balance_of(l3, h@) == balance_of(l, h@) - 1);
    assert(l3.accounts[vi].owner@ == redeem.vault_authority@);
    assert(l3.accounts[hi].mint@ == l3.accounts[vi].mint@);
    let release = TokenInstruction::Transfer {
        from: redeem.vault_nft_account,
        to: redeem.user_nft_account,
        authority: redeem.vault_authority,
        amount: 1,
    };
    assert(r[1] == release);
    assert(step(l3, release) is Ok);
    lemma_transfer_effect(
        l3,
        redeem.vault_nft_account,
        redeem.user_nft_account,
        redeem.vault_authority,
        1,
    );
    assert(r.drop_first()[0] == r[1]);
    assert(r.drop_first().drop_first().len() == 0);
    reveal_with_fuel(run, 3);
}

} // verus!
