//! An in-memory token ledger: holdings and series, with transfer, mint and burn, and
//! all-or-nothing execution of an instruction list.
//!
//! This is a model for stating and checking what the two operations do; the on-chain
//! program performs its instructions through the real token program instead. It is
//! simpler than that program: only a holding's owner (or a series' minting authority)
//! may sign, and there are no delegates, frozen holdings, native holdings or close
//! authorities. Nothing here ties its behaviour to the real token program's.
use vstd::prelude::*;

use crate::key::{key_eq, Key};
use crate::protocol::{
    lock_steps, plan_lock, plan_redeem, redeem_steps, CustomError, FractionalizeError,
    LockNftAndMintFractions, RedeemFractionsAndUnlockNft, TokenInstruction,
};

verus! {

/// A holding: a balance of one series (or asset) owned by one identity.
#[derive(Clone, Copy, Debug)]
pub struct TokenAccount {
    pub key: Key,
    pub mint: Key,
    pub owner: Key,
    pub amount: u64,
}

/// A fungible series (or an asset's one-unit series) with its minting authority.
#[derive(Clone, Copy, Debug)]
pub struct MintAccount {
    pub key: Key,
    pub authority: Key,
    pub supply: u64,
}

/// Why the ledger refused an instruction.
#[derive(Clone, Copy, Debug, PartialEq, Eq, Structural)]
pub enum LedgerError {
    /// No holding has the named key.
    AccountNotFound,
    /// No series has the named key.
    MintNotFound,
    /// The holdings (or the holding and the series) are of different series.
    MintMismatch,
    /// The signing authority does not control the holding or the series.
    OwnerMismatch,
    /// The balance (or the supply) is smaller than the amount.
    InsufficientFunds,
    /// A balance or the supply would exceed `u64::MAX`.
    Overflow,
}

/// Holdings and series. Lookups by key take the first entry with that key.
pub struct Ledger {
    pub accounts: Vec<TokenAccount>,
    pub mints: Vec<MintAccount>,
}

/// The ledger's contents as values.
pub ghost struct LedgerState {
    pub accounts: Seq<TokenAccount>,
    pub mints: Seq<MintAccount>,
}

impl View for Ledger {
    type V = LedgerState;

    open spec fn view(&self) -> LedgerState {
        LedgerState { accounts: self.accounts@, mints: self.mints@ }
    }
}

/// `i` is the first holding with key `k`.
pub open spec fn first_account(a: Seq<TokenAccount>, k: Seq<u8>, i: int) -> bool {
    &&& 0 <= i < a.len()
    &&& a[i].key@ == k
    &&& forall|j: int| 0 <= j < i ==> a[j].key@ != k
}

/// `i` is the first series with key `k`.
pub open spec fn first_mint(m: Seq<MintAccount>, k: Seq<u8>, i: int) -> bool {
    &&& 0 <= i < m.len()
    &&& m[i].key@ == k
    &&& forall|j: int| 0 <= j < i ==> m[j].key@ != k
}

/// Position of the holding with key `k`, or -1.
pub open spec fn account_index(a: Seq<TokenAccount>, k: Seq<u8>) -> int {
    if exists|i: int| first_account(a, k, i) {
        choose|i: int| first_account(a, k, i)
    } else {
        -1
    }
}

/// Position of the series with key `k`, or -1.
pub open spec fn mint_index(m: Seq<MintAccount>, k: Seq<u8>) -> int {
    if exists|i: int| first_mint(m, k, i) {
        choose|i: int| first_mint(m, k, i)
    } else {
        -1
    }
}

pub open spec fn with_amount(a: TokenAccount, amount: int) -> TokenAccount {
    TokenAccount { key: a.key, mint: a.mint, owner: a.owner, amount: amount as u64 }
}

pub open spec fn with_supply(m: MintAccount, supply: int) -> MintAccount {
    MintAccount { key: m.key, authority: m.authority, supply: supply as u64 }
}

/// What one instruction does to the ledger, or why it is refused.
pub open spec fn step(l: LedgerState, ins: TokenInstruction) -> Result<LedgerState, LedgerError> {
    let a = l.accounts;
    let m = l.mints;
    match ins {
        TokenInstruction::Transfer { from, to, authority, amount } => {
            let fi = account_index(a, from@);
            let ti = account_index(a, to@);
            if fi < 0 || ti < 0 {
                Err(LedgerError::AccountNotFound)
            } else if a[fi].mint@ != a[ti].mint@ {
                Err(LedgerError::MintMismatch)
            } else if a[fi].owner@ != authority@ {
                Err(LedgerError::OwnerMismatch)
            } else if a[fi].amount < amount {
                Err(LedgerError::InsufficientFunds)
            } else if fi == ti {
                Ok(l)
            } else if a[ti].amount + amount > u64::MAX {
                Err(LedgerError::Overflow)
            } else {
                let a1 = a.update(fi, with_amount(a[fi], a[fi].amount - amount));
                Ok(
                    LedgerState {
                        accounts: a1.update(ti, with_amount(a[ti], a[ti].amount + amount)),
                        mints: m,
                    },
                )
            }
        },
        TokenInstruction::MintTo { mint, to, authority, amount } => {
            let mi = mint_index(m, mint@);
            let ti = account_index(a, to@);
            if mi < 0 {
                Err(LedgerError::MintNotFound)
            } else if ti < 0 {
                Err(LedgerError::AccountNotFound)
            } else if a[ti].mint@ != mint@ {
                Err(LedgerError::MintMismatch)
            } else if m[mi].authority@ != authority@ {
                Err(LedgerError::OwnerMismatch)
            } else if m[mi].supply + amount > u64::MAX || a[ti].amount + amount > u64::MAX {
                Err(LedgerError::Overflow)
            } else {
                Ok(
                    LedgerState {
                        accounts: a.update(ti, with_amount(a[ti], a[ti].amount + amount)),
                        mints: m.update(mi, with_supply(m[mi], m[mi].supply + amount)),
                    },
                )
            }
        },
        TokenInstruction::Burn { mint, from, authority, amount } => {
            let mi = mint_index(m, mint@);
            let fi = account_index(a, from@);
            if mi < 0 {
                Err(LedgerError::MintNotFound)
            } else if fi < 0 {
                Err(LedgerError::AccountNotFound)
            } else if a[fi].mint@ != mint@ {
                Err(LedgerError::MintMismatch)
            } else if a[fi].owner@ != authority@ {
                Err(LedgerError::OwnerMismatch)
            } else if a[fi].amount < amount || m[mi].supply < amount {
                Err(LedgerError::InsufficientFunds)
            } else {
                Ok(
                    LedgerState {
                        accounts: a.update(fi, with_amount(a[fi], a[fi].amount - amount)),
                        mints: m.update(mi, with_supply(m[mi], m[mi].supply - amount)),
                    },
                )
            }
        },
    }
}

/// What a list of instructions does when applied in order, or the first refusal.
pub open spec fn run(l: LedgerState, steps: Seq<TokenInstruction>) -> Result<
    LedgerState,
    LedgerError,
>
    decreases steps.len(),
{
    if steps.len() == 0 {
        Ok(l)
    } else {
        match step(l, steps[0]) {
            Ok(l1) => run(l1, steps.drop_first()),
            Err(e) => Err(e),
        }
    }
}

pub(crate) proof fn lemma_first_account_unique(a: Seq<TokenAccount>, k: Seq<u8>, i: int, j: int)
    requires
        first_account(a, k, i),
        first_account(a, k, j),
    ensures
        i == j,
{
    if i < j {
        assert(a[i].key@ != k);
    } else if j < i {
        assert(a[j].key@ != k);
    }
}

pub(crate) proof fn lemma_first_mint_unique(m: Seq<MintAccount>, k: Seq<u8>, i: int, j: int)
    requires
        first_mint(m, k, i),
        first_mint(m, k, j),
    ensures
        i == j,
{
    if i < j {
        assert(m[i].key@ != k);
    } else if j < i {
        assert(m[j].key@ != k);
    }
}

fn find_account(a: &Vec<TokenAccount>, k: &Key) -> (r: Option<usize>)
    ensures
        r is Some ==> r->Some_0 as int == account_index(a@, k@),
        r is None ==> account_index(a@, k@) == -1,
{
    let mut i: usize = 0;
    while i < a.len()
        invariant
            0 <= i <= a.len(),
            forall|j: int| 0 <= j < i ==> a@[j].key@ != k@,
        decreases a.len() - i,
    {
        if key_eq(&a[i].key, k) {
            proof {
                assert(first_account(a@, k@, i as int));
                let c = choose|c: int| first_account(a@, k@, c);
                lemma_first_account_unique(a@, k@, c, i as int);
            }
            return Some(i);
        }
        i = i + 1;
    }
    assert(!exists|c: int| first_account(a@, k@, c));
    None
}

fn find_mint(m: &Vec<MintAccount>, k: &Key) -> (r: Option<usize>)
    ensures
        r is Some ==> r->Some_0 as int == mint_index(m@, k@),
        r is None ==> mint_index(m@, k@) == -1,
{
    let mut i: usize = 0;
    while i < m.len()
        invariant
            0 <= i <= m.len(),
            forall|j: int| 0 <= j < i ==> m@[j].key@ != k@,
        decreases m.len() - i,
    {
        if key_eq(&m[i].key, k) {
            proof {
                assert(first_mint(m@, k@, i as int));
                let c = choose|c: int| first_mint(m@, k@, c);
                lemma_first_mint_unique(m@, k@, c, i as int);
            }
            return Some(i);
        }
        i = i + 1;
    }
    assert(!exists|c: int| first_mint(m@, k@, c));
    None
}

impl Ledger {
    /// Applies one instruction; a refused instruction leaves the ledger as it was.
    pub fn apply(&mut self, ins: &TokenInstruction) -> (r: Result<(), LedgerError>)
        ensures
            r is Ok <==> step(old(self)@, *ins) is Ok,
            r is Ok ==> final(self)@ == step(old(self)@, *ins)->Ok_0,
            r is Err ==> r->Err_0 == step(old(self)@, *ins)->Err_0,
            r is Err ==> final(self)@ == old(self)@,
    {
        match *ins {
            TokenInstruction::Transfer { from, to, authority, amount } => {
                let fi = match find_account(&self.accounts, &from) {
                    Some(i) => i,
                    None => return Err(LedgerError::AccountNotFound),
                };
                let ti = match find_account(&self.accounts, &to) {
                    Some(i) => i,
                    None => return Err(LedgerError::AccountNotFound),
                };
                let src = self.accounts[fi];
                let dst = self.accounts[ti];
                if !key_eq(&src.mint, &dst.mint) {
                    return Err(LedgerError::MintMismatch);
                }
                if !key_eq(&src.owner, &authority) {
                    return Err(LedgerError::OwnerMismatch);
                }
                if src.amount < amount {
                    return Err(LedgerError::InsufficientFunds);
                }
                if fi == ti {
                    return Ok(());
                }
                if dst.amount > u64::MAX - amount {
                    return Err(LedgerError::Overflow);
                }
                self.accounts.set(
                    fi,
                    TokenAccount {
                        key: src.key,
                        mint: src.mint,
                        owner: src.owner,
                        amount: src.amount - amount,
                    },
                );
                self.accounts.set(
                    ti,
                    TokenAccount {
                        key: dst.key,
                        mint: dst.mint,
                        owner: dst.owner,
                        amount: dst.amount + amount,
                    },
                );
                Ok(())
            },
            TokenInstruction::MintTo { mint, to, authority, amount } => {
                let mi = match find_mint(&self.mints, &mint) {
                    Some(i) => i,
                    None => return Err(LedgerError::MintNotFound),
                };
                let ti = match find_account(&self.accounts, &to) {
                    Some(i) => i,
                    None => return Err(LedgerError::AccountNotFound),
                };
                let series = self.mints[mi];
                let dst = self.accounts[ti];
                if !key_eq(&dst.mint, &mint) {
                    return Err(LedgerError::MintMismatch);
                }
                if !key_eq(&series.authority, &authority) {
                    return Err(LedgerError::OwnerMismatch);
                }
                if series.supply > u64::MAX - amount || dst.amount > u64::MAX - amount {
                    return Err(LedgerError::Overflow);
                }
                self.accounts.set(
                    ti,
                    TokenAccount {
                        key: dst.key,
                        mint: dst.mint,
                        owner: dst.owner,
                        amount: dst.amount + amount,
                    },
                );
                self.mints.set(
                    mi,
                    MintAccount {
                        key: series.key,
                        authority: series.authority,
                        supply: series.supply + amount,
                    },
                );
                Ok(())
            },
            TokenInstruction::Burn { mint, from, authority, amount } => {
                let mi = match find_mint(&self.mints, &mint) {
                    Some(i) => i,
                    None => return Err(LedgerError::MintNotFound),
                };
                let fi = match find_account(&self.accounts, &from) {
                    Some(i) => i,
                    None => return Err(LedgerError::AccountNotFound),
                };
                let series = self.mints[mi];
                let src = self.accounts[fi];
                if !key_eq(&src.mint, &mint) {
                    return Err(LedgerError::MintMismatch);
                }
                if !key_eq(&src.owner, &authority) {
                    return Err(LedgerError::OwnerMismatch);
                }
                if src.amount < amount || series.supply < amount {
                    return Err(LedgerError::InsufficientFunds);
                }
                self.accounts.set(
                    fi,
                    TokenAccount {
                        key: src.key,
                        mint: src.mint,
                        owner: src.owner,
                        amount: src.amount - amount,
                    },
                );
                self.mints.set(
                    mi,
                    MintAccount {
                        key: series.key,
                        authority: series.authority,
                        supply: series.supply - amount,
                    },
                );
                Ok(())
            },
        }
    }
    /// An independent copy of the ledger.
    pub fn snapshot(&self) -> (r: Ledger)
        ensures
            r@ == self@,
    {
        let mut accounts: Vec<TokenAccount> = Vec::new();
        let mut i: usize = 0;
        while i < self.accounts.len()
            invariant
                0 <= i <= self.accounts.len(),
                accounts@ == self.accounts@.subrange(0, i as int),
            decreases self.accounts.len() - i,
        {
            accounts.push(self.accounts[i]);
            i = i + 1;
        }
        let mut mints: Vec<MintAccount> = Vec::new();
        let mut j: usize = 0;
        while j < self.mints.len()
            invariant
                0 <= j <= self.mints.len(),
                mints@ == self.mints@.subrange(0, j as int),
                accounts@ == self.accounts@,
            decreases self.mints.len() - j,
        {
            mints.push(self.mints[j]);
            j = j + 1;
        }
        assert(accounts@ =~= self.accounts@);
        assert(mints@ =~= self.mints@);
        Ledger { accounts, mints }
    }

    /// Applies the instructions in order as one unit: either all of them take effect,
    /// or the first refusal is returned and the ledger is left as it was.
    pub fn execute(&mut self, steps: &Vec<TokenInstruction>) -> (r: Result<(), LedgerError>)
        ensures
            r is Ok <==> run(old(self)@, steps@) is Ok,
            r is Ok ==> final(self)@ == run(old(self)@, steps@)->Ok_0,
            r is Err ==> r->Err_0 == run(old(self)@, steps@)->Err_0,
            r is Err ==> final(self)@ == old(self)@,
    {
        let saved = self.snapshot();
        assert(steps@.subrange(0, steps@.len() as int) =~= steps@);
        let mut i: usize = 0;
        while i < steps.len()
            invariant
                0 <= i <= steps.len(),
                saved@ == old(self)@,
                run(old(self)@, steps@) == run(self@, steps@.subrange(i as int, steps@.len() as int)),
            decreases steps.len() - i,
        {
            let ghost rest = steps@.subrange(i as int, steps@.len() as int);
            assert(rest.drop_first() =~= steps@.subrange(i + 1, steps@.len() as int));
            assert(rest[0] == steps@[i as int]);
            match self.apply(&steps[i]) {
                Ok(()) => {},
                Err(e) => {
                    *self = saved;
                    return Err(e);
                },
            }
            i = i + 1;
        }
        assert(steps@.subrange(i as int, steps@.len() as int) =~= Seq::<TokenInstruction>::empty());
        Ok(())
    }

    /// Lock-and-mint against the ledger's own records: the caller must own the asset
    /// holding; then one asset unit moves to the vault and the fractions are minted,
    /// both or neither.
    ///
    /// Whether the vault is empty is not checked here: a lock into a vault that already
    /// holds an asset adds a second unit to it. Callers that need one asset per vault must
    /// check the vault's balance first.
    pub fn lock_and_mint(&mut self, ctx: &LockNftAndMintFractions, fraction_amount: u64) -> (r:
        Result<(), FractionalizeError>)
        requires
            fraction_amount > 0,
        ensures
            ({
                let ui = account_index(old(self)@.accounts, ctx.user_nft_account@);
                &&& ui < 0 ==> (r matches Err(FractionalizeError::Ledger(LedgerError::AccountNotFound)))
                &&& ui >= 0 && old(self)@.accounts[ui].owner@ != ctx.user@ ==> (r matches Err(
                    FractionalizeError::Custom(CustomError::InvalidOwner),
                ))
                &&& r is Ok <==> ui >= 0 && old(self)@.accounts[ui].owner@ == ctx.user@ && run(
                    old(self)@,
                    lock_steps(*ctx, fraction_amount),
                ) is Ok
                &&& ui >= 0 && old(self)@.accounts[ui].owner@ == ctx.user@ && run(
                    old(self)@,
                    lock_steps(*ctx, fraction_amount),
                ) is Err ==> r == Err::<(), FractionalizeError>(
                    FractionalizeError::Ledger(
                        run(old(self)@, lock_steps(*ctx, fraction_amount))->Err_0,
                    ),
                )
            }),
            r is Ok ==> final(self)@ == run(old(self)@, lock_steps(*ctx, fraction_amount))->Ok_0,
            r is Err ==> final(self)@ == old(self)@,
    {
        let ui = match find_account(&self.accounts, &ctx.user_nft_account) {
            Some(i) => i,
            None => return Err(FractionalizeError::Ledger(LedgerError::AccountNotFound)),
        };
        let owner = self.accounts[ui].owner;
        let steps = match plan_lock(ctx, &owner, fraction_amount) {
            Ok(s) => s,
            Err(e) => return Err(FractionalizeError::Custom(e)),
        };
        match self.execute(&steps) {
            Ok(()) => Ok(()),
            Err(e) => Err(FractionalizeError::Ledger(e)),
        }
    }

    /// Redeem-and-unlock against the ledger's own records: the caller's fraction balance
    /// must equal the series' whole supply, and that supply must be positive (the vault
    /// is locked); then the supply is burned and the asset released from the vault, both
    /// or neither.
    pub fn redeem_and_unlock(&mut self, ctx: &RedeemFractionsAndUnlockNft) -> (r: Result<
        (),
        FractionalizeError,
    >)
        ensures
            ({
                let fi = account_index(old(self)@.accounts, ctx.user_fraction_account@);
                let mi = mint_index(old(self)@.mints, ctx.fraction_mint@);
                let found = fi >= 0 && mi >= 0;
                let equal = found && old(self)@.accounts[fi].amount == old(self)@.mints[mi].supply;
                let whole = equal && old(self)@.mints[mi].supply > 0;
                let steps = redeem_steps(*ctx, old(self)@.mints[mi].supply);
                &&& fi < 0 ==> (r matches Err(FractionalizeError::Ledger(LedgerError::AccountNotFound)))
                &&& fi >= 0 && mi < 0 ==> (r matches Err(
                    FractionalizeError::Ledger(LedgerError::MintNotFound),
                ))
                &&& (r matches Err(
                    FractionalizeError::Custom(CustomError::InsufficientFractionTokens),
                )) <==> found && !equal
                &&& (r matches Err(FractionalizeError::Custom(CustomError::VaultNotLocked)))
                    <==> equal && !whole
                &&& r is Ok <==> whole && run(old(self)@, steps) is Ok
                &&& whole && run(old(self)@, steps) is Err ==> r == Err::<(), FractionalizeError>(
                    FractionalizeError::Ledger(run(old(self)@, steps)->Err_0),
                )
                &&& r is Ok ==> final(self)@ == run(old(self)@, steps)->Ok_0
            }),
            r is Err ==> final(self)@ == old(self)@,
    {
        let fi = match find_account(&self.accounts, &ctx.user_fraction_account) {
            Some(i) => i,
            None => return Err(FractionalizeError::Ledger(LedgerError::AccountNotFound)),
        };
        let mi = match find_mint(&self.mints, &ctx.fraction_mint) {
            Some(i) => i,
            None => return Err(FractionalizeError::Ledger(LedgerError::MintNotFound)),
        };
        let balance = self.accounts[fi].amount;
        let supply = self.mints[mi].supply;
        let steps = match plan_redeem(ctx, balance, supply) {
            Ok(s) => s,
            Err(e) => return Err(FractionalizeError::Custom(e)),
        };
        match self.execute(&steps) {
            Ok(()) => Ok(()),
            Err(e) => Err(FractionalizeError::Ledger(e)),
        }
    }
}

} // verus!
