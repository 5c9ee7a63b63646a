//! Byte layouts of SPL token accounts and mints, read through `spl_token`.
use vstd::prelude::*;

use crate::key::Key;
use spl_token::solana_program::program_error::ProgramError;
use spl_token::solana_program::program_pack::Pack;

verus! {

#[verifier::external_type_specification]
#[verifier::external_body]
pub struct ExProgramError(ProgramError);

/// Size in bytes of a packed token account.
pub const TOKEN_ACCOUNT_LEN: usize = 165;

/// Size in bytes of a packed mint.
pub const MINT_LEN: usize = 82;

/// Little-endian `u64` stored at `b[at..at + 8]`.
pub open spec fn le_u64(b: Seq<u8>, at: int) -> int {
    b[at] as int + b[at + 1] as int * 0x100 + b[at + 2] as int * 0x1_0000 + b[at + 3] as int
        * 0x100_0000 + b[at + 4] as int * 0x1_0000_0000 + b[at + 5] as int * 0x100_0000_0000
        + b[at + 6] as int * 0x1_0000_0000_0000 + b[at + 7] as int * 0x100_0000_0000_0000
}

/// The four-byte tag of an optional field is `[0, 0, 0, 0]` (absent) or `[1, 0, 0, 0]` (present).
pub open spec fn option_tag_ok(b: Seq<u8>, at: int) -> bool {
    &&& b[at] == 0 || b[at] == 1
    &&& b[at + 1] == 0
    &&& b[at + 2] == 0
    &&& b[at + 3] == 0
}

/// The bytes hold an initialized (or frozen) token account:
/// mint `0..32`, owner `32..64`, amount `64..72`, delegate `72..108`, state `108`,
/// native reserve `109..121`, delegated amount `121..129`, close authority `129..165`.
pub open spec fn token_account_ok(b: Seq<u8>) -> bool {
    &&& b.len() == TOKEN_ACCOUNT_LEN
    &&& option_tag_ok(b, 72)
    &&& b[108] == 1 || b[108] == 2
    &&& option_tag_ok(b, 109)
    &&& option_tag_ok(b, 129)
}

/// The bytes hold an initialized mint:
/// mint authority `0..36`, supply `36..44`, decimals `44`, initialized flag `45`,
/// freeze authority `46..82`.
pub open spec fn mint_ok(b: Seq<u8>) -> bool {
    &&& b.len() == MINT_LEN
    &&& option_tag_ok(b, 0)
    &&& b[45] == 1
    &&& option_tag_ok(b, 46)
}

/// The fields of a token account that the protocol reads.
#[derive(Clone, Copy, Debug)]
pub struct TokenAccountFields {
    pub mint: Key,
    pub owner: Key,
    pub amount: u64,
}

/// The fields of a mint that the protocol reads.
#[derive(Clone, Copy, Debug)]
pub struct MintFields {
    pub supply: u64,
}

/// Relies on `spl_token::state::Account::unpack`: it accepts exactly the 165-byte
/// buffers with valid option tags and an initialized or frozen state, and reads the
/// mint, owner and little-endian amount at their fixed offsets.
#[verifier::external_body]
pub(crate) fn unpack_token_account(data: &[u8]) -> (r: Result<TokenAccountFields, ProgramError>)
    ensures
        r is Ok <==> token_account_ok(data@),
        r is Ok ==> r->Ok_0.mint@ == data@.subrange(0, 32),
        r is Ok ==> r->Ok_0.owner@ == data@.subrange(32, 64),
        r is Ok ==> r->Ok_0.amount == le_u64(data@, 64),
{
    match spl_token::state::Account::unpack(data) {
        Ok(a) => Ok(
            TokenAccountFields {
                mint: Key { bytes: a.mint.to_bytes() },
                owner: Key { bytes: a.owner.to_bytes() },
                amount: a.amount,
            },
        ),
        Err(e) => Err(e),
    }
}

/// Relies on `spl_token::state::Mint::unpack`: it accepts exactly the 82-byte buffers
/// with valid option tags and the initialized flag set to one, and reads the
/// little-endian supply at offset 36.
#[verifier::external_body]
pub(crate) fn unpack_mint(data: &[u8]) -> (r: Result<MintFields, ProgramError>)
    ensures
        r is Ok <==> mint_ok(data@),
        r is Ok ==> r->Ok_0.supply == le_u64(data@, 36),
{
    match spl_token::state::Mint::unpack(data) {
        Ok(m) => Ok(MintFields { supply: m.supply }),
        Err(e) => Err(e),
    }
}

} // verus!
