use crate::bytes::le_u64;
use crate::pubkey::Pubkey;
use vstd::prelude::*;

verus! {

/// What is read of a token account: which mint it holds, who owns it and how
/// many tokens it holds.
#[derive(Clone, Copy, Debug)]
pub struct TokenAccount {
    pub mint: Pubkey,
    pub owner: Pubkey,
    pub amount: u64,
}

/// What is read of a token mint.
#[derive(Clone, Copy, Debug)]
pub struct Mint {
    /// Tokens of this mint in existence; exactly 1 for a ticket.
    pub supply: u64,
    pub decimals: u8,
}

/// The account holds exactly one token of `mint` and belongs to `holder`:
/// what it takes to hold a ticket.
pub open spec fn holds_one(account: TokenAccount, mint: Pubkey, holder: Pubkey) -> bool {
    account.mint == mint && account.owner == holder && account.amount == 1
}

/// The four bytes from `at` on mark an optional field as absent (0) or
/// present (1), written as a 32-bit number, lowest byte first.
pub open spec fn option_tag_ok(data: Seq<u8>, at: int) -> bool {
    (data[at] == 0 || data[at] == 1) && data[at + 1] == 0 && data[at + 2] == 0 && data[at + 3] == 0
}

/// The supply recorded in the stored form of a token mint, where `data` is
/// such a form: 82 bytes, made of the optional mint authority (4 + 32), the
/// supply (8, lowest byte first), the decimals (1), the initialized flag (1,
/// which must be set) and the optional freeze authority (4 + 32).
pub open spec fn packed_mint_supply(data: Seq<u8>) -> Option<u64> {
    if data.len() == 82 && option_tag_ok(data, 0) && option_tag_ok(data, 46) && data[45] == 1 {
        Some(le_u64(data, 36) as u64)
    } else {
        None
    }
}

/// Calls `try_deserialize` of `anchor_spl::token::Mint` on `data` and hands
/// out the supply of the mint it finds.
///
/// Not proved: that the outside parser accepts exactly the 82-byte layout
/// that `packed_mint_supply` describes and reads the supply from bytes 36 to
/// 43. Every failure of the parser is reported as `None`.
#[verifier::external_body]
pub(crate) fn mint_supply(data: &[u8]) -> (supply: Option<u64>)
    ensures
        supply == packed_mint_supply(data@),
{
    let mut buffer: &[u8] = data;
    match <anchor_spl::token::Mint as anchor_lang::AccountDeserialize>::try_deserialize(&mut buffer) {
        Ok(mint) => Some(mint.supply),
        Err(_) => None,
    }
}

} // verus!
