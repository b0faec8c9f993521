use crate::pubkey::Pubkey;
use vstd::prelude::*;

verus! {

/// A buyer's order for one ticket.
#[derive(Clone, Debug)]
pub struct Order {
    pub buyer: Pubkey,
    pub event: Pubkey,
    pub tier: Pubkey,
    /// Mint of the ticket's token; all zero while nothing is minted.
    pub mint: Pubkey,
    pub order_id: String,
    pub amount_paid: u64,
    pub timestamp: i64,
    pub bump: u8,
}

impl Order {
    pub const MAX_ORDER_ID_LENGTH: usize = 64;

    /// Bytes reserved for an order record whose id takes `order_id_len`
    /// bytes: a fixed part of 157 bytes and the id itself.
    pub fn space(order_id_len: usize) -> (bytes: usize)
        requires
            order_id_len + 157 <= usize::MAX,
        ensures
            bytes == order_id_len + 157,
    {
        8 + 32 + 32 + 32 + 32 + (4 + order_id_len) + 8 + 8 + 1
    }
}

} // verus!
