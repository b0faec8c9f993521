use crate::pubkey::Pubkey;
use vstd::prelude::*;

verus! {

/// One redeemable position, tied one-to-one to a non-fungible token.
#[derive(Clone, Copy, Debug)]
pub struct Ticket {
    pub owner: Pubkey,
    pub event: Pubkey,
    pub tier: Pubkey,
    /// Mint of the token that stands for this ticket.
    pub mint: Pubkey,
    /// Redeemed at check-in.
    pub used: bool,
    /// Paid back to its owner.
    pub refunded: bool,
    /// When it was redeemed; 0 until then.
    pub checked_in_ts: i64,
    /// Who scanned it at check-in; all zero until then.
    pub gate_operator: Pubkey,
    /// When it was paid back; 0 until then.
    pub refund_ts: i64,
    pub bump: u8,
}

impl Ticket {
    /// Bytes reserved for a ticket record.
    pub const SPACE: usize = 8 + 32 + 32 + 32 + 32 + 1 + 1 + 8 + 32 + 8 + 1;

    /// A ticket ends either in a check-in or in a refund, never both.
    pub open spec fn well_formed(&self) -> bool {
        !(self.used && self.refunded)
    }

    /// A ticket as it is right after it was issued to `owner`.
    pub open spec fn is_fresh(&self, owner: Pubkey, event: Pubkey, tier: Pubkey, mint: Pubkey, bump: u8) -> bool {
        &&& self.owner == owner
        &&& self.event == event
        &&& self.tier == tier
        &&& self.mint == mint
        &&& !self.used
        &&& !self.refunded
        &&& self.checked_in_ts == 0
        &&& self.gate_operator.is_zero()
        &&& self.refund_ts == 0
        &&& self.bump == bump
    }
}

} // verus!
