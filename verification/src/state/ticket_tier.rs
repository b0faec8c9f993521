use crate::pubkey::Pubkey;
use vstd::prelude::*;

verus! {

/// A priced allocation of tickets within an event.
#[derive(Clone, Debug)]
pub struct TicketTier {
    /// The event this tier belongs to.
    pub event: Pubkey,
    pub price_lamports: u64,
    pub max_supply: u32,
    /// Tickets sold or registered so far.
    pub current_supply: u32,
    pub metadata_uri: String,
    pub royalty_bps: u16,
    /// Whether tickets of this tier may change owner.
    pub resale_enabled: bool,
    pub tier_index: u8,
    pub bump: u8,
}

impl TicketTier {
    pub const MAX_METADATA_URI_LENGTH: usize = 200;

    /// A tier never has more tickets out than it was created for.
    pub open spec fn well_formed(&self) -> bool {
        self.current_supply <= self.max_supply
    }

    /// Bytes reserved for a tier record whose URI takes `metadata_uri_len`
    /// bytes: a fixed part of 65 bytes and the URI itself.
    pub fn space(metadata_uri_len: usize) -> (bytes: usize)
        requires
            metadata_uri_len + 65 <= usize::MAX,
        ensures
            bytes == metadata_uri_len + 65,
    {
        8 + 32 + 8 + 4 + 4 + (4 + metadata_uri_len) + 2 + 1 + 1 + 1
    }

    /// Whether another ticket can still be issued.
    pub fn is_available(&self) -> (available: bool)
        ensures
            available == (self.current_supply < self.max_supply),
    {
        self.current_supply < self.max_supply
    }

    /// Tickets that can still be issued; zero once the tier is sold out.
    pub fn remaining(&self) -> (left: u32)
        ensures
            left == if self.current_supply <= self.max_supply {
                self.max_supply - self.current_supply
            } else {
                0
            },
    {
        self.max_supply.saturating_sub(self.current_supply)
    }
}

/// The tickets that a list of tiers was created for, added up.
pub open spec fn supply_total(tiers: Seq<TicketTier>) -> nat
    decreases tiers.len(),
{
    if tiers.len() == 0 {
        0
    } else {
        supply_total(tiers.drop_last()) + tiers.last().max_supply as nat
    }
}

} // verus!
