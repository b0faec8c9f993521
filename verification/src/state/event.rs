use crate::pubkey::Pubkey;
use vstd::prelude::*;
use vstd::utf8::encode_utf8;

verus! {

/// Number of bytes a text takes when stored: the length of its UTF-8
/// encoding, as `str::len` reports it.
pub open spec fn stored_len(text: Seq<char>) -> usize {
    encode_utf8(text).len() as usize
}

/// An organizer-owned ticketed occasion.
#[derive(Clone, Debug)]
pub struct Event {
    /// Owner of the event; the only one who may change it.
    pub authority: Pubkey,
    pub metadata_uri: String,
    pub start_ts: i64,
    pub end_ts: i64,
    /// Number of tickets that may ever exist for this event.
    pub total_supply: u32,
    /// Sum of the `max_supply` of every tier created so far.
    pub allocated_supply: u32,
    pub treasury: Pubkey,
    pub platform_split_bps: u16,
    pub canceled: bool,
    /// Set once a campaign has been created for this event.
    pub crowdfunding_enabled: bool,
    /// The campaign funding this event, if any.
    pub campaign: Option<Pubkey>,
    /// Lamports taken in by ticket purchases; never decreases.
    pub ticket_revenue: u64,
    pub bump: u8,
}

impl Event {
    pub const MAX_METADATA_URI_LENGTH: usize = 200;

    /// The largest platform split: all of it, in basis points.
    pub const MAX_PLATFORM_SPLIT_BPS: u16 = 10_000;

    /// An event starts before it ends, its tiers never hand out more
    /// tickets than it has, and the platform's split is at most the whole.
    pub open spec fn well_formed(&self) -> bool {
        &&& self.start_ts < self.end_ts
        &&& self.allocated_supply <= self.total_supply
        &&& self.platform_split_bps <= 10_000
    }

    /// Bytes reserved for an event record whose URI takes `metadata_uri_len`
    /// bytes: a fixed part of 146 bytes and the URI itself. The fixed part is
    /// an 8-byte tag, the length of the URI in 4 bytes, and the other fields
    /// in the order of the record, an absent campaign taking as much room as
    /// a present one.
    pub fn space(metadata_uri_len: usize) -> (bytes: usize)
        requires
            metadata_uri_len + 146 <= usize::MAX,
        ensures
            bytes == metadata_uri_len + 146,
    {
        8 + 32 + (4 + metadata_uri_len) + 8 + 8 + 4 + 4 + 32 + 2 + 1 + 1 + 33 + 8 + 1
    }
}

} // verus!
