use crate::pubkey::Pubkey;
use vstd::prelude::*;

verus! {

/// A single-use record that binds one check-in signature to one ticket.
#[derive(Clone, Copy, Debug)]
pub struct Nonce {
    pub ticket: Pubkey,
    pub nonce_hash: [u8; 32],
    pub used: bool,
    pub created_at: i64,
    pub expires_at: i64,
    pub bump: u8,
}

impl Nonce {
    /// Bytes reserved for a nonce record.
    pub const SPACE: usize = 8 + 32 + 32 + 1 + 8 + 8 + 1;

    /// How long a nonce stays valid after it was created, in seconds.
    pub const DEFAULT_EXPIRY_SECONDS: i64 = 300;

    /// A nonce lives for exactly the fixed window.
    pub open spec fn well_formed(&self) -> bool {
        self.expires_at == self.created_at + 300
    }

    /// Whether the nonce can no longer be accepted at `current_ts`.
    pub fn is_expired(&self, current_ts: i64) -> (expired: bool)
        ensures
            expired == (current_ts > self.expires_at),
    {
        current_ts > self.expires_at
    }
}

} // verus!
