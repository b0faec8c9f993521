use crate::pubkey::Pubkey;
use vstd::prelude::*;

verus! {

/// One backer's single vote on one budget.
#[derive(Clone, Copy, Debug)]
pub struct BudgetVote {
    pub budget: Pubkey,
    pub voter: Pubkey,
    /// The voter's contribution at the time of the vote.
    pub contribution_amount: u64,
    pub approve: bool,
    pub voted_at: i64,
    pub bump: u8,
}

impl BudgetVote {
    /// Bytes reserved for a vote record.
    pub const LEN: usize = 8 + 32 + 32 + 8 + 1 + 8 + 1;

    /// The weight of this vote: the lamports the voter contributed.
    pub fn voting_power(&self) -> (power: u64)
        ensures
            power == self.contribution_amount,
    {
        self.contribution_amount
    }
}

} // verus!
