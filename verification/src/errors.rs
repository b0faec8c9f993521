use vstd::prelude::*;

verus! {

/// Every way an operation can be refused.
///
/// An operation that returns one of these has changed nothing.
#[derive(Clone, Copy, Debug, PartialEq, Eq, Structural)]
pub enum EventError {
    /// Event end timestamp must be greater than start timestamp.
    InvalidTimestamps,
    /// Total supply must be greater than zero.
    ZeroSupply,
    /// Event with this ID already exists.
    DuplicateEvent,
    /// Metadata URI exceeds maximum length of 200 characters.
    MetadataUriTooLong,
    /// Only the event authority can update this event.
    UnauthorizedUpdate,
    /// Platform split must be between 0 and 10000 basis points.
    InvalidPlatformSplit,
    /// End timestamp must be in the future.
    EndTimestampInPast,
    /// Cumulative tier supply exceeds event total supply.
    ExceedsTotalSupply,
    /// Ticket price must be greater than zero.
    InvalidPrice,
    /// Tier with this ID already exists.
    DuplicateTier,
    /// Only the event authority can create tiers.
    UnauthorizedTierCreation,
    /// Ticket already registered for this mint.
    TicketAlreadyExists,
    /// Mint owner does not match expected buyer.
    InvalidMintOwner,
    /// Mint supply must be exactly 1.
    InvalidSupply,
    /// Ticket has already been used.
    TicketAlreadyUsed,
    /// Only the ticket owner can use this ticket.
    UnauthorizedTicketUse,
    /// Owner does not hold the ticket NFT.
    TicketNotOwned,
    /// Invalid ed25519 signature.
    InvalidSignature,
    /// Nonce has already been used.
    NonceUsed,
    /// Nonce has expired.
    NonceExpired,
    /// Ed25519 instruction not found or invalid.
    Ed25519InstructionMissing,
    /// Insufficient balance in escrow account.
    InsufficientBalance,
    /// Only the event authority can withdraw funds.
    UnauthorizedWithdrawal,
    /// Ticket has already been refunded.
    AlreadyRefunded,
    /// Cannot refund a ticket that has been used.
    TicketUsedCannotRefund,
    /// Only the event authority can process refunds.
    UnauthorizedRefund,
    /// Refunds not allowed after event has started.
    EventAlreadyStarted,
    /// Ticket resale is disabled for this tier.
    ResaleDisabled,
    /// Only the ticket owner can transfer this ticket.
    InvalidOwner,
    /// Event has not ended yet.
    EventNotEnded,
    /// Cannot close event with outstanding funds.
    OutstandingFunds,
    /// Campaign deadline must be in the future.
    DeadlineInPast,
    /// Campaign deadline must be before event start time.
    DeadlineAfterEventStart,
    /// Campaign deadline has passed.
    CampaignDeadlinePassed,
    /// Campaign funding goal not reached.
    GoalNotReached,
    /// Campaign is not active.
    CampaignNotActive,
    /// Campaign has already been finalized.
    AlreadyFinalized,
    /// Contribution already refunded.
    ContributionAlreadyRefunded,
    /// Cannot refund a funded campaign.
    CannotRefundFundedCampaign,
    /// Campaign has not been completed yet.
    CampaignNotCompleted,
    /// Profit share already claimed.
    ProfitAlreadyClaimed,
    /// Campaign is not funded.
    CampaignNotFunded,
    /// Contribution amount must be greater than zero.
    InvalidContributionAmount,
    /// Only campaign organizer can perform this action.
    UnauthorizedCampaignAction,
    /// Budget total exceeds campaign funds.
    BudgetExceedsFunds,
    /// Milestone percentages must sum to 10000 (100%).
    InvalidMilestonePercentages,
    /// Budget description too long.
    BudgetDescriptionTooLong,
    /// Milestone description too long.
    MilestoneDescriptionTooLong,
    /// Voting period has ended.
    VotingPeriodEnded,
    /// Voting period has not ended yet.
    VotingPeriodNotEnded,
    /// Already voted on this budget.
    AlreadyVoted,
    /// Budget is not in pending status.
    BudgetNotPending,
    /// Budget is not approved.
    BudgetNotApproved,
    /// Budget cannot be revised.
    CannotReviseBudget,
    /// Maximum revisions reached.
    MaxRevisionsReached,
    /// Milestone not ready for release.
    MilestoneNotReady,
    /// Milestone already released.
    MilestoneAlreadyReleased,
    /// Only contributors can vote.
    NotAContributor,
    /// Invalid campaign for this event.
    InvalidCampaign,
    /// Arithmetic overflow.
    ArithmeticOverflow,
    /// Distribution already calculated.
    DistributionAlreadyComplete,
    /// Distribution not yet calculated.
    DistributionNotComplete,
    /// Invalid campaign status for this operation.
    InvalidCampaignStatus,
    /// Organizer has already claimed profit.
    OrganizerAlreadyClaimed,
    /// Unauthorized claim attempt.
    UnauthorizedClaim,
    /// Invalid contribution.
    InvalidContribution,
    /// Invalid event.
    InvalidEvent,
}

} // verus!
