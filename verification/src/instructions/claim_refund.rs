use crate::errors::EventError;
use crate::pubkey::Pubkey;
use crate::state::contribution::{backed_total, lemma_refund_lowers_total};
use crate::state::{Campaign, CampaignStatus, Contribution};
use vstd::prelude::*;

verus! {

/// The accounts that take part in taking a contribution back.
pub struct ClaimRefund {
    pub campaign: Campaign,
    pub campaign_key: Pubkey,
    /// The contribution to take back; must be one to this campaign.
    pub contribution: Contribution,
    /// Who asks for the refund; must be the one who contributed.
    pub contributor: Pubkey,
}

/// Audit record of a refunded contribution. `amount` is what moves from the
/// campaign's escrow back to the contributor.
#[derive(Clone, Copy, Debug)]
pub struct RefundClaimed {
    pub campaign: Pubkey,
    pub contributor: Pubkey,
    pub amount: u64,
    pub timestamp: i64,
}

/// Why the refund is refused, if it is: the first of the checks that fails.
pub open spec fn refusal(ctx: ClaimRefund) -> Option<EventError> {
    if ctx.contribution.campaign != ctx.campaign_key {
        Some(EventError::InvalidContribution)
    } else if ctx.contribution.contributor != ctx.contributor {
        Some(EventError::UnauthorizedCampaignAction)
    } else if ctx.campaign.status != CampaignStatus::Failed {
        Some(EventError::CannotRefundFundedCampaign)
    } else if ctx.contribution.refunded {
        Some(EventError::ContributionAlreadyRefunded)
    } else {
        None
    }
}

/// What a campaign has raised after `amount` was given back: that much
/// less, and nothing where it had less than that.
pub open spec fn raised_after_refund(total_raised: u64, amount: u64) -> u64 {
    if total_raised >= amount {
        (total_raised - amount) as u64
    } else {
        0
    }
}

/// The accounts after a refund that was not refused: the contribution is
/// marked as taken back, and the campaign has raised that much less.
pub open spec fn refunded(ctx: ClaimRefund) -> ClaimRefund {
    ClaimRefund {
        campaign: Campaign {
            total_raised: raised_after_refund(ctx.campaign.total_raised, ctx.contribution.amount),
            ..ctx.campaign
        },
        contribution: Contribution { refunded: true, ..ctx.contribution },
        ..ctx
    }
}

/// Gives a backer of a failed campaign the whole contribution back. A
/// contribution is refunded once: later attempts are refused. `now` is the
/// current time.
pub fn handler(ctx: &mut ClaimRefund, now: i64) -> (result: Result<RefundClaimed, EventError>)
    ensures
        match refusal(*old(ctx)) {
            Some(error) => result == Err::<RefundClaimed, EventError>(error) && *final(ctx)
                == *old(ctx),
            None => {
                &&& result == Ok::<RefundClaimed, EventError>(
                    RefundClaimed {
                        campaign: old(ctx).campaign_key,
                        contributor: old(ctx).contributor,
                        amount: old(ctx).contribution.amount,
                        timestamp: now,
                    },
                )
                &&& *final(ctx) == refunded(*old(ctx))
            },
        },
        old(ctx).contribution.refunded ==> result is Err,
        old(ctx).contribution.agrees_with(old(ctx).campaign) ==> final(ctx).contribution.agrees_with(final(ctx).campaign),
        old(ctx).campaign.status.may_become(final(ctx).campaign.status),
        old(ctx).campaign.pools_settled() ==> final(ctx).campaign.pools_settled(),
{
    if ctx.contribution.campaign != ctx.campaign_key {
        return Err(EventError::InvalidContribution);
    }
    if ctx.contribution.contributor != ctx.contributor {
        return Err(EventError::UnauthorizedCampaignAction);
    }
    if !ctx.campaign.refunds_available() {
        return Err(EventError::CannotRefundFundedCampaign);
    }
    if !ctx.contribution.can_refund() {
        return Err(EventError::ContributionAlreadyRefunded);
    }
    let refund_amount = ctx.contribution.amount;
    ctx.contribution.refunded = true;
    ctx.campaign.total_raised = ctx.campaign.total_raised.saturating_sub(refund_amount);
    Ok(
        RefundClaimed {
            campaign: ctx.campaign_key,
            contributor: ctx.contributor,
            amount: refund_amount,
            timestamp: now,
        },
    )
}

/// The campaign's books stay right. Where the campaign has raised exactly
/// what its contributions have at stake, it still has after one of them was
/// taken back; the total is lowered by the whole amount and never cut off at
/// zero.
pub proof fn law_refund_keeps_the_books(ctx: ClaimRefund, all: Seq<Contribution>, index: int)
    requires
        refusal(ctx) is None,
        0 <= index < all.len(),
        all[index] == ctx.contribution,
        ctx.campaign.total_raised == backed_total(all),
    ensures
        refunded(ctx).campaign.total_raised == backed_total(
            all.update(index, refunded(ctx).contribution),
        ),
        refunded(ctx).campaign.total_raised == ctx.campaign.total_raised
            - ctx.contribution.amount,
{
    lemma_refund_lowers_total(all, index);
}

} // verus!
