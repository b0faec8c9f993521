use mythra_program::errors::EventError;
use mythra_program::instructions::finalize_budget_vote::{self, FinalizeBudgetVote};
use mythra_program::instructions::release_milestone::{self, release_amount, ReleaseMilestone};
use mythra_program::instructions::revise_budget::{self, ReviseBudget};
use mythra_program::instructions::submit_budget::{self, MilestoneInput, SubmitBudget};
use mythra_program::instructions::vote_on_budget::{self, VoteOnBudget};
use mythra_program::pubkey::Pubkey;
use mythra_program::state::{
    Budget, BudgetStatus, BudgetVote, Campaign, CampaignStatus, Contribution, Milestone,
};

fn key(n: u8) -> Pubkey {
    Pubkey { bytes: [n; 32] }
}

const ORGANIZER: u8 = 1;
const CAMPAIGN: u8 = 70;
const BUDGET: u8 = 80;

fn campaign(status: CampaignStatus, total_raised: u64) -> Campaign {
    Campaign {
        event: key(7),
        organizer: key(ORGANIZER),
        funding_goal: 100_000_000_000,
        total_raised,
        deadline: 5_000,
        status,
        total_contributors: 2,
        created_at: 100,
        total_expenses: 0,
        total_revenue: 0,
        backer_pool: 0,
        organizer_pool: 0,
        platform_pool: 0,
        distribution_complete: false,
        organizer_claimed: false,
        bump: 250,
    }
}

fn blank_milestone() -> Milestone {
    Milestone {
        description: "old".to_string(),
        release_percentage: 1,
        unlock_date: 1,
        released: true,
        released_amount: 1,
    }
}

fn blank_budget() -> Budget {
    Budget {
        campaign: key(0),
        total_amount: 9,
        description: "old".to_string(),
        milestones: [blank_milestone(), blank_milestone(), blank_milestone()],
        status: BudgetStatus::Executed,
        voting_end: 9,
        votes_for: 9,
        votes_against: 9,
        revision_count: 9,
        created_at: 9,
        bump: 9,
    }
}

fn plan(a: u16, b: u16, c: u16) -> Vec<MilestoneInput> {
    vec![
        MilestoneInput { description: "Venue".to_string(), release_percentage: a, unlock_date: 6_000 },
        MilestoneInput { description: "Artists".to_string(), release_percentage: b, unlock_date: 7_000 },
        MilestoneInput { description: "Wrap-up".to_string(), release_percentage: c, unlock_date: 8_000 },
    ]
}

fn submit_ctx() -> SubmitBudget {
    SubmitBudget {
        campaign: campaign(CampaignStatus::Funded, 110_000_000_000),
        campaign_key: key(CAMPAIGN),
        budget: blank_budget(),
        budget_bump: 230,
        organizer: key(ORGANIZER),
    }
}

fn assert_planned(budget: &Budget, revision_count: u8, bump: u8) {
    assert_eq!(budget.campaign, key(CAMPAIGN));
    assert_eq!(budget.total_amount, 100_000_000_000);
    assert_eq!(budget.description, "Plan");
    assert_eq!(budget.status, BudgetStatus::Pending);
    assert_eq!(budget.voting_end, 5_500 + 259_200);
    assert_eq!((budget.votes_for, budget.votes_against), (0, 0));
    assert_eq!(budget.revision_count, revision_count);
    assert_eq!(budget.created_at, 5_500);
    assert_eq!(budget.bump, bump);
    let expected = [("Venue", 5000, 6_000), ("Artists", 3000, 7_000), ("Wrap-up", 2000, 8_000)];
    for (m, (description, percentage, date)) in budget.milestones.iter().zip(expected) {
        assert_eq!(m.description, description);
        assert_eq!(m.release_percentage, percentage);
        assert_eq!(m.unlock_date, date);
        assert!(!m.released);
        assert_eq!(m.released_amount, 0);
    }
}

#[test]
fn submit_budget_puts_the_plan_to_the_vote() {
    let mut ctx = submit_ctx();
    submit_budget::handler(
        &mut ctx,
        100_000_000_000,
        "Plan".to_string(),
        plan(5000, 3000, 2000),
        259_200,
        5_500,
    )
    .unwrap();
    assert_planned(&ctx.budget, 0, 230);
    assert!(ctx.budget.validate_milestone_percentages());
    assert_eq!(ctx.campaign.total_raised, 110_000_000_000);
}

#[test]
fn submit_budget_rejections_in_order() {
    let long = "d".repeat(201);
    let try_submit = |ctx: &mut SubmitBudget, amount: u64, description: &str, milestones: Vec<MilestoneInput>, period: i64| {
        let r = submit_budget::handler(ctx, amount, description.to_string(), milestones, period, 5_500);
        assert_eq!(ctx.budget.bump, 9);
        assert_eq!(ctx.budget.description, "old");
        r.err()
    };
    let mut bad_texts = plan(5000, 3000, 1999);
    bad_texts[2].description = "m".repeat(101);

    let mut ctx = submit_ctx();
    ctx.organizer = key(5);
    ctx.campaign.status = CampaignStatus::Pending;
    assert_eq!(
        try_submit(&mut ctx, u64::MAX, &long, vec![], i64::MAX),
        Some(EventError::UnauthorizedCampaignAction)
    );
    ctx.organizer = key(ORGANIZER);
    assert_eq!(
        try_submit(&mut ctx, u64::MAX, &long, vec![], i64::MAX),
        Some(EventError::CampaignNotFunded)
    );
    ctx.campaign.status = CampaignStatus::Funded;
    assert_eq!(
        try_submit(&mut ctx, 110_000_000_001, &long, vec![], i64::MAX),
        Some(EventError::BudgetExceedsFunds)
    );
    assert_eq!(
        try_submit(&mut ctx, 110_000_000_000, &long, vec![], i64::MAX),
        Some(EventError::BudgetDescriptionTooLong)
    );
    assert_eq!(
        try_submit(&mut ctx, 110_000_000_000, "Plan", vec![], i64::MAX),
        Some(EventError::InvalidMilestonePercentages)
    );
    let mut four = plan(5000, 3000, 1000);
    four.push(MilestoneInput { description: String::new(), release_percentage: 1000, unlock_date: 0 });
    assert_eq!(
        try_submit(&mut ctx, 110_000_000_000, "Plan", four, i64::MAX),
        Some(EventError::InvalidMilestonePercentages)
    );
    assert_eq!(
        try_submit(&mut ctx, 110_000_000_000, "Plan", bad_texts.clone(), i64::MAX),
        Some(EventError::InvalidMilestonePercentages)
    );
    // percentages that only add up to 10000 when cut to 16 bits
    assert_eq!(
        try_submit(&mut ctx, 110_000_000_000, "Plan", plan(65_535, 10_000, 1), 10),
        Some(EventError::InvalidMilestonePercentages)
    );
    bad_texts[2].release_percentage = 2000;
    assert_eq!(
        try_submit(&mut ctx, 110_000_000_000, "Plan", bad_texts.clone(), i64::MAX),
        Some(EventError::MilestoneDescriptionTooLong)
    );
    assert_eq!(
        try_submit(&mut ctx, 110_000_000_000, "Plan", plan(5000, 3000, 2000), i64::MAX),
        Some(EventError::ArithmeticOverflow)
    );
    // a text of exactly the allowed length passes
    bad_texts[2].description = "m".repeat(100);
    let r = submit_budget::handler(
        &mut ctx,
        110_000_000_000,
        "d".repeat(200),
        bad_texts,
        i64::MAX - 5_500,
        5_500,
    );
    assert!(r.is_ok());
    assert_eq!(ctx.budget.voting_end, i64::MAX);
}

fn pending_budget(voting_end: i64) -> Budget {
    Budget {
        campaign: key(CAMPAIGN),
        total_amount: 100_000_000_000,
        description: "Plan".to_string(),
        milestones: [
            Milestone { description: "Venue".to_string(), release_percentage: 5000, unlock_date: 6_000, released: false, released_amount: 0 },
            Milestone { description: "Artists".to_string(), release_percentage: 3000, unlock_date: 7_000, released: false, released_amount: 0 },
            Milestone { description: "Wrap-up".to_string(), release_percentage: 2000, unlock_date: 8_000, released: false, released_amount: 0 },
        ],
        status: BudgetStatus::Pending,
        voting_end,
        votes_for: 0,
        votes_against: 0,
        revision_count: 0,
        created_at: 5_500,
        bump: 230,
    }
}

fn vote_ctx(budget: Budget, voter: u8, amount: u64) -> VoteOnBudget {
    VoteOnBudget {
        budget,
        budget_key: key(BUDGET),
        contribution: Contribution {
            campaign: key(CAMPAIGN),
            contributor: key(voter),
            amount,
            contributed_at: 200,
            refunded: false,
            profit_share: 0,
            profit_claimed: false,
            bump: 240,
        },
        vote: BudgetVote { budget: key(0), voter: key(0), contribution_amount: 9, approve: false, voted_at: 9, bump: 9 },
        vote_bump: 220,
        voter: key(voter),
    }
}

#[test]
fn votes_weigh_as_much_as_the_contribution() {
    let mut yes = vote_ctx(pending_budget(9_000), 2, 60_000_000_000);
    vote_on_budget::handler(&mut yes, true, 8_000).unwrap();
    assert_eq!(yes.budget.votes_for, 60_000_000_000);
    assert_eq!(yes.budget.votes_against, 0);
    assert_eq!(yes.vote.budget, key(BUDGET));
    assert_eq!(yes.vote.voter, key(2));
    assert_eq!(yes.vote.contribution_amount, 60_000_000_000);
    assert!(yes.vote.approve);
    assert_eq!(yes.vote.voted_at, 8_000);
    assert_eq!(yes.vote.bump, 220);

    let mut no = vote_ctx(yes.budget.clone(), 3, 50_000_000_000);
    vote_on_budget::handler(&mut no, false, 8_999).unwrap();
    assert_eq!(no.budget.votes_for, 60_000_000_000);
    assert_eq!(no.budget.votes_against, 50_000_000_000);
    assert!(!no.vote.approve);
    assert_eq!(no.budget.status, BudgetStatus::Pending);

    let mut close = FinalizeBudgetVote { budget: no.budget.clone(), budget_key: key(BUDGET) };
    assert_eq!(
        finalize_budget_vote::handler(&mut close, 8_999).err(),
        Some(EventError::VotingPeriodNotEnded)
    );
    let record = finalize_budget_vote::handler(&mut close, 9_000).unwrap();
    assert_eq!(record.budget, key(BUDGET));
    assert_eq!(record.status, BudgetStatus::Approved);
    assert_eq!(record.votes_for, 60_000_000_000);
    assert_eq!(record.votes_against, 50_000_000_000);
    assert_eq!(record.timestamp, 9_000);
    assert_eq!(close.budget.status, BudgetStatus::Approved);
    assert_eq!(
        finalize_budget_vote::handler(&mut close, 9_001).err(),
        Some(EventError::BudgetNotPending)
    );
}

#[test]
fn nobody_votes_with_the_contribution_of_another() {
    let mut ctx = vote_ctx(pending_budget(9_000), 2, 10);
    ctx.voter = key(3);
    assert_eq!(
        vote_on_budget::handler(&mut ctx, true, 8_000).err(),
        Some(EventError::NotAContributor)
    );
    assert_eq!(ctx.budget.votes_for, 0);
    assert_eq!(ctx.vote.bump, 9);
}

#[test]
fn vote_rejections() {
    let mut ctx = vote_ctx(pending_budget(9_000), 2, 10);
    assert_eq!(
        vote_on_budget::handler(&mut ctx, true, 9_000).err(),
        Some(EventError::VotingPeriodEnded)
    );
    ctx.contribution.campaign = key(71);
    assert_eq!(
        vote_on_budget::handler(&mut ctx, true, 8_000).err(),
        Some(EventError::NotAContributor)
    );
    ctx.contribution.campaign = key(CAMPAIGN);
    ctx.budget.votes_for = u64::MAX - 9;
    assert_eq!(
        vote_on_budget::handler(&mut ctx, true, 8_000).err(),
        Some(EventError::ArithmeticOverflow)
    );
    // the other tally still has room
    assert!(vote_on_budget::handler(&mut ctx, false, 8_000).is_ok());
    assert_eq!(ctx.budget.votes_against, 10);
    ctx.budget.votes_against = u64::MAX;
    assert_eq!(
        vote_on_budget::handler(&mut ctx, false, 8_000).err(),
        Some(EventError::ArithmeticOverflow)
    );
    assert_eq!(ctx.budget.votes_for, u64::MAX - 9);
    for status in [BudgetStatus::Approved, BudgetStatus::Rejected, BudgetStatus::Executed] {
        let mut closed = pending_budget(9_000);
        closed.status = status;
        let mut ctx = vote_ctx(closed, 2, 10);
        assert_eq!(
            vote_on_budget::handler(&mut ctx, true, 0).err(),
            Some(EventError::BudgetNotPending)
        );
        assert_eq!(ctx.vote.bump, 9);
    }
}

#[test]
fn a_tie_or_an_empty_vote_rejects_the_budget() {
    for (votes_for, votes_against) in [(0, 0), (5, 5), (4, 5)] {
        let mut budget = pending_budget(9_000);
        budget.votes_for = votes_for;
        budget.votes_against = votes_against;
        let mut ctx = FinalizeBudgetVote { budget, budget_key: key(BUDGET) };
        let record = finalize_budget_vote::handler(&mut ctx, 9_000).unwrap();
        assert_eq!(record.status, BudgetStatus::Rejected);
        assert_eq!(ctx.budget.status, BudgetStatus::Rejected);
    }
}

fn revise_ctx(old_status: BudgetStatus, revision_count: u8) -> ReviseBudget {
    let mut old_budget = pending_budget(9_000);
    old_budget.status = old_status;
    old_budget.revision_count = revision_count;
    ReviseBudget {
        campaign: campaign(CampaignStatus::Funded, 110_000_000_000),
        campaign_key: key(CAMPAIGN),
        old_budget,
        new_budget: blank_budget(),
        new_budget_bump: 229,
        organizer: key(ORGANIZER),
    }
}

#[test]
fn a_rejected_budget_is_revised_at_most_twice() {
    let mut ctx = revise_ctx(BudgetStatus::Rejected, 0);
    revise_budget::handler(&mut ctx, 100_000_000_000, "Plan".to_string(), plan(5000, 3000, 2000), 259_200, 5_500).unwrap();
    assert_planned(&ctx.new_budget, 1, 229);
    assert_eq!(ctx.old_budget.status, BudgetStatus::Rejected);
    assert_eq!(ctx.old_budget.revision_count, 0);

    let mut ctx = revise_ctx(BudgetStatus::Rejected, 1);
    revise_budget::handler(&mut ctx, 100_000_000_000, "Plan".to_string(), plan(5000, 3000, 2000), 259_200, 5_500).unwrap();
    assert_planned(&ctx.new_budget, 2, 229);

    let mut ctx = revise_ctx(BudgetStatus::Rejected, 2);
    let r = revise_budget::handler(&mut ctx, 100_000_000_000, "Plan".to_string(), plan(5000, 3000, 2000), 259_200, 5_500);
    assert_eq!(r.err(), Some(EventError::CannotReviseBudget));
    assert_eq!(ctx.new_budget.bump, 9);
}

#[test]
fn revise_rejections() {
    for status in [BudgetStatus::Pending, BudgetStatus::Approved, BudgetStatus::Executed] {
        let mut ctx = revise_ctx(status, 0);
        let r = revise_budget::handler(&mut ctx, 1, String::new(), plan(5000, 3000, 2000), 1, 1);
        assert_eq!(r.err(), Some(EventError::CannotReviseBudget));
    }
    let mut ctx = revise_ctx(BudgetStatus::Rejected, 0);
    ctx.organizer = key(5);
    let r = revise_budget::handler(&mut ctx, 1, String::new(), plan(5000, 3000, 2000), 1, 1);
    assert_eq!(r.err(), Some(EventError::UnauthorizedCampaignAction));
    ctx.organizer = key(ORGANIZER);
    ctx.old_budget.campaign = key(71);
    let r = revise_budget::handler(&mut ctx, 1, String::new(), plan(5000, 3000, 2000), 1, 1);
    assert_eq!(r.err(), Some(EventError::InvalidCampaign));
    ctx.old_budget.campaign = key(CAMPAIGN);
    let r = revise_budget::handler(&mut ctx, 110_000_000_001, String::new(), plan(5000, 3000, 2000), 1, 1);
    assert_eq!(r.err(), Some(EventError::BudgetExceedsFunds));
    let r = revise_budget::handler(&mut ctx, 1, "d".repeat(201), plan(5000, 3000, 2000), 1, 1);
    assert_eq!(r.err(), Some(EventError::BudgetDescriptionTooLong));
    let r = revise_budget::handler(&mut ctx, 1, String::new(), plan(5000, 3000, 2001), 1, 1);
    assert_eq!(r.err(), Some(EventError::InvalidMilestonePercentages));
    let mut texts = plan(5000, 3000, 2000);
    texts[0].description = "m".repeat(101);
    let r = revise_budget::handler(&mut ctx, 1, String::new(), texts, 1, 1);
    assert_eq!(r.err(), Some(EventError::MilestoneDescriptionTooLong));
    let r = revise_budget::handler(&mut ctx, 1, String::new(), plan(5000, 3000, 2000), -2, i64::MIN + 1);
    assert_eq!(r.err(), Some(EventError::ArithmeticOverflow));
    assert_eq!(ctx.new_budget.bump, 9);
}

fn release_ctx() -> ReleaseMilestone {
    let mut budget = pending_budget(9_000);
    budget.status = BudgetStatus::Approved;
    ReleaseMilestone {
        campaign: campaign(CampaignStatus::Funded, 110_000_000_000),
        campaign_key: key(CAMPAIGN),
        budget,
        budget_key: key(BUDGET),
        organizer: key(ORGANIZER),
    }
}

#[test]
fn three_releases_pay_out_the_whole_budget() {
    let mut ctx = release_ctx();
    let first = release_milestone::handler(&mut ctx, 0, 6_000).unwrap();
    assert_eq!(first.amount, 50_000_000_000);
    assert_eq!(first.budget, key(BUDGET));
    assert_eq!(first.milestone_index, 0);
    assert_eq!(first.organizer, key(ORGANIZER));
    assert_eq!(first.timestamp, 6_000);
    assert!(ctx.budget.milestones[0].released);
    assert_eq!(ctx.budget.milestones[0].released_amount, 50_000_000_000);
    assert_eq!(ctx.budget.milestones[0].description, "Venue");
    assert!(!ctx.budget.milestones[1].released);
    assert_eq!(ctx.campaign.total_expenses, 50_000_000_000);
    assert_eq!(ctx.budget.status, BudgetStatus::Approved);

    // out of order: the third before the second
    let third = release_milestone::handler(&mut ctx, 2, 8_000).unwrap();
    assert_eq!(third.amount, 20_000_000_000);
    assert_eq!(ctx.budget.status, BudgetStatus::Approved);
    assert_eq!(ctx.campaign.total_expenses, 70_000_000_000);

    let second = release_milestone::handler(&mut ctx, 1, 8_000).unwrap();
    assert_eq!(second.amount, 30_000_000_000);
    assert_eq!(ctx.budget.status, BudgetStatus::Executed);
    assert_eq!(ctx.campaign.total_expenses, 100_000_000_000);
    assert_eq!(first.amount + second.amount + third.amount, ctx.budget.total_amount);

    // nothing more to release
    assert_eq!(
        release_milestone::handler(&mut ctx, 1, 9_000).err(),
        Some(EventError::BudgetNotApproved)
    );
}

#[test]
fn release_rejections() {
    let mut ctx = release_ctx();
    ctx.organizer = key(5);
    assert_eq!(
        release_milestone::handler(&mut ctx, 0, 6_000).err(),
        Some(EventError::UnauthorizedCampaignAction)
    );
    for status in [BudgetStatus::Pending, BudgetStatus::Rejected, BudgetStatus::Executed] {
        let mut ctx = release_ctx();
        ctx.budget.status = status;
        assert_eq!(
            release_milestone::handler(&mut ctx, 0, 6_000).err(),
            Some(EventError::BudgetNotApproved)
        );
    }
    let mut ctx = release_ctx();
    ctx.budget.campaign = key(71);
    assert_eq!(
        release_milestone::handler(&mut ctx, 0, 6_000).err(),
        Some(EventError::InvalidCampaign)
    );
    assert_eq!(ctx.campaign.total_expenses, 0);
    let mut ctx = release_ctx();
    assert_eq!(release_milestone::handler(&mut ctx, 3, 9_000).err(), Some(EventError::MilestoneNotReady));
    assert_eq!(release_milestone::handler(&mut ctx, 255, 9_000).err(), Some(EventError::MilestoneNotReady));
    assert_eq!(release_milestone::handler(&mut ctx, 0, 5_999).err(), Some(EventError::MilestoneNotReady));
    assert!(release_milestone::handler(&mut ctx, 0, 6_000).is_ok());
    // a released milestone is not released again
    assert_eq!(release_milestone::handler(&mut ctx, 0, 6_001).err(), Some(EventError::MilestoneNotReady));
    assert_eq!(ctx.campaign.total_expenses, 50_000_000_000);
    // the expenses cannot be written down
    ctx.campaign.total_expenses = u64::MAX - 29_999_999_999;
    assert_eq!(release_milestone::handler(&mut ctx, 1, 7_000).err(), Some(EventError::ArithmeticOverflow));
    assert!(!ctx.budget.milestones[1].released);
    assert_eq!(ctx.budget.milestones[1].released_amount, 0);
    ctx.campaign.total_expenses -= 1;
    assert!(release_milestone::handler(&mut ctx, 1, 7_000).is_ok());
    assert_eq!(ctx.campaign.total_expenses, u64::MAX);
}

#[test]
fn release_amounts_round_down() {
    assert_eq!(release_amount(100_000_000_000, 5000), Some(50_000_000_000));
    assert_eq!(release_amount(100_000_000_000, 3000), Some(30_000_000_000));
    assert_eq!(release_amount(100_000_000_000, 2000), Some(20_000_000_000));
    assert_eq!(release_amount(1, 5000), Some(0));
    assert_eq!(release_amount(1, 9999), Some(0));
    assert_eq!(release_amount(1, 10_000), Some(1));
    assert_eq!(release_amount(3, 3334), Some(1));
    assert_eq!(release_amount(u64::MAX, 10_000), Some(u64::MAX));
    assert_eq!(release_amount(u64::MAX, 3333), Some(6_148_299_799_767_393_553));
    assert_eq!(release_amount(u64::MAX, 10_001), None);
    assert_eq!(release_amount(0, 65_535), Some(0));
    // rounding withholds at most two lamports over the three milestones
    let total = 100_000_000_001u64;
    let sum: u64 = [3333u16, 3333, 3334].iter().map(|p| release_amount(total, *p).unwrap()).sum();
    assert_eq!(sum, total - 1);
}
