use mythra_program::pubkey::Pubkey;
use mythra_program::state::{Budget, BudgetStatus, Milestone};

fn milestone(description: &str, release_percentage: u16) -> Milestone {
    Milestone {
        description: description.to_string(),
        release_percentage,
        unlock_date: 0,
        released: false,
        released_amount: 0,
    }
}

#[test]
fn test_milestone_percentages() {
    let budget = Budget {
        campaign: Pubkey::default(),
        total_amount: 100_000_000_000,
        description: "Test budget".to_string(),
        milestones: [
            milestone("M1", 5000),
            milestone("M2", 3000),
            milestone("M3", 2000),
        ],
        status: BudgetStatus::Pending,
        voting_end: 0,
        votes_for: 0,
        votes_against: 0,
        revision_count: 0,
        created_at: 0,
        bump: 0,
    };

    assert!(budget.validate_milestone_percentages());
}

#[test]
fn test_voting_approval() {
    let mut budget = Budget {
        campaign: Pubkey::default(),
        total_amount: 0,
        description: String::new(),
        milestones: [milestone("", 3333), milestone("", 3333), milestone("", 3334)],
        status: BudgetStatus::Pending,
        voting_end: 1000,
        votes_for: 60_000_000_000,
        votes_against: 40_000_000_000,
        revision_count: 0,
        created_at: 0,
        bump: 0,
    };

    assert!(budget.is_approved());

    budget.votes_for = 40_000_000_000;
    budget.votes_against = 60_000_000_000;
    assert!(!budget.is_approved());
}

#[test]
fn test_can_revise() {
    let mut budget = Budget {
        campaign: Pubkey::default(),
        total_amount: 0,
        description: String::new(),
        milestones: [milestone("", 3333), milestone("", 3333), milestone("", 3334)],
        status: BudgetStatus::Rejected,
        voting_end: 0,
        votes_for: 0,
        votes_against: 0,
        revision_count: 0,
        created_at: 0,
        bump: 0,
    };

    assert!(budget.can_revise());

    budget.revision_count = 2;
    assert!(!budget.can_revise());

    budget.revision_count = 0;
    budget.status = BudgetStatus::Approved;
    assert!(!budget.can_revise());
}

#[test]
fn milestone_percentages_that_overflow_sixteen_bits_are_invalid() {
    let budget = Budget {
        campaign: Pubkey::default(),
        total_amount: 1,
        description: String::new(),
        milestones: [milestone("", 65_535), milestone("", 10_000), milestone("", 1)],
        status: BudgetStatus::Pending,
        voting_end: 0,
        votes_for: 0,
        votes_against: 0,
        revision_count: 0,
        created_at: 0,
        bump: 0,
    };
    assert!(!budget.validate_milestone_percentages());
}

#[test]
fn tie_and_empty_vote_do_not_approve() {
    let mut budget = Budget {
        campaign: Pubkey::default(),
        total_amount: 0,
        description: String::new(),
        milestones: [milestone("", 3333), milestone("", 3333), milestone("", 3334)],
        status: BudgetStatus::Pending,
        voting_end: 1000,
        votes_for: 0,
        votes_against: 0,
        revision_count: 0,
        created_at: 0,
        bump: 0,
    };
    assert!(!budget.is_approved());
    budget.votes_for = 5;
    budget.votes_against = 5;
    assert!(!budget.is_approved());
    budget.votes_for = 6;
    assert!(budget.is_approved());
    assert!(!budget.voting_ended(999));
    assert!(budget.voting_ended(1000));
}

#[test]
fn milestone_unlocks_at_its_date_once() {
    let mut m = milestone("Venue", 5000);
    m.unlock_date = 50;
    assert!(!m.is_unlocked(49));
    assert!(m.is_unlocked(50));
    m.released = true;
    assert!(!m.is_unlocked(51));
}

#[test]
fn budget_status_starts_pending() {
    assert_eq!(BudgetStatus::default(), BudgetStatus::Pending);
    assert_eq!(Budget::LEN, 8 + 32 + 8 + 204 + 3 * 123 + 1 + 8 + 8 + 8 + 1 + 8 + 1);
}
