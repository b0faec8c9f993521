pub mod calculate_distribution;
pub mod claim_backer_profit;
pub mod claim_organizer_profit;
pub mod claim_refund;
pub mod close_event;
pub mod contribute;
pub mod create_campaign;
pub mod create_event;
pub mod create_ticket_tier;
pub mod finalize_budget_vote;
pub mod finalize_campaign;
pub mod mark_ticket_used;
pub mod mark_ticket_used_ed25519;
pub mod purchase_ticket;
pub mod refund_ticket;
pub mod register_mint;
pub mod release_milestone;
pub mod revise_budget;
pub mod submit_budget;
pub mod transfer_ticket;
pub mod update_event;
pub mod vote_on_budget;
pub mod withdraw_funds;
