pub mod budget;
pub mod campaign;
pub mod contribution;
pub mod event;
pub mod nonce;
pub mod order;
pub mod ticket;
pub mod ticket_tier;
pub mod vote;

pub use budget::{Budget, BudgetStatus, Milestone};
pub use campaign::{Campaign, CampaignStatus};
pub use contribution::Contribution;
pub use event::Event;
pub use nonce::Nonce;
pub use order::Order;
pub use ticket::Ticket;
pub use ticket_tier::TicketTier;
pub use vote::BudgetVote;
