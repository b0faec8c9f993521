//! Ticketed events and their crowdfunding: the rules by which events, ticket
//! tiers, tickets, campaigns, contributions and budgets change, and the
//! arithmetic by which funds are split.
//!
//! Every operation lives in [`instructions`], one module each. An operation
//! takes the records it works on as plain values, together with the current
//! time and the balances it has to know, and either changes the records and
//! says which funds are to move, or refuses and changes nothing. The records
//! themselves are in [`state`].

pub mod bytes;
pub mod errors;
pub mod instructions;
pub mod introspection;
pub mod pubkey;
pub mod state;
pub mod token;
