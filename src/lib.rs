//! A custodial lottery: a registry hands out lottery ids, buyers pay into a
//! lottery's escrow for densely numbered tickets, the lottery's authority
//! draws one ticket, and the owner of that ticket collects the whole pool.
//!
//! Every transition either applies all of its effects or returns an error and
//! leaves every record and balance as it was.

pub mod state;
pub mod engine;
pub mod draw;
pub mod laws;
pub mod address;

pub use state::{ActorId, Lottery, LotteryError, Master, Ticket};
pub use engine::{buy_ticket, claim_prize, create_lottery, init_master, pick_winner};
pub use draw::{timestamp_seed, winning_ticket_for};
pub use address::{lottery_address, lottery_seeds, master_address, master_seeds, ticket_address, ticket_seeds};
