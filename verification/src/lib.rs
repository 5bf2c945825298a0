//! Settlement rules for two conditional escrows kept in keyed accounts:
//! a goal-based crowdfunding campaign and a wager decided by an oracle price.
//!
//! Every operation is a function from the accounts it was handed, the current
//! slot and its arguments to the accounts as it leaves them. An operation that
//! fails leaves every account as it found it. Lamports that have to come out of
//! a wallet the escrow does not own are returned as a [`account::Transfer`] for
//! the account store to settle.

pub mod account;
pub mod books;
pub mod crowdfund;
pub mod error;
pub mod price_bet;
