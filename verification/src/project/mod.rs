//! One crowdfunding campaign: its ledger, its lifecycle, the payout and the
//! vesting of reward tokens, comments and spam flags.
pub mod reward;
pub mod state;
pub mod payout;
pub mod random;
pub mod msg;
pub mod contract;
pub mod laws;
