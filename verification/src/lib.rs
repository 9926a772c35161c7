//! Escrow for a two-player wagered match: one record per match, funded by
//! both sides and released exactly once.

pub mod accounts;
pub mod history;
pub mod identity;
pub mod laws;
pub mod record;
pub mod transitions;

pub use crate::accounts::{FundHost, InitializeMatch, JoinAndFund, RefundHostExpired, SettleWinner};
pub use crate::identity::Identity;
pub use crate::record::{Movement, WagerError, WagerMatch, WagerState, MAX_GAME_CODE_LEN};
pub use crate::transitions::{
    fund_host,
    initialize_match,
    join_and_fund,
    refund_host_expired,
    settle_winner,
};
