//! What each operation is handed: the record it acts on and the identities
//! that the ledger has authenticated for the call.

use vstd::prelude::*;
use crate::identity::Identity;
use crate::record::WagerMatch;

verus! {

/// Creation of a match.
#[derive(Clone, Copy, Debug)]
pub struct InitializeMatch {
    /// The creator, who becomes the host.
    pub host: Identity,
}

/// The host's deposit.
#[derive(Debug)]
pub struct FundHost {
    pub wager_match: WagerMatch,
    /// The caller, who pays the deposit.
    pub host: Identity,
}

/// The guest's entry and deposit.
#[derive(Debug)]
pub struct JoinAndFund {
    pub wager_match: WagerMatch,
    /// The caller, who pays the deposit and becomes the guest.
    pub guest: Identity,
}

/// The referee's verdict.
#[derive(Debug)]
pub struct SettleWinner {
    pub wager_match: WagerMatch,
    /// The caller.
    pub referee: Identity,
    /// The identity of the account that is to be credited.
    pub winner: Identity,
}

/// The host's reclaim of a deposit that no guest matched in time.
#[derive(Debug)]
pub struct RefundHostExpired {
    pub wager_match: WagerMatch,
    /// The caller, who is credited.
    pub host: Identity,
}

} // verus!
