//! The match record: its phases, its invariant and the custody it stands for.

use vstd::prelude::*;
use vstd::utf8::encode_utf8;
use crate::identity::Identity;

verus! {

/// The longest match code, in bytes.
pub const MAX_GAME_CODE_LEN: usize = 16;

/// Phase of a match. `Settled` and `Refunded` are terminal.
#[derive(Clone, Copy, Debug, PartialEq, Eq, Structural)]
pub enum WagerState {
    Init,
    HostFunded,
    BothFunded,
    Settled,
    Refunded,
}

impl WagerState {
    /// Whether no transition leaves this phase.
    pub open spec fn spec_is_terminal(&self) -> bool {
        *self == WagerState::Settled || *self == WagerState::Refunded
    }

    /// Tells whether no transition leaves this phase.
    pub fn is_terminal(&self) -> (r: bool)
        ensures
            r == self.spec_is_terminal(),
    {
        match self {
            WagerState::Settled => true,
            WagerState::Refunded => true,
            _ => false,
        }
    }
}

/// Why an operation was refused. A refused operation changes nothing.
#[derive(Clone, Copy, Debug, PartialEq, Eq, Structural)]
pub enum WagerError {
    GameCodeTooLong,
    InvalidStake,
    InvalidDeadline,
    DeadlineNotReached,
    InvalidState,
    Unauthorized,
    HostNotFunded,
    AlreadyFunded,
    InvalidGuest,
    InvalidWinner,
    MathOverflow,
}

/// What the ledger has to carry out for an accepted transition to take
/// effect. The record that an operation hands back is to be kept only if the
/// ledger carried the movement out in full.
#[derive(Clone, Copy, Debug, PartialEq, Eq)]
pub enum Movement {
    /// `lamports` leave the balance of `from` and enter the record's custody.
    Deposit { from: Identity, lamports: u64 },
    /// `lamports` leave the record's custody and enter the balance of `to`.
    Payout { to: Identity, lamports: u64 },
}

impl Movement {
    /// The custody that is left of `custody` once this movement is done.
    pub open spec fn applied_to(&self, custody: int) -> int {
        match *self {
            Movement::Deposit { from, lamports } => custody + lamports,
            Movement::Payout { to, lamports } => custody - lamports,
        }
    }
}

/// Length in bytes of a match code.
pub open spec fn code_len(code: Seq<char>) -> nat {
    encode_utf8(code).len()
}

/// The persistent record of one match.
#[derive(Clone, Debug, PartialEq, Eq)]
pub struct WagerMatch {
    /// Lookup key of the record, at most sixteen bytes.
    pub game_code: String,
    /// The participant who created the match.
    pub host: Identity,
    /// The second participant; the sentinel until the guest has funded.
    pub guest: Identity,
    /// The one identity that may declare the winner.
    pub referee: Identity,
    /// What each side deposits.
    pub stake_lamports: u64,
    pub state: WagerState,
    pub host_funded: bool,
    pub guest_funded: bool,
    /// From this time on the host may reclaim a deposit that no guest matched.
    pub deadline_ts: i64,
    pub created_at: i64,
}

impl WagerMatch {
    /// The flags that go with each phase.
    pub open spec fn flags_match_state(&self) -> bool {
        match self.state {
            WagerState::Init => !self.host_funded && !self.guest_funded,
            WagerState::HostFunded => self.host_funded && !self.guest_funded,
            WagerState::BothFunded => self.host_funded && self.guest_funded,
            WagerState::Settled => self.host_funded && self.guest_funded,
            WagerState::Refunded => self.host_funded && !self.guest_funded,
        }
    }

    /// The invariant of a record: what creation establishes and every
    /// operation keeps.
    pub open spec fn wf(&self) -> bool {
        &&& code_len(self.game_code@) <= MAX_GAME_CODE_LEN
        &&& self.stake_lamports > 0
        &&& self.deadline_ts > self.created_at
        &&& self.flags_match_state()
        &&& self.guest_funded <==> !self.guest.spec_is_none()
        &&& self.guest_funded ==> self.guest != self.host
    }

    /// How many sides have deposited.
    pub open spec fn sides_funded(&self) -> nat {
        (if self.host_funded { 1nat } else { 0nat }) + (if self.guest_funded { 1nat } else { 0nat })
    }

    /// The lamports that the record holds for the two sides: one stake for
    /// each side that has funded, and nothing once the match is resolved.
    pub open spec fn custody(&self) -> nat {
        if self.state.spec_is_terminal() {
            0
        } else {
            (if self.host_funded { self.stake_lamports as nat } else { 0nat })
                + (if self.guest_funded { self.stake_lamports as nat } else { 0nat })
        }
    }

    /// Computes [`Self::custody`].
    pub fn custody_lamports(&self) -> (r: u128)
        ensures
            r == self.custody(),
    {
        let mut held: u128 = 0;
        if !self.state.is_terminal() {
            let stake: u128 = self.stake_lamports as u128;
            if self.host_funded {
                held = held + stake;
            }
            if self.guest_funded {
                held = held + stake;
            }
        }
        held
    }
}

/// Until a match is resolved its custody is the stake times the number of
/// sides that have funded.
pub proof fn law_custody_is_stake_per_side(m: WagerMatch)
    requires
        !m.state.spec_is_terminal(),
    ensures
        m.custody() == m.stake_lamports * m.sides_funded(),
{
    assert(m.stake_lamports * 0 == 0) by (nonlinear_arith);
    assert(m.stake_lamports * 1 == m.stake_lamports) by (nonlinear_arith);
    assert(m.stake_lamports * 2 == m.stake_lamports + m.stake_lamports) by (nonlinear_arith);
}

} // verus!
