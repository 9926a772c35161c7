//! What holds of the escrow as a whole: the invariant of the record, the
//! account of its custody, and the guarantees that follow for the two sides.

use vstd::prelude::*;
use crate::identity::Identity;
use crate::record::{code_len, Movement, WagerError, WagerMatch, WagerState, MAX_GAME_CODE_LEN};
use crate::transitions::{
    fund_host_spec,
    initialize_match_spec,
    join_and_fund_spec,
    refund_host_expired_spec,
    settle_winner_spec,
};

verus! {

/// What an accepted step may change: the phase, the two flags and the guest.
/// The terms of the match stay as they were, and a flag that is set stays
/// set.
pub open spec fn terms_kept(m: WagerMatch, next: WagerMatch) -> bool {
    &&& next.game_code == m.game_code
    &&& next.host == m.host
    &&& next.referee == m.referee
    &&& next.stake_lamports == m.stake_lamports
    &&& next.deadline_ts == m.deadline_ts
    &&& next.created_at == m.created_at
    &&& m.host_funded ==> next.host_funded
    &&& m.guest_funded ==> next.guest_funded
}

/// A match is created exactly when its code is short enough, its stake
/// positive and its deadline still ahead. The new record is well formed, in
/// phase `Init`, with no guest and nothing in custody.
pub proof fn law_create_establishes_invariant(
    game_code: String,
    stake_lamports: u64,
    deadline_ts: i64,
    referee: Identity,
    creator: Identity,
    now: i64,
)
    ensures
        initialize_match_spec(game_code, stake_lamports, deadline_ts, referee, creator, now) is Ok
            <==> (code_len(game_code@) <= MAX_GAME_CODE_LEN && stake_lamports > 0 && deadline_ts
            > now),
        match initialize_match_spec(game_code, stake_lamports, deadline_ts, referee, creator, now) {
            Ok(m) => {
                &&& m.wf()
                &&& m.state == WagerState::Init
                &&& m.host == creator
                &&& m.guest.spec_is_none()
                &&& m.custody() == 0
            },
            Err(_) => true,
        },
{
}

/// Funding by the host keeps the invariant, leaves the terms alone and adds
/// exactly the deposit to the custody.
pub proof fn law_fund_host_keeps_invariant(m: WagerMatch, caller: Identity)
    requires
        m.wf(),
    ensures
        match fund_host_spec(m, caller) {
            Ok((next, movement)) => {
                &&& next.wf()
                &&& terms_kept(m, next)
                &&& m.state == WagerState::Init
                &&& next.state == WagerState::HostFunded
                &&& movement == (Movement::Deposit { from: m.host, lamports: m.stake_lamports })
                &&& next.custody() == movement.applied_to(m.custody() as int)
            },
            Err(_) => true,
        },
{
}

/// Joining keeps the invariant for every caller but the sentinel, which
/// stands for no one. It leaves the terms alone, records the caller as guest
/// and adds exactly the deposit to the custody.
pub proof fn law_join_and_fund_keeps_invariant(m: WagerMatch, caller: Identity)
    requires
        m.wf(),
    ensures
        match join_and_fund_spec(m, caller) {
            Ok((next, movement)) => {
                &&& !caller.spec_is_none() ==> next.wf()
                &&& terms_kept(m, next)
                &&& m.state == WagerState::HostFunded
                &&& next.state == WagerState::BothFunded
                &&& next.guest == caller
                &&& movement == (Movement::Deposit { from: caller, lamports: m.stake_lamports })
                &&& next.custody() == movement.applied_to(m.custody() as int)
            },
            Err(_) => true,
        },
{
}

/// Settling keeps the invariant and the terms, and pays out the whole
/// custody: nothing is left in the record.
pub proof fn law_settle_winner_keeps_invariant(
    m: WagerMatch,
    caller: Identity,
    winner: Identity,
    winner_account: Identity,
)
    requires
        m.wf(),
    ensures
        match settle_winner_spec(m, caller, winner, winner_account) {
            Ok((next, movement)) => {
                &&& next.wf()
                &&& terms_kept(m, next)
                &&& next.guest == m.guest
                &&& m.state == WagerState::BothFunded
                &&& next.state == WagerState::Settled
                &&& movement == (Movement::Payout { to: winner, lamports: m.custody() as u64 })
                &&& m.custody() == 2 * m.stake_lamports
                &&& next.custody() == 0
                &&& next.custody() == movement.applied_to(m.custody() as int)
            },
            Err(_) => true,
        },
{
}

/// The refund keeps the invariant and the terms, and pays out the whole
/// custody, which is the host's one deposit.
pub proof fn law_refund_host_expired_keeps_invariant(m: WagerMatch, caller: Identity, now: i64)
    requires
        m.wf(),
    ensures
        match refund_host_expired_spec(m, caller, now) {
            Ok((next, movement)) => {
                &&& next.wf()
                &&& terms_kept(m, next)
                &&& next.guest == m.guest
                &&& m.state == WagerState::HostFunded
                &&& next.state == WagerState::Refunded
                &&& movement == (Movement::Payout { to: m.host, lamports: m.stake_lamports })
                &&& m.custody() == m.stake_lamports
                &&& next.custody() == 0
                &&& next.custody() == movement.applied_to(m.custody() as int)
            },
            Err(_) => true,
        },
{
}

/// On a match that was just created, funding by anyone but the host is
/// refused as unauthorized, and funding by the host is accepted and leaves
/// one stake in custody.
pub proof fn law_fund_after_create(
    game_code: String,
    stake_lamports: u64,
    deadline_ts: i64,
    referee: Identity,
    creator: Identity,
    now: i64,
    caller: Identity,
)
    requires
        code_len(game_code@) <= MAX_GAME_CODE_LEN,
        stake_lamports > 0,
        deadline_ts > now,
    ensures
        match initialize_match_spec(game_code, stake_lamports, deadline_ts, referee, creator, now) {
            Ok(m) => {
                &&& caller != creator ==> fund_host_spec(m, caller) == Err::<
                    (WagerMatch, Movement),
                    WagerError,
                >(WagerError::Unauthorized)
                &&& caller == creator ==> match fund_host_spec(m, caller) {
                    Ok((next, movement)) => {
                        &&& next.state == WagerState::HostFunded
                        &&& next.custody() == stake_lamports
                        &&& movement == (Movement::Deposit {
                            from: creator,
                            lamports: stake_lamports,
                        })
                    },
                    Err(_) => false,
                }
            },
            Err(_) => false,
        },
{
}

/// Once the host has funded, a second funding is refused as already funded,
/// whoever asks, and the custody stays at one stake.
pub proof fn law_fund_host_only_once(m: WagerMatch, caller: Identity, again: Identity)
    requires
        m.wf(),
        fund_host_spec(m, caller) is Ok,
    ensures
        match fund_host_spec(m, caller) {
            Ok((next, _)) => {
                &&& fund_host_spec(next, again) == Err::<(WagerMatch, Movement), WagerError>(
                    WagerError::AlreadyFunded,
                )
                &&& next.custody() == m.stake_lamports
            },
            Err(_) => false,
        },
{
}

/// On a match that is not yet resolved, the host is refused as guest,
/// whatever has been funded so far.
pub proof fn law_host_cannot_join(m: WagerMatch)
    requires
        !m.state.spec_is_terminal(),
    ensures
        join_and_fund_spec(m, m.host) == Err::<(WagerMatch, Movement), WagerError>(
            WagerError::InvalidGuest,
        ),
{
}

/// When both sides have funded and the referee names a winner who is
/// neither of them, the verdict is refused as an invalid winner.
pub proof fn law_settle_rejects_outsider(m: WagerMatch, winner: Identity, winner_account: Identity)
    requires
        m.state == WagerState::BothFunded,
        winner != m.host,
        winner != m.guest,
    ensures
        settle_winner_spec(m, m.referee, winner, winner_account) == Err::<
            (WagerMatch, Movement),
            WagerError,
        >(WagerError::InvalidWinner),
{
}

/// While the match waits for its guest, the host's reclaim is refused before
/// the deadline and accepted from the deadline on; it then pays the host
/// exactly one stake and ends the match as refunded.
pub proof fn law_refund_waits_for_deadline(m: WagerMatch, now: i64)
    requires
        m.state == WagerState::HostFunded,
    ensures
        now < m.deadline_ts ==> refund_host_expired_spec(m, m.host, now) == Err::<
            (WagerMatch, Movement),
            WagerError,
        >(WagerError::DeadlineNotReached),
        now >= m.deadline_ts ==> match refund_host_expired_spec(m, m.host, now) {
            Ok((next, movement)) => {
                &&& next.state == WagerState::Refunded
                &&& next.custody() == 0
                &&& movement == (Movement::Payout { to: m.host, lamports: m.stake_lamports })
            },
            Err(_) => false,
        },
{
}

/// A resolved match holds nothing and refuses every operation, whoever asks
/// and whenever, as being in the wrong phase. No second payout is possible.
pub proof fn law_terminal_refuses_everything(
    m: WagerMatch,
    caller: Identity,
    winner: Identity,
    winner_account: Identity,
    now: i64,
)
    requires
        m.state.spec_is_terminal(),
    ensures
        m.custody() == 0,
        fund_host_spec(m, caller) == Err::<(WagerMatch, Movement), WagerError>(
            WagerError::InvalidState,
        ),
        join_and_fund_spec(m, caller) == Err::<(WagerMatch, Movement), WagerError>(
            WagerError::InvalidState,
        ),
        settle_winner_spec(m, caller, winner, winner_account) == Err::<
            (WagerMatch, Movement),
            WagerError,
        >(WagerError::InvalidState),
        refund_host_expired_spec(m, caller, now) == Err::<(WagerMatch, Movement), WagerError>(
            WagerError::InvalidState,
        ),
{
}

/// When twice the stake does not fit in 64 bits, a verdict that passes every
/// other guard is refused as an overflow.
pub proof fn law_settle_overflow_fails_closed(m: WagerMatch, winner: Identity)
    requires
        m.state == WagerState::BothFunded,
        winner == m.host || winner == m.guest,
        2 * m.stake_lamports > u64::MAX,
    ensures
        settle_winner_spec(m, m.referee, winner, winner) == Err::<
            (WagerMatch, Movement),
            WagerError,
        >(WagerError::MathOverflow),
{
}

} // verus!
