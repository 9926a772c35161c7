//! The five operations of the escrow. Each one checks its guards against the
//! record it is handed and either refuses, leaving everything as it was, or
//! moves the record on and names the one movement of lamports that goes with
//! the step.

use vstd::prelude::*;
use crate::accounts::{FundHost, InitializeMatch, JoinAndFund, RefundHostExpired, SettleWinner};
use crate::identity::Identity;
use crate::record::{code_len, Movement, WagerError, WagerMatch, WagerState, MAX_GAME_CODE_LEN};

verus! {

broadcast use vstd::slice::group_slice_axioms;

/// What `initialize_match` answers when `creator` asks at time `now` for a
/// match with these terms.
pub open spec fn initialize_match_spec(
    game_code: String,
    stake_lamports: u64,
    deadline_ts: i64,
    referee: Identity,
    creator: Identity,
    now: i64,
) -> Result<WagerMatch, WagerError> {
    if code_len(game_code@) > MAX_GAME_CODE_LEN {
        Err(WagerError::GameCodeTooLong)
    } else if stake_lamports == 0 {
        Err(WagerError::InvalidStake)
    } else if deadline_ts <= now {
        Err(WagerError::InvalidDeadline)
    } else {
        Ok(
            WagerMatch {
                game_code,
                host: creator,
                guest: Identity::spec_none(),
                referee,
                stake_lamports,
                state: WagerState::Init,
                host_funded: false,
                guest_funded: false,
                deadline_ts,
                created_at: now,
            },
        )
    }
}

/// Creates the record of a match. No lamports move.
pub fn initialize_match(
    ctx: &InitializeMatch,
    game_code: String,
    stake_lamports: u64,
    deadline_ts: i64,
    referee: Identity,
    now: i64,
) -> (r: Result<WagerMatch, WagerError>)
    ensures
        r == initialize_match_spec(game_code, stake_lamports, deadline_ts, referee, ctx.host, now),
        r is Err <==> (code_len(game_code@) > MAX_GAME_CODE_LEN || stake_lamports == 0
            || deadline_ts <= now),
        match r {
            Ok(m) => m.wf() && m.custody() == 0,
            Err(_) => true,
        },
{
    if game_code.as_str().as_bytes().len() > MAX_GAME_CODE_LEN {
        return Err(WagerError::GameCodeTooLong);
    }
    if stake_lamports == 0 {
        return Err(WagerError::InvalidStake);
    }
    if deadline_ts <= now {
        return Err(WagerError::InvalidDeadline);
    }
    Ok(
        WagerMatch {
            game_code,
            host: ctx.host,
            guest: Identity::none(),
            referee,
            stake_lamports,
            state: WagerState::Init,
            host_funded: false,
            guest_funded: false,
            deadline_ts,
            created_at: now,
        },
    )
}

/// What `fund_host` does with record `m` when `caller` asks to fund it.
///
/// A resolved match refuses everything. A deposit that the host has already
/// made is not taken twice. Otherwise the match must be new and the caller
/// its host.
pub open spec fn fund_host_spec(m: WagerMatch, caller: Identity) -> Result<
    (WagerMatch, Movement),
    WagerError,
> {
    if m.state.spec_is_terminal() {
        Err(WagerError::InvalidState)
    } else if m.host_funded {
        Err(WagerError::AlreadyFunded)
    } else if m.state != WagerState::Init {
        Err(WagerError::InvalidState)
    } else if caller != m.host {
        Err(WagerError::Unauthorized)
    } else {
        Ok(
            (
                WagerMatch { host_funded: true, state: WagerState::HostFunded, ..m },
                Movement::Deposit { from: caller, lamports: m.stake_lamports },
            ),
        )
    }
}

/// The host deposits the stake.
pub fn fund_host(ctx: &mut FundHost) -> (r: Result<Movement, WagerError>)
    ensures
        final(ctx).host == old(ctx).host,
        match fund_host_spec(old(ctx).wager_match, old(ctx).host) {
            Ok((next, movement)) => {
                &&& r == Ok::<Movement, WagerError>(movement)
                &&& final(ctx).wager_match == next
            },
            Err(e) => {
                &&& r == Err::<Movement, WagerError>(e)
                &&& final(ctx).wager_match == old(ctx).wager_match
            },
        },
        old(ctx).wager_match.wf() ==> final(ctx).wager_match.wf(),
        old(ctx).wager_match.wf() ==> match r {
            Ok(movement) => final(ctx).wager_match.custody() == movement.applied_to(
                old(ctx).wager_match.custody() as int,
            ),
            Err(_) => final(ctx).wager_match.custody() == old(ctx).wager_match.custody(),
        },
{
    let host_key = ctx.host;
    if ctx.wager_match.state.is_terminal() {
        return Err(WagerError::InvalidState);
    }
    if ctx.wager_match.host_funded {
        return Err(WagerError::AlreadyFunded);
    }
    if ctx.wager_match.state != WagerState::Init {
        return Err(WagerError::InvalidState);
    }
    if host_key != ctx.wager_match.host {
        return Err(WagerError::Unauthorized);
    }
    let stake_lamports = ctx.wager_match.stake_lamports;
    ctx.wager_match.host_funded = true;
    ctx.wager_match.state = WagerState::HostFunded;
    Ok(Movement::Deposit { from: host_key, lamports: stake_lamports })
}

/// What `join_and_fund` does with record `m` when `caller` asks to join.
///
/// A resolved match refuses everything. The host cannot be its own guest,
/// whatever has been funded so far. Otherwise the match must be waiting for
/// its guest; the two flags are then checked once more.
pub open spec fn join_and_fund_spec(m: WagerMatch, caller: Identity) -> Result<
    (WagerMatch, Movement),
    WagerError,
> {
    if m.state.spec_is_terminal() {
        Err(WagerError::InvalidState)
    } else if caller == m.host {
        Err(WagerError::InvalidGuest)
    } else if m.state != WagerState::HostFunded {
        Err(WagerError::InvalidState)
    } else if !m.host_funded {
        Err(WagerError::HostNotFunded)
    } else if m.guest_funded {
        Err(WagerError::AlreadyFunded)
    } else {
        Ok(
            (
                WagerMatch {
                    guest: caller,
                    guest_funded: true,
                    state: WagerState::BothFunded,
                    ..m
                },
                Movement::Deposit { from: caller, lamports: m.stake_lamports },
            ),
        )
    }
}

/// The guest joins the match and deposits the stake.
pub fn join_and_fund(ctx: &mut JoinAndFund) -> (r: Result<Movement, WagerError>)
    ensures
        final(ctx).guest == old(ctx).guest,
        match join_and_fund_spec(old(ctx).wager_match, old(ctx).guest) {
            Ok((next, movement)) => {
                &&& r == Ok::<Movement, WagerError>(movement)
                &&& final(ctx).wager_match == next
            },
            Err(e) => {
                &&& r == Err::<Movement, WagerError>(e)
                &&& final(ctx).wager_match == old(ctx).wager_match
            },
        },
        old(ctx).wager_match.wf() && !old(ctx).guest.spec_is_none() ==> final(ctx).wager_match.wf(),
        old(ctx).wager_match.wf() ==> match r {
            Ok(movement) => final(ctx).wager_match.custody() == movement.applied_to(
                old(ctx).wager_match.custody() as int,
            ),
            Err(_) => final(ctx).wager_match.custody() == old(ctx).wager_match.custody(),
        },
{
    let guest_key = ctx.guest;
    if ctx.wager_match.state.is_terminal() {
        return Err(WagerError::InvalidState);
    }
    if guest_key == ctx.wager_match.host {
        return Err(WagerError::InvalidGuest);
    }
    if ctx.wager_match.state != WagerState::HostFunded {
        return Err(WagerError::InvalidState);
    }
    if !ctx.wager_match.host_funded {
        return Err(WagerError::HostNotFunded);
    }
    if ctx.wager_match.guest_funded {
        return Err(WagerError::AlreadyFunded);
    }
    let stake_lamports = ctx.wager_match.stake_lamports;
    ctx.wager_match.guest = guest_key;
    ctx.wager_match.guest_funded = true;
    ctx.wager_match.state = WagerState::BothFunded;
    Ok(Movement::Deposit { from: guest_key, lamports: stake_lamports })
}

/// What `settle_winner` does with record `m` when `caller` declares `winner`
/// and names `winner_account` as the identity to be credited.
///
/// Both sides must have funded, the caller must be the referee, the winner
/// must be one of the two sides and the credited identity must be the
/// winner's. The payout is both stakes, and is refused if that sum does not
/// fit in 64 bits.
pub open spec fn settle_winner_spec(
    m: WagerMatch,
    caller: Identity,
    winner: Identity,
    winner_account: Identity,
) -> Result<(WagerMatch, Movement), WagerError> {
    if m.state != WagerState::BothFunded {
        Err(WagerError::InvalidState)
    } else if caller != m.referee {
        Err(WagerError::Unauthorized)
    } else if winner != m.host && winner != m.guest {
        Err(WagerError::InvalidWinner)
    } else if winner_account != winner {
        Err(WagerError::InvalidWinner)
    } else if 2 * m.stake_lamports > u64::MAX {
        Err(WagerError::MathOverflow)
    } else {
        Ok(
            (
                WagerMatch { state: WagerState::Settled, ..m },
                Movement::Payout { to: winner_account, lamports: (2 * m.stake_lamports) as u64 },
            ),
        )
    }
}

/// The referee declares the winner, who is paid both stakes.
pub fn settle_winner(ctx: &mut SettleWinner, winner: Identity) -> (r: Result<Movement, WagerError>)
    ensures
        final(ctx).referee == old(ctx).referee,
        final(ctx).winner == old(ctx).winner,
        match settle_winner_spec(old(ctx).wager_match, old(ctx).referee, winner, old(ctx).winner) {
            Ok((next, movement)) => {
                &&& r == Ok::<Movement, WagerError>(movement)
                &&& final(ctx).wager_match == next
            },
            Err(e) => {
                &&& r == Err::<Movement, WagerError>(e)
                &&& final(ctx).wager_match == old(ctx).wager_match
            },
        },
        old(ctx).wager_match.wf() ==> final(ctx).wager_match.wf(),
        old(ctx).wager_match.wf() ==> match r {
            Ok(movement) => final(ctx).wager_match.custody() == movement.applied_to(
                old(ctx).wager_match.custody() as int,
            ),
            Err(_) => final(ctx).wager_match.custody() == old(ctx).wager_match.custody(),
        },
{
    let referee_key = ctx.referee;
    let winner_key = ctx.winner;
    if ctx.wager_match.state != WagerState::BothFunded {
        return Err(WagerError::InvalidState);
    }
    if referee_key != ctx.wager_match.referee {
        return Err(WagerError::Unauthorized);
    }
    if winner != ctx.wager_match.host && winner != ctx.wager_match.guest {
        return Err(WagerError::InvalidWinner);
    }
    if winner_key != winner {
        return Err(WagerError::InvalidWinner);
    }
    let payout: u64 = match ctx.wager_match.stake_lamports.checked_mul(2) {
        Some(p) => p,
        None => {
            return Err(WagerError::MathOverflow);
        },
    };
    ctx.wager_match.state = WagerState::Settled;
    Ok(Movement::Payout { to: winner_key, lamports: payout })
}

/// What `refund_host_expired` does with record `m` when `caller` asks at time
/// `now` for the host's deposit back.
///
/// The match must still be waiting for its guest, the caller must be the
/// host, and the deadline must have come. The payout is the one stake that
/// the host deposited.
pub open spec fn refund_host_expired_spec(m: WagerMatch, caller: Identity, now: i64) -> Result<
    (WagerMatch, Movement),
    WagerError,
> {
    if m.state != WagerState::HostFunded {
        Err(WagerError::InvalidState)
    } else if caller != m.host {
        Err(WagerError::Unauthorized)
    } else if now < m.deadline_ts {
        Err(WagerError::DeadlineNotReached)
    } else {
        Ok(
            (
                WagerMatch { state: WagerState::Refunded, ..m },
                Movement::Payout { to: caller, lamports: m.stake_lamports },
            ),
        )
    }
}

/// The host takes the deposit back once the deadline has passed without a
/// guest.
pub fn refund_host_expired(ctx: &mut RefundHostExpired, now: i64) -> (r: Result<
    Movement,
    WagerError,
>)
    ensures
        final(ctx).host == old(ctx).host,
        match refund_host_expired_spec(old(ctx).wager_match, old(ctx).host, now) {
            Ok((next, movement)) => {
                &&& r == Ok::<Movement, WagerError>(movement)
                &&& final(ctx).wager_match == next
            },
            Err(e) => {
                &&& r == Err::<Movement, WagerError>(e)
                &&& final(ctx).wager_match == old(ctx).wager_match
            },
        },
        old(ctx).wager_match.wf() ==> final(ctx).wager_match.wf(),
        old(ctx).wager_match.wf() ==> match r {
            Ok(movement) => final(ctx).wager_match.custody() == movement.applied_to(
                old(ctx).wager_match.custody() as int,
            ),
            Err(_) => final(ctx).wager_match.custody() == old(ctx).wager_match.custody(),
        },
{
    let host_key = ctx.host;
    if ctx.wager_match.state != WagerState::HostFunded {
        return Err(WagerError::InvalidState);
    }
    if host_key != ctx.wager_match.host {
        return Err(WagerError::Unauthorized);
    }
    if now < ctx.wager_match.deadline_ts {
        return Err(WagerError::DeadlineNotReached);
    }
    let payout = ctx.wager_match.stake_lamports;
    ctx.wager_match.state = WagerState::Refunded;
    Ok(Movement::Payout { to: host_key, lamports: payout })
}

} // verus!
