//! Runs of calls on one record. The ledger lets one call at a time act on a
//! record, so what a record goes through is a sequence of calls, each of
//! which is accepted or refused.

use vstd::prelude::*;
use crate::identity::Identity;
use crate::record::{Movement, WagerError, WagerMatch};
use crate::transitions::{
    fund_host_spec,
    join_and_fund_spec,
    refund_host_expired_spec,
    settle_winner_spec,
};

verus! {

/// One call of an operation on an existing record, with what the caller and
/// the ledger supply.
pub enum Call {
    FundHost { caller: Identity },
    JoinAndFund { caller: Identity },
    SettleWinner { caller: Identity, winner: Identity, winner_account: Identity },
    RefundHostExpired { caller: Identity, now: i64 },
}

/// What the operation that `call` names does with record `m`.
pub open spec fn outcome(m: WagerMatch, call: Call) -> Result<(WagerMatch, Movement), WagerError> {
    match call {
        Call::FundHost { caller } => fund_host_spec(m, caller),
        Call::JoinAndFund { caller } => join_and_fund_spec(m, caller),
        Call::SettleWinner { caller, winner, winner_account } => settle_winner_spec(
            m,
            caller,
            winner,
            winner_account,
        ),
        Call::RefundHostExpired { caller, now } => refund_host_expired_spec(m, caller, now),
    }
}

/// The record after `calls` have arrived in order, starting from `m`. A call
/// that is refused leaves the record as it was.
pub open spec fn record_after(m: WagerMatch, calls: Seq<Call>) -> WagerMatch
    decreases calls.len(),
{
    if calls.len() == 0 {
        m
    } else {
        let before = record_after(m, calls.drop_last());
        match outcome(before, calls.last()) {
            Ok((next, _)) => next,
            Err(_) => before,
        }
    }
}

/// The lamports that the accepted calls among `calls` brought into custody.
pub open spec fn deposited(m: WagerMatch, calls: Seq<Call>) -> nat
    decreases calls.len(),
{
    if calls.len() == 0 {
        0
    } else {
        let so_far = deposited(m, calls.drop_last());
        match outcome(record_after(m, calls.drop_last()), calls.last()) {
            Ok((_, Movement::Deposit { from, lamports })) => so_far + (lamports as nat),
            _ => so_far,
        }
    }
}

/// The lamports that the accepted calls among `calls` paid out of custody.
pub open spec fn paid_out(m: WagerMatch, calls: Seq<Call>) -> nat
    decreases calls.len(),
{
    if calls.len() == 0 {
        0
    } else {
        let so_far = paid_out(m, calls.drop_last());
        match outcome(record_after(m, calls.drop_last()), calls.last()) {
            Ok((_, Movement::Payout { to, lamports })) => so_far + (lamports as nat),
            _ => so_far,
        }
    }
}

/// How many of `calls` ended in a payout.
pub open spec fn payouts(m: WagerMatch, calls: Seq<Call>) -> nat
    decreases calls.len(),
{
    if calls.len() == 0 {
        0
    } else {
        let so_far = payouts(m, calls.drop_last());
        match outcome(record_after(m, calls.drop_last()), calls.last()) {
            Ok((_, Movement::Payout { to, lamports })) => so_far + 1,
            _ => so_far,
        }
    }
}

/// Whether the sentinel, which stands for no one, asks to join in `calls`.
pub open spec fn sentinel_joins(calls: Seq<Call>) -> bool {
    exists|i: int|
        0 <= i < calls.len() && #[trigger] calls[i] == (Call::JoinAndFund {
            caller: Identity::spec_none(),
        })
}

/// Whatever calls arrive, in whatever order and from whomever, the phase and
/// the flags of the record stay consistent, and the custody is what it was
/// plus what was deposited less what was paid out. So the record never pays
/// out more than it was given.
pub proof fn law_custody_balances(m: WagerMatch, calls: Seq<Call>)
    requires
        m.flags_match_state(),
    ensures
        record_after(m, calls).flags_match_state(),
        record_after(m, calls).custody() + paid_out(m, calls) == m.custody() + deposited(m, calls),
        paid_out(m, calls) <= m.custody() + deposited(m, calls),
    decreases calls.len(),
{
    if calls.len() > 0 {
        law_custody_balances(m, calls.drop_last());
    }
}

/// Whatever calls arrive, a well-formed record stays well formed, as long as
/// the sentinel is not among those who ask to join.
pub proof fn law_invariant_holds_throughout(m: WagerMatch, calls: Seq<Call>)
    requires
        m.wf(),
        !sentinel_joins(calls),
    ensures
        record_after(m, calls).wf(),
    decreases calls.len(),
{
    if calls.len() > 0 {
        let earlier = calls.drop_last();
        assert(!sentinel_joins(earlier)) by {
            if sentinel_joins(earlier) {
                let i = choose|i: int|
                    0 <= i < earlier.len() && #[trigger] earlier[i] == (Call::JoinAndFund {
                        caller: Identity::spec_none(),
                    });
                assert(calls[i] == earlier[i]);
            }
        }
        law_invariant_holds_throughout(m, earlier);
        let last = calls[calls.len() - 1];
        assert(last == calls.last());
        assert(last != (Call::JoinAndFund { caller: Identity::spec_none() }));
    }
}

/// A match is resolved at most once: among any calls on a record that is
/// still open at most one ends in a payout, after it the record is terminal
/// and empty, and on a record that is already resolved none does.
pub proof fn law_at_most_one_payout(m: WagerMatch, calls: Seq<Call>)
    ensures
        payouts(m, calls) <= 1,
        m.state.spec_is_terminal() ==> payouts(m, calls) == 0 && record_after(m, calls) == m,
        payouts(m, calls) == 1 ==> record_after(m, calls).state.spec_is_terminal()
            && record_after(m, calls).custody() == 0,
    decreases calls.len(),
{
    if calls.len() > 0 {
        law_at_most_one_payout(m, calls.drop_last());
        law_terminal_is_final(m, calls.drop_last());
    }
}

/// A resolved match stays as it is: once a run has brought the record to a
/// terminal phase, or ended in a payout, every later call is refused.
pub proof fn law_terminal_is_final(m: WagerMatch, calls: Seq<Call>)
    ensures
        payouts(m, calls) >= 1 ==> record_after(m, calls).state.spec_is_terminal(),
        forall|call: Call|
            record_after(m, calls).state.spec_is_terminal() ==> #[trigger] outcome(
                record_after(m, calls),
                call,
            ) == Err::<(WagerMatch, Movement), WagerError>(WagerError::InvalidState),
    decreases calls.len(),
{
    if calls.len() > 0 {
        law_terminal_is_final(m, calls.drop_last());
    }
}

} // verus!
