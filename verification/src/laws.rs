//! Properties of the contract that span several calls or all inputs.
use vstd::prelude::*;
use crate::account::is_valid_account_id;
use crate::config::{BOOSTFARM, BURROW, COMPOUND_INTERVAL_NS, MAIN_ID, ORACLE, REF_FINANCE, WRAP};
use crate::contract::{caller_share, compound_refusal, locked, reinvest_share, released, ProxyContract};
use crate::error::AbortView;

verus! {

/// Splitting a claimed increase never hands out more than was claimed, and
/// leaves at most one yoctoNEAR of it unassigned.
pub proof fn lemma_split_within_claim(increase: u128)
    ensures
        0 <= caller_share(increase),
        0 <= reinvest_share(increase),
        caller_share(increase) + reinvest_share(increase) <= increase,
        increase <= caller_share(increase) + reinvest_share(increase) + 1,
{
    let i = increase as int;
    assert(i * 5 / 100 + i * 95 / 100 <= i && i <= i * 5 / 100 + i * 95 / 100 + 1) by (nonlinear_arith)
        requires
            0 <= i,
    {
        let a = i * 5 / 100;
        let b = i * 95 / 100;
        assert(i * 5 == 100 * a + i * 5 % 100);
        assert(i * 95 == 100 * b + i * 95 % 100);
        assert(0 <= i * 5 % 100 < 100);
        assert(0 <= i * 95 % 100 < 100);
    }
}

/// Compounding runs never overlap: once a run has started, `compound` at
/// any later time is refused because a run is under way, until a callback
/// releases the lock. (A run that goes on to reinvest keeps the lock: no
/// method releases it after a reinvestment.)
pub proof fn lemma_compound_runs_exclusively(s: ProxyContract, started_at: u64, now: u64)
    requires
        compound_refusal(s, started_at) is None,
        started_at <= now,
    ensures
        compound_refusal(locked(s), now) == Some(AbortView::Processing),
{
}

/// A run that ends because the user has no active preference blocks new runs
/// for an hour after its end.
pub proof fn lemma_idle_run_waits_an_hour(s: ProxyContract, ended_at: u64, now: u64)
    requires
        ended_at <= now,
        now - ended_at < COMPOUND_INTERVAL_NS,
    ensures
        compound_refusal(ProxyContract { last_compound_call: ended_at, ..released(s) }, now)
            == Some(AbortView::TooSoon),
{
}

/// Once an hour has passed since the last noted run, a contract with no run
/// under way always starts one.
pub proof fn lemma_compound_starts_when_free(s: ProxyContract, now: u64)
    requires
        !s.is_processing,
        s.last_compound_call <= now,
        now - s.last_compound_call >= COMPOUND_INTERVAL_NS,
    ensures
        compound_refusal(s, now) is None,
{
}

/// Every account the contract is configured with is a valid account
/// identifier, so reading any of them as an `AccountId` never fails.
pub proof fn lemma_configured_accounts_are_valid()
    ensures
        is_valid_account_id(MAIN_ID@),
        is_valid_account_id(BOOSTFARM@),
        is_valid_account_id(REF_FINANCE@),
        is_valid_account_id(BURROW@),
        is_valid_account_id(WRAP@),
        is_valid_account_id(ORACLE@),
{
    reveal_strlit("compoundx.near");
    reveal_strlit("boostfarm.ref-labs.near");
    reveal_strlit("v2.ref-finance.near");
    reveal_strlit("contract.main.burrow.near");
    reveal_strlit("wrap.near");
    reveal_strlit("priceoracle.near");
}

} // verus!
