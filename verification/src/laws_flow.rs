//! What the steps of a compounding run decide, stated over their inputs.
use vstd::prelude::*;
use crate::action::{ActionView, ArgView, BurrowActionView, CallbackView, ReplyView};
use crate::config::{
    BOOSTFARM, BURROW, COMPOUND_INTERVAL_NS, GAS_CLAIM_BY_SEED_TGAS, GAS_CLAIM_REWARD_TGAS,
    GAS_COLLATERAL_TRANSFER_TGAS, GAS_COMPOUND_CALLBACK_TGAS, GAS_FINALIZE_COMPOUND_TGAS,
    GAS_GET_USER_TGAS, GAS_NEAR_DEPOSIT_TGAS, MAIN_ID, WRAP,
};
use crate::contract::{
    caller_share, claim_view, claimed, compound_chain, compound_refusal, deposit_chain,
    invalid_input, locked, missing_deposit, reinvest_share, released, settle, unauthorized,
    CallContext, ProxyContract,
};
use crate::error::{AbortView, ContractErrorView};
use crate::json::JsonValue;
use crate::laws_calls::{
    arg, call_to, lemma_burrow_claim_goes_to_burrow, lemma_get_user_asks_for_the_owner,
    lemma_near_deposit_attaches_the_amount, lemma_seed_claim_names_seed_and_token,
    lemma_wrap_collateral_raises_wrapped_near,
};
use crate::preference::{active_preference_of, preference_status_of, PreferenceStatus, PreferenceView};

verus! {

/// What a claim brought in is how much the balance grew: the difference
/// where it grew, and nothing where it stayed or fell.
pub proof fn lemma_claimed_is_the_growth(post_claim_balance: u128, pre_claim_balance: u128)
    ensures
        post_claim_balance >= pre_claim_balance ==> claimed(post_claim_balance, pre_claim_balance)
            + pre_claim_balance == post_claim_balance,
        post_claim_balance <= pre_claim_balance ==> claimed(post_claim_balance, pre_claim_balance) == 0,
{
}

/// The caller's share is five percent of the increase and the reinvested
/// share ninety-five percent, each rounded down.
pub proof fn lemma_shares_are_five_and_ninety_five_percent(increase: u128)
    ensures
        caller_share(increase) * 100 <= increase * 5 < caller_share(increase) * 100 + 100,
        reinvest_share(increase) * 100 <= increase * 95 < reinvest_share(increase) * 100 + 100,
{
    let i = increase as int;
    assert(i * 5 / 100 * 100 <= i * 5 < i * 5 / 100 * 100 + 100) by (nonlinear_arith)
        requires
            0 <= i,
    {
        assert(i * 5 == 100 * (i * 5 / 100) + i * 5 % 100);
    }
    assert(i * 95 / 100 * 100 <= i * 95 < i * 95 / 100 * 100 + 100) by (nonlinear_arith)
        requires
            0 <= i,
    {
        assert(i * 95 == 100 * (i * 95 / 100) + i * 95 % 100);
    }
}

/// Taking and releasing the lock touch nothing but the lock.
pub proof fn lemma_lock_touches_only_the_flag(s: ProxyContract)
    ensures
        locked(s).owner == s.owner,
        locked(s).last_compound_call == s.last_compound_call,
        locked(s).is_processing,
        released(s).owner == s.owner,
        released(s).last_compound_call == s.last_compound_call,
        !released(s).is_processing,
{
}

/// `compound` is refused as too soon exactly when less than an hour has
/// passed since the last noted run, else as processing exactly when a run is
/// under way.
pub proof fn lemma_compound_refusal_reasons(s: ProxyContract, now: u64)
    requires
        s.last_compound_call <= now,
    ensures
        now - s.last_compound_call < COMPOUND_INTERVAL_NS ==> compound_refusal(s, now) == Some(
            AbortView::TooSoon,
        ),
        now - s.last_compound_call >= COMPOUND_INTERVAL_NS && s.is_processing ==> compound_refusal(
            s,
            now,
        ) == Some(AbortView::Processing),
        now - s.last_compound_call >= COMPOUND_INTERVAL_NS && !s.is_processing ==> compound_refusal(
            s,
            now,
        ) is None,
{
}

/// A run asks for the owner's record, then calls back with the balance
/// before the claim and the account that started the run.
pub proof fn lemma_compound_asks_for_the_owner_and_remembers_the_caller(owner: Seq<char>, ctx: CallContext)
    ensures
        compound_chain(owner, ctx).len() == 2,
        call_to(compound_chain(owner, ctx)[0], MAIN_ID@, "get_user"@, 0, GAS_GET_USER_TGAS),
        arg(compound_chain(owner, ctx)[0], "wallet_id"@) == Some(ArgView::Text(owner)),
        compound_chain(owner, ctx)[1] == (ActionView::Callback {
            callback: CallbackView::CompoundCallback {
                pre_claim_balance: ctx.account_balance,
                caller: ctx.predecessor@,
            },
            gas_tgas: GAS_COMPOUND_CALLBACK_TGAS,
        }),
{
    lemma_get_user_asks_for_the_owner(owner);
}

/// Rewards are claimed where the preference invests: all Burrow farm
/// rewards, or the Ref boost-farm rewards of the preference's seed with the
/// named contract as reward token.
pub proof fn lemma_claim_follows_the_preference(p: PreferenceView)
    ensures
        p.invested_in is BurrowFarm ==> call_to(claim_view(p), BURROW@, "account_farm_claim_all"@, 0, GAS_CLAIM_REWARD_TGAS)
            && claim_view(p)->Call_0.args.len() == 0,
        p.invested_in is RefBoostfarm ==> call_to(claim_view(p), BOOSTFARM@, "claim_reward_by_seed"@, 0, GAS_CLAIM_BY_SEED_TGAS)
            && arg(claim_view(p), "seed_id"@) == Some(ArgView::Text(p.seed_id))
            && arg(claim_view(p), "token_id"@) == Some(ArgView::Text(p.smart_contract_name)),
{
    lemma_burrow_claim_goes_to_burrow();
    lemma_seed_claim_names_seed_and_token(p.seed_id, p.smart_contract_name);
}

/// A deposit into Burrow first wraps exactly the amount, then sends it to
/// Burrow as wrapped-NEAR collateral.
pub proof fn lemma_deposit_wraps_then_lends_the_amount(amount: u128)
    ensures
        deposit_chain(amount).len() == 2,
        call_to(deposit_chain(amount)[0], WRAP@, "near_deposit"@, amount, GAS_NEAR_DEPOSIT_TGAS),
        call_to(deposit_chain(amount)[1], WRAP@, "ft_transfer_call"@, 1, GAS_COLLATERAL_TRANSFER_TGAS),
        arg(deposit_chain(amount)[1], "receiver_id"@) == Some(ArgView::Text(BURROW@)),
        arg(deposit_chain(amount)[1], "amount"@) == Some(ArgView::Amount(amount)),
        arg(deposit_chain(amount)[1], "msg"@) == Some(
            ArgView::BurrowExecute(
                seq![BurrowActionView::IncreaseCollateral { token_id: WRAP@, max_amount: amount }],
            ),
        ),
{
    lemma_near_deposit_attaches_the_amount(amount);
    lemma_wrap_collateral_raises_wrapped_near(amount);
}

/// How a run settles on the owner's record: no record releases the lock and
/// keeps the rest; an unreadable record is refused with the reader's message
/// and changes nothing; a record without an active preference releases the
/// lock and notes the time; an active preference claims its rewards, then
/// calls back with the balance before the claim, the caller and the target,
/// and changes nothing.
pub proof fn lemma_settle_outcomes(
    s: ProxyContract,
    now: u64,
    pre_claim_balance: u128,
    caller: Seq<char>,
    data: JsonValue,
    error: Seq<char>,
)
    ensures
        settle(s, now, pre_claim_balance, caller, None).0 == Ok::<(ReplyView, Option<PreferenceStatus>), AbortView>(
            (ReplyView::Idle, None),
        ),
        settle(s, now, pre_claim_balance, caller, None).1.owner == s.owner,
        settle(s, now, pre_claim_balance, caller, None).1.last_compound_call == s.last_compound_call,
        !settle(s, now, pre_claim_balance, caller, None).1.is_processing,
        settle(s, now, pre_claim_balance, caller, Some(Err(error))).0 == Err::<(ReplyView, Option<PreferenceStatus>), AbortView>(
            AbortView::Contract(ContractErrorView::SerializationFailed(error)),
        ),
        settle(s, now, pre_claim_balance, caller, Some(Err(error))).1 == s,
        active_preference_of(data) is None ==> {
            &&& settle(s, now, pre_claim_balance, caller, Some(Ok(data))).0 == Ok::<(ReplyView, Option<PreferenceStatus>), AbortView>(
                (ReplyView::Idle, Some(preference_status_of(data))),
            )
            &&& settle(s, now, pre_claim_balance, caller, Some(Ok(data))).1.owner == s.owner
            &&& settle(s, now, pre_claim_balance, caller, Some(Ok(data))).1.last_compound_call == now
            &&& !settle(s, now, pre_claim_balance, caller, Some(Ok(data))).1.is_processing
            &&& !(preference_status_of(data) is Active)
        },
        active_preference_of(data) matches Some(p) ==> {
            &&& settle(s, now, pre_claim_balance, caller, Some(Ok(data))).1 == s
            &&& preference_status_of(data) is Active
            &&& settle(s, now, pre_claim_balance, caller, Some(Ok(data))).0 matches Ok((ReplyView::Promise(c), status))
            &&& status == Some(PreferenceStatus::Active)
            &&& c.len() == 2
            &&& c[0] == claim_view(p)
            &&& c[1] == (ActionView::Callback {
                callback: CallbackView::FinalizeCompound {
                    pre_claim_balance,
                    caller,
                    reinvest_to: p.reinvest_to,
                },
                gas_tgas: GAS_FINALIZE_COMPOUND_TGAS,
            })
        },
{
}

/// The texts the contract refuses with: a stranger is told who the owner
/// is, an invalid argument is reported with its reason, a missing deposit
/// with the zero it found.
pub proof fn lemma_refusal_texts(owner: Seq<char>, reason: Seq<char>)
    ensures
        unauthorized(owner).message() == "Unauthorized: Only owner ("@ + owner
            + ")  can call this function"@,
        invalid_input(reason).message() == "Invalid input: "@ + reason,
        missing_deposit().message() == "Attached deposit 0 NEAR is required (must be non-zero)"@,
{
    reveal_strlit("Unauthorized: ");
    reveal_strlit("Only owner (");
    reveal_strlit("Unauthorized: Only owner (");
    reveal_strlit(")  can call this function");
    assert(unauthorized(owner).message() =~= "Unauthorized: Only owner ("@ + owner
        + ")  can call this function"@);
}

} // verus!
