//! What each outside call asks for, member by member.
use vstd::prelude::*;
use crate::action::{lemma_member_at, member_of, ActionView, ArgView, BurrowActionView};
use crate::calls::{
    claim_by_seed_view, claim_from_burrow_view, ft_transfer_view, get_user_view, mft_transfer_view,
    near_deposit_view, near_withdraw_view, oracle_withdraw_view, pool_collateral_view, stake_view,
    unlock_and_withdraw_view, withdraw_reward_view, wrap_collateral_view,
};
use crate::config::{
    BOOSTFARM, BURROW, GAS_CLAIM_BY_SEED_TGAS, GAS_CLAIM_REWARD_TGAS, GAS_COLLATERAL_TRANSFER_TGAS,
    GAS_FT_TRANSFER_TGAS, GAS_GET_USER_TGAS, GAS_MFT_TRANSFER_TGAS, GAS_NEAR_DEPOSIT_TGAS,
    GAS_ORACLE_CALL_TGAS, MAIN_ID, ORACLE, REF_FINANCE, WRAP,
};

verus! {

/// `a` is a call of `method` on `receiver` with that deposit and gas.
pub open spec fn call_to(a: ActionView, receiver: Seq<char>, method: Seq<char>, deposit: u128, gas_tgas: u64) -> bool {
    &&& a is Call
    &&& a->Call_0.receiver == receiver
    &&& a->Call_0.method == method
    &&& a->Call_0.deposit == deposit
    &&& a->Call_0.gas_tgas == gas_tgas
}

/// The argument `key` of the call `a`.
pub open spec fn arg(a: ActionView, key: Seq<char>) -> Option<ArgView> {
    member_of(a->Call_0.args, key)
}

/// The names of the arguments differ from each other.
proof fn lemma_argument_names()
    ensures
        "receiver_id"@.len() == 11,
        "msg"@.len() == 3,
        "amount"@.len() == 6,
        "token_id"@.len() == 8,
        "seed_id"@.len() == 7,
        "unlock_amount"@.len() == 13,
        "withdraw_amount"@.len() == 15,
        "memo"@.len() == 4,
        "wallet_id"@.len() == 9,
{
    reveal_strlit("receiver_id");
    reveal_strlit("msg");
    reveal_strlit("amount");
    reveal_strlit("token_id");
    reveal_strlit("seed_id");
    reveal_strlit("unlock_amount");
    reveal_strlit("withdraw_amount");
    reveal_strlit("memo");
    reveal_strlit("wallet_id");
}

/// A compounding run asks the main account for the user record of `owner`.
pub proof fn lemma_get_user_asks_for_the_owner(owner: Seq<char>)
    ensures
        call_to(get_user_view(owner), MAIN_ID@, "get_user"@, 0, GAS_GET_USER_TGAS),
        get_user_view(owner)->Call_0.args.len() == 1,
        arg(get_user_view(owner), "wallet_id"@) == Some(ArgView::Text(owner)),
{
    lemma_member_at(get_user_view(owner)->Call_0.args, "wallet_id"@, 0);
}

/// Burrow farm rewards are claimed from Burrow, with no arguments.
pub proof fn lemma_burrow_claim_goes_to_burrow()
    ensures
        call_to(claim_from_burrow_view(), BURROW@, "account_farm_claim_all"@, 0, GAS_CLAIM_REWARD_TGAS),
        claim_from_burrow_view()->Call_0.args.len() == 0,
{
}

/// Ref boost-farm rewards are claimed from the boost farm for the given seed
/// and reward token.
pub proof fn lemma_seed_claim_names_seed_and_token(seed_id: Seq<char>, token_id: Seq<char>)
    ensures
        call_to(claim_by_seed_view(seed_id, token_id), BOOSTFARM@, "claim_reward_by_seed"@, 0, GAS_CLAIM_BY_SEED_TGAS),
        claim_by_seed_view(seed_id, token_id)->Call_0.args.len() == 2,
        arg(claim_by_seed_view(seed_id, token_id), "seed_id"@) == Some(ArgView::Text(seed_id)),
        arg(claim_by_seed_view(seed_id, token_id), "token_id"@) == Some(ArgView::Text(token_id)),
{
    lemma_argument_names();
    let args = claim_by_seed_view(seed_id, token_id)->Call_0.args;
    lemma_member_at(args, "seed_id"@, 0);
    lemma_member_at(args, "token_id"@, 1);
}

/// Wrapping NEAR attaches exactly the amount to wrap, on the wrapped-NEAR token.
pub proof fn lemma_near_deposit_attaches_the_amount(amount: u128)
    ensures
        call_to(near_deposit_view(amount), WRAP@, "near_deposit"@, amount, GAS_NEAR_DEPOSIT_TGAS),
        near_deposit_view(amount)->Call_0.args.len() == 0,
{
}

/// Wrapped NEAR goes to Burrow as collateral: the amount is sent to Burrow
/// and Burrow is told to raise the wrapped-NEAR collateral by that amount.
pub proof fn lemma_wrap_collateral_raises_wrapped_near(amount: u128)
    ensures
        call_to(wrap_collateral_view(amount), WRAP@, "ft_transfer_call"@, 1, GAS_COLLATERAL_TRANSFER_TGAS),
        wrap_collateral_view(amount)->Call_0.args.len() == 3,
        arg(wrap_collateral_view(amount), "receiver_id"@) == Some(ArgView::Text(BURROW@)),
        arg(wrap_collateral_view(amount), "amount"@) == Some(ArgView::Amount(amount)),
        arg(wrap_collateral_view(amount), "msg"@) == Some(
            ArgView::BurrowExecute(
                seq![BurrowActionView::IncreaseCollateral { token_id: WRAP@, max_amount: amount }],
            ),
        ),
{
    lemma_argument_names();
    let args = wrap_collateral_view(amount)->Call_0.args;
    lemma_member_at(args, "receiver_id"@, 0);
    lemma_member_at(args, "amount"@, 1);
    lemma_member_at(args, "msg"@, 2);
}

/// A token deposited into Burrow is sent by its own contract to Burrow, and
/// Burrow is told to raise the collateral of that same token by that amount.
pub proof fn lemma_pool_collateral_raises_the_deposited_token(token_id: Seq<char>, amount: u128)
    ensures
        call_to(pool_collateral_view(token_id, amount), token_id, "ft_transfer_call"@, 1, GAS_FT_TRANSFER_TGAS),
        pool_collateral_view(token_id, amount)->Call_0.args.len() == 3,
        arg(pool_collateral_view(token_id, amount), "receiver_id"@) == Some(ArgView::Text(BURROW@)),
        arg(pool_collateral_view(token_id, amount), "amount"@) == Some(ArgView::Amount(amount)),
        arg(pool_collateral_view(token_id, amount), "msg"@) == Some(
            ArgView::BurrowExecute(
                seq![BurrowActionView::IncreaseCollateral { token_id, max_amount: amount }],
            ),
        ),
{
    lemma_argument_names();
    let args = pool_collateral_view(token_id, amount)->Call_0.args;
    lemma_member_at(args, "receiver_id"@, 0);
    lemma_member_at(args, "amount"@, 1);
    lemma_member_at(args, "msg"@, 2);
}

/// Staking sends the LP tokens of the pool from Ref to the boost farm.
pub proof fn lemma_stake_sends_the_pool_tokens_to_the_farm(pool_id: Seq<char>, amount: u128)
    ensures
        call_to(stake_view(pool_id, amount), REF_FINANCE@, "mft_transfer_call"@, 1, GAS_FT_TRANSFER_TGAS),
        stake_view(pool_id, amount)->Call_0.args.len() == 4,
        arg(stake_view(pool_id, amount), "receiver_id"@) == Some(ArgView::Text(BOOSTFARM@)),
        arg(stake_view(pool_id, amount), "token_id"@) == Some(ArgView::Text(pool_id)),
        arg(stake_view(pool_id, amount), "amount"@) == Some(ArgView::Amount(amount)),
        arg(stake_view(pool_id, amount), "msg"@) == Some(ArgView::Text("\"Free\""@)),
{
    lemma_argument_names();
    let args = stake_view(pool_id, amount)->Call_0.args;
    lemma_member_at(args, "receiver_id"@, 0);
    lemma_member_at(args, "token_id"@, 1);
    lemma_member_at(args, "amount"@, 2);
    lemma_member_at(args, "msg"@, 3);
}

/// Unstaking withdraws the requested amount of the seed from the boost farm
/// and unlocks nothing.
pub proof fn lemma_unstake_withdraws_the_requested_amount(seed_id: Seq<char>, amount: u128)
    ensures
        call_to(unlock_and_withdraw_view(seed_id, amount), BOOSTFARM@, "unlock_and_withdraw_seed"@, 1, GAS_FT_TRANSFER_TGAS),
        unlock_and_withdraw_view(seed_id, amount)->Call_0.args.len() == 3,
        arg(unlock_and_withdraw_view(seed_id, amount), "seed_id"@) == Some(ArgView::Text(seed_id)),
        arg(unlock_and_withdraw_view(seed_id, amount), "unlock_amount"@) == Some(ArgView::Text("0"@)),
        arg(unlock_and_withdraw_view(seed_id, amount), "withdraw_amount"@) == Some(ArgView::Amount(amount)),
{
    lemma_argument_names();
    let args = unlock_and_withdraw_view(seed_id, amount)->Call_0.args;
    lemma_member_at(args, "seed_id"@, 0);
    lemma_member_at(args, "unlock_amount"@, 1);
    lemma_member_at(args, "withdraw_amount"@, 2);
}

/// The reward token is withdrawn from the boost farm.
pub proof fn lemma_withdraw_reward_names_the_token(token_id: Seq<char>)
    ensures
        call_to(withdraw_reward_view(token_id), BOOSTFARM@, "withdraw_reward"@, 0, GAS_CLAIM_REWARD_TGAS),
        withdraw_reward_view(token_id)->Call_0.args.len() == 1,
        arg(withdraw_reward_view(token_id), "token_id"@) == Some(ArgView::Text(token_id)),
{
    lemma_member_at(withdraw_reward_view(token_id)->Call_0.args, "token_id"@, 0);
}

/// A withdrawal from Burrow goes through the oracle, addressed to Burrow,
/// and takes the token out of the collateral and then withdraws it.
pub proof fn lemma_oracle_withdraw_targets_burrow(token_id: Seq<char>)
    ensures
        call_to(oracle_withdraw_view(token_id), ORACLE@, "oracle_call"@, 1, GAS_ORACLE_CALL_TGAS),
        oracle_withdraw_view(token_id)->Call_0.args.len() == 2,
        arg(oracle_withdraw_view(token_id), "receiver_id"@) == Some(ArgView::Text(BURROW@)),
        arg(oracle_withdraw_view(token_id), "msg"@) == Some(
            ArgView::BurrowExecute(
                seq![
                    BurrowActionView::DecreaseCollateral { token_id },
                    BurrowActionView::Withdraw { token_id },
                ],
            ),
        ),
{
    lemma_argument_names();
    let args = oracle_withdraw_view(token_id)->Call_0.args;
    lemma_member_at(args, "receiver_id"@, 0);
    lemma_member_at(args, "msg"@, 1);
}

/// Unwrapping asks the token's own contract to unwrap exactly the amount.
pub proof fn lemma_near_withdraw_unwraps_the_amount(token_id: Seq<char>, amount: u128)
    ensures
        call_to(near_withdraw_view(token_id, amount), token_id, "near_withdraw"@, 1, GAS_FT_TRANSFER_TGAS),
        near_withdraw_view(token_id, amount)->Call_0.args.len() == 1,
        arg(near_withdraw_view(token_id, amount), "amount"@) == Some(ArgView::Amount(amount)),
{
    lemma_member_at(near_withdraw_view(token_id, amount)->Call_0.args, "amount"@, 0);
}

/// A token transfer asks the token's own contract to send the amount to the
/// receiver.
pub proof fn lemma_ft_transfer_sends_to_the_receiver(token_id: Seq<char>, receiver_id: Seq<char>, amount: u128)
    ensures
        call_to(ft_transfer_view(token_id, receiver_id, amount), token_id, "ft_transfer"@, 1, GAS_FT_TRANSFER_TGAS),
        ft_transfer_view(token_id, receiver_id, amount)->Call_0.args.len() == 3,
        arg(ft_transfer_view(token_id, receiver_id, amount), "receiver_id"@) == Some(ArgView::Text(receiver_id)),
        arg(ft_transfer_view(token_id, receiver_id, amount), "amount"@) == Some(ArgView::Amount(amount)),
        arg(ft_transfer_view(token_id, receiver_id, amount), "memo"@) == Some(
            ArgView::Text("Withdraw token from contract"@),
        ),
{
    lemma_argument_names();
    let args = ft_transfer_view(token_id, receiver_id, amount)->Call_0.args;
    lemma_member_at(args, "receiver_id"@, 0);
    lemma_member_at(args, "amount"@, 1);
    lemma_member_at(args, "memo"@, 2);
}

/// An LP-token transfer asks the LP-token contract to send the amount of the
/// token to the account `to`.
pub proof fn lemma_mft_transfer_sends_to_the_account(receiver_id: Seq<char>, to: Seq<char>, token_id: Seq<char>, amount: u128)
    ensures
        call_to(mft_transfer_view(receiver_id, to, token_id, amount), receiver_id, "mft_transfer"@, 1, GAS_MFT_TRANSFER_TGAS),
        mft_transfer_view(receiver_id, to, token_id, amount)->Call_0.args.len() == 4,
        arg(mft_transfer_view(receiver_id, to, token_id, amount), "receiver_id"@) == Some(ArgView::Text(to)),
        arg(mft_transfer_view(receiver_id, to, token_id, amount), "token_id"@) == Some(ArgView::Text(token_id)),
        arg(mft_transfer_view(receiver_id, to, token_id, amount), "amount"@) == Some(ArgView::Amount(amount)),
        arg(mft_transfer_view(receiver_id, to, token_id, amount), "memo"@) == Some(ArgView::Null),
{
    lemma_argument_names();
    let args = mft_transfer_view(receiver_id, to, token_id, amount)->Call_0.args;
    lemma_member_at(args, "receiver_id"@, 0);
    lemma_member_at(args, "token_id"@, 1);
    lemma_member_at(args, "amount"@, 2);
    lemma_member_at(args, "memo"@, 3);
}

} // verus!
