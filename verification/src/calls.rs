//! The calls the contract makes on other contracts.
use vstd::prelude::*;
use vstd::string::*;
use crate::action::{
    args_view, call, member, text, Action, ActionView, Arg, ArgView, BurrowAction, BurrowActionView,
    FunctionCallView,
};
use crate::config::{
    BOOSTFARM, BURROW, GAS_CLAIM_BY_SEED_TGAS, GAS_CLAIM_REWARD_TGAS, GAS_COLLATERAL_TRANSFER_TGAS,
    GAS_FT_TRANSFER_TGAS, GAS_GET_USER_TGAS, GAS_MFT_TRANSFER_TGAS, GAS_NEAR_DEPOSIT_TGAS,
    GAS_ORACLE_CALL_TGAS, MAIN_ID, ORACLE, REF_FINANCE, WRAP,
};

verus! {

/// Claims every Burrow farm reward.
pub open spec fn claim_from_burrow_view() -> ActionView {
    ActionView::Call(
        FunctionCallView {
            receiver: BURROW@,
            method: "account_farm_claim_all"@,
            args: seq![],
            deposit: 0,
            gas_tgas: GAS_CLAIM_REWARD_TGAS,
        },
    )
}

pub(crate) fn claim_from_burrow_call() -> (a: Action)
    ensures
        a@ == claim_from_burrow_view(),
{
    let args: Vec<(String, Arg)> = Vec::new();
    let a = call(String::from_str(BURROW), "account_farm_claim_all", args, 0, GAS_CLAIM_REWARD_TGAS);
    assert(args_view(args@) =~= seq![]);
    a
}

/// Claims the Ref boost-farm rewards of one seed.
pub open spec fn claim_by_seed_view(seed_id: Seq<char>, token_id: Seq<char>) -> ActionView {
    ActionView::Call(
        FunctionCallView {
            receiver: BOOSTFARM@,
            method: "claim_reward_by_seed"@,
            args: seq![("seed_id"@, ArgView::Text(seed_id)), ("token_id"@, ArgView::Text(token_id))],
            deposit: 0,
            gas_tgas: GAS_CLAIM_BY_SEED_TGAS,
        },
    )
}

pub(crate) fn claim_by_seed_call(seed_id: String, token_id: String) -> (a: Action)
    ensures
        a@ == claim_by_seed_view(seed_id@, token_id@),
{
    let ghost s = seed_id@;
    let ghost t = token_id@;
    let args = vec![member("seed_id", Arg::Text(seed_id)), member("token_id", Arg::Text(token_id))];
    assert(args_view(args@) =~= seq![("seed_id"@, ArgView::Text(s)), ("token_id"@, ArgView::Text(t))]);
    call(String::from_str(BOOSTFARM), "claim_reward_by_seed", args, 0, GAS_CLAIM_BY_SEED_TGAS)
}

} // verus!

verus! {

/// Asks the main account for the owner's user record.
pub open spec fn get_user_view(owner: Seq<char>) -> ActionView {
    ActionView::Call(
        FunctionCallView {
            receiver: MAIN_ID@,
            method: "get_user"@,
            args: seq![("wallet_id"@, ArgView::Text(owner))],
            deposit: 0,
            gas_tgas: GAS_GET_USER_TGAS,
        },
    )
}

pub(crate) fn get_user_call(owner: String) -> (a: Action)
    ensures
        a@ == get_user_view(owner@),
{
    let ghost o = owner@;
    let args = vec![member("wallet_id", Arg::Text(owner))];
    assert(args_view(args@) =~= seq![("wallet_id"@, ArgView::Text(o))]);
    call(String::from_str(MAIN_ID), "get_user", args, 0, GAS_GET_USER_TGAS)
}

/// Wraps `amount` yoctoNEAR into wrapped NEAR.
pub open spec fn near_deposit_view(amount: u128) -> ActionView {
    ActionView::Call(
        FunctionCallView {
            receiver: WRAP@,
            method: "near_deposit"@,
            args: seq![],
            deposit: amount,
            gas_tgas: GAS_NEAR_DEPOSIT_TGAS,
        },
    )
}

pub(crate) fn near_deposit_call(amount: u128) -> (a: Action)
    ensures
        a@ == near_deposit_view(amount),
{
    let args: Vec<(String, Arg)> = Vec::new();
    assert(args_view(args@) =~= seq![]);
    call(String::from_str(WRAP), "near_deposit", args, amount, GAS_NEAR_DEPOSIT_TGAS)
}

/// The arguments of a transfer of `amount` of a token into Burrow as collateral.
pub open spec fn collateral_args(token_id: Seq<char>, amount: u128) -> Seq<(Seq<char>, ArgView)> {
    seq![
        ("receiver_id"@, ArgView::Text(BURROW@)),
        ("amount"@, ArgView::Amount(amount)),
        (
            "msg"@,
            ArgView::BurrowExecute(
                seq![BurrowActionView::IncreaseCollateral { token_id, max_amount: amount }],
            ),
        ),
    ]
}

fn collateral_args_of(token_id: String, amount: u128) -> (args: Vec<(String, Arg)>)
    ensures
        args_view(args@) == collateral_args(token_id@, amount),
{
    let ghost t = token_id@;
    let steps = vec![BurrowAction::IncreaseCollateral { token_id, max_amount: amount }];
    assert(steps@.map_values(|a: BurrowAction| a@) =~= seq![
        BurrowActionView::IncreaseCollateral { token_id: t, max_amount: amount },
    ]);
    let args = vec![
        member("receiver_id", text(BURROW)),
        member("amount", Arg::Amount(amount)),
        member("msg", Arg::BurrowExecute(steps)),
    ];
    assert(args_view(args@) =~= collateral_args(t, amount));
    args
}

/// Moves `amount` wrapped NEAR into Burrow as collateral.
pub open spec fn wrap_collateral_view(amount: u128) -> ActionView {
    ActionView::Call(
        FunctionCallView {
            receiver: WRAP@,
            method: "ft_transfer_call"@,
            args: collateral_args(WRAP@, amount),
            deposit: 1,
            gas_tgas: GAS_COLLATERAL_TRANSFER_TGAS,
        },
    )
}

pub(crate) fn wrap_collateral_call(amount: u128) -> (a: Action)
    ensures
        a@ == wrap_collateral_view(amount),
{
    let args = collateral_args_of(String::from_str(WRAP), amount);
    call(String::from_str(WRAP), "ft_transfer_call", args, 1, GAS_COLLATERAL_TRANSFER_TGAS)
}

/// Moves `amount` of the token `token_id` into Burrow as collateral.
pub open spec fn pool_collateral_view(token_id: Seq<char>, amount: u128) -> ActionView {
    ActionView::Call(
        FunctionCallView {
            receiver: token_id,
            method: "ft_transfer_call"@,
            args: collateral_args(token_id, amount),
            deposit: 1,
            gas_tgas: GAS_FT_TRANSFER_TGAS,
        },
    )
}

pub(crate) fn pool_collateral_call(token_id: String, amount: u128) -> (a: Action)
    ensures
        a@ == pool_collateral_view(token_id@, amount),
{
    let args = collateral_args_of(token_id.clone(), amount);
    call(token_id, "ft_transfer_call", args, 1, GAS_FT_TRANSFER_TGAS)
}

/// Stakes `amount` LP tokens of the pool `pool_id` in the Ref boost farm.
pub open spec fn stake_view(pool_id: Seq<char>, amount: u128) -> ActionView {
    ActionView::Call(
        FunctionCallView {
            receiver: REF_FINANCE@,
            method: "mft_transfer_call"@,
            args: seq![
                ("receiver_id"@, ArgView::Text(BOOSTFARM@)),
                ("token_id"@, ArgView::Text(pool_id)),
                ("amount"@, ArgView::Amount(amount)),
                ("msg"@, ArgView::Text("\"Free\""@)),
            ],
            deposit: 1,
            gas_tgas: GAS_FT_TRANSFER_TGAS,
        },
    )
}

pub(crate) fn stake_call(pool_id: String, amount: u128) -> (a: Action)
    ensures
        a@ == stake_view(pool_id@, amount),
{
    let ghost p = pool_id@;
    let args = vec![
        member("receiver_id", text(BOOSTFARM)),
        member("token_id", Arg::Text(pool_id)),
        member("amount", Arg::Amount(amount)),
        member("msg", text("\"Free\"")),
    ];
    assert(args_view(args@) =~= seq![
        ("receiver_id"@, ArgView::Text(BOOSTFARM@)),
        ("token_id"@, ArgView::Text(p)),
        ("amount"@, ArgView::Amount(amount)),
        ("msg"@, ArgView::Text("\"Free\""@)),
    ]);
    call(String::from_str(REF_FINANCE), "mft_transfer_call", args, 1, GAS_FT_TRANSFER_TGAS)
}

/// Withdraws `amount` of the seed `seed_id` from the Ref boost farm.
pub open spec fn unlock_and_withdraw_view(seed_id: Seq<char>, amount: u128) -> ActionView {
    ActionView::Call(
        FunctionCallView {
            receiver: BOOSTFARM@,
            method: "unlock_and_withdraw_seed"@,
            args: seq![
                ("seed_id"@, ArgView::Text(seed_id)),
                ("unlock_amount"@, ArgView::Text("0"@)),
                ("withdraw_amount"@, ArgView::Amount(amount)),
            ],
            deposit: 1,
            gas_tgas: GAS_FT_TRANSFER_TGAS,
        },
    )
}

pub(crate) fn unlock_and_withdraw_call(seed_id: String, amount: u128) -> (a: Action)
    ensures
        a@ == unlock_and_withdraw_view(seed_id@, amount),
{
    let ghost s = seed_id@;
    let args = vec![
        member("seed_id", Arg::Text(seed_id)),
        member("unlock_amount", text("0")),
        member("withdraw_amount", Arg::Amount(amount)),
    ];
    assert(args_view(args@) =~= seq![
        ("seed_id"@, ArgView::Text(s)),
        ("unlock_amount"@, ArgView::Text("0"@)),
        ("withdraw_amount"@, ArgView::Amount(amount)),
    ]);
    call(String::from_str(BOOSTFARM), "unlock_and_withdraw_seed", args, 1, GAS_FT_TRANSFER_TGAS)
}

/// Withdraws the reward token `token_id` from the Ref boost farm.
pub open spec fn withdraw_reward_view(token_id: Seq<char>) -> ActionView {
    ActionView::Call(
        FunctionCallView {
            receiver: BOOSTFARM@,
            method: "withdraw_reward"@,
            args: seq![("token_id"@, ArgView::Text(token_id))],
            deposit: 0,
            gas_tgas: GAS_CLAIM_REWARD_TGAS,
        },
    )
}

pub(crate) fn withdraw_reward_call(token_id: String) -> (a: Action)
    ensures
        a@ == withdraw_reward_view(token_id@),
{
    let ghost t = token_id@;
    let args = vec![member("token_id", Arg::Text(token_id))];
    assert(args_view(args@) =~= seq![("token_id"@, ArgView::Text(t))]);
    call(String::from_str(BOOSTFARM), "withdraw_reward", args, 0, GAS_CLAIM_REWARD_TGAS)
}

/// Takes the token `token_id` out of Burrow's collateral and withdraws it,
/// through the oracle.
pub open spec fn oracle_withdraw_view(token_id: Seq<char>) -> ActionView {
    ActionView::Call(
        FunctionCallView {
            receiver: ORACLE@,
            method: "oracle_call"@,
            args: seq![
                ("receiver_id"@, ArgView::Text(BURROW@)),
                (
                    "msg"@,
                    ArgView::BurrowExecute(
                        seq![
                            BurrowActionView::DecreaseCollateral { token_id },
                            BurrowActionView::Withdraw { token_id },
                        ],
                    ),
                ),
            ],
            deposit: 1,
            gas_tgas: GAS_ORACLE_CALL_TGAS,
        },
    )
}

pub(crate) fn oracle_withdraw_call(token_id: String) -> (a: Action)
    ensures
        a@ == oracle_withdraw_view(token_id@),
{
    let ghost t = token_id@;
    let steps = vec![
        BurrowAction::DecreaseCollateral { token_id: token_id.clone() },
        BurrowAction::Withdraw { token_id },
    ];
    assert(steps@.map_values(|a: BurrowAction| a@) =~= seq![
        BurrowActionView::DecreaseCollateral { token_id: t },
        BurrowActionView::Withdraw { token_id: t },
    ]);
    let args = vec![member("receiver_id", text(BURROW)), member("msg", Arg::BurrowExecute(steps))];
    assert(args_view(args@) =~= seq![
        ("receiver_id"@, ArgView::Text(BURROW@)),
        (
            "msg"@,
            ArgView::BurrowExecute(
                seq![
                    BurrowActionView::DecreaseCollateral { token_id: t },
                    BurrowActionView::Withdraw { token_id: t },
                ],
            ),
        ),
    ]);
    call(String::from_str(ORACLE), "oracle_call", args, 1, GAS_ORACLE_CALL_TGAS)
}

/// Unwraps `amount` wrapped NEAR held at `token_id`.
pub open spec fn near_withdraw_view(token_id: Seq<char>, amount: u128) -> ActionView {
    ActionView::Call(
        FunctionCallView {
            receiver: token_id,
            method: "near_withdraw"@,
            args: seq![("amount"@, ArgView::Amount(amount))],
            deposit: 1,
            gas_tgas: GAS_FT_TRANSFER_TGAS,
        },
    )
}

pub(crate) fn near_withdraw_call(token_id: String, amount: u128) -> (a: Action)
    ensures
        a@ == near_withdraw_view(token_id@, amount),
{
    let args = vec![member("amount", Arg::Amount(amount))];
    assert(args_view(args@) =~= seq![("amount"@, ArgView::Amount(amount))]);
    call(token_id, "near_withdraw", args, 1, GAS_FT_TRANSFER_TGAS)
}

/// Sends `amount` of the token `token_id` to `receiver_id`.
pub open spec fn ft_transfer_view(token_id: Seq<char>, receiver_id: Seq<char>, amount: u128) -> ActionView {
    ActionView::Call(
        FunctionCallView {
            receiver: token_id,
            method: "ft_transfer"@,
            args: seq![
                ("receiver_id"@, ArgView::Text(receiver_id)),
                ("amount"@, ArgView::Amount(amount)),
                ("memo"@, ArgView::Text("Withdraw token from contract"@)),
            ],
            deposit: 1,
            gas_tgas: GAS_FT_TRANSFER_TGAS,
        },
    )
}

pub(crate) fn ft_transfer_call(token_id: String, receiver_id: String, amount: u128) -> (a: Action)
    ensures
        a@ == ft_transfer_view(token_id@, receiver_id@, amount),
{
    let ghost r = receiver_id@;
    let args = vec![
        member("receiver_id", Arg::Text(receiver_id)),
        member("amount", Arg::Amount(amount)),
        member("memo", text("Withdraw token from contract")),
    ];
    assert(args_view(args@) =~= seq![
        ("receiver_id"@, ArgView::Text(r)),
        ("amount"@, ArgView::Amount(amount)),
        ("memo"@, ArgView::Text("Withdraw token from contract"@)),
    ]);
    call(token_id, "ft_transfer", args, 1, GAS_FT_TRANSFER_TGAS)
}

/// Asks the LP-token contract `receiver_id` to send `amount` of the LP token
/// `token_id` to the account `to`.
pub open spec fn mft_transfer_view(receiver_id: Seq<char>, to: Seq<char>, token_id: Seq<char>, amount: u128) -> ActionView {
    ActionView::Call(
        FunctionCallView {
            receiver: receiver_id,
            method: "mft_transfer"@,
            args: seq![
                ("receiver_id"@, ArgView::Text(to)),
                ("token_id"@, ArgView::Text(token_id)),
                ("amount"@, ArgView::Amount(amount)),
                ("memo"@, ArgView::Null),
            ],
            deposit: 1,
            gas_tgas: GAS_MFT_TRANSFER_TGAS,
        },
    )
}

pub(crate) fn mft_transfer_call(receiver_id: String, to: String, token_id: String, amount: u128) -> (a: Action)
    ensures
        a@ == mft_transfer_view(receiver_id@, to@, token_id@, amount),
{
    let ghost t = to@;
    let ghost k = token_id@;
    let args = vec![
        member("receiver_id", Arg::Text(to)),
        member("token_id", Arg::Text(token_id)),
        member("amount", Arg::Amount(amount)),
        member("memo", Arg::Null),
    ];
    assert(args_view(args@) =~= seq![
        ("receiver_id"@, ArgView::Text(t)),
        ("token_id"@, ArgView::Text(k)),
        ("amount"@, ArgView::Amount(amount)),
        ("memo"@, ArgView::Null),
    ]);
    call(receiver_id, "mft_transfer", args, 1, GAS_MFT_TRANSFER_TGAS)
}

} // verus!
