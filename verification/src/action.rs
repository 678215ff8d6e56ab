//! The receipts the contract schedules: calls to other contracts, transfers,
//! and calls back into itself.
use vstd::prelude::*;
use vstd::string::*;
use crate::preference::{ReinvestTo, ReinvestToView};

verus! {

/// One step of a Burrow `Execute` message.
pub enum BurrowAction {
    IncreaseCollateral { token_id: String, max_amount: u128 },
    DecreaseCollateral { token_id: String },
    Withdraw { token_id: String },
}

/// A member of the JSON arguments of a call.
pub enum Arg {
    /// A JSON string.
    Text(String),
    /// An amount, written as a JSON string of its decimal digits.
    Amount(u128),
    /// JSON `null`.
    Null,
    /// A JSON string holding the text of `{"Execute": {"actions": [...]}}`.
    BurrowExecute(Vec<BurrowAction>),
}

/// A call of a method of another contract, with JSON arguments given as the
/// members of one object, in order.
pub struct FunctionCall {
    pub receiver: String,
    pub method: String,
    pub args: Vec<(String, Arg)>,
    /// Attached deposit, in yoctoNEAR.
    pub deposit: u128,
    pub gas_tgas: u64,
}

/// A call of one of the contract's own callback methods.
pub enum Callback {
    CompoundCallback { pre_claim_balance: u128, caller: String },
    FinalizeCompound { pre_claim_balance: u128, caller: String, reinvest_to: ReinvestTo },
    Reinvest { contract_id: String, deposit_amount: u128, reinvest_to: ReinvestTo },
    HandleReinvestResult { contract_name: String, action: String },
}

/// One receipt.
pub enum Action {
    Call(FunctionCall),
    /// A transfer of `amount` yoctoNEAR.
    Transfer { receiver: String, amount: u128 },
    /// A call on the contract's own account, with no deposit.
    Callback { callback: Callback, gas_tgas: u64 },
}

/// What a callback answers: a chain of receipts to schedule, or a plain
/// value (an empty promise on the contract's own account).
pub enum Reply {
    Promise(Vec<Action>),
    Idle,
}

pub enum BurrowActionView {
    IncreaseCollateral { token_id: Seq<char>, max_amount: u128 },
    DecreaseCollateral { token_id: Seq<char> },
    Withdraw { token_id: Seq<char> },
}

pub enum ArgView {
    Text(Seq<char>),
    Amount(u128),
    Null,
    BurrowExecute(Seq<BurrowActionView>),
}

pub struct FunctionCallView {
    pub receiver: Seq<char>,
    pub method: Seq<char>,
    pub args: Seq<(Seq<char>, ArgView)>,
    pub deposit: u128,
    pub gas_tgas: u64,
}

pub enum CallbackView {
    CompoundCallback { pre_claim_balance: u128, caller: Seq<char> },
    FinalizeCompound { pre_claim_balance: u128, caller: Seq<char>, reinvest_to: ReinvestToView },
    Reinvest { contract_id: Seq<char>, deposit_amount: u128, reinvest_to: ReinvestToView },
    HandleReinvestResult { contract_name: Seq<char>, action: Seq<char> },
}

pub enum ActionView {
    Call(FunctionCallView),
    Transfer { receiver: Seq<char>, amount: u128 },
    Callback { callback: CallbackView, gas_tgas: u64 },
}

pub enum ReplyView {
    Promise(Seq<ActionView>),
    Idle,
}

impl View for BurrowAction {
    type V = BurrowActionView;

    open spec fn view(&self) -> BurrowActionView {
        match self {
            BurrowAction::IncreaseCollateral { token_id, max_amount } =>
                BurrowActionView::IncreaseCollateral { token_id: token_id@, max_amount: *max_amount },
            BurrowAction::DecreaseCollateral { token_id } => BurrowActionView::DecreaseCollateral {
                token_id: token_id@,
            },
            BurrowAction::Withdraw { token_id } => BurrowActionView::Withdraw { token_id: token_id@ },
        }
    }
}

impl View for Arg {
    type V = ArgView;

    open spec fn view(&self) -> ArgView {
        match self {
            Arg::Text(s) => ArgView::Text(s@),
            Arg::Amount(n) => ArgView::Amount(*n),
            Arg::Null => ArgView::Null,
            Arg::BurrowExecute(steps) => ArgView::BurrowExecute(
                steps@.map_values(|a: BurrowAction| a@),
            ),
        }
    }
}

/// The view of the members of a call's arguments.
pub open spec fn args_view(args: Seq<(String, Arg)>) -> Seq<(Seq<char>, ArgView)> {
    args.map_values(|p: (String, Arg)| (p.0@, p.1@))
}

impl View for FunctionCall {
    type V = FunctionCallView;

    open spec fn view(&self) -> FunctionCallView {
        FunctionCallView {
            receiver: self.receiver@,
            method: self.method@,
            args: args_view(self.args@),
            deposit: self.deposit,
            gas_tgas: self.gas_tgas,
        }
    }
}

impl View for Callback {
    type V = CallbackView;

    open spec fn view(&self) -> CallbackView {
        match self {
            Callback::CompoundCallback { pre_claim_balance, caller } =>
                CallbackView::CompoundCallback { pre_claim_balance: *pre_claim_balance, caller: caller@ },
            Callback::FinalizeCompound { pre_claim_balance, caller, reinvest_to } =>
                CallbackView::FinalizeCompound {
                pre_claim_balance: *pre_claim_balance,
                caller: caller@,
                reinvest_to: reinvest_to@,
            },
            Callback::Reinvest { contract_id, deposit_amount, reinvest_to } => CallbackView::Reinvest {
                contract_id: contract_id@,
                deposit_amount: *deposit_amount,
                reinvest_to: reinvest_to@,
            },
            Callback::HandleReinvestResult { contract_name, action } =>
                CallbackView::HandleReinvestResult { contract_name: contract_name@, action: action@ },
        }
    }
}

impl View for Action {
    type V = ActionView;

    open spec fn view(&self) -> ActionView {
        match self {
            Action::Call(c) => ActionView::Call(c@),
            Action::Transfer { receiver, amount } => ActionView::Transfer {
                receiver: receiver@,
                amount: *amount,
            },
            Action::Callback { callback, gas_tgas } => ActionView::Callback {
                callback: callback@,
                gas_tgas: *gas_tgas,
            },
        }
    }
}

/// The view of a chain of receipts.
pub open spec fn chain_view(chain: Seq<Action>) -> Seq<ActionView> {
    chain.map_values(|a: Action| a@)
}

impl View for Reply {
    type V = ReplyView;

    open spec fn view(&self) -> ReplyView {
        match self {
            Reply::Promise(chain) => ReplyView::Promise(chain_view(chain@)),
            Reply::Idle => ReplyView::Idle,
        }
    }
}

/// A member of a call's arguments.
pub fn member(key: &str, value: Arg) -> (m: (String, Arg))
    ensures
        m.0@ == key@,
        m.1 == value,
{
    (String::from_str(key), value)
}

/// A string member of a call's arguments.
pub fn text(s: &str) -> (a: Arg)
    ensures
        a@ == ArgView::Text(s@),
{
    Arg::Text(String::from_str(s))
}

/// A call of `method` on `receiver`.
pub fn call(receiver: String, method: &str, args: Vec<(String, Arg)>, deposit: u128, gas_tgas: u64) -> (a: Action)
    ensures
        a@ == ActionView::Call(
            FunctionCallView { receiver: receiver@, method: method@, args: args_view(args@), deposit, gas_tgas },
        ),
{
    Action::Call(FunctionCall { receiver, method: String::from_str(method), args, deposit, gas_tgas })
}

/// The value of the first member named `key` in a call's arguments.
pub open spec fn member_of(args: Seq<(Seq<char>, ArgView)>, key: Seq<char>) -> Option<ArgView>
    decreases args.len(),
{
    if args.len() == 0 {
        None
    } else if args[0].0 == key {
        Some(args[0].1)
    } else {
        member_of(args.drop_first(), key)
    }
}

/// The first member named `key` is the one `member_of` finds.
pub proof fn lemma_member_at(args: Seq<(Seq<char>, ArgView)>, key: Seq<char>, i: int)
    requires
        0 <= i < args.len(),
        args[i].0 == key,
        forall|j: int| 0 <= j < i ==> args[j].0 != key,
    ensures
        member_of(args, key) == Some(args[i].1),
    decreases i,
{
    if i > 0 {
        lemma_member_at(args.drop_first(), key, i - 1);
    }
}

} // verus!
