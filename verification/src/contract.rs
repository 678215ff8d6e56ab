//! The contract's state and the decisions of each of its methods.
//!
//! Every method takes what it reads from the chain in a `CallContext`, and
//! answers with the receipts to schedule; a refused call answers an `Abort`
//! and leaves the state as it was.
use vstd::prelude::*;
use vstd::string::*;
use crate::action::{
    chain_view, Action, ActionView, ArgView, BurrowActionView, Callback, CallbackView, Reply, ReplyView,
};
use crate::laws::lemma_split_within_claim;
use crate::laws_calls::{
    arg, call_to, lemma_ft_transfer_sends_to_the_receiver, lemma_oracle_withdraw_targets_burrow,
    lemma_pool_collateral_raises_the_deposited_token, lemma_unstake_withdraws_the_requested_amount,
    lemma_withdraw_reward_names_the_token,
};
use crate::laws_flow::lemma_claimed_is_the_growth;
use crate::calls::{
    claim_by_seed_call, claim_by_seed_view, claim_from_burrow_call, claim_from_burrow_view,
    ft_transfer_call, ft_transfer_view, get_user_call, get_user_view, mft_transfer_call,
    mft_transfer_view, near_deposit_call, near_deposit_view, near_withdraw_call,
    near_withdraw_view, oracle_withdraw_call, oracle_withdraw_view, pool_collateral_call,
    pool_collateral_view, stake_call, stake_view, unlock_and_withdraw_call,
    unlock_and_withdraw_view, withdraw_reward_call, withdraw_reward_view, wrap_collateral_call,
    wrap_collateral_view,
};
use crate::config::{
    BOOSTFARM, BURROW, CALLER_SHARE_PERCENT, GAS_CLAIM_REWARD_TGAS, GAS_FT_TRANSFER_TGAS, GAS_ORACLE_CALL_TGAS, ORACLE, COMPOUND_INTERVAL_NS, GAS_COMPOUND_CALLBACK_TGAS,
    GAS_FINALIZE_COMPOUND_TGAS, GAS_HANDLE_REINVEST_RESULT_TGAS, GAS_REINVEST_TGAS,
    MIN_REINVEST_BALANCE, REINVEST_SHARE_PERCENT, REINVEST_THRESHOLD, WRAP,
};
use crate::error::{Abort, AbortView, ContractError, ContractErrorView};
use crate::json::{json_get, parse_json, parsed_json, JsonValue};
use crate::preference::{
    active_preference_of, lemma_active_preference_parses, lemma_ref_seed_nonempty,
    preference_status_of, read_preference, PreferenceStatus, PreferenceView, ReinvestFrom,
    ReinvestFromView, ReinvestTo, ReinvestToView,
};

verus! {

/// The contract's state.
pub struct ProxyContract {
    /// The account that owns the contract.
    pub owner: String,
    /// When the last compounding run ended without an active preference, in
    /// nanoseconds.
    pub last_compound_call: u64,
    /// Whether a compounding run is under way.
    pub is_processing: bool,
}

/// What a call reads from the chain.
pub struct CallContext {
    /// The account that made the call.
    pub predecessor: String,
    /// The contract's own account.
    pub current_account: String,
    /// The deposit attached to the call, in yoctoNEAR.
    pub attached_deposit: u128,
    /// The contract's balance, in yoctoNEAR.
    pub account_balance: u128,
    /// The block time, in nanoseconds.
    pub block_timestamp: u64,
}

/// What came back from the main account for the owner's user record.
pub enum UserDataResponse {
    /// A number of results other than one.
    Unexpected,
    /// The call failed.
    Failed,
    /// The call answered these bytes.
    Received(Vec<u8>),
}

/// What a callback that reads the user record answers: the reply, and what
/// the record said about the preference where a document was read.
pub struct CallbackAnswer {
    pub reply: Reply,
    pub preference: Option<PreferenceStatus>,
}

/// What came back from a reinvestment.
pub enum ReinvestOutcome {
    NoResult,
    Succeeded,
    Failed,
}

/// The refusal of a caller that is not the owner.
pub open spec fn unauthorized(owner: Seq<char>) -> AbortView {
    AbortView::Contract(
        ContractErrorView::Unauthorized("Only owner ("@ + owner + ")  can call this function"@),
    )
}

/// The refusal of an invalid argument.
pub open spec fn invalid_input(message: Seq<char>) -> AbortView {
    AbortView::Contract(ContractErrorView::InvalidInput(message))
}

/// The refusal of a call that needs a deposit and has none.
pub open spec fn missing_deposit() -> AbortView {
    AbortView::Contract(
        ContractErrorView::InsufficientDeposit(
            "Attached deposit 0 NEAR is required (must be non-zero)"@,
        ),
    )
}

/// The view of the answer of a method that schedules a chain of receipts.
pub open spec fn outcome(r: Result<Vec<Action>, Abort>) -> Result<Seq<ActionView>, AbortView> {
    match r {
        Ok(chain) => Ok(chain_view(chain@)),
        Err(e) => Err(e@),
    }
}

/// The view of the answer of a callback.
pub open spec fn reply_outcome(r: Result<Reply, Abort>) -> Result<ReplyView, AbortView> {
    match r {
        Ok(reply) => Ok(reply@),
        Err(e) => Err(e@),
    }
}

/// The state with the compounding lock taken.
pub open spec fn locked(s: ProxyContract) -> ProxyContract {
    ProxyContract { is_processing: true, ..s }
}

/// The state with the compounding lock released.
pub open spec fn released(s: ProxyContract) -> ProxyContract {
    ProxyContract { is_processing: false, ..s }
}

/// Why `compound` refuses to start at `now`, if it does: less than an hour
/// has passed since the last run, or a run is under way.
pub open spec fn compound_refusal(s: ProxyContract, now: u64) -> Option<AbortView> {
    if now - s.last_compound_call < COMPOUND_INTERVAL_NS {
        Some(AbortView::TooSoon)
    } else if s.is_processing {
        Some(AbortView::Processing)
    } else {
        None
    }
}

/// A compounding run starts by reading the owner's user record, then calls
/// back with the balance before the claim and the account that started it.
pub open spec fn compound_chain(owner: Seq<char>, ctx: CallContext) -> Seq<ActionView> {
    seq![
        get_user_view(owner),
        ActionView::Callback {
            callback: CallbackView::CompoundCallback {
                pre_claim_balance: ctx.account_balance,
                caller: ctx.predecessor@,
            },
            gas_tgas: GAS_COMPOUND_CALLBACK_TGAS,
        },
    ]
}

impl ProxyContract {
    /// Sets up the contract for the owner `user`. `stored_owner` is the owner
    /// that storage already holds, if any: then the contract is already set up.
    pub fn new(user: String, stored_owner: Option<String>) -> (r: Result<ProxyContract, Abort>)
        ensures
            match r {
                Ok(c) => stored_owner is None && c.owner@ == user@ && c.last_compound_call == 0
                    && !c.is_processing,
                Err(e) => stored_owner is Some && e@ == AbortView::Contract(
                    ContractErrorView::AlreadyInitialized,
                ),
            },
    {
        match stored_owner {
            Some(_) => Err(Abort::Contract(ContractError::AlreadyInitialized)),
            None => Ok(ProxyContract { owner: user, last_compound_call: 0, is_processing: false }),
        }
    }

    /// Refuses a caller other than the owner.
    pub fn assert_owner(&self, ctx: &CallContext) -> (r: Result<(), Abort>)
        ensures
            match r {
                Ok(_) => ctx.predecessor@ == self.owner@,
                Err(e) => ctx.predecessor@ != self.owner@ && e@ == unauthorized(self.owner@),
            },
    {
        if ctx.predecessor == self.owner {
            Ok(())
        } else {
            let mut m = String::from_str("Only owner (");
            m.append(self.owner.as_str());
            m.append(")  can call this function");
            Err(Abort::Contract(ContractError::Unauthorized(m)))
        }
    }

    /// Refuses while a compounding run is under way.
    pub fn assert_not_processing(&self) -> (r: Result<(), Abort>)
        ensures
            match r {
                Ok(_) => !self.is_processing,
                Err(e) => self.is_processing && e@ == AbortView::Processing,
            },
    {
        if self.is_processing {
            Err(Abort::Processing)
        } else {
            Ok(())
        }
    }

    /// The owner.
    pub fn get_owner(&self) -> (owner: String)
        ensures
            owner@ == self.owner@,
    {
        self.owner.clone()
    }

    /// Starts a compounding run: anyone may call it, at most once an hour and
    /// not while a run is under way. It takes the lock and asks the main
    /// account for the owner's preference.
    pub fn compound(&mut self, ctx: &CallContext) -> (r: Result<Vec<Action>, Abort>)
        requires
            ctx.block_timestamp >= old(self).last_compound_call,
        ensures
            match compound_refusal(*old(self), ctx.block_timestamp) {
                Some(e) => outcome(r) == Err::<Seq<ActionView>, AbortView>(e) && *final(self)
                    == *old(self),
                None => outcome(r) == Ok::<Seq<ActionView>, AbortView>(
                    compound_chain(old(self).owner@, *ctx),
                ) && *final(self) == locked(*old(self)),
            },
    {
        if ctx.block_timestamp - self.last_compound_call < COMPOUND_INTERVAL_NS {
            return Err(Abort::TooSoon);
        }
        match self.assert_not_processing() {
            Ok(_) => {},
            Err(e) => return Err(e),
        }
        self.is_processing = true;
        let ghost owner = self.owner@;
        let chain = vec![
            get_user_call(self.owner.clone()),
            Action::Callback {
                callback: Callback::CompoundCallback {
                    pre_claim_balance: ctx.account_balance,
                    caller: ctx.predecessor.clone(),
                },
                gas_tgas: GAS_COMPOUND_CALLBACK_TGAS,
            },
        ];
        assert(chain_view(chain@) =~= compound_chain(owner, *ctx));
        Ok(chain)
    }
}

/// The view of what a callback that reads the user record answers.
pub open spec fn answer_outcome(r: Result<CallbackAnswer, Abort>) -> Result<(ReplyView, Option<PreferenceStatus>), AbortView> {
    match r {
        Ok(a) => Ok((a.reply@, a.preference)),
        Err(e) => Err(e@),
    }
}

/// The view of what was read from the user record.
pub open spec fn document_view(document: Option<Result<JsonValue, String>>) -> Option<Result<JsonValue, Seq<char>>> {
    match document {
        None => None,
        Some(Ok(data)) => Some(Ok(data)),
        Some(Err(e)) => Some(Err(e@)),
    }
}

/// How a compounding run settles on what was read from the user record, and
/// the state it leaves: no record releases the lock; an unreadable document
/// is refused; a document without an active preference releases the lock and
/// notes the time `now`; an active preference claims its rewards and calls
/// back to split them, the lock staying taken.
pub open spec fn settle(
    s: ProxyContract,
    now: u64,
    pre_claim_balance: u128,
    caller: Seq<char>,
    document: Option<Result<JsonValue, Seq<char>>>,
) -> (Result<(ReplyView, Option<PreferenceStatus>), AbortView>, ProxyContract) {
    match document {
        None => (Ok((ReplyView::Idle, None)), released(s)),
        Some(Err(e)) => (Err(AbortView::Contract(ContractErrorView::SerializationFailed(e))), s),
        Some(Ok(data)) => match active_preference_of(data) {
            None => (
                Ok((ReplyView::Idle, Some(preference_status_of(data)))),
                ProxyContract { last_compound_call: now, ..released(s) },
            ),
            Some(p) => (
                Ok(
                    (
                        ReplyView::Promise(
                            seq![claim_view(p), finalize_view(pre_claim_balance, caller, p.reinvest_to)],
                        ),
                        Some(PreferenceStatus::Active),
                    ),
                ),
                s,
            ),
        },
    }
}

/// The claim that collects the rewards of a preference's source.
pub open spec fn claim_view(p: PreferenceView) -> ActionView {
    match p.invested_in {
        ReinvestFromView::BurrowFarm { .. } => claim_from_burrow_view(),
        ReinvestFromView::RefBoostfarm { .. } => claim_by_seed_view(p.seed_id, p.smart_contract_name),
    }
}

/// The callback that splits what a claim brought in.
pub open spec fn finalize_view(pre_claim_balance: u128, caller: Seq<char>, reinvest_to: ReinvestToView) -> ActionView {
    ActionView::Callback {
        callback: CallbackView::FinalizeCompound { pre_claim_balance, caller, reinvest_to },
        gas_tgas: GAS_FINALIZE_COMPOUND_TGAS,
    }
}

/// How much the balance grew during a claim, or nothing where it shrank.
pub open spec fn claimed(post_claim_balance: u128, pre_claim_balance: u128) -> u128 {
    if post_claim_balance >= pre_claim_balance {
        (post_claim_balance - pre_claim_balance) as u128
    } else {
        0
    }
}

/// The caller's part of a claimed increase: five percent, rounded down.
pub open spec fn caller_share(increase: u128) -> int {
    increase * CALLER_SHARE_PERCENT / 100
}

/// The reinvested part of a claimed increase: ninety-five percent, rounded down.
pub open spec fn reinvest_share(increase: u128) -> int {
    increase * REINVEST_SHARE_PERCENT / 100
}

/// Wrapping a deposit into NEAR and moving it into Burrow as collateral.
pub open spec fn deposit_chain(amount: u128) -> Seq<ActionView> {
    seq![near_deposit_view(amount), wrap_collateral_view(amount)]
}

impl ProxyContract {
    /// Claims the Burrow farm rewards.
    pub fn claim_from_burrow(&mut self) -> (chain: Vec<Action>)
        ensures
            chain_view(chain@) == seq![claim_from_burrow_view()],
            *final(self) == *old(self),
    {
        let chain = vec![claim_from_burrow_call()];
        assert(chain_view(chain@) =~= seq![claim_from_burrow_view()]);
        chain
    }

    /// Claims the Ref boost-farm rewards of the seed `seed_id`.
    pub fn claim_all_rewards(&mut self, seed_id: String, token_id: String) -> (r: Result<Vec<Action>, Abort>)
        ensures
            outcome(r) == if seed_id@.len() == 0 {
                Err(invalid_input("seed_id cannot be empty"@))
            } else {
                Ok(seq![claim_by_seed_view(seed_id@, token_id@)])
            },
            *final(self) == *old(self),
    {
        if seed_id.as_str().is_empty() {
            return Err(Abort::Contract(ContractError::InvalidInput(String::from_str("seed_id cannot be empty"))));
        }
        let ghost (s, t) = (seed_id@, token_id@);
        let chain = vec![claim_by_seed_call(seed_id, token_id)];
        assert(chain_view(chain@) =~= seq![claim_by_seed_view(s, t)]);
        Ok(chain)
    }

    /// Wraps `deposit_amount` yoctoNEAR and moves it into Burrow as collateral.
    pub fn deposit_into_burrow(&mut self, deposit_amount: u128) -> (r: Result<Vec<Action>, Abort>)
        ensures
            outcome(r) == if deposit_amount == 0 {
                Err(invalid_input("Deposit amount must be non-zero"@))
            } else {
                Ok(deposit_chain(deposit_amount))
            },
            *final(self) == *old(self),
    {
        if deposit_amount == 0 {
            return Err(Abort::Contract(ContractError::InvalidInput(String::from_str("Deposit amount must be non-zero"))));
        }
        let chain = vec![near_deposit_call(deposit_amount), wrap_collateral_call(deposit_amount)];
        assert(chain_view(chain@) =~= deposit_chain(deposit_amount));
        Ok(chain)
    }

    /// Settles a compounding run on what the main account answered for the
    /// owner's user record: `None` where no record came back, else the
    /// document that was read or the reader's error message. With an active
    /// preference it claims the rewards and calls back to split them;
    /// otherwise the run ends, the lock is released and, where a document was
    /// read, the time is noted.
    pub fn settle_user_record(
        &mut self,
        ctx: &CallContext,
        pre_claim_balance: u128,
        caller: String,
        document: Option<Result<JsonValue, String>>,
    ) -> (r: Result<CallbackAnswer, Abort>)
        ensures
            (answer_outcome(r), *final(self)) == settle(
                *old(self),
                ctx.block_timestamp,
                pre_claim_balance,
                caller@,
                document_view(document),
            ),
    {
        match document {
            None => {
                self.is_processing = false;
                Ok(CallbackAnswer { reply: Reply::Idle, preference: None })
            },
            Some(Err(e)) => Err(Abort::Contract(ContractError::SerializationFailed(e))),
            Some(Ok(data)) => {
                let (status, found) = read_preference(&data);
                match found {
                    None => {
                        self.is_processing = false;
                        self.last_compound_call = ctx.block_timestamp;
                        Ok(CallbackAnswer { reply: Reply::Idle, preference: Some(status) })
                    },
                    Some(p) => {
                        let ghost pv = p@;
                        let ghost c = caller@;
                        let mut claim = match &p.invested_in {
                            ReinvestFrom::BurrowFarm { .. } => self.claim_from_burrow(),
                            ReinvestFrom::RefBoostfarm { .. } => {
                                proof {
                                    lemma_active_preference_parses(data);
                                    lemma_ref_seed_nonempty(json_get(data, "preference"@)->0);
                                }
                                match self.claim_all_rewards(p.seed_id, p.smart_contract_name) {
                                    Ok(chain) => chain,
                                    Err(e) => return Err(e),
                                }
                            },
                        };
                        assert(chain_view(claim@) =~= seq![claim_view(pv)]);
                        let ghost before = claim@;
                        claim.push(
                            Action::Callback {
                                callback: Callback::FinalizeCompound {
                                    pre_claim_balance,
                                    caller,
                                    reinvest_to: p.reinvest_to,
                                },
                                gas_tgas: GAS_FINALIZE_COMPOUND_TGAS,
                            },
                        );
                        assert(claim@ == before.push(claim@.last()));
                        assert(chain_view(claim@) =~= chain_view(before).push(finalize_view(pre_claim_balance, c, pv.reinvest_to)));
                        assert(chain_view(claim@) =~= seq![claim_view(pv), finalize_view(pre_claim_balance, c, pv.reinvest_to)]);
                        Ok(CallbackAnswer { reply: Reply::Promise(claim), preference: Some(status) })
                    },
                }
            },
        }
    }

    /// Reads the owner's user record from what the main account answered,
    /// then settles the run on it (see `settle_user_record`).
    pub fn compound_callback(
        &mut self,
        ctx: &CallContext,
        pre_claim_balance: u128,
        caller: String,
        response: UserDataResponse,
    ) -> (r: Result<CallbackAnswer, Abort>)
        ensures
            (answer_outcome(r), *final(self)) == settle(
                *old(self),
                ctx.block_timestamp,
                pre_claim_balance,
                caller@,
                match response {
                    UserDataResponse::Received(bytes) => Some(parsed_json(bytes@)),
                    _ => None,
                },
            ),
    {
        let document = match response {
            UserDataResponse::Unexpected => None,
            UserDataResponse::Failed => None,
            UserDataResponse::Received(bytes) => Some(parse_json(bytes.as_slice())),
        };
        self.settle_user_record(ctx, pre_claim_balance, caller, document)
    }

    /// Splits what the claim brought in: at or above the threshold, ninety-five
    /// percent is reinvested into Burrow and five percent goes to the caller;
    /// below it the run ends and the lock is released. Only the contract and
    /// its owner may call it.
    pub fn finalize_compound(
        &mut self,
        ctx: &CallContext,
        pre_claim_balance: u128,
        caller: String,
        reinvest_to: ReinvestTo,
    ) -> (r: Result<Reply, Abort>)
        requires
            claimed(ctx.account_balance, pre_claim_balance) * REINVEST_SHARE_PERCENT <= u128::MAX,
        ensures
            reply_outcome(r) == if ctx.predecessor@ != ctx.current_account@ && ctx.predecessor@
                != old(self).owner@ {
                Err(AbortView::NotSelfOrOwner)
            } else if claimed(ctx.account_balance, pre_claim_balance) >= REINVEST_THRESHOLD {
                Ok(
                    ReplyView::Promise(
                        seq![
                            ActionView::Callback {
                                callback: CallbackView::Reinvest {
                                    contract_id: BURROW@,
                                    deposit_amount: reinvest_share(
                                        claimed(ctx.account_balance, pre_claim_balance),
                                    ) as u128,
                                    reinvest_to: reinvest_to@,
                                },
                                gas_tgas: GAS_REINVEST_TGAS,
                            },
                            ActionView::Transfer {
                                receiver: caller@,
                                amount: caller_share(claimed(ctx.account_balance, pre_claim_balance))
                                    as u128,
                            },
                        ],
                    ),
                )
            } else {
                Ok(ReplyView::Idle)
            },
            *final(self) == if reply_outcome(r) == Ok::<ReplyView, AbortView>(ReplyView::Idle) {
                released(*old(self))
            } else {
                *old(self)
            },
            (ctx.predecessor@ == ctx.current_account@ || ctx.predecessor@ == old(self).owner@)
                && ctx.account_balance <= pre_claim_balance ==> reply_outcome(r) == Ok::<ReplyView, AbortView>(ReplyView::Idle)
                && !final(self).is_processing,
            reply_outcome(r) matches Ok(ReplyView::Promise(c)) ==> {
                &&& c.len() == 2
                &&& ctx.account_balance >= pre_claim_balance + REINVEST_THRESHOLD
                &&& c[0] matches ActionView::Callback {
                    callback: CallbackView::Reinvest { contract_id, deposit_amount, .. },
                    ..
                }
                &&& contract_id == BURROW@
                &&& c[1] matches ActionView::Transfer { receiver, amount }
                &&& receiver == caller@
                &&& deposit_amount + amount <= ctx.account_balance - pre_claim_balance
            },
    {
        proof {
            lemma_claimed_is_the_growth(ctx.account_balance, pre_claim_balance);
            lemma_split_within_claim(claimed(ctx.account_balance, pre_claim_balance));
        }
        if ctx.predecessor != ctx.current_account && ctx.predecessor != self.owner {
            return Err(Abort::NotSelfOrOwner);
        }
        let increase = ctx.account_balance.saturating_sub(pre_claim_balance);
        if increase >= REINVEST_THRESHOLD {
            let caller_share_near = (increase * CALLER_SHARE_PERCENT) / 100;
            let remaining_balance = (increase * REINVEST_SHARE_PERCENT) / 100;
            let ghost c = caller@;
            let ghost to = reinvest_to@;
            let chain = vec![
                Action::Callback {
                    callback: Callback::Reinvest {
                        contract_id: String::from_str(BURROW),
                        deposit_amount: remaining_balance,
                        reinvest_to,
                    },
                    gas_tgas: GAS_REINVEST_TGAS,
                },
                Action::Transfer { receiver: caller, amount: caller_share_near },
            ];
            let reply = Reply::Promise(chain);
            assert(reply@ == ReplyView::Promise(
                seq![
                    ActionView::Callback {
                        callback: CallbackView::Reinvest {
                            contract_id: BURROW@,
                            deposit_amount: remaining_balance,
                            reinvest_to: to,
                        },
                        gas_tgas: GAS_REINVEST_TGAS,
                    },
                    ActionView::Transfer { receiver: c, amount: caller_share_near },
                ],
            )) by {
                assert(chain_view(chain@) =~= seq![
                    ActionView::Callback {
                        callback: CallbackView::Reinvest {
                            contract_id: BURROW@,
                            deposit_amount: remaining_balance,
                            reinvest_to: to,
                        },
                        gas_tgas: GAS_REINVEST_TGAS,
                    },
                    ActionView::Transfer { receiver: c, amount: caller_share_near },
                ]);
            }
            Ok(reply)
        } else {
            self.is_processing = false;
            Ok(Reply::Idle)
        }
    }

    /// Reinvests `deposit_amount` into Burrow, then reports how it went. At or
    /// below the minimum balance it does nothing and releases the lock.
    pub fn reinvest(
        &mut self,
        ctx: &CallContext,
        contract_id: String,
        deposit_amount: u128,
        reinvest_to: ReinvestTo,
    ) -> (r: Result<Vec<Action>, Abort>)
        ensures
            outcome(r) == if ctx.account_balance <= MIN_REINVEST_BALANCE {
                Ok(Seq::<ActionView>::empty())
            } else if deposit_amount == 0 {
                Err(invalid_input("Deposit amount must be non-zero"@))
            } else {
                Ok(
                    deposit_chain(deposit_amount).push(
                        ActionView::Callback {
                            callback: CallbackView::HandleReinvestResult {
                                contract_name: contract_id@,
                                action: "deposit_into_burrow"@,
                            },
                            gas_tgas: GAS_HANDLE_REINVEST_RESULT_TGAS,
                        },
                    ),
                )
            },
            *final(self) == if ctx.account_balance <= MIN_REINVEST_BALANCE {
                released(*old(self))
            } else {
                *old(self)
            },
    {
        if ctx.account_balance <= MIN_REINVEST_BALANCE {
            self.is_processing = false;
            let chain: Vec<Action> = Vec::new();
            assert(chain_view(chain@) =~= Seq::<ActionView>::empty());
            return Ok(chain);
        }
        match reinvest_to {
            ReinvestTo::BurrowMainVault { .. } => {
                let mut chain = match self.deposit_into_burrow(deposit_amount) {
                    Ok(chain) => chain,
                    Err(e) => return Err(e),
                };
                let ghost before = chain@;
                let ghost name = contract_id@;
                chain.push(
                    Action::Callback {
                        callback: Callback::HandleReinvestResult {
                            contract_name: contract_id,
                            action: String::from_str("deposit_into_burrow"),
                        },
                        gas_tgas: GAS_HANDLE_REINVEST_RESULT_TGAS,
                    },
                );
                assert(chain_view(chain@) =~= chain_view(before).push(
                    ActionView::Callback {
                        callback: CallbackView::HandleReinvestResult {
                            contract_name: name,
                            action: "deposit_into_burrow"@,
                        },
                        gas_tgas: GAS_HANDLE_REINVEST_RESULT_TGAS,
                    },
                ));
                Ok(chain)
            },
        }
    }
}

/// The refusal of a deposit other than one yoctoNEAR.
pub open spec fn not_one_yocto(ctx: CallContext) -> bool {
    ctx.attached_deposit != 1
}

/// What `handle_reinvest_result` reports.
pub open spec fn reinvest_report(result: ReinvestOutcome, contract_name: Seq<char>, action: Seq<char>) -> Seq<char> {
    match result {
        ReinvestOutcome::Succeeded => action + " succeeded for "@ + contract_name,
        ReinvestOutcome::Failed => "Failed to execute "@ + action + " on "@ + contract_name
            + ": Check account registration or balance"@,
        ReinvestOutcome::NoResult => "No promise result available"@,
    }
}

impl ProxyContract {
    /// Lends `deposit_amount` of the token `token_id` to Burrow as collateral.
    /// Owner only.
    pub fn deposit_into_burrow_pool(&mut self, ctx: &CallContext, token_id: String, deposit_amount: u128) -> (r: Result<Vec<Action>, Abort>)
        ensures
            outcome(r) == if ctx.predecessor@ != old(self).owner@ {
                Err(unauthorized(old(self).owner@))
            } else if deposit_amount == 0 {
                Err(invalid_input("deposit_amount must be non-zero"@))
            } else {
                Ok(seq![pool_collateral_view(token_id@, deposit_amount)])
            },
            outcome(r) matches Ok(c) ==> {
                &&& c.len() == 1
                &&& call_to(c[0], token_id@, "ft_transfer_call"@, 1, GAS_FT_TRANSFER_TGAS)
                &&& arg(c[0], "receiver_id"@) == Some(ArgView::Text(BURROW@))
                &&& arg(c[0], "amount"@) == Some(ArgView::Amount(deposit_amount))
                &&& arg(c[0], "msg"@) == Some(
                    ArgView::BurrowExecute(
                        seq![BurrowActionView::IncreaseCollateral { token_id: token_id@, max_amount: deposit_amount }],
                    ),
                )
            },
            *final(self) == *old(self),
    {
        proof {
            lemma_pool_collateral_raises_the_deposited_token(token_id@, deposit_amount);
        }
        match self.assert_owner(ctx) {
            Ok(_) => {},
            Err(e) => return Err(e),
        }
        if deposit_amount == 0 {
            return Err(Abort::Contract(ContractError::InvalidInput(String::from_str("deposit_amount must be non-zero"))));
        }
        let ghost t = token_id@;
        let chain = vec![pool_collateral_call(token_id, deposit_amount)];
        assert(chain_view(chain@) =~= seq![pool_collateral_view(t, deposit_amount)]);
        Ok(chain)
    }

    /// Stakes `lp_token_amount` LP tokens of the pool `pool_id` in the Ref
    /// boost farm. Owner only; needs a deposit.
    pub fn stake_lp_tokens(&mut self, ctx: &CallContext, pool_id: String, lp_token_amount: u128) -> (r: Result<Vec<Action>, Abort>)
        ensures
            outcome(r) == if ctx.predecessor@ != old(self).owner@ {
                Err(unauthorized(old(self).owner@))
            } else if pool_id@.len() == 0 {
                Err(invalid_input("pool_id cannot be empty"@))
            } else if lp_token_amount == 0 {
                Err(invalid_input("lp_token_amount must be non-zero"@))
            } else if ctx.attached_deposit == 0 {
                Err(missing_deposit())
            } else {
                Ok(seq![stake_view(pool_id@, lp_token_amount)])
            },
            *final(self) == *old(self),
    {
        match self.assert_owner(ctx) {
            Ok(_) => {},
            Err(e) => return Err(e),
        }
        if pool_id.as_str().is_empty() {
            return Err(Abort::Contract(ContractError::InvalidInput(String::from_str("pool_id cannot be empty"))));
        }
        if lp_token_amount == 0 {
            return Err(Abort::Contract(ContractError::InvalidInput(String::from_str("lp_token_amount must be non-zero"))));
        }
        if ctx.attached_deposit == 0 {
            return Err(Abort::Contract(ContractError::InsufficientDeposit(String::from_str("Attached deposit 0 NEAR is required (must be non-zero)"))));
        }
        let ghost p = pool_id@;
        let chain = vec![stake_call(pool_id, lp_token_amount)];
        assert(chain_view(chain@) =~= seq![stake_view(p, lp_token_amount)]);
        Ok(chain)
    }

    /// Withdraws `withdraw_amount` of the seed `seed_id` from the Ref boost
    /// farm, then withdraws the reward token `token_id`. Owner only.
    pub fn unstake_lp(&mut self, ctx: &CallContext, seed_id: String, withdraw_amount: u128, token_id: String) -> (r: Result<Vec<Action>, Abort>)
        ensures
            outcome(r) == if ctx.predecessor@ != old(self).owner@ {
                Err(unauthorized(old(self).owner@))
            } else if seed_id@.len() == 0 {
                Err(invalid_input("seed_id cannot be empty"@))
            } else if withdraw_amount == 0 {
                Err(invalid_input("withdraw_amount must be non-zero"@))
            } else {
                Ok(seq![unlock_and_withdraw_view(seed_id@, withdraw_amount), withdraw_reward_view(token_id@)])
            },
            outcome(r) matches Ok(c) ==> {
                &&& c.len() == 2
                &&& call_to(c[0], BOOSTFARM@, "unlock_and_withdraw_seed"@, 1, GAS_FT_TRANSFER_TGAS)
                &&& arg(c[0], "seed_id"@) == Some(ArgView::Text(seed_id@))
                &&& arg(c[0], "unlock_amount"@) == Some(ArgView::Text("0"@))
                &&& arg(c[0], "withdraw_amount"@) == Some(ArgView::Amount(withdraw_amount))
                &&& call_to(c[1], BOOSTFARM@, "withdraw_reward"@, 0, GAS_CLAIM_REWARD_TGAS)
                &&& arg(c[1], "token_id"@) == Some(ArgView::Text(token_id@))
            },
            *final(self) == *old(self),
    {
        proof {
            lemma_unstake_withdraws_the_requested_amount(seed_id@, withdraw_amount);
            lemma_withdraw_reward_names_the_token(token_id@);
        }
        match self.assert_owner(ctx) {
            Ok(_) => {},
            Err(e) => return Err(e),
        }
        if seed_id.as_str().is_empty() {
            return Err(Abort::Contract(ContractError::InvalidInput(String::from_str("seed_id cannot be empty"))));
        }
        if withdraw_amount == 0 {
            return Err(Abort::Contract(ContractError::InvalidInput(String::from_str("withdraw_amount must be non-zero"))));
        }
        let ghost (s, t) = (seed_id@, token_id@);
        let chain = vec![unlock_and_withdraw_call(seed_id, withdraw_amount), withdraw_reward_call(token_id)];
        assert(chain_view(chain@) =~= seq![unlock_and_withdraw_view(s, withdraw_amount), withdraw_reward_view(t)]);
        Ok(chain)
    }

    /// The line logged about a reinvestment.
    pub fn handle_reinvest_result(&self, result: ReinvestOutcome, contract_name: String, action: String) -> (line: String)
        ensures
            line@ == reinvest_report(result, contract_name@, action@),
    {
        match result {
            ReinvestOutcome::Succeeded => {
                let mut line = action.clone();
                line.append(" succeeded for ");
                line.append(contract_name.as_str());
                line
            },
            ReinvestOutcome::Failed => {
                let mut line = String::from_str("Failed to execute ");
                line.append(action.as_str());
                line.append(" on ");
                line.append(contract_name.as_str());
                line.append(": Check account registration or balance");
                line
            },
            ReinvestOutcome::NoResult => String::from_str("No promise result available"),
        }
    }

    /// Takes the token `token_id` out of Burrow through the oracle; for
    /// wrapped NEAR it then unwraps `withdraw_amount`. Owner only.
    pub fn withdraw_from_borrow_pool(&mut self, ctx: &CallContext, withdraw_amount: u128, token_id: String) -> (r: Result<Vec<Action>, Abort>)
        ensures
            outcome(r) == if ctx.predecessor@ != old(self).owner@ {
                Err(unauthorized(old(self).owner@))
            } else if withdraw_amount == 0 {
                Err(invalid_input("withdraw_amount must be non-zero"@))
            } else if token_id@ == WRAP@ {
                Ok(seq![oracle_withdraw_view(token_id@), near_withdraw_view(token_id@, withdraw_amount)])
            } else {
                Ok(seq![oracle_withdraw_view(token_id@)])
            },
            outcome(r) matches Ok(c) ==> {
                &&& c.len() >= 1
                &&& call_to(c[0], ORACLE@, "oracle_call"@, 1, GAS_ORACLE_CALL_TGAS)
                &&& arg(c[0], "receiver_id"@) == Some(ArgView::Text(BURROW@))
                &&& arg(c[0], "msg"@) == Some(
                    ArgView::BurrowExecute(
                        seq![
                            BurrowActionView::DecreaseCollateral { token_id: token_id@ },
                            BurrowActionView::Withdraw { token_id: token_id@ },
                        ],
                    ),
                )
            },
            *final(self) == *old(self),
    {
        proof {
            lemma_oracle_withdraw_targets_burrow(token_id@);
        }
        match self.assert_owner(ctx) {
            Ok(_) => {},
            Err(e) => return Err(e),
        }
        if withdraw_amount == 0 {
            return Err(Abort::Contract(ContractError::InvalidInput(String::from_str("withdraw_amount must be non-zero"))));
        }
        let ghost t = token_id@;
        let mut chain = vec![oracle_withdraw_call(token_id.clone())];
        assert(chain_view(chain@) =~= seq![oracle_withdraw_view(t)]);
        if token_id == String::from_str(WRAP) {
            chain.push(near_withdraw_call(token_id, withdraw_amount));
            assert(chain_view(chain@) =~= seq![oracle_withdraw_view(t), near_withdraw_view(t, withdraw_amount)]);
        }
        Ok(chain)
    }

    /// Sends `amount` of the token `token_id` to `receiver_id`. Owner only;
    /// needs exactly one yoctoNEAR attached.
    pub fn withdraw_token(&mut self, ctx: &CallContext, token_id: String, receiver_id: String, amount: u128) -> (r: Result<Vec<Action>, Abort>)
        ensures
            outcome(r) == if ctx.predecessor@ != old(self).owner@ {
                Err(unauthorized(old(self).owner@))
            } else if not_one_yocto(*ctx) {
                Err(AbortView::DepositNotOneYocto)
            } else if amount == 0 {
                Err(invalid_input("amount must be non-zero"@))
            } else {
                Ok(seq![ft_transfer_view(token_id@, receiver_id@, amount)])
            },
            outcome(r) matches Ok(c) ==> {
                &&& c.len() == 1
                &&& call_to(c[0], token_id@, "ft_transfer"@, 1, GAS_FT_TRANSFER_TGAS)
                &&& arg(c[0], "receiver_id"@) == Some(ArgView::Text(receiver_id@))
                &&& arg(c[0], "amount"@) == Some(ArgView::Amount(amount))
            },
            *final(self) == *old(self),
    {
        proof {
            lemma_ft_transfer_sends_to_the_receiver(token_id@, receiver_id@, amount);
        }
        match self.assert_owner(ctx) {
            Ok(_) => {},
            Err(e) => return Err(e),
        }
        if ctx.attached_deposit != 1 {
            return Err(Abort::DepositNotOneYocto);
        }
        if amount == 0 {
            return Err(Abort::Contract(ContractError::InvalidInput(String::from_str("amount must be non-zero"))));
        }
        let ghost (t, rc) = (token_id@, receiver_id@);
        let chain = vec![ft_transfer_call(token_id, receiver_id, amount)];
        assert(chain_view(chain@) =~= seq![ft_transfer_view(t, rc, amount)]);
        Ok(chain)
    }

    /// The contract's balance. Owner only.
    pub fn get_contract_balance(&self, ctx: &CallContext) -> (r: Result<u128, Abort>)
        ensures
            match r {
                Ok(balance) => ctx.predecessor@ == self.owner@ && balance == ctx.account_balance,
                Err(e) => ctx.predecessor@ != self.owner@ && e@ == unauthorized(self.owner@),
            },
    {
        match self.assert_owner(ctx) {
            Ok(_) => Ok(ctx.account_balance),
            Err(e) => Err(e),
        }
    }

    /// Sends `amount` yoctoNEAR to `beneficiary`, where the balance covers it.
    /// Owner only; needs exactly one yoctoNEAR attached.
    pub fn withdraw_amount(&mut self, ctx: &CallContext, beneficiary: String, amount: u128) -> (r: Result<Vec<Action>, Abort>)
        ensures
            outcome(r) == if ctx.predecessor@ != old(self).owner@ {
                Err(unauthorized(old(self).owner@))
            } else if not_one_yocto(*ctx) {
                Err(AbortView::DepositNotOneYocto)
            } else if amount == 0 {
                Err(invalid_input("amount must be non-zero"@))
            } else if ctx.account_balance < amount {
                Err(
                    AbortView::Contract(
                        ContractErrorView::InsufficientBalance {
                            available: ctx.account_balance,
                            requested: amount,
                        },
                    ),
                )
            } else {
                Ok(seq![ActionView::Transfer { receiver: beneficiary@, amount }])
            },
            *final(self) == *old(self),
    {
        match self.assert_owner(ctx) {
            Ok(_) => {},
            Err(e) => return Err(e),
        }
        if ctx.attached_deposit != 1 {
            return Err(Abort::DepositNotOneYocto);
        }
        if amount == 0 {
            return Err(Abort::Contract(ContractError::InvalidInput(String::from_str("amount must be non-zero"))));
        }
        if ctx.account_balance < amount {
            return Err(Abort::Contract(ContractError::InsufficientBalance { available: ctx.account_balance, requested: amount }));
        }
        let ghost b = beneficiary@;
        let chain = vec![Action::Transfer { receiver: beneficiary, amount }];
        assert(chain_view(chain@) =~= seq![ActionView::Transfer { receiver: b, amount }]);
        Ok(chain)
    }

    /// Asks the LP-token contract `receiver_id` to send `amount` of the LP
    /// token `token_id` to this contract. Owner only; needs a deposit.
    pub fn transfer_lp_token(&mut self, ctx: &CallContext, receiver_id: String, token_id: String, amount: u128) -> (r: Result<Vec<Action>, Abort>)
        ensures
            outcome(r) == if ctx.predecessor@ != old(self).owner@ {
                Err(unauthorized(old(self).owner@))
            } else if token_id@.len() == 0 {
                Err(invalid_input("Token ID cannot be empty"@))
            } else if amount == 0 {
                Err(invalid_input("Amount must be non-zero"@))
            } else if ctx.attached_deposit == 0 {
                Err(missing_deposit())
            } else {
                Ok(seq![mft_transfer_view(receiver_id@, ctx.current_account@, token_id@, amount)])
            },
            *final(self) == *old(self),
    {
        match self.assert_owner(ctx) {
            Ok(_) => {},
            Err(e) => return Err(e),
        }
        if token_id.as_str().is_empty() {
            return Err(Abort::Contract(ContractError::InvalidInput(String::from_str("Token ID cannot be empty"))));
        }
        if amount == 0 {
            return Err(Abort::Contract(ContractError::InvalidInput(String::from_str("Amount must be non-zero"))));
        }
        if ctx.attached_deposit == 0 {
            return Err(Abort::Contract(ContractError::InsufficientDeposit(String::from_str("Attached deposit 0 NEAR is required (must be non-zero)"))));
        }
        let ghost (rc, t) = (receiver_id@, token_id@);
        let chain = vec![mft_transfer_call(receiver_id, ctx.current_account.clone(), token_id, amount)];
        assert(chain_view(chain@) =~= seq![mft_transfer_view(rc, ctx.current_account@, t, amount)]);
        Ok(chain)
    }
}

} // verus!
