use proxy_contract::action::{Action, Arg, BurrowAction, Callback, Reply};
use proxy_contract::contract::{CallbackAnswer, CallContext, ProxyContract, ReinvestOutcome, UserDataResponse};
use proxy_contract::preference::PreferenceStatus;
use proxy_contract::error::{Abort, ContractError};
use proxy_contract::json::JsonValue;
use proxy_contract::preference::ReinvestTo;

const ONE_NEAR: u128 = 1_000_000_000_000_000_000_000_000;

fn ctx(predecessor: &str) -> CallContext {
    CallContext {
        predecessor: predecessor.to_string(),
        current_account: "alice".to_string(),
        attached_deposit: 0,
        account_balance: 100 * ONE_NEAR,
        block_timestamp: 0,
    }
}

fn contract_of(owner: &str) -> ProxyContract {
    match ProxyContract::new(owner.to_string(), None) {
        Ok(c) => c,
        Err(_) => panic!("a fresh contract is set up"),
    }
}

fn err_text<T>(r: Result<T, Abort>) -> String {
    match r {
        Ok(_) => panic!("the call was expected to be refused"),
        Err(e) => e.message(),
    }
}

fn expect_refusal<T>(r: Result<T, Abort>, expected: &str) {
    let text = err_text(r);
    assert!(text.contains(expected), "message {:?} lacks {:?}", text, expected);
}

fn expect_call(a: &Action) -> &proxy_contract::action::FunctionCall {
    match a {
        Action::Call(c) => c,
        _ => panic!("expected a function call"),
    }
}

fn arg<'a>(args: &'a [(String, Arg)], key: &str) -> &'a Arg {
    &args.iter().find(|(k, _)| k == key).expect("member present").1
}

fn text_of(a: &Arg) -> &str {
    match a {
        Arg::Text(s) => s,
        _ => panic!("expected a string member"),
    }
}

fn amount_of(a: &Arg) -> u128 {
    match a {
        Arg::Amount(n) => *n,
        _ => panic!("expected an amount member"),
    }
}

fn s(x: &str) -> JsonValue {
    JsonValue::Str(x.to_string())
}

fn obj(entries: Vec<(&str, JsonValue)>) -> JsonValue {
    JsonValue::Object(entries.into_iter().map(|(k, v)| (k.to_string(), v)).collect())
}

fn burrow_preference(active: bool) -> JsonValue {
    obj(vec![
        ("smart_contract_name", s("contract.main.burrow.near")),
        ("is_active", JsonValue::Bool(active)),
        ("invested_in", obj(vec![("Burrow", obj(vec![("seed_id", s("seed-a")), ("token_id", s("wrap.near"))]))])),
        ("reinvest_to", obj(vec![("Burrow", obj(vec![("seed_id", s("seed-b")), ("token_id", s("usdt.near"))]))])),
    ])
}

fn ref_preference(seed: &str) -> JsonValue {
    obj(vec![
        ("smart_contract_name", s("boostfarm.ref-labs.near")),
        ("is_active", JsonValue::Bool(true)),
        ("invested_in", obj(vec![("RefBoostfarm", s(seed))])),
        ("reinvest_to", obj(vec![("Burrow", obj(vec![("seed_id", s("seed-b")), ("token_id", s("usdt.near"))]))])),
    ])
}

#[test]
fn test_new() {
    let contract = contract_of("alice");
    assert_eq!(contract.get_owner(), "alice");
}

#[test]
fn test_assert_owner_success() {
    let contract = contract_of("alice");
    assert!(contract.assert_owner(&ctx("alice")).is_ok());
}

#[test]
fn test_assert_owner_main_id_success() {
    let contract = contract_of("compoundx.near");
    assert!(contract.assert_owner(&ctx("compoundx.near")).is_ok());
}

#[test]
fn test_assert_owner_failure() {
    let contract = contract_of("alice");
    expect_refusal(contract.assert_owner(&ctx("bob")), "Unauthorized");
}

#[test]
fn test_stake_lp_tokens_empty_pool_id() {
    let mut contract = contract_of("alice");
    let c = CallContext { attached_deposit: 1, ..ctx("alice") };
    expect_refusal(contract.stake_lp_tokens(&c, String::new(), 1_000), "Invalid input: pool_id cannot be empty");
}

#[test]
fn test_stake_lp_tokens_zero_amount() {
    let mut contract = contract_of("alice");
    let c = CallContext { attached_deposit: 1, ..ctx("alice") };
    expect_refusal(
        contract.stake_lp_tokens(&c, "pool1".to_string(), 0),
        "Invalid input: lp_token_amount must be non-zero",
    );
}

#[test]
fn test_deposit_into_burrow_zero_amount() {
    let mut contract = contract_of("alice");
    expect_refusal(contract.deposit_into_burrow(0), "Invalid input: Deposit amount must be non-zero");
}

#[test]
fn test_deposit_into_burrow_pool_zero_amount() {
    let mut contract = contract_of("alice");
    expect_refusal(
        contract.deposit_into_burrow_pool(&ctx("alice"), "bob".to_string(), 0),
        "Invalid input: deposit_amount must be non-zero",
    );
}

#[test]
fn test_withdraw_from_borrow_pool_zero_amount() {
    let mut contract = contract_of("alice");
    expect_refusal(
        contract.withdraw_from_borrow_pool(&ctx("alice"), 0, "usdc.example.testnet".to_string()),
        "Invalid input: withdraw_amount must be non-zero",
    );
}

#[test]
fn test_unstake_lp_empty_seed_id() {
    let mut contract = contract_of("alice");
    expect_refusal(
        contract.unstake_lp(&ctx("alice"), String::new(), 1_000, "bob".to_string()),
        "Invalid input: seed_id cannot be empty",
    );
}

#[test]
fn test_unstake_lp_zero_amount() {
    let mut contract = contract_of("alice");
    expect_refusal(
        contract.unstake_lp(&ctx("alice"), "seed1".to_string(), 0, "bob".to_string()),
        "Invalid input: withdraw_amount must be non-zero",
    );
}

#[test]
fn test_claim_all_rewards_empty_seed_id() {
    let mut contract = contract_of("alice");
    expect_refusal(
        contract.claim_all_rewards(String::new(), "bob".to_string()),
        "Invalid input: seed_id cannot be empty",
    );
}

#[test]
fn test_withdraw_token_invalid_deposit() {
    let mut contract = contract_of("alice");
    let c = CallContext { attached_deposit: 0, ..ctx("alice") };
    expect_refusal(
        contract.withdraw_token(&c, "bob".to_string(), "charlie".to_string(), 1_000),
        "Requires exactly 1 yoctoNEAR attached deposit",
    );
}

#[test]
fn test_withdraw_token_zero_amount() {
    let mut contract = contract_of("alice");
    let c = CallContext { attached_deposit: 1, ..ctx("alice") };
    expect_refusal(
        contract.withdraw_token(&c, "bob".to_string(), "charlie".to_string(), 0),
        "Invalid input: amount must be non-zero",
    );
}

#[test]
fn test_get_contract_balance() {
    let contract = contract_of("alice");
    let c = CallContext { account_balance: 5 * ONE_NEAR, ..ctx("alice") };
    assert_eq!(contract.get_contract_balance(&c).ok(), Some(5 * ONE_NEAR));
}

#[test]
fn test_get_contract_balance_unauthorized() {
    let contract = contract_of("alice");
    expect_refusal(contract.get_contract_balance(&ctx("bob")), "Unauthorized");
}

#[test]
fn test_withdraw_amount_invalid_deposit() {
    let mut contract = contract_of("alice");
    let c = CallContext { attached_deposit: 0, account_balance: 5 * ONE_NEAR, ..ctx("alice") };
    expect_refusal(
        contract.withdraw_amount(&c, "bob".to_string(), 1_000_000_000_000_000_000_000_000),
        "Requires exactly 1 yoctoNEAR attached deposit",
    );
}

#[test]
fn test_withdraw_amount_insufficient_balance() {
    let mut contract = contract_of("alice");
    let c = CallContext { attached_deposit: 1, account_balance: ONE_NEAR, ..ctx("alice") };
    expect_refusal(
        contract.withdraw_amount(&c, "bob".to_string(), 2_000_000_000_000_000_000_000_000),
        "Insufficient balance",
    );
}

#[test]
fn test_withdraw_amount_success() {
    let mut contract = contract_of("alice");
    let c = CallContext { attached_deposit: 1, account_balance: 5 * ONE_NEAR, ..ctx("alice") };
    let chain = contract
        .withdraw_amount(&c, "bob".to_string(), 1_000_000_000_000_000_000_000_000)
        .ok()
        .expect("the transfer is scheduled");
    assert_eq!(chain.len(), 1);
    match &chain[0] {
        Action::Transfer { receiver, amount } => {
            assert_eq!(receiver, "bob");
            assert_eq!(*amount, 1_000_000_000_000_000_000_000_000);
        },
        _ => panic!("expected a transfer"),
    }
}

#[test]
fn test_compound_too_soon() {
    let mut contract = contract_of("alice");
    let c = CallContext { block_timestamp: 0, ..ctx("alice") };
    expect_refusal(contract.compound(&c), "Compound can only be called once every hour");
}

#[test]
fn insufficient_balance_message_writes_both_amounts() {
    let e = ContractError::InsufficientBalance { available: 1_000, requested: 20_507 };
    assert_eq!(e.message(), "Insufficient balance: available 1000, requested 20507");
    let zero = ContractError::InsufficientBalance { available: 0, requested: u128::MAX };
    assert_eq!(
        zero.message(),
        "Insufficient balance: available 0, requested 340282366920938463463374607431768211455"
    );
}

#[test]
fn every_error_has_its_message() {
    assert_eq!(ContractError::Unauthorized("x".to_string()).message(), "Unauthorized: x");
    assert_eq!(ContractError::SerializationFailed("eof".to_string()).message(), "Serialization failed: eof");
    assert_eq!(ContractError::InvalidAccountId("A".to_string()).message(), "Invalid account ID: A");
    assert_eq!(ContractError::AlreadyInitialized.message(), "Contract has already been initialized");
    assert_eq!(ContractError::InvalidInput("bad".to_string()).message(), "Invalid input: bad");
    assert_eq!(ContractError::InsufficientDeposit("need more".to_string()).message(), "need more");
    assert_eq!(Abort::Processing.message(), "Contract is processing another transaction");
    assert_eq!(
        Abort::NotSelfOrOwner.message(),
        "Callback can only be called by the contract itself or the owner"
    );
}

#[test]
fn new_refuses_when_an_owner_is_stored() {
    let r = ProxyContract::new("alice".to_string(), Some("bob".to_string()));
    assert_eq!(err_text(r), "Contract has already been initialized");
}

#[test]
fn unauthorized_message_names_the_owner() {
    let contract = contract_of("alice");
    assert_eq!(
        err_text(contract.assert_owner(&ctx("bob"))),
        "Unauthorized: Only owner (alice)  can call this function"
    );
}

#[test]
fn owner_only_methods_refuse_strangers_and_keep_state() {
    let mut contract = contract_of("alice");
    let c = CallContext { attached_deposit: 1, ..ctx("mallory") };
    expect_refusal(contract.deposit_into_burrow_pool(&c, "usdt.near".to_string(), 5), "Unauthorized");
    expect_refusal(contract.stake_lp_tokens(&c, "pool1".to_string(), 5), "Unauthorized");
    expect_refusal(contract.unstake_lp(&c, "seed".to_string(), 5, "bob".to_string()), "Unauthorized");
    expect_refusal(contract.withdraw_from_borrow_pool(&c, 5, "wrap.near".to_string()), "Unauthorized");
    expect_refusal(contract.withdraw_token(&c, "t".to_string(), "r".to_string(), 5), "Unauthorized");
    expect_refusal(contract.withdraw_amount(&c, "bob".to_string(), 5), "Unauthorized");
    expect_refusal(contract.transfer_lp_token(&c, "v2.ref-finance.near".to_string(), ":1".to_string(), 5), "Unauthorized");
    assert_eq!(contract.owner, "alice");
    assert!(!contract.is_processing);
}

#[test]
fn stake_needs_a_deposit() {
    let mut contract = contract_of("alice");
    expect_refusal(
        contract.stake_lp_tokens(&ctx("alice"), "pool1".to_string(), 5),
        "Attached deposit 0 NEAR is required (must be non-zero)",
    );
}

#[test]
fn stake_calls_ref_finance() {
    let mut contract = contract_of("alice");
    let c = CallContext { attached_deposit: 1, ..ctx("alice") };
    let chain = contract.stake_lp_tokens(&c, ":42".to_string(), 7).ok().expect("scheduled");
    let call = expect_call(&chain[0]);
    assert_eq!(call.receiver, "v2.ref-finance.near");
    assert_eq!(call.method, "mft_transfer_call");
    assert_eq!(text_of(arg(&call.args, "receiver_id")), "boostfarm.ref-labs.near");
    assert_eq!(text_of(arg(&call.args, "token_id")), ":42");
    assert_eq!(amount_of(arg(&call.args, "amount")), 7);
    assert_eq!(text_of(arg(&call.args, "msg")), "\"Free\"");
    assert_eq!((call.deposit, call.gas_tgas), (1, 50));
}

#[test]
fn withdraw_from_borrow_pool_unwraps_only_wrapped_near() {
    let mut contract = contract_of("alice");
    let wrapped = contract.withdraw_from_borrow_pool(&ctx("alice"), 9, "wrap.near".to_string()).ok().expect("scheduled");
    assert_eq!(wrapped.len(), 2);
    let oracle = expect_call(&wrapped[0]);
    assert_eq!((oracle.receiver.as_str(), oracle.method.as_str()), ("priceoracle.near", "oracle_call"));
    match arg(&oracle.args, "msg") {
        Arg::BurrowExecute(steps) => {
            assert_eq!(steps.len(), 2);
            assert!(matches!(&steps[0], BurrowAction::DecreaseCollateral { token_id } if token_id == "wrap.near"));
            assert!(matches!(&steps[1], BurrowAction::Withdraw { token_id } if token_id == "wrap.near"));
        },
        _ => panic!("expected a Burrow message"),
    }
    let unwrap = expect_call(&wrapped[1]);
    assert_eq!((unwrap.receiver.as_str(), unwrap.method.as_str()), ("wrap.near", "near_withdraw"));
    assert_eq!(amount_of(arg(&unwrap.args, "amount")), 9);
    let other = contract.withdraw_from_borrow_pool(&ctx("alice"), 9, "usdt.near".to_string()).ok().expect("scheduled");
    assert_eq!(other.len(), 1);
}

#[test]
fn deposit_into_burrow_wraps_then_lends() {
    let mut contract = contract_of("alice");
    let chain = contract.deposit_into_burrow(300).ok().expect("scheduled");
    assert_eq!(chain.len(), 2);
    let wrap = expect_call(&chain[0]);
    assert_eq!((wrap.receiver.as_str(), wrap.method.as_str(), wrap.deposit, wrap.gas_tgas), ("wrap.near", "near_deposit", 300, 10));
    let lend = expect_call(&chain[1]);
    assert_eq!((lend.receiver.as_str(), lend.method.as_str(), lend.deposit), ("wrap.near", "ft_transfer_call", 1));
    assert_eq!(text_of(arg(&lend.args, "receiver_id")), "contract.main.burrow.near");
    match arg(&lend.args, "msg") {
        Arg::BurrowExecute(steps) => assert!(matches!(&steps[..],
            [BurrowAction::IncreaseCollateral { token_id, max_amount: 300 }] if token_id == "wrap.near")),
        _ => panic!("expected a Burrow message"),
    }
}

#[test]
fn transfer_lp_token_sends_to_this_contract() {
    let mut contract = contract_of("alice");
    let c = CallContext { attached_deposit: 1, current_account: "proxy.near".to_string(), ..ctx("alice") };
    let chain = contract.transfer_lp_token(&c, "v2.ref-finance.near".to_string(), ":3".to_string(), 11).ok().expect("scheduled");
    let call = expect_call(&chain[0]);
    assert_eq!((call.receiver.as_str(), call.method.as_str(), call.gas_tgas), ("v2.ref-finance.near", "mft_transfer", 85));
    assert_eq!(text_of(arg(&call.args, "receiver_id")), "proxy.near");
    assert!(matches!(arg(&call.args, "memo"), Arg::Null));
    expect_refusal(contract.transfer_lp_token(&c, "x".to_string(), String::new(), 11), "Invalid input: Token ID cannot be empty");
    expect_refusal(contract.transfer_lp_token(&c, "x".to_string(), ":3".to_string(), 0), "Invalid input: Amount must be non-zero");
}

#[test]
fn compound_after_an_hour_locks_and_asks_for_the_preference() {
    let mut contract = contract_of("alice");
    let c = CallContext { block_timestamp: 3_600_000_000_000, account_balance: 77, ..ctx("bob") };
    let chain = contract.compound(&c).ok().expect("started");
    assert!(contract.is_processing);
    let get_user = expect_call(&chain[0]);
    assert_eq!((get_user.receiver.as_str(), get_user.method.as_str(), get_user.gas_tgas), ("compoundx.near", "get_user", 2));
    assert_eq!(text_of(arg(&get_user.args, "wallet_id")), "alice");
    match &chain[1] {
        Action::Callback { callback: Callback::CompoundCallback { pre_claim_balance, caller }, gas_tgas } => {
            assert_eq!((*pre_claim_balance, caller.as_str(), *gas_tgas), (77, "bob", 285));
        },
        _ => panic!("expected the compounding callback"),
    }
    let later = CallContext { block_timestamp: 99_000_000_000_000, ..ctx("bob") };
    expect_refusal(contract.compound(&later), "Contract is processing another transaction");
}

#[test]
fn callback_without_preference_notes_the_time_and_unlocks() {
    let mut contract = contract_of("alice");
    contract.is_processing = true;
    let c = CallContext { block_timestamp: 5_000, ..ctx("alice") };
    let data = obj(vec![("preference", JsonValue::Null)]);
    let r = contract.settle_user_record(&c, 1, "bob".to_string(), Some(Ok(data)));
    assert!(matches!(r, Ok(CallbackAnswer { reply: Reply::Idle, .. })));
    assert!(!contract.is_processing);
    assert_eq!(contract.last_compound_call, 5_000);
    let soon = CallContext { block_timestamp: 6_000, ..ctx("alice") };
    expect_refusal(contract.compound(&soon), "Compound can only be called once every hour");
}

#[test]
fn callback_failures_unlock_or_refuse() {
    let mut contract = contract_of("alice");
    contract.is_processing = true;
    let r = contract.compound_callback(&ctx("alice"), 1, "bob".to_string(), UserDataResponse::Failed);
    assert!(matches!(r, Ok(CallbackAnswer { reply: Reply::Idle, .. })));
    assert!(!contract.is_processing);
    assert_eq!(contract.last_compound_call, 0);
    contract.is_processing = true;
    let r = contract.compound_callback(&ctx("alice"), 1, "bob".to_string(), UserDataResponse::Unexpected);
    assert!(matches!(r, Ok(CallbackAnswer { reply: Reply::Idle, .. })));
    assert!(!contract.is_processing);
    contract.is_processing = true;
    let r = contract.settle_user_record(&ctx("alice"), 1, "bob".to_string(), Some(Err("EOF".to_string())));
    assert_eq!(err_text(r), "Serialization failed: EOF");
    assert!(contract.is_processing);
}

#[test]
fn callback_with_burrow_preference_claims_then_finalizes() {
    let mut contract = contract_of("alice");
    contract.is_processing = true;
    let data = obj(vec![("preference", burrow_preference(true))]);
    let r = contract.settle_user_record(&ctx("alice"), 40, "bob".to_string(), Some(Ok(data)));
    let chain = match r {
        Ok(CallbackAnswer { reply: Reply::Promise(chain), preference }) => {
            assert!(matches!(preference, Some(PreferenceStatus::Active)));
            chain
        },
        _ => panic!("expected a promise"),
    };
    assert_eq!(chain.len(), 2);
    let claim = expect_call(&chain[0]);
    assert_eq!((claim.receiver.as_str(), claim.method.as_str()), ("contract.main.burrow.near", "account_farm_claim_all"));
    match &chain[1] {
        Action::Callback { callback: Callback::FinalizeCompound { pre_claim_balance, caller, reinvest_to }, gas_tgas } => {
            assert_eq!((*pre_claim_balance, caller.as_str(), *gas_tgas), (40, "bob", 180));
            let ReinvestTo::BurrowMainVault { seed_id, token_id } = reinvest_to;
            assert_eq!((seed_id.as_str(), token_id.as_str()), ("seed-b", "usdt.near"));
        },
        _ => panic!("expected the finalizing callback"),
    }
    assert!(contract.is_processing);
}

#[test]
fn callback_with_ref_preference_claims_by_seed() {
    let mut contract = contract_of("alice");
    contract.is_processing = true;
    let data = obj(vec![("preference", ref_preference("17"))]);
    let r = contract.settle_user_record(&ctx("alice"), 40, "bob".to_string(), Some(Ok(data)));
    let chain = match r {
        Ok(CallbackAnswer { reply: Reply::Promise(chain), preference }) => {
            assert!(matches!(preference, Some(PreferenceStatus::Active)));
            chain
        },
        _ => panic!("expected a promise"),
    };
    let claim = expect_call(&chain[0]);
    assert_eq!((claim.receiver.as_str(), claim.method.as_str(), claim.gas_tgas), ("boostfarm.ref-labs.near", "claim_reward_by_seed", 6));
    assert_eq!(text_of(arg(&claim.args, "seed_id")), "17");
    assert_eq!(text_of(arg(&claim.args, "token_id")), "boostfarm.ref-labs.near");
}

#[test]
fn inactive_or_malformed_preferences_end_the_run() {
    for pref in [burrow_preference(false), ref_preference("pool"), ref_preference("-3")] {
        let mut contract = contract_of("alice");
        contract.is_processing = true;
        let c = CallContext { block_timestamp: 9, ..ctx("alice") };
        let data = obj(vec![("preference", pref)]);
        let r = contract.settle_user_record(&c, 1, "bob".to_string(), Some(Ok(data)));
        assert!(matches!(r, Ok(CallbackAnswer { reply: Reply::Idle, .. })));
        assert!(!contract.is_processing);
        assert_eq!(contract.last_compound_call, 9);
    }
}

#[test]
fn finalize_splits_five_and_ninety_five_percent() {
    let mut contract = contract_of("alice");
    contract.is_processing = true;
    let c = CallContext { account_balance: 1_000 + 20_000_000_000_099, ..ctx("alice") };
    let r = contract.finalize_compound(&c, 1_000, "bob".to_string(), ReinvestTo::BurrowMainVault { seed_id: "s".to_string(), token_id: "t".to_string() });
    let chain = match r {
        Ok(Reply::Promise(chain)) => chain,
        _ => panic!("expected a promise"),
    };
    match &chain[0] {
        Action::Callback { callback: Callback::Reinvest { contract_id, deposit_amount, .. }, gas_tgas } => {
            assert_eq!(contract_id, "contract.main.burrow.near");
            assert_eq!(*deposit_amount, 19_000_000_000_094);
            assert_eq!(*gas_tgas, 140);
        },
        _ => panic!("expected the reinvesting callback"),
    }
    match &chain[1] {
        Action::Transfer { receiver, amount } => {
            assert_eq!(receiver, "bob");
            assert_eq!(*amount, 1_000_000_000_004);
        },
        _ => panic!("expected the caller's share"),
    }
    assert!(contract.is_processing);
}

#[test]
fn finalize_below_threshold_unlocks() {
    let mut contract = contract_of("alice");
    contract.is_processing = true;
    let c = CallContext { account_balance: 500, ..ctx("alice") };
    let to = ReinvestTo::BurrowMainVault { seed_id: "s".to_string(), token_id: "t".to_string() };
    let r = contract.finalize_compound(&c, 900, "bob".to_string(), to);
    assert!(matches!(r, Ok(Reply::Idle)));
    assert!(!contract.is_processing);
}

#[test]
fn finalize_refuses_strangers() {
    let mut contract = contract_of("alice");
    let to = ReinvestTo::BurrowMainVault { seed_id: "s".to_string(), token_id: "t".to_string() };
    let r = contract.finalize_compound(&ctx("mallory"), 0, "bob".to_string(), to);
    assert_eq!(err_text(r), "Callback can only be called by the contract itself or the owner");
}

#[test]
fn reinvest_needs_more_than_two_near() {
    let mut contract = contract_of("alice");
    contract.is_processing = true;
    let to = || ReinvestTo::BurrowMainVault { seed_id: "s".to_string(), token_id: "t".to_string() };
    let poor = CallContext { account_balance: 2 * ONE_NEAR, ..ctx("alice") };
    let chain = contract.reinvest(&poor, "contract.main.burrow.near".to_string(), 10, to()).ok().expect("answered");
    assert!(chain.is_empty());
    assert!(!contract.is_processing);
    contract.is_processing = true;
    let rich = CallContext { account_balance: 2 * ONE_NEAR + 1, ..ctx("alice") };
    let chain = contract.reinvest(&rich, "contract.main.burrow.near".to_string(), 10, to()).ok().expect("scheduled");
    assert_eq!(chain.len(), 3);
    match &chain[2] {
        Action::Callback { callback: Callback::HandleReinvestResult { contract_name, action }, gas_tgas } => {
            assert_eq!((contract_name.as_str(), action.as_str(), *gas_tgas), ("contract.main.burrow.near", "deposit_into_burrow", 3));
        },
        _ => panic!("expected the reporting callback"),
    }
    assert!(contract.is_processing);
    expect_refusal(contract.reinvest(&rich, "x".to_string(), 0, to()), "Invalid input: Deposit amount must be non-zero");
}

#[test]
fn reinvest_result_lines() {
    let contract = contract_of("alice");
    assert_eq!(
        contract.handle_reinvest_result(ReinvestOutcome::Succeeded, "burrow".to_string(), "deposit_into_burrow".to_string()),
        "deposit_into_burrow succeeded for burrow"
    );
    assert_eq!(
        contract.handle_reinvest_result(ReinvestOutcome::Failed, "burrow".to_string(), "deposit".to_string()),
        "Failed to execute deposit on burrow: Check account registration or balance"
    );
    assert_eq!(
        contract.handle_reinvest_result(ReinvestOutcome::NoResult, "b".to_string(), "d".to_string()),
        "No promise result available"
    );
}

#[test]
fn callback_reads_the_record_from_bytes() {
    let mut contract = contract_of("alice");
    contract.is_processing = true;
    let bytes = br#"{"preference": {"smart_contract_name": "boostfarm.ref-labs.near", "is_active": true,
        "invested_in": {"RefBoostfarm": "17"},
        "reinvest_to": {"Burrow": {"seed_id": "seed-b", "token_id": "usdt.near"}}}}"#.to_vec();
    let r = contract.compound_callback(&ctx("alice"), 40, "bob".to_string(), UserDataResponse::Received(bytes));
    let chain = match r {
        Ok(CallbackAnswer { reply: Reply::Promise(chain), preference: Some(PreferenceStatus::Active) }) => chain,
        _ => panic!("expected a promise"),
    };
    let claim = expect_call(&chain[0]);
    assert_eq!((claim.method.as_str(), text_of(arg(&claim.args, "seed_id"))), ("claim_reward_by_seed", "17"));
    assert!(contract.is_processing);
}

#[test]
fn callback_reports_what_the_record_said() {
    let cases: Vec<(&[u8], PreferenceStatus)> = vec![
        (br#"{"preference": null}"#, PreferenceStatus::Absent),
        (br#"{"other": 1}"#, PreferenceStatus::Absent),
        (br#"[1, 2.5, "x"]"#, PreferenceStatus::Absent),
        (br#"{"preference": {"smart_contract_name": "ab"}}"#, PreferenceStatus::Unparsable),
        (br#"{"preference": {"smart_contract_name": "ab", "is_active": false,
            "invested_in": {"RefBoostfarm": "3"}, "reinvest_to": {"Burrow": {"seed_id": "s", "token_id": "ab"}}}}"#,
            PreferenceStatus::Inactive),
    ];
    for (bytes, expected) in cases {
        let mut contract = contract_of("alice");
        contract.is_processing = true;
        let c = CallContext { block_timestamp: 77, ..ctx("alice") };
        let r = contract.compound_callback(&c, 1, "bob".to_string(), UserDataResponse::Received(bytes.to_vec()));
        match r {
            Ok(CallbackAnswer { reply: Reply::Idle, preference: Some(status) }) => {
                assert_eq!(std::mem::discriminant(&status), std::mem::discriminant(&expected));
            },
            _ => panic!("expected the run to end"),
        }
        assert!(!contract.is_processing);
        assert_eq!(contract.last_compound_call, 77);
    }
}

#[test]
fn callback_refuses_bytes_that_are_not_json() {
    let mut contract = contract_of("alice");
    contract.is_processing = true;
    let r = contract.compound_callback(&ctx("alice"), 1, "bob".to_string(), UserDataResponse::Received(b"{oops".to_vec()));
    let text = err_text(r);
    assert!(text.starts_with("Serialization failed: "), "{}", text);
    assert!(text.len() > "Serialization failed: ".len());
    assert!(contract.is_processing);
}
