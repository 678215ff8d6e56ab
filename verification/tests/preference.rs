use proxy_contract::json::JsonValue;
use proxy_contract::preference::{parse_preference, read_preference, PreferenceStatus, ReinvestFrom, ReinvestTo};

fn s(x: &str) -> JsonValue {
    JsonValue::Str(x.to_string())
}

fn obj(entries: Vec<(&str, JsonValue)>) -> JsonValue {
    JsonValue::Object(entries.into_iter().map(|(k, v)| (k.to_string(), v)).collect())
}

fn target() -> JsonValue {
    obj(vec![("Burrow", obj(vec![("seed_id", s("seed-b")), ("token_id", s("usdt.near"))]))])
}

fn pref(name: &str, invested_in: JsonValue) -> JsonValue {
    obj(vec![
        ("smart_contract_name", s(name)),
        ("is_active", JsonValue::Bool(true)),
        ("invested_in", invested_in),
        ("reinvest_to", target()),
    ])
}

#[test]
fn burrow_preference_reads_every_field() {
    let p = parse_preference(&pref(
        "contract.main.burrow.near",
        obj(vec![("Burrow", obj(vec![("seed_id", s("seed-a")), ("token_id", s("wrap.near"))]))]),
    ))
    .expect("parses");
    assert_eq!(p.seed_id, "seed-a");
    assert_eq!(p.token_id, "wrap.near");
    assert_eq!(p.smart_contract_name, "contract.main.burrow.near");
    assert!(p.is_active);
    assert!(matches!(&p.invested_in, ReinvestFrom::BurrowFarm { seed_id, token_id } if seed_id == "seed-a" && token_id == "wrap.near"));
    let ReinvestTo::BurrowMainVault { seed_id, token_id } = &p.reinvest_to;
    assert_eq!((seed_id.as_str(), token_id.as_str()), ("seed-b", "usdt.near"));
}

#[test]
fn ref_preference_reads_the_pool_id() {
    let p = parse_preference(&pref("boostfarm.ref-labs.near", obj(vec![("RefBoostfarm", s("1234"))]))).expect("parses");
    assert!(matches!(p.invested_in, ReinvestFrom::RefBoostfarm { pool_id: 1234, .. }));
    assert_eq!(p.seed_id, "1234");
    assert_eq!(p.token_id, "boostfarm.ref-labs.near");
    let plus = parse_preference(&pref("boostfarm.ref-labs.near", obj(vec![("RefBoostfarm", s("+7"))]))).expect("parses");
    assert!(matches!(plus.invested_in, ReinvestFrom::RefBoostfarm { pool_id: 7, .. }));
    for bad in ["", "-7", "7a", "18446744073709551616", "+"] {
        assert!(parse_preference(&pref("boostfarm.ref-labs.near", obj(vec![("RefBoostfarm", s(bad))]))).is_none(), "{}", bad);
    }
    let max = parse_preference(&pref("boostfarm.ref-labs.near", obj(vec![("RefBoostfarm", s("18446744073709551615"))]))).expect("parses");
    assert!(matches!(max.invested_in, ReinvestFrom::RefBoostfarm { pool_id: u64::MAX, .. }));
}

#[test]
fn account_names_must_be_valid() {
    let farm = obj(vec![("RefBoostfarm", s("1"))]);
    for good in ["ab", "a-b_c.d", "0x12", "a.b-c"] {
        assert!(parse_preference(&pref(good, obj(vec![("RefBoostfarm", s("1"))]))).is_some(), "{}", good);
    }
    let too_long = "a".repeat(65);
    for bad in ["a", "Alice.near", "a..b", ".ab", "ab.", "a b", "", "ab-", too_long.as_str(), "é1"] {
        assert!(parse_preference(&pref(bad, obj(vec![("RefBoostfarm", s("1"))]))).is_none(), "{}", bad);
    }
    let longest = "a".repeat(64);
    assert!(parse_preference(&pref(&longest, farm)).is_some());
}

#[test]
fn burrow_wins_over_ref_and_missing_parts_fail() {
    let both = obj(vec![
        ("RefBoostfarm", s("5")),
        ("Burrow", obj(vec![("seed_id", s("seed-a")), ("token_id", s("wrap.near"))])),
    ]);
    let p = parse_preference(&pref("boostfarm.ref-labs.near", both)).expect("parses");
    assert!(matches!(p.invested_in, ReinvestFrom::BurrowFarm { .. }));
    let broken_burrow = obj(vec![("Burrow", obj(vec![("seed_id", s("seed-a"))])), ("RefBoostfarm", s("5"))]);
    assert!(parse_preference(&pref("boostfarm.ref-labs.near", broken_burrow)).is_none());
    assert!(parse_preference(&pref("boostfarm.ref-labs.near", obj(vec![("Other", s("5"))]))).is_none());
    let no_target = obj(vec![
        ("smart_contract_name", s("ab")),
        ("invested_in", obj(vec![("RefBoostfarm", s("1"))])),
    ]);
    assert!(parse_preference(&no_target).is_none());
}

#[test]
fn missing_is_active_counts_as_inactive() {
    let p = obj(vec![
        ("smart_contract_name", s("ab")),
        ("is_active", s("true")),
        ("invested_in", obj(vec![("RefBoostfarm", s("1"))])),
        ("reinvest_to", target()),
    ]);
    assert!(!parse_preference(&p).expect("parses").is_active);
    let user = obj(vec![("preference", p)]);
    assert!(matches!(read_preference(&user), (PreferenceStatus::Inactive, None)));
}

#[test]
fn the_first_member_with_a_key_counts() {
    let user = obj(vec![
        ("preference", pref("ab", obj(vec![("RefBoostfarm", s("1"))]))),
        ("preference", JsonValue::Null),
    ]);
    assert!(matches!(read_preference(&user), (PreferenceStatus::Active, Some(_))));
    let get = user.get("preference").expect("present");
    assert!(!get.is_null());
    assert!(JsonValue::Array(vec![]).get("preference").is_none());
    assert!(matches!(read_preference(&obj(vec![])), (PreferenceStatus::Absent, None)));
}
