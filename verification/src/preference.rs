//! A user's compounding preference, as the main account stores it.
use vstd::prelude::*;
use vstd::string::*;
use crate::account::{is_valid_account_id, parsed_u64, parses_as_account_id, parse_u64};
use crate::json::{json_bool, json_get, json_str, JsonValue};

verus! {

/// Where the user's funds earn the rewards that get compounded.
pub enum ReinvestFrom {
    BurrowFarm { seed_id: String, token_id: String },
    RefBoostfarm { seed_id: String, pool_id: u64 },
}

/// Where the claimed rewards are put back.
pub enum ReinvestTo {
    BurrowMainVault { seed_id: String, token_id: String },
}

/// A parsed preference.
pub struct Preference {
    pub seed_id: String,
    pub token_id: String,
    pub smart_contract_name: String,
    pub is_active: bool,
    pub invested_in: ReinvestFrom,
    pub reinvest_to: ReinvestTo,
}

pub enum ReinvestFromView {
    BurrowFarm { seed_id: Seq<char>, token_id: Seq<char> },
    RefBoostfarm { seed_id: Seq<char>, pool_id: u64 },
}

pub enum ReinvestToView {
    BurrowMainVault { seed_id: Seq<char>, token_id: Seq<char> },
}

pub struct PreferenceView {
    pub seed_id: Seq<char>,
    pub token_id: Seq<char>,
    pub smart_contract_name: Seq<char>,
    pub is_active: bool,
    pub invested_in: ReinvestFromView,
    pub reinvest_to: ReinvestToView,
}

impl View for ReinvestFrom {
    type V = ReinvestFromView;

    open spec fn view(&self) -> ReinvestFromView {
        match self {
            ReinvestFrom::BurrowFarm { seed_id, token_id } => ReinvestFromView::BurrowFarm {
                seed_id: seed_id@,
                token_id: token_id@,
            },
            ReinvestFrom::RefBoostfarm { seed_id, pool_id } => ReinvestFromView::RefBoostfarm {
                seed_id: seed_id@,
                pool_id: *pool_id,
            },
        }
    }
}

impl View for ReinvestTo {
    type V = ReinvestToView;

    open spec fn view(&self) -> ReinvestToView {
        match self {
            ReinvestTo::BurrowMainVault { seed_id, token_id } => ReinvestToView::BurrowMainVault {
                seed_id: seed_id@,
                token_id: token_id@,
            },
        }
    }
}

impl View for Preference {
    type V = PreferenceView;

    open spec fn view(&self) -> PreferenceView {
        PreferenceView {
            seed_id: self.seed_id@,
            token_id: self.token_id@,
            smart_contract_name: self.smart_contract_name@,
            is_active: self.is_active,
            invested_in: self.invested_in@,
            reinvest_to: self.reinvest_to@,
        }
    }
}

/// The text of the string member `key`.
pub open spec fn str_field(v: JsonValue, key: Seq<char>) -> Option<Seq<char>> {
    json_str(json_get(v, key))
}

/// The text of the string member `key`, where it is a valid account identifier.
pub open spec fn account_field(v: JsonValue, key: Seq<char>) -> Option<Seq<char>> {
    match str_field(v, key) {
        Some(s) => if is_valid_account_id(s) {
            Some(s)
        } else {
            None
        },
        None => None,
    }
}

/// The source named by an `invested_in` object, with its seed id: a `Burrow`
/// member (an object with a `seed_id` and an account `token_id`) wins over a
/// `RefBoostfarm` member (a string that is also the pool id in decimal).
pub open spec fn invested_in_of(obj: JsonValue) -> Option<(ReinvestFromView, Seq<char>)> {
    match json_get(obj, "Burrow"@) {
        Some(burrow) => match (str_field(burrow, "seed_id"@), account_field(burrow, "token_id"@)) {
            (Some(seed_id), Some(token_id)) => Some(
                (ReinvestFromView::BurrowFarm { seed_id, token_id }, seed_id),
            ),
            _ => None,
        },
        None => match json_str(json_get(obj, "RefBoostfarm"@)) {
            Some(seed_id) => match parsed_u64(seed_id) {
                Some(pool_id) => Some((ReinvestFromView::RefBoostfarm { seed_id, pool_id }, seed_id)),
                None => None,
            },
            None => None,
        },
    }
}

/// The target named by a `reinvest_to` object: its `Burrow` member, an object
/// with a `seed_id` and an account `token_id`.
pub open spec fn reinvest_to_of(obj: JsonValue) -> Option<ReinvestToView> {
    match json_get(obj, "Burrow"@) {
        Some(burrow) => match (str_field(burrow, "seed_id"@), account_field(burrow, "token_id"@)) {
            (Some(seed_id), Some(token_id)) => Some(
                ReinvestToView::BurrowMainVault { seed_id, token_id },
            ),
            _ => None,
        },
        None => None,
    }
}

/// The preference that a JSON object describes, if it describes one. An
/// `is_active` member that is missing or not a boolean counts as `false`.
/// The reward token is the farm's `token_id` for Burrow and the
/// `smart_contract_name` for Ref.
pub open spec fn preference_of(pref: JsonValue) -> Option<PreferenceView> {
    let name = account_field(pref, "smart_contract_name"@);
    let is_active = match json_bool(json_get(pref, "is_active"@)) {
        Some(b) => b,
        None => false,
    };
    let source = match json_get(pref, "invested_in"@) {
        Some(obj) => invested_in_of(obj),
        None => None,
    };
    let target = match json_get(pref, "reinvest_to"@) {
        Some(obj) => reinvest_to_of(obj),
        None => None,
    };
    match (name, source, target) {
        (Some(name), Some((invested_in, seed_id)), Some(reinvest_to)) => Some(
            PreferenceView {
                seed_id,
                token_id: match invested_in {
                    ReinvestFromView::BurrowFarm { token_id, .. } => token_id,
                    ReinvestFromView::RefBoostfarm { .. } => name,
                },
                smart_contract_name: name,
                is_active,
                invested_in,
                reinvest_to,
            },
        ),
        _ => None,
    }
}

/// The preference of a user record, where it is present, not `null`, parses,
/// and is active.
pub open spec fn active_preference_of(user_data: JsonValue) -> Option<PreferenceView> {
    match json_get(user_data, "preference"@) {
        Some(pref) => if pref is Null {
            None
        } else {
            match preference_of(pref) {
                Some(p) => if p.is_active {
                    Some(p)
                } else {
                    None
                },
                None => None,
            }
        },
        None => None,
    }
}

/// The view of an optional preference.
pub open spec fn opt_preference_view(p: Option<Preference>) -> Option<PreferenceView> {
    match p {
        Some(p) => Some(p@),
        None => None,
    }
}

/// The string member `key`, where it is a valid account identifier.
fn account_member(v: &JsonValue, key: &str) -> (r: Option<String>)
    ensures
        match r {
            Some(s) => account_field(*v, key@) == Some(s@),
            None => account_field(*v, key@) is None,
        },
{
    match v.get(key) {
        Some(m) => match m.as_str() {
            Some(s) => if parses_as_account_id(s.as_str()) {
                Some(s.clone())
            } else {
                None
            },
            None => None,
        },
        None => None,
    }
}

/// The string member `key`.
fn str_member(v: &JsonValue, key: &str) -> (r: Option<String>)
    ensures
        match r {
            Some(s) => str_field(*v, key@) == Some(s@),
            None => str_field(*v, key@) is None,
        },
{
    match v.get(key) {
        Some(m) => match m.as_str() {
            Some(s) => Some(s.clone()),
            None => None,
        },
        None => None,
    }
}

/// Reads the `seed_id` and `token_id` of a `Burrow` member.
fn burrow_fields(burrow: &JsonValue) -> (r: Option<(String, String)>)
    ensures
        match r {
            Some((seed_id, token_id)) => str_field(*burrow, "seed_id"@) == Some(seed_id@)
                && account_field(*burrow, "token_id"@) == Some(token_id@),
            None => str_field(*burrow, "seed_id"@) is None || account_field(*burrow, "token_id"@) is None,
        },
{
    let seed_id = match str_member(burrow, "seed_id") {
        Some(s) => s,
        None => return None,
    };
    let token_id = match account_member(burrow, "token_id") {
        Some(t) => t,
        None => return None,
    };
    Some((seed_id, token_id))
}

/// Reads the source of the rewards from an `invested_in` object.
fn read_invested_in(obj: &JsonValue) -> (r: Option<(ReinvestFrom, String)>)
    ensures
        match r {
            Some((from, seed_id)) => invested_in_of(*obj) == Some((from@, seed_id@)),
            None => invested_in_of(*obj) is None,
        },
{
    match obj.get("Burrow") {
        Some(burrow) => match burrow_fields(burrow) {
            Some((seed_id, token_id)) => {
                let seed = seed_id.clone();
                Some((ReinvestFrom::BurrowFarm { seed_id, token_id }, seed))
            },
            None => None,
        },
        None => match obj.get("RefBoostfarm") {
            Some(v) => match v.as_str() {
                Some(seed_id) => match parse_u64(seed_id.as_str()) {
                    Some(pool_id) => Some(
                        (
                            ReinvestFrom::RefBoostfarm { seed_id: seed_id.clone(), pool_id },
                            seed_id.clone(),
                        ),
                    ),
                    None => None,
                },
                None => None,
            },
            None => None,
        },
    }
}

/// Reads the target of the reinvestment from a `reinvest_to` object.
fn read_reinvest_to(obj: &JsonValue) -> (r: Option<ReinvestTo>)
    ensures
        match r {
            Some(to) => reinvest_to_of(*obj) == Some(to@),
            None => reinvest_to_of(*obj) is None,
        },
{
    match obj.get("Burrow") {
        Some(burrow) => match burrow_fields(burrow) {
            Some((seed_id, token_id)) => Some(ReinvestTo::BurrowMainVault { seed_id, token_id }),
            None => None,
        },
        None => None,
    }
}

/// Reads a preference object.
pub fn parse_preference(pref: &JsonValue) -> (r: Option<Preference>)
    ensures
        opt_preference_view(r) == preference_of(*pref),
{
    let smart_contract_name = match account_member(pref, "smart_contract_name") {
        Some(name) => name,
        None => return None,
    };
    let is_active = match pref.get("is_active") {
        Some(v) => match v.as_bool() {
            Some(b) => b,
            None => false,
        },
        None => false,
    };
    let (invested_in, seed_id) = match pref.get("invested_in") {
        Some(obj) => match read_invested_in(obj) {
            Some(found) => found,
            None => return None,
        },
        None => return None,
    };
    let reinvest_to = match pref.get("reinvest_to") {
        Some(obj) => match read_reinvest_to(obj) {
            Some(to) => to,
            None => return None,
        },
        None => return None,
    };
    let token_id = match &invested_in {
        ReinvestFrom::BurrowFarm { token_id, .. } => token_id.clone(),
        ReinvestFrom::RefBoostfarm { .. } => smart_contract_name.clone(),
    };
    Some(
        Preference {
            seed_id,
            token_id,
            smart_contract_name,
            is_active,
            invested_in,
            reinvest_to,
        },
    )
}

/// What a user record says about its preference.
pub enum PreferenceStatus {
    /// The record has no `preference` member, or it is `null`.
    Absent,
    /// The preference does not describe a source and a target.
    Unparsable,
    /// The preference parses but is not active.
    Inactive,
    /// The preference parses and is active.
    Active,
}

/// The status of the preference of a user record.
pub open spec fn preference_status_of(user_data: JsonValue) -> PreferenceStatus {
    match json_get(user_data, "preference"@) {
        Some(pref) => if pref is Null {
            PreferenceStatus::Absent
        } else {
            match preference_of(pref) {
                Some(p) => if p.is_active {
                    PreferenceStatus::Active
                } else {
                    PreferenceStatus::Inactive
                },
                None => PreferenceStatus::Unparsable,
            }
        },
        None => PreferenceStatus::Absent,
    }
}

/// Reads the preference of a user record: its status, and the preference
/// itself where it is active (see `active_preference_of`).
pub fn read_preference(user_data: &JsonValue) -> (r: (PreferenceStatus, Option<Preference>))
    ensures
        r.0 == preference_status_of(*user_data),
        opt_preference_view(r.1) == active_preference_of(*user_data),
{
    match user_data.get("preference") {
        Some(pref) => if pref.is_null() {
            (PreferenceStatus::Absent, None)
        } else {
            match parse_preference(pref) {
                Some(p) => if p.is_active {
                    (PreferenceStatus::Active, Some(p))
                } else {
                    (PreferenceStatus::Inactive, None)
                },
                None => (PreferenceStatus::Unparsable, None),
            }
        },
        None => (PreferenceStatus::Absent, None),
    }
}

/// A Ref boost-farm preference always names a non-empty seed: the seed id is
/// the pool id in decimal.
pub proof fn lemma_ref_seed_nonempty(pref: JsonValue)
    requires
        preference_of(pref) is Some,
        preference_of(pref)->0.invested_in is RefBoostfarm,
    ensures
        preference_of(pref)->0.seed_id.len() > 0,
{
    let obj = json_get(pref, "invested_in"@)->0;
    let seed_id = json_str(json_get(obj, "RefBoostfarm"@))->0;
    assert(json_get(obj, "Burrow"@) is None);
    assert(parsed_u64(seed_id) is Some);
}

/// An active preference is one that parses and is active.
pub proof fn lemma_active_preference_parses(user_data: JsonValue)
    requires
        active_preference_of(user_data) is Some,
    ensures
        preference_of(json_get(user_data, "preference"@)->0) == active_preference_of(user_data),
{
}

} // verus!
