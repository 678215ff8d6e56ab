//! What the readers of documents and numbers find.
use vstd::prelude::*;
use crate::account::{all_digits, digits_value, is_digit, is_valid_account_id, parsed_u64, unsigned_digits};
use crate::json::{json_bool, json_get, lookup, JsonValue};
use crate::preference::{
    active_preference_of, preference_of, str_field, ReinvestFromView, ReinvestToView,
};
use crate::text::{decimal, digit_char};

verus! {

/// A lookup finds the value of the first entry with the key.
pub proof fn lemma_lookup_finds_the_first(entries: Seq<(String, JsonValue)>, key: Seq<char>, i: int)
    requires
        0 <= i < entries.len(),
        entries[i].0@ == key,
        forall|j: int| 0 <= j < i ==> entries[j].0@ != key,
    ensures
        lookup(entries, key) == Some(entries[i].1),
    decreases i,
{
    if i > 0 {
        lemma_lookup_finds_the_first(entries.drop_first(), key, i - 1);
    }
}

/// A lookup finds nothing exactly when no entry has the key.
pub proof fn lemma_lookup_misses_only_absent_keys(entries: Seq<(String, JsonValue)>, key: Seq<char>)
    ensures
        lookup(entries, key) is None <==> forall|j: int| 0 <= j < entries.len() ==> entries[j].0@ != key,
    decreases entries.len(),
{
    if entries.len() > 0 {
        lemma_lookup_misses_only_absent_keys(entries.drop_first(), key);
        if lookup(entries, key) is None {
            assert forall|j: int| 0 <= j < entries.len() implies entries[j].0@ != key by {
                if j > 0 {
                    assert(entries.drop_first()[j - 1] == entries[j]);
                }
            }
        } else if entries[0].0@ != key {
            let j = choose|j: int| 0 <= j < entries.drop_first().len() && entries.drop_first()[j].0@ == key;
            assert(entries[j + 1].0@ == key);
        }
    }
}

/// Only objects have members.
pub proof fn lemma_only_objects_have_members(v: JsonValue, key: Seq<char>)
    ensures
        !(v is Object) ==> json_get(v, key) is None,
{
}

/// A parsed preference names valid accounts, takes its fields from the
/// document, and rewards the farm token for Burrow and the named contract for
/// Ref, whose seed is the pool id in decimal.
pub proof fn lemma_preference_fields(pref: JsonValue)
    ensures
        preference_of(pref) matches Some(p) ==> {
            &&& is_valid_account_id(p.smart_contract_name)
            &&& str_field(pref, "smart_contract_name"@) == Some(p.smart_contract_name)
            &&& p.is_active == (json_bool(json_get(pref, "is_active"@)) == Some(true))
            &&& (p.invested_in matches ReinvestFromView::BurrowFarm { seed_id, token_id } ==> {
                &&& p.seed_id == seed_id
                &&& p.token_id == token_id
                &&& is_valid_account_id(token_id)
            })
            &&& (p.invested_in matches ReinvestFromView::RefBoostfarm { seed_id, pool_id } ==> {
                &&& p.seed_id == seed_id
                &&& p.token_id == p.smart_contract_name
                &&& parsed_u64(seed_id) == Some(pool_id)
            })
            &&& (p.reinvest_to matches ReinvestToView::BurrowMainVault { token_id, .. } ==> is_valid_account_id(token_id))
        },
{
}

/// An active preference is a parsed preference that is active.
pub proof fn lemma_active_means_active(user_data: JsonValue)
    ensures
        active_preference_of(user_data) matches Some(p) ==> p.is_active && preference_of(
            json_get(user_data, "preference"@)->0,
        ) == Some(p),
{
}

/// The character of a digit denotes that digit.
proof fn lemma_digit_char(d: nat)
    requires
        d < 10,
    ensures
        is_digit(digit_char(d)),
        (digit_char(d) as u32 - '0' as u32) as nat == d,
{
}

/// The decimal form of a number is made of digits and denotes the number.
pub proof fn lemma_decimal_denotes_the_number(n: nat)
    ensures
        decimal(n).len() > 0,
        all_digits(decimal(n)),
        digits_value(decimal(n)) == n,
    decreases n,
{
    if n < 10 {
        lemma_digit_char(n);
        assert(decimal(n).drop_last() =~= Seq::<char>::empty());
        assert(digits_value(Seq::<char>::empty()) == 0);
        assert(decimal(n).last() == digit_char(n));
    } else {
        lemma_decimal_denotes_the_number(n / 10);
        lemma_digit_char(n % 10);
        assert(decimal(n).drop_last() =~= decimal(n / 10));
        assert(decimal(n).last() == digit_char(n % 10));
        assert(n / 10 * 10 + n % 10 == n);
        assert forall|i: int| 0 <= i < decimal(n).len() implies is_digit(#[trigger] decimal(n)[i]) by {
            if i < decimal(n / 10).len() {
                assert(decimal(n)[i] == decimal(n / 10)[i]);
            }
        }
    }
}

/// Reading the decimal form of a 64-bit number gives the number back.
pub proof fn lemma_decimal_reads_back(n: u64)
    ensures
        parsed_u64(decimal(n as nat)) == Some(n),
{
    lemma_decimal_denotes_the_number(n as nat);
    assert(is_digit(decimal(n as nat)[0]));
    assert(unsigned_digits(decimal(n as nat)) == decimal(n as nat));
}

} // verus!
