//! Reward distribution for one epoch, and its JSON schema.

use vstd::prelude::*;

use crate::json::JsonValue;
use crate::json::amount_pairs;
use crate::json::arr_items;
use crate::json::amounts_ok;
use crate::json::extract_amounts;
use crate::json::lookup;
use crate::json::obj_fields;
use crate::json::obj_get;
use crate::json::opt_val;
use crate::json::pairs_view;
use crate::json::text_of;
use crate::json::uint_of;

verus! {

/// Reward distribution for one epoch, as the node reports it: the epoch, the
/// total value drawn and the treasury cut (amounts are decimal strings, as
/// the node sends them), and the per-pool and per-account breakdowns.  A
/// breakdown the node omits is kept as an empty list.
#[derive(Debug, Clone, PartialEq, Eq)]
pub struct EpochRewardsInfo {
    pub epoch: u32,
    pub value: String,
    pub treasury: String,
    pub stake_pools: Vec<(String, String)>,
    pub accounts: Vec<(String, String)>,
}

/// The mathematical image of an `EpochRewardsInfo`.
#[verifier::ext_equal]
pub struct EpochRewardsView {
    pub epoch: u32,
    pub value: Seq<char>,
    pub treasury: Seq<char>,
    pub stake_pools: Seq<(Seq<char>, Seq<char>)>,
    pub accounts: Seq<(Seq<char>, Seq<char>)>,
}

impl View for EpochRewardsInfo {
    type V = EpochRewardsView;

    open spec fn view(&self) -> EpochRewardsView {
        EpochRewardsView {
            epoch: self.epoch,
            value: self.value@,
            treasury: self.treasury@,
            stake_pools: pairs_view(self.stake_pools@),
            accounts: pairs_view(self.accounts@),
        }
    }
}

/// Whether an optional breakdown field is acceptable: absent, or an object
/// whose values are all strings.
pub open spec fn breakdown_ok(o: Option<JsonValue>) -> bool {
    match o {
        None => true,
        Some(v) => v is Object && amounts_ok(obj_fields(v)),
    }
}

/// The pairs of an optional breakdown field (empty when absent).
pub open spec fn breakdown_pairs(o: Option<JsonValue>) -> Seq<(Seq<char>, Seq<char>)> {
    match o {
        None => Seq::empty(),
        Some(v) => amount_pairs(obj_fields(v)),
    }
}

/// Whether a JSON document conforms to the epoch-rewards schema: an object
/// with an `epoch` number that fits `u32`, string `value` and `treasury`
/// amounts, and optional `stake_pools` and `accounts` breakdowns.  Fields
/// beyond these are ignored.
pub open spec fn conforms(j: JsonValue) -> bool {
    &&& j is Object
    &&& lookup(obj_fields(j), "epoch"@) matches Some(e) && e is UInt && uint_of(e)
        <= u32::MAX
    &&& lookup(obj_fields(j), "value"@) matches Some(v) && v is Text
    &&& lookup(obj_fields(j), "treasury"@) matches Some(t) && t is Text
    &&& breakdown_ok(lookup(obj_fields(j), "stake_pools"@))
    &&& breakdown_ok(lookup(obj_fields(j), "accounts"@))
}

/// The epoch-rewards value a conformant document describes.
pub open spec fn model_of(j: JsonValue) -> EpochRewardsView
    recommends
        conforms(j),
{
    EpochRewardsView {
        epoch: uint_of(opt_val(lookup(obj_fields(j), "epoch"@))) as u32,
        value: text_of(opt_val(lookup(obj_fields(j), "value"@))),
        treasury: text_of(opt_val(lookup(obj_fields(j), "treasury"@))),
        stake_pools: breakdown_pairs(lookup(obj_fields(j), "stake_pools"@)),
        accounts: breakdown_pairs(lookup(obj_fields(j), "accounts"@)),
    }
}

/// Reads an optional breakdown field into a list of pairs, or reports that
/// the field is present but not an amounts table.
pub(crate) fn extract_breakdown(fields: &Vec<(String, JsonValue)>, key: &str) -> (r: Option<
    Vec<(String, String)>,
>)
    ensures
        match r {
            Some(v) => breakdown_ok(lookup(fields@, key@)) && pairs_view(v@) == breakdown_pairs(
                lookup(fields@, key@),
            ),
            None => !breakdown_ok(lookup(fields@, key@)),
        },
{
    match obj_get(fields, key) {
        None => {
            let empty: Vec<(String, String)> = Vec::new();
            proof {
                assert(pairs_view(empty@) =~= breakdown_pairs(lookup(fields@, key@)));
            }
            Some(empty)
        },
        Some(v) => match v {
            JsonValue::Object(pf) => extract_amounts(pf),
            _ => None,
        },
    }
}

/// Decodes a JSON document against the epoch-rewards schema; yields the
/// described value exactly when the document conforms.
pub fn epoch_rewards_from_json(j: &JsonValue) -> (r: Option<EpochRewardsInfo>)
    ensures
        match r {
            Some(v) => conforms(*j) && v@ == model_of(*j),
            None => !conforms(*j),
        },
{
    let fields = match j {
        JsonValue::Object(fields) => fields,
        _ => {
            return None;
        },
    };
    let epoch64 = match obj_get(fields, "epoch") {
        Some(JsonValue::UInt(u)) => *u,
        _ => {
            return None;
        },
    };
    if epoch64 > u32::MAX as u64 {
        return None;
    }
    let value = match obj_get(fields, "value") {
        Some(JsonValue::Text(s)) => s.clone(),
        _ => {
            return None;
        },
    };
    let treasury = match obj_get(fields, "treasury") {
        Some(JsonValue::Text(s)) => s.clone(),
        _ => {
            return None;
        },
    };
    let stake_pools = match extract_breakdown(fields, "stake_pools") {
        Some(v) => v,
        None => {
            return None;
        },
    };
    let accounts = match extract_breakdown(fields, "accounts") {
        Some(v) => v,
        None => {
            return None;
        },
    };
    let info = EpochRewardsInfo { epoch: epoch64 as u32, value, treasury, stake_pools, accounts };
    proof {
        assert(info@ =~= model_of(*j));
    }
    Some(info)
}

/// Whether a JSON document conforms to the reward-history schema: an array
/// whose elements each conform to the epoch-rewards schema.
pub open spec fn list_conforms(j: JsonValue) -> bool {
    &&& j is Array
    &&& forall|i: int| 0 <= i < arr_items(j).len() ==> conforms(arr_items(j)[i])
}

/// The epoch-rewards values a conformant array describes, in order.
pub open spec fn list_model_of(j: JsonValue) -> Seq<EpochRewardsView>
    recommends
        list_conforms(j),
{
    Seq::new(arr_items(j).len(), |i: int| model_of(arr_items(j)[i]))
}

/// The views of a list of epoch-rewards values.
pub open spec fn infos_view(s: Seq<EpochRewardsInfo>) -> Seq<EpochRewardsView> {
    s.map_values(|e: EpochRewardsInfo| e@)
}

/// Decodes a JSON document against the reward-history schema; yields the
/// described values exactly when the document is an array of conformant
/// elements.
pub fn epoch_rewards_list_from_json(j: &JsonValue) -> (r: Option<Vec<EpochRewardsInfo>>)
    ensures
        match r {
            Some(v) => list_conforms(*j) && infos_view(v@) == list_model_of(*j),
            None => !list_conforms(*j),
        },
{
    let items = match j {
        JsonValue::Array(items) => items,
        _ => {
            return None;
        },
    };
    let mut acc: Vec<EpochRewardsInfo> = Vec::new();
    let mut i: usize = 0;
    while i < items.len()
        invariant
            i <= items@.len(),
            acc@.len() == i,
            *j == JsonValue::Array(*items),
            forall|k: int| 0 <= k < i ==> conforms(items@[k]),
            forall|k: int| 0 <= k < i ==> acc@[k]@ == model_of(items@[k]),
        decreases items@.len() - i,
    {
        match epoch_rewards_from_json(&items[i]) {
            Some(info) => {
                acc.push(info);
            },
            None => {
                proof {
                    assert(!conforms(arr_items(*j)[i as int]));
                }
                return None;
            },
        }
        i += 1;
    }
    proof {
        assert(infos_view(acc@) =~= list_model_of(*j));
    }
    Some(acc)
}

} // verus!
