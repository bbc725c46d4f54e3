//! Stake distribution at a point in time, and its JSON schema.

use vstd::prelude::*;

use crate::json::JsonValue;
use crate::json::lookup;
use crate::json::obj_fields;
use crate::json::obj_get;
use crate::json::opt_val;
use crate::json::pairs_view;
use crate::json::text_of;
use crate::json::uint_of;
use crate::rewards::breakdown_ok;
use crate::rewards::breakdown_pairs;
use crate::rewards::extract_breakdown;

verus! {

/// Stake distribution as the node reports it: the epoch it belongs to, the
/// total stake (a decimal string, as the node sends it), and the per-pool
/// stake amounts.  A `pools` table the node omits is kept as an empty list.
#[derive(Debug, Clone, PartialEq, Eq)]
pub struct StakeDistributionInfo {
    pub epoch: u32,
    pub total: String,
    pub pools: Vec<(String, String)>,
}

/// The mathematical image of a `StakeDistributionInfo`.
#[verifier::ext_equal]
pub struct StakeDistributionView {
    pub epoch: u32,
    pub total: Seq<char>,
    pub pools: Seq<(Seq<char>, Seq<char>)>,
}

impl View for StakeDistributionInfo {
    type V = StakeDistributionView;

    open spec fn view(&self) -> StakeDistributionView {
        StakeDistributionView {
            epoch: self.epoch,
            total: self.total@,
            pools: pairs_view(self.pools@),
        }
    }
}

/// Whether a JSON document conforms to the stake-distribution schema: an
/// object with an `epoch` number that fits `u32`, a string `total` amount,
/// and an optional `pools` table.  Fields beyond these are ignored.
pub open spec fn stake_conforms(j: JsonValue) -> bool {
    &&& j is Object
    &&& lookup(obj_fields(j), "epoch"@) matches Some(e) && e is UInt && uint_of(e)
        <= u32::MAX
    &&& lookup(obj_fields(j), "total"@) matches Some(t) && t is Text
    &&& breakdown_ok(lookup(obj_fields(j), "pools"@))
}

/// The stake-distribution value a conformant document describes.
pub open spec fn stake_model_of(j: JsonValue) -> StakeDistributionView
    recommends
        stake_conforms(j),
{
    StakeDistributionView {
        epoch: uint_of(opt_val(lookup(obj_fields(j), "epoch"@))) as u32,
        total: text_of(opt_val(lookup(obj_fields(j), "total"@))),
        pools: breakdown_pairs(lookup(obj_fields(j), "pools"@)),
    }
}

/// Decodes a JSON document against the stake-distribution schema; yields the
/// described value exactly when the document conforms.
pub fn stake_distribution_from_json(j: &JsonValue) -> (r: Option<StakeDistributionInfo>)
    ensures
        match r {
            Some(v) => stake_conforms(*j) && v@ == stake_model_of(*j),
            None => !stake_conforms(*j),
        },
{
    let fields = match j {
        JsonValue::Object(fields) => fields,
        _ => {
            return None;
        },
    };
    let epoch64 = match obj_get(fields, "epoch") {
        Some(JsonValue::UInt(u)) => *u,
        _ => {
            return None;
        },
    };
    if epoch64 > u32::MAX as u64 {
        return None;
    }
    let total = match obj_get(fields, "total") {
        Some(JsonValue::Text(s)) => s.clone(),
        _ => {
            return None;
        },
    };
    let pools = match extract_breakdown(fields, "pools") {
        Some(v) => v,
        None => {
            return None;
        },
    };
    let info = StakeDistributionInfo { epoch: epoch64 as u32, total, pools };
    proof {
        assert(info@ =~= stake_model_of(*j));
    }
    Some(info)
}

} // verus!
