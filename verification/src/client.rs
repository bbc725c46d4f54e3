//! The REST query client: which URL each operation asks for, and how each
//! transport outcome is decoded.
//!
//! Issuing the GET itself is transport work and stays with the caller: an
//! operation is performed by building its URL with one of the `*_url`
//! methods, fetching that URL, and handing the outcome — the body text on
//! success, a transport detail on failure — to the matching `decode_*`
//! function.

use vstd::prelude::*;

use crate::digits::decimal;
use crate::digits::u32_decimal;
use crate::error::RestError;
use crate::json::json_of;
use crate::json::parse_json;
use crate::rewards::EpochRewardsInfo;
use crate::rewards::conforms;
use crate::rewards::epoch_rewards_from_json;
use crate::rewards::epoch_rewards_list_from_json;
use crate::rewards::infos_view;
use crate::rewards::list_conforms;
use crate::rewards::list_model_of;
use crate::rewards::model_of;
use crate::stake::StakeDistributionInfo;
use crate::stake::stake_conforms;
use crate::stake::stake_distribution_from_json;
use crate::stake::stake_model_of;

verus! {

/// The client's configuration: the base network address of the target node
/// (a `host:port` or URL string).  Immutable once constructed; no validation
/// is performed, so a bad address surfaces only as a transport failure on
/// first use.
#[derive(Debug, PartialEq, Eq)]
pub struct ClientConfig {
    node_address: String,
}

impl View for ClientConfig {
    type V = Seq<char>;

    closed spec fn view(&self) -> Seq<char> {
        self.node_address@
    }
}

impl ClientConfig {
    /// A configuration for a node reachable at `node_address`.
    pub fn new(node_address: String) -> (r: Self)
        ensures
            r@ == node_address@,
    {
        ClientConfig { node_address }
    }

    /// The configured base address.
    pub fn node_address(&self) -> (r: &str)
        ensures
            r@ == self@,
    {
        self.node_address.as_str()
    }
}

/// The full URL of a request: the base address and the relative path, joined
/// by the version segment with exactly one slash on each side.
pub open spec fn url_of(base: Seq<char>, path: Seq<char>) -> Seq<char> {
    base + "/v0/"@ + path
}

/// The relative path of the epoch-rewards query for `epoch`.
pub open spec fn epoch_rewards_path(epoch: u32) -> Seq<char> {
    "rewards/epoch/"@ + decimal(epoch as nat)
}

/// The relative path of the reward-history query for a window of `length`
/// epochs.
pub open spec fn reward_history_path(length: u32) -> Seq<char> {
    "rewards/history/"@ + decimal(length as nat)
}

/// The relative path of the current stake-distribution query.
pub open spec fn stake_path() -> Seq<char> {
    "stake"@
}

/// The relative path of the stake-distribution query for `epoch`.
pub open spec fn stake_at_path(epoch: u32) -> Seq<char> {
    "stake/"@ + decimal(epoch as nat)
}

/// The REST query client.  It holds only the immutable base-address
/// configuration; every operation is stateless and independent.
#[derive(Debug, PartialEq, Eq)]
pub struct JormungandrRest {
    config: ClientConfig,
}

impl View for JormungandrRest {
    type V = Seq<char>;

    closed spec fn view(&self) -> Seq<char> {
        self.config@
    }
}

impl JormungandrRest {
    /// A client for the node that `config` points at.
    pub fn new(config: ClientConfig) -> (r: Self)
        ensures
            r@ == config@,
    {
        JormungandrRest { config }
    }

    /// The full URL for a relative path: `{base}/v0/{path}`.
    pub fn full_url(&self, path: &str) -> (r: String)
        ensures
            r@ == url_of(self@, path@),
    {
        self.config.node_address.clone().concat("/v0/").concat(path)
    }

    /// The URL the epoch-rewards operation asks for:
    /// `{base}/v0/rewards/epoch/{epoch}`.
    pub fn epoch_reward_history_url(&self, epoch: u32) -> (r: String)
        ensures
            r@ == url_of(self@, epoch_rewards_path(epoch)),
    {
        let digits = u32_decimal(epoch);
        let path = String::from_str("rewards/epoch/").concat(digits.as_str());
        self.full_url(path.as_str())
    }

    /// The URL the reward-history operation asks for:
    /// `{base}/v0/rewards/history/{length}`.
    pub fn reward_history_url(&self, length: u32) -> (r: String)
        ensures
            r@ == url_of(self@, reward_history_path(length)),
    {
        let digits = u32_decimal(length);
        let path = String::from_str("rewards/history/").concat(digits.as_str());
        self.full_url(path.as_str())
    }

    /// The URL the current stake-distribution operation asks for:
    /// `{base}/v0/stake`.
    pub fn stake_distribution_url(&self) -> (r: String)
        ensures
            r@ == url_of(self@, stake_path()),
    {
        self.full_url("stake")
    }

    /// The URL the stake-distribution-at-epoch operation asks for:
    /// `{base}/v0/stake/{epoch}`.
    pub fn stake_distribution_at_url(&self, epoch: u32) -> (r: String)
        ensures
            r@ == url_of(self@, stake_at_path(epoch)),
    {
        let digits = u32_decimal(epoch);
        let path = String::from_str("stake/").concat(digits.as_str());
        self.full_url(path.as_str())
    }
}

/// A URL determines the relative path it was built from: nothing after
/// `{base}/v0/` is lost in the join.
pub proof fn lemma_url_determines_path(base: Seq<char>, p1: Seq<char>, p2: Seq<char>)
    requires
        url_of(base, p1) == url_of(base, p2),
    ensures
        p1 == p2,
{
    let u = url_of(base, p1);
    assert(u.len() == base.len() + "/v0/"@.len() + p1.len());
    assert(url_of(base, p2).len() == base.len() + "/v0/"@.len() + p2.len());
    assert(p1.len() == p2.len());
    assert forall|i: int| 0 <= i < p1.len() implies p1[i] == p2[i] by {
        assert(u[base.len() + "/v0/"@.len() + i] == p1[i]);
        assert(u[base.len() + "/v0/"@.len() + i] == p2[i]);
    }
    assert(p1 =~= p2);
}

/// A fixed prefix followed by a numeral determines the number.
pub proof fn lemma_numeral_suffix_determines(prefix: Seq<char>, a: u32, b: u32)
    requires
        prefix + decimal(a as nat) == prefix + decimal(b as nat),
    ensures
        a == b,
{
    let d1 = decimal(a as nat);
    let d2 = decimal(b as nat);
    assert((prefix + d1).len() == prefix.len() + d1.len());
    assert((prefix + d2).len() == prefix.len() + d2.len());
    assert(d1.len() == d2.len());
    assert forall|i: int| 0 <= i < d1.len() implies d1[i] == d2[i] by {
        assert((prefix + d1)[prefix.len() + i] == d1[i]);
        assert((prefix + d2)[prefix.len() + i] == d2[i]);
    }
    assert(d1 =~= d2);
    crate::digits::lemma_decimal_injective(a as nat, b as nat);
}

/// Distinct epochs ask for distinct epoch-rewards URLs.
pub proof fn lemma_epoch_reward_history_urls_distinct(base: Seq<char>, e1: u32, e2: u32)
    requires
        url_of(base, epoch_rewards_path(e1)) == url_of(base, epoch_rewards_path(e2)),
    ensures
        e1 == e2,
{
    lemma_url_determines_path(base, epoch_rewards_path(e1), epoch_rewards_path(e2));
    lemma_numeral_suffix_determines("rewards/epoch/"@, e1, e2);
}

/// Distinct window lengths ask for distinct reward-history URLs.
pub proof fn lemma_reward_history_urls_distinct(base: Seq<char>, l1: u32, l2: u32)
    requires
        url_of(base, reward_history_path(l1)) == url_of(base, reward_history_path(l2)),
    ensures
        l1 == l2,
{
    lemma_url_determines_path(base, reward_history_path(l1), reward_history_path(l2));
    lemma_numeral_suffix_determines("rewards/history/"@, l1, l2);
}

/// Distinct epochs ask for distinct stake-distribution URLs.
pub proof fn lemma_stake_at_urls_distinct(base: Seq<char>, e1: u32, e2: u32)
    requires
        url_of(base, stake_at_path(e1)) == url_of(base, stake_at_path(e2)),
    ensures
        e1 == e2,
{
    lemma_url_determines_path(base, stake_at_path(e1), stake_at_path(e2));
    lemma_numeral_suffix_determines("stake/"@, e1, e2);
}

/// The detail carried by a schema mismatch.
pub open spec fn schema_mismatch_detail() -> Seq<char> {
    "response body does not match the expected schema"@
}

/// The detail carried by a schema mismatch.
fn schema_detail() -> (r: String)
    ensures
        r@ == schema_mismatch_detail(),
{
    String::from_str("response body does not match the expected schema")
}

/// Classifies a transport outcome for the raw-body operation: a transport
/// failure becomes `SendRequestError`, and any received body — valid JSON or
/// not — is returned as it came.
pub fn decode_raw(outcome: Result<String, String>) -> (r: Result<String, RestError>)
    ensures
        match outcome {
            Ok(body) => r == Ok::<String, RestError>(body),
            Err(e) => r == Err::<String, RestError>(RestError::SendRequestError(e)),
        },
{
    match outcome {
        Ok(body) => Ok(body),
        Err(e) => Err(RestError::SendRequestError(e)),
    }
}

/// Decodes the outcome of the epoch-rewards operation.  A transport failure
/// becomes `SendRequestError` with its detail; a received body yields the
/// epoch-rewards value it describes, or `CannotDeserialize` when it is not
/// valid JSON or does not conform to the schema.
pub fn decode_epoch_reward_history(outcome: Result<String, String>) -> (r: Result<
    EpochRewardsInfo,
    RestError,
>)
    ensures
        match outcome {
            Err(e) => r == Err::<EpochRewardsInfo, RestError>(RestError::SendRequestError(e)),
            Ok(body) => match json_of(body@) {
                None => r matches Err(RestError::CannotDeserialize(_)),
                Some(j) => if conforms(j) {
                    r matches Ok(v) && v@ == model_of(j)
                } else {
                    r matches Err(RestError::CannotDeserialize(d)) && d@
                        == schema_mismatch_detail()
                },
            },
        },
{
    let body = match outcome {
        Ok(body) => body,
        Err(e) => {
            return Err(RestError::SendRequestError(e));
        },
    };
    let j = match parse_json(body.as_str()) {
        Ok(j) => j,
        Err(detail) => {
            return Err(RestError::CannotDeserialize(detail));
        },
    };
    match epoch_rewards_from_json(&j) {
        Some(info) => Ok(info),
        None => Err(RestError::CannotDeserialize(schema_detail())),
    }
}

/// Decodes the outcome of the reward-history operation, in the same way, for
/// an array of epoch-rewards values.
pub fn decode_reward_history(outcome: Result<String, String>) -> (r: Result<
    Vec<EpochRewardsInfo>,
    RestError,
>)
    ensures
        match outcome {
            Err(e) => r == Err::<Vec<EpochRewardsInfo>, RestError>(
                RestError::SendRequestError(e),
            ),
            Ok(body) => match json_of(body@) {
                None => r matches Err(RestError::CannotDeserialize(_)),
                Some(j) => if list_conforms(j) {
                    r matches Ok(v) && infos_view(v@) == list_model_of(j)
                } else {
                    r matches Err(RestError::CannotDeserialize(d)) && d@
                        == schema_mismatch_detail()
                },
            },
        },
{
    let body = match outcome {
        Ok(body) => body,
        Err(e) => {
            return Err(RestError::SendRequestError(e));
        },
    };
    let j = match parse_json(body.as_str()) {
        Ok(j) => j,
        Err(detail) => {
            return Err(RestError::CannotDeserialize(detail));
        },
    };
    match epoch_rewards_list_from_json(&j) {
        Some(infos) => Ok(infos),
        None => Err(RestError::CannotDeserialize(schema_detail())),
    }
}

/// Decodes the outcome of either stake-distribution operation, in the same
/// way, for a stake-distribution value.
pub fn decode_stake_distribution(outcome: Result<String, String>) -> (r: Result<
    StakeDistributionInfo,
    RestError,
>)
    ensures
        match outcome {
            Err(e) => r == Err::<StakeDistributionInfo, RestError>(
                RestError::SendRequestError(e),
            ),
            Ok(body) => match json_of(body@) {
                None => r matches Err(RestError::CannotDeserialize(_)),
                Some(j) => if stake_conforms(j) {
                    r matches Ok(v) && v@ == stake_model_of(j)
                } else {
                    r matches Err(RestError::CannotDeserialize(d)) && d@
                        == schema_mismatch_detail()
                },
            },
        },
{
    let body = match outcome {
        Ok(body) => body,
        Err(e) => {
            return Err(RestError::SendRequestError(e));
        },
    };
    let j = match parse_json(body.as_str()) {
        Ok(j) => j,
        Err(detail) => {
            return Err(RestError::CannotDeserialize(detail));
        },
    };
    match stake_distribution_from_json(&j) {
        Some(info) => Ok(info),
        None => Err(RestError::CannotDeserialize(schema_detail())),
    }
}

} // verus!
