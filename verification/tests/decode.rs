use jormungandr_rest::RestError;
use jormungandr_rest::client::decode_epoch_reward_history;
use jormungandr_rest::client::decode_raw;
use jormungandr_rest::client::decode_reward_history;
use jormungandr_rest::client::decode_stake_distribution;

fn ok(body: &str) -> Result<String, String> {
    Ok(body.to_string())
}

fn transport_failure() -> Result<String, String> {
    Err("connection refused".to_string())
}

#[test]
fn transport_failure_is_send_request_error_everywhere() {
    let expected = RestError::SendRequestError("connection refused".to_string());
    assert_eq!(decode_raw(transport_failure()), Err(expected.clone()));
    assert_eq!(decode_epoch_reward_history(transport_failure()), Err(expected.clone()));
    assert_eq!(decode_reward_history(transport_failure()), Err(expected.clone()));
    assert_eq!(decode_stake_distribution(transport_failure()), Err(expected));
}

#[test]
fn invalid_json_is_cannot_deserialize_everywhere() {
    assert!(matches!(
        decode_epoch_reward_history(ok("not json")),
        Err(RestError::CannotDeserialize(_))
    ));
    assert!(matches!(
        decode_reward_history(ok("not json")),
        Err(RestError::CannotDeserialize(_))
    ));
    assert!(matches!(
        decode_stake_distribution(ok("not json")),
        Err(RestError::CannotDeserialize(_))
    ));
}

#[test]
fn raw_body_is_returned_even_when_not_json() {
    assert_eq!(decode_raw(ok("not json")), Ok("not json".to_string()));
}

#[test]
fn epoch_rewards_round_trip() {
    let got = decode_epoch_reward_history(ok(r#"{"epoch":5,"value":"0","treasury":"0"}"#))
        .expect("a conformant body must decode");
    assert_eq!(got.epoch, 5);
    assert_eq!(got.value, "0");
    assert_eq!(got.treasury, "0");
    assert_eq!(got.stake_pools, Vec::new());
    assert_eq!(got.accounts, Vec::new());
}

#[test]
fn epoch_rewards_with_breakdowns() {
    let body = r#"{
        "accounts": {"acct1": "7"},
        "epoch": 42,
        "extra": null,
        "stake_pools": {"pool1": "10", "pool2": "20"},
        "treasury": "33",
        "value": "100"
    }"#;
    let got = decode_epoch_reward_history(ok(body)).expect("a conformant body must decode");
    assert_eq!(got.epoch, 42);
    assert_eq!(got.value, "100");
    assert_eq!(got.treasury, "33");
    assert_eq!(
        got.stake_pools,
        vec![("pool1".to_string(), "10".to_string()), ("pool2".to_string(), "20".to_string())]
    );
    assert_eq!(got.accounts, vec![("acct1".to_string(), "7".to_string())]);
}

#[test]
fn epoch_rewards_missing_field_is_cannot_deserialize() {
    assert!(matches!(
        decode_epoch_reward_history(ok(r#"{"epoch":5,"value":"0"}"#)),
        Err(RestError::CannotDeserialize(_))
    ));
}

#[test]
fn epoch_rewards_epoch_too_large_is_cannot_deserialize() {
    assert!(matches!(
        decode_epoch_reward_history(ok(r#"{"epoch":4294967296,"value":"0","treasury":"0"}"#)),
        Err(RestError::CannotDeserialize(_))
    ));
}

#[test]
fn epoch_rewards_negative_epoch_is_cannot_deserialize() {
    assert!(matches!(
        decode_epoch_reward_history(ok(r#"{"epoch":-1,"value":"0","treasury":"0"}"#)),
        Err(RestError::CannotDeserialize(_))
    ));
}

#[test]
fn epoch_rewards_numeric_amount_is_cannot_deserialize() {
    assert!(matches!(
        decode_epoch_reward_history(ok(r#"{"epoch":5,"value":0,"treasury":"0"}"#)),
        Err(RestError::CannotDeserialize(_))
    ));
}

#[test]
fn epoch_rewards_breakdown_of_wrong_shape_is_cannot_deserialize() {
    assert!(matches!(
        decode_epoch_reward_history(
            ok(r#"{"epoch":5,"value":"0","treasury":"0","stake_pools":[1,2]}"#)
        ),
        Err(RestError::CannotDeserialize(_))
    ));
}

#[test]
fn reward_history_decodes_each_element() {
    let body = r#"[
        {"epoch":9,"value":"5","treasury":"1"},
        {"epoch":8,"value":"4","treasury":"2"}
    ]"#;
    let got = decode_reward_history(ok(body)).expect("a conformant body must decode");
    assert_eq!(got.len(), 2);
    assert_eq!(got[0].epoch, 9);
    assert_eq!(got[0].value, "5");
    assert_eq!(got[1].epoch, 8);
    assert_eq!(got[1].treasury, "2");
}

#[test]
fn reward_history_empty_array_decodes() {
    let got = decode_reward_history(ok("[]")).expect("an empty array must decode");
    assert_eq!(got, Vec::new());
}

#[test]
fn reward_history_with_one_bad_element_is_cannot_deserialize() {
    let body = r#"[{"epoch":9,"value":"5","treasury":"1"}, {"epoch":8}]"#;
    assert!(matches!(
        decode_reward_history(ok(body)),
        Err(RestError::CannotDeserialize(_))
    ));
}

#[test]
fn reward_history_object_body_is_cannot_deserialize() {
    assert!(matches!(
        decode_reward_history(ok(r#"{"epoch":9,"value":"5","treasury":"1"}"#)),
        Err(RestError::CannotDeserialize(_))
    ));
}

#[test]
fn stake_distribution_decodes() {
    let body = r#"{"epoch":3,"total":"1000","pools":{"pool1":"600","pool2":"400"}}"#;
    let got = decode_stake_distribution(ok(body)).expect("a conformant body must decode");
    assert_eq!(got.epoch, 3);
    assert_eq!(got.total, "1000");
    assert_eq!(
        got.pools,
        vec![("pool1".to_string(), "600".to_string()), ("pool2".to_string(), "400".to_string())]
    );
}

#[test]
fn stake_distribution_without_pools_decodes_to_empty() {
    let got = decode_stake_distribution(ok(r#"{"epoch":0,"total":"0"}"#))
        .expect("a conformant body must decode");
    assert_eq!(got.epoch, 0);
    assert_eq!(got.total, "0");
    assert_eq!(got.pools, Vec::new());
}

#[test]
fn stake_distribution_missing_total_is_cannot_deserialize() {
    assert!(matches!(
        decode_stake_distribution(ok(r#"{"epoch":3}"#)),
        Err(RestError::CannotDeserialize(_))
    ));
}

#[test]
fn error_detail_is_kept() {
    match decode_raw(transport_failure()) {
        Err(e) => assert_eq!(e.detail(), "connection refused"),
        Ok(_) => panic!("a transport failure must not decode to a body"),
    }
}
