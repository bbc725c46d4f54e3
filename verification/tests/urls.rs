use jormungandr_rest::ClientConfig;
use jormungandr_rest::JormungandrRest;

fn client(base: &str) -> JormungandrRest {
    JormungandrRest::new(ClientConfig::new(base.to_string()))
}

#[test]
fn epoch_reward_history_url_is_exact() {
    let rest = client("http://127.0.0.1:8080");
    assert_eq!(
        rest.epoch_reward_history_url(5),
        "http://127.0.0.1:8080/v0/rewards/epoch/5"
    );
}

#[test]
fn epoch_reward_history_url_zero_epoch() {
    let rest = client("http://node.local:3100");
    assert_eq!(
        rest.epoch_reward_history_url(0),
        "http://node.local:3100/v0/rewards/epoch/0"
    );
}

#[test]
fn epoch_reward_history_url_largest_epoch() {
    let rest = client("http://127.0.0.1:8080");
    assert_eq!(
        rest.epoch_reward_history_url(u32::MAX),
        "http://127.0.0.1:8080/v0/rewards/epoch/4294967295"
    );
}

#[test]
fn reward_history_url_is_exact() {
    let rest = client("http://127.0.0.1:8080");
    assert_eq!(
        rest.reward_history_url(30),
        "http://127.0.0.1:8080/v0/rewards/history/30"
    );
}

#[test]
fn stake_distribution_url_is_exact() {
    let rest = client("http://127.0.0.1:8080");
    assert_eq!(rest.stake_distribution_url(), "http://127.0.0.1:8080/v0/stake");
}

#[test]
fn stake_distribution_at_url_is_exact() {
    let rest = client("http://127.0.0.1:8080");
    assert_eq!(
        rest.stake_distribution_at_url(12),
        "http://127.0.0.1:8080/v0/stake/12"
    );
}

#[test]
fn full_url_joins_with_one_slash_each_side() {
    let rest = client("http://127.0.0.1:8080");
    assert_eq!(rest.full_url("rewards/epoch/7"), "http://127.0.0.1:8080/v0/rewards/epoch/7");
}

#[test]
fn node_address_is_kept_as_given() {
    let config = ClientConfig::new("10.0.0.1:9001".to_string());
    assert_eq!(config.node_address(), "10.0.0.1:9001");
}
