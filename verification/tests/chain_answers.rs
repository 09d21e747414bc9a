use sqrwallet::address::{derive_address, derive_valoper};
use sqrwallet::chain;
use sqrwallet::chain::Answers;

fn answers(balances: &str, validators: &str, delegations: &str, rewards: &str) -> Answers {
    Answers {
        balances: Some(balances.to_string()),
        validators: Some(validators.to_string()),
        delegations: Some(delegations.to_string()),
        rewards: Some(rewards.to_string()),
    }
}

#[test]
fn builds_addresses_at_the_rest_interface() {
    assert_eq!(chain::balances_url("http://n//", "a"), "http://n/cosmos/bank/v1beta1/balances/a");
    assert_eq!(chain::account_url("http://n", "a"), "http://n/cosmos/auth/v1beta1/accounts/a");
    assert_eq!(
        chain::validators_url("http://n/"),
        "http://n/cosmos/staking/v1beta1/validators?pagination.limit=200"
    );
    assert_eq!(chain::delegations_url("http://n", "a"), "http://n/cosmos/staking/v1beta1/delegations/a");
    assert_eq!(
        chain::rewards_url("http://n", "a"),
        "http://n/cosmos/distribution/v1beta1/delegators/a/rewards"
    );
}

#[test]
fn reads_the_account() {
    let a = chain::read_account("{\"account\":{\"account_number\":\"12\",\"sequence\":\"7\"}}").unwrap();
    assert_eq!((a.number, a.sequence), (12, 7));
    let a = chain::read_account("{\"account\":{\"account_number\":12,\"sequence\":\"x\"}}").unwrap();
    assert_eq!((a.number, a.sequence), (0, 0));
    let a = chain::read_account("{}").unwrap();
    assert_eq!((a.number, a.sequence), (0, 0));
    assert!(chain::read_account("").is_none());
}

#[test]
fn reads_balances() {
    let b = chain::read_balances("{\"balances\":[{\"amount\":\"5\",\"denom\":\"usqr\"},{\"amount\":7},{\"denom\":\"x\"}]}");
    let shown: Vec<(&str, &str)> = b.iter().map(|b| (b.amount.as_str(), b.denom.as_str())).collect();
    assert_eq!(shown, vec![("5", "usqr"), ("?", "?"), ("?", "x")]);
    assert!(chain::read_balances("no json").is_empty());
    assert!(chain::read_balances("{\"balances\":{}}").is_empty());
}

#[test]
fn shows_a_wallet_without_a_chain() {
    let none = Answers { balances: None, validators: None, delegations: None, rewards: None };
    let (addr, valoper) = (derive_address(b"abc"), derive_valoper(b"abc"));
    let expected = format!(
        "{{\"address\":\"{addr}\",\"balance\":\"0\",\"delegations\":[],\"myvalidator\":{{\"exists\":false}},\"myvaloper\":\"{valoper}\",\"rewards\":\"0\",\"validators\":[]}}"
    );
    assert_eq!(chain::info_json(b"abc", &none), expected);
    assert_eq!(chain::info_json(b"abc", &answers("x", "[]", "{}", "3")), expected);
}

#[test]
fn shows_balance_and_rewards_in_usqr() {
    let text = chain::info_json(
        b"abc",
        &answers(
            "{\"balances\":[{\"denom\":\"atom\",\"amount\":\"1\"},{\"denom\":\"usqr\",\"amount\":\"99\"},{\"denom\":\"usqr\",\"amount\":\"98\"}]}",
            "{}",
            "{}",
            "{\"total\":[{\"denom\":\"usqr\",\"amount\":\"123.456\"}]}",
        ),
    );
    let v: serde_json::Value = serde_json::from_str(&text).unwrap();
    assert_eq!(v["balance"], "99");
    assert_eq!(v["rewards"], "123");
}

#[test]
fn an_amount_that_is_no_text_counts_as_none() {
    let text = chain::info_json(
        b"abc",
        &answers(
            "{\"balances\":[{\"denom\":\"usqr\",\"amount\":1},{\"denom\":\"usqr\",\"amount\":\"2\"}]}",
            "{}",
            "{}",
            "{\"total\":[{\"denom\":\"usqr\"}]}",
        ),
    );
    let v: serde_json::Value = serde_json::from_str(&text).unwrap();
    assert_eq!(v["balance"], "0");
    assert_eq!(v["rewards"], "0");
}

#[test]
fn shows_validators_and_the_wallets_own() {
    let valoper = derive_valoper(b"abc");
    let validators = format!(
        "{{\"validators\":[{{\"operator_address\":\"sqrvaloper1x\",\"tokens\":\"1\"}},{{\"operator_address\":\"{valoper}\",\"tokens\":\"2\",\"jailed\":true,\"status\":\"BONDED\",\"description\":{{\"moniker\":\"me\"}},\"commission\":{{\"commission_rates\":{{\"rate\":\"0.1\"}}}}}}]}}"
    );
    let text = chain::info_json(b"abc", &answers("{}", &validators, "{}", "{}"));
    let v: serde_json::Value = serde_json::from_str(&text).unwrap();
    let list = v["validators"].as_array().unwrap();
    assert_eq!(list.len(), 2);
    assert_eq!(list[0]["valoper"], "sqrvaloper1x");
    assert_eq!(list[0]["tokens"], "1");
    assert!(list[0]["moniker"].is_null() && list[0]["jailed"].is_null());
    assert_eq!(list[0].as_object().unwrap().len(), 6);
    assert_eq!(list[1]["commission"], "0.1");
    assert_eq!(list[1]["jailed"], true);
    let own = &v["myvalidator"];
    assert_eq!(own["exists"], true);
    assert_eq!(own["moniker"], "me");
    assert_eq!(own["tokens"], "2");
    assert_eq!(own["status"], "BONDED");
    assert!(own.get("valoper").is_none());
    assert_eq!(v["myvaloper"], valoper);
}

#[test]
fn shows_delegations() {
    let delegations = "{\"delegation_responses\":[{\"delegation\":{\"validator_address\":\"v\"},\"balance\":{\"amount\":\"3\"}},{}]}";
    let text = chain::info_json(b"abc", &answers("{}", "{}", delegations, "{}"));
    let v: serde_json::Value = serde_json::from_str(&text).unwrap();
    let list = v["delegations"].as_array().unwrap();
    assert_eq!(list.len(), 2);
    assert_eq!(list[0].to_string(), "{\"amount\":\"3\",\"valoper\":\"v\"}");
    assert_eq!(list[1].to_string(), "{\"amount\":null,\"valoper\":null}");
}
