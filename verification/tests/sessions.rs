use sqrwallet::address::derive_address;
use sqrwallet::keyfile::{load_pubkey, seal_wallet};
use sqrwallet::server::{allowed_origins, Header, Method};
use sqrwallet::session::{step, Action, Event, Site, State};
use sqrwallet::wallet::{recovery_phrase, seed_from_phrase};

fn site() -> Site {
    Site {
        token: "tok".to_string(),
        allowed: allowed_origins(8088),
        chain_id: "sequora-wasm".to_string(),
        rest: "http://node/".to_string(),
        html: "<i>__CSRF_TOKEN__</i>".to_string(),
    }
}

fn wallet() -> Option<String> {
    Some(seal_wallet(&[7; 32], "pw", &[1; 16], &[2; 12]).ok().unwrap().data)
}

fn arrived(method: Method, url: &str, token: bool) -> Event {
    let headers = if token {
        vec![Header { name: "X-Sequora-Token".to_string(), value: "tok".to_string() }]
    } else {
        vec![]
    };
    Event::Arrived { method, url: url.to_string(), headers }
}

fn posted(url: &str, body: &str) -> (State, Action) {
    let (state, action) = step(&site(), State::Start, arrived(Method::Post, url, true));
    assert!(matches!(action, Action::ReadBody));
    step(&site(), state, Event::Body { text: body.to_string() })
}

fn reply((state, action): (State, Action)) -> (u16, String) {
    assert!(matches!(state, State::Done));
    match action {
        Action::Respond { reply } => (reply.status, reply.body),
        _ => panic!("no reply"),
    }
}

fn asked((state, action): (State, Action)) -> (State, String) {
    match action {
        Action::Get { url } => (state, url),
        _ => panic!("nothing asked"),
    }
}

fn answer(s: &str) -> Event {
    Event::Answer { body: Some(s.to_string()) }
}

#[test]
fn the_page_is_sent_to_anyone() {
    let r = reply(step(&site(), State::Start, arrived(Method::Get, "/", false)));
    assert_eq!(r, (200, "<i>tok</i>".to_string()));
}

#[test]
fn without_the_token_nothing_is_touched() {
    for (m, u) in [(Method::Get, "/api/info"), (Method::Post, "/api/send"), (Method::Post, "/api/new")] {
        let r = reply(step(&site(), State::Start, arrived(m, u, false)));
        assert_eq!(r, (403, "{\"error\":\"forbidden\"}".to_string()));
    }
    let (state, action) = step(&site(), State::Start, arrived(Method::Post, "/x", false));
    assert!(matches!(action, Action::ReadBody));
    assert_eq!(reply(step(&site(), state, Event::Body { text: String::new() })).0, 404);
}

#[test]
fn unknown_addresses_are_not_found() {
    let r = reply(step(&site(), State::Start, arrived(Method::Get, "/x", false)));
    assert_eq!(r, (404, "not found".to_string()));
    assert_eq!(reply(posted("/api/unstake", "{}")).0, 404);
    assert_eq!(reply(step(&site(), State::Start, arrived(Method::Other, "/", true))).0, 404);
}

#[test]
fn events_out_of_order_end_in_failure() {
    let failed = (500, "{\"error\":\"wrong password or internal error\"}".to_string());
    assert_eq!(reply(step(&site(), State::Start, Event::Key { data: None })), failed);
    assert_eq!(reply(step(&site(), State::ActionSend, answer("x"))), failed);
    assert_eq!(reply(step(&site(), State::Done, answer("x"))), failed);
}

#[test]
fn shows_what_the_chain_answers() {
    let data = wallet();
    let addr = derive_address(&load_pubkey(&data).unwrap());
    let (state, action) = step(&site(), State::Start, arrived(Method::Get, "/api/info", true));
    assert!(matches!(action, Action::ReadKey));
    let (state, url) = asked(step(&site(), state, Event::Key { data }));
    assert_eq!(url, format!("http://node/cosmos/bank/v1beta1/balances/{addr}"));
    let balances = "{\"balances\":[{\"denom\":\"usqr\",\"amount\":\"5\"}]}";
    let (state, url) = asked(step(&site(), state, answer(balances)));
    assert_eq!(url, "http://node/cosmos/staking/v1beta1/validators?pagination.limit=200");
    let (state, url) = asked(step(&site(), state, Event::Answer { body: None }));
    assert_eq!(url, format!("http://node/cosmos/staking/v1beta1/delegations/{addr}"));
    let (state, url) = asked(step(&site(), state, answer("{}")));
    assert_eq!(url, format!("http://node/cosmos/distribution/v1beta1/delegators/{addr}/rewards"));
    let rewards = "{\"total\":[{\"denom\":\"usqr\",\"amount\":\"7.9\"}]}";
    let (status, body) = reply(step(&site(), state, answer(rewards)));
    assert_eq!(status, 200);
    let v: serde_json::Value = serde_json::from_str(&body).unwrap();
    assert_eq!(v["address"], addr);
    assert_eq!(v["balance"], "5");
    assert_eq!(v["rewards"], "7");
    assert_eq!(v["myvalidator"]["exists"], false);
}

#[test]
fn nothing_is_shown_without_a_wallet() {
    let (state, _) = step(&site(), State::Start, arrived(Method::Get, "/api/info", true));
    assert_eq!(reply(step(&site(), state, Event::Key { data: None })).0, 500);
}

#[test]
fn unlocks() {
    let (state, action) = posted("/api/unlock", "{\"password\":\"pw\"}");
    assert!(matches!(action, Action::ReadKey));
    assert_eq!(reply(step(&site(), state, Event::Key { data: wallet() })).1, "{\"ok\":true}");
}

#[test]
fn a_new_wallet_is_saved_and_its_phrase_shown() {
    let (state, action) = posted("/api/new", "{\"password\":\"pw\"}");
    let seed = match action {
        Action::Save { seed, password } => {
            assert_eq!(password, "pw");
            seed
        }
        _ => panic!("nothing saved"),
    };
    let saved = Event::Saved { saved: Some(Ok("sqr1a".to_string())) };
    let (status, body) = reply(step(&site(), state, saved));
    assert_eq!(status, 200);
    let v: serde_json::Value = serde_json::from_str(&body).unwrap();
    assert_eq!(v["ok"], true);
    assert_eq!(v["address"], "sqr1a");
    let phrase = v["mnemonic"].as_str().unwrap();
    assert_eq!(seed_from_phrase(phrase), Ok(seed));
    let restore = format!("{{\"mnemonic\":\"{phrase}\",\"password\":\"other\"}}");
    match posted("/api/restore", &restore).1 {
        Action::Save { seed: again, password } => {
            assert_eq!(again, seed);
            assert_eq!(password, "other");
        }
        _ => panic!("nothing saved"),
    }
}

#[test]
fn a_restored_wallet_is_saved() {
    let body = format!("{{\"mnemonic\":\"{}\",\"password\":\"pw\"}}", recovery_phrase(&[4; 32]));
    let (state, action) = posted("/api/restore", &body);
    assert!(matches!(action, Action::Save { seed: [4, ..], .. }));
    let refused = Event::Saved { saved: Some(Err("no".to_string())) };
    assert_eq!(reply(step(&site(), state, refused)), (200, "{\"error\":\"no\",\"ok\":false}".to_string()));
    let (state, _) = posted("/api/restore", &body);
    assert_eq!(reply(step(&site(), state, Event::Saved { saved: None })).0, 500);
}

#[test]
fn a_transaction_is_signed_and_sent() {
    let data = wallet();
    let addr = derive_address(&load_pubkey(&data).unwrap());
    let (state, action) = posted("/api/send", "{\"to\":\"sqr1t\",\"amount\":\"5\",\"password\":\"pw\"}");
    assert!(matches!(action, Action::ReadKey));
    let (state, url) = asked(step(&site(), state, Event::Key { data }));
    assert_eq!(url, format!("http://node/cosmos/auth/v1beta1/accounts/{addr}"));
    let (state, action) = step(&site(), state, answer("{\"account\":{\"sequence\":\"2\"}}"));
    match action {
        Action::Post { url, body } => {
            assert_eq!(url, "http://node/cosmos/tx/v1beta1/txs");
            assert!(body.starts_with("{\"mode\":\"BROADCAST_MODE_SYNC\",\"tx_bytes\":\""));
        }
        _ => panic!("nothing sent"),
    }
    let sent = Event::Sent { sent: Ok("{\"tx_response\":{\"code\":0,\"txhash\":\"AB\"}}".to_string()) };
    let r = reply(step(&site(), state, sent));
    assert_eq!(r, (200, "{\"code\":0,\"log\":\"\",\"txhash\":\"AB\"}".to_string()));
}

#[test]
fn a_wrong_password_sends_nothing() {
    let (state, _) = posted("/api/send", "{\"to\":\"sqr1t\",\"amount\":\"5\",\"password\":\"no\"}");
    let r = reply(step(&site(), state, Event::Key { data: wallet() }));
    assert_eq!(r, (500, "{\"error\":\"wrong password or internal error\"}".to_string()));
}

#[test]
fn an_account_that_is_not_known_ends_a_transaction() {
    for body in [None, Some("no json".to_string())] {
        let (state, _) = posted("/api/unjail", "{\"password\":\"pw\"}");
        let (state, _) = asked(step(&site(), state, Event::Key { data: wallet() }));
        assert_eq!(reply(step(&site(), state, Event::Answer { body })).0, 500);
    }
}

#[test]
fn a_transaction_that_is_not_sent_says_why() {
    let sent = Event::Sent { sent: Err("timed out".to_string()) };
    let r = reply(step(&site(), State::ActionSend, sent));
    assert_eq!(r, (200, "{\"error\":\"broadcast: timed out\"}".to_string()));
}
