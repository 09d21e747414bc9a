use sqrwallet::address::{derive_address, derive_valoper};
use sqrwallet::keyfile::{seal_wallet, KeyError};
use sqrwallet::server;
use sqrwallet::server::{ActionStep, Header, Method, NewStep, Reply, RestoreStep, Task};
use sqrwallet::tx;
use sqrwallet::wallet::{recovery_phrase, seed_from_phrase};

fn headers(list: &[(&str, &str)]) -> Vec<Header> {
    list.iter().map(|(n, v)| Header { name: n.to_string(), value: v.to_string() }).collect()
}

fn parts(r: &Reply) -> (u16, &str, &str) {
    (r.status, r.content_type.as_str(), r.body.as_str())
}

fn admitted(url: &str, list: &[(&str, &str)]) -> bool {
    server::is_admitted(url, &headers(list), "tok", &server::allowed_origins(8088))
}

fn kind(method: Method, url: &str) -> String {
    match server::route(method, url) {
        Task::Page => "page".to_string(),
        Task::Info => "info".to_string(),
        Task::Unlock => "unlock".to_string(),
        Task::New => "new".to_string(),
        Task::Restore => "restore".to_string(),
        Task::Act { kind } => format!("act {kind}"),
        Task::NotFound => "nothing".to_string(),
    }
}

#[test]
fn compares_tokens() {
    assert!(server::ct_eq("", ""));
    assert!(server::ct_eq("abc", "abc"));
    assert!(!server::ct_eq("abc", "abd"));
    assert!(!server::ct_eq("xbc", "abc"));
    assert!(!server::ct_eq("abc", "abcd"));
    assert!(!server::ct_eq("\u{e9}", "e"));
    assert!(server::ct_eq("\u{e9}", "\u{e9}"));
}

#[test]
fn finds_the_first_header_of_a_name() {
    let h = headers(&[("Host", "a"), ("x-token", "1"), ("X-Token", "2")]);
    assert_eq!(server::header_value(&h, "X-TOKEN"), Some("1".to_string()));
    assert_eq!(server::header_value(&h, "host"), Some("a".to_string()));
    assert_eq!(server::header_value(&h, "Origin"), None);
    assert_eq!(server::header_value(&headers(&[]), "Origin"), None);
}

#[test]
fn listens_at_this_machine_only() {
    assert_eq!(server::bind_address(8088), "127.0.0.1:8088");
    assert_eq!(
        server::allowed_origins(80),
        vec!["http://localhost:80".to_string(), "http://127.0.0.1:80".to_string()]
    );
    assert_eq!(server::MAX_BODY, 64 * 1024);
}

#[test]
fn the_interface_needs_the_token() {
    assert!(!admitted("/api/info", &[]));
    assert!(!admitted("/api/info", &[("X-Sequora-Token", "to")]));
    assert!(!admitted("/api/info", &[("X-Sequora-Token", "no"), ("X-Sequora-Token", "tok")]));
    assert!(admitted("/api/info", &[("x-sequora-token", "tok")]));
    assert!(!admitted("/api/", &[]));
}

#[test]
fn the_page_needs_no_token() {
    assert!(admitted("/", &[]));
    assert!(admitted("/api", &[("Origin", "http://evil")]));
    assert!(admitted("/x/api/", &[]));
}

#[test]
fn a_foreign_origin_is_refused() {
    let with = |o: &str| admitted("/api/send", &[("X-Sequora-Token", "tok"), ("Origin", o)]);
    assert!(with("http://localhost:8088"));
    assert!(with("http://127.0.0.1:8088"));
    assert!(!with("http://localhost:8089"));
    assert!(!with("https://localhost:8088"));
    assert!(!with("http://localhost:8088/"));
    assert!(!with("null"));
    assert!(!with(""));
}

#[test]
fn a_stored_token_is_kept() {
    let token = "0123456789abcdefABCDEF0123456789abcdefABCDEF0123456789abcdef0123";
    assert_eq!(token.len(), 64);
    let t = server::load_or_create_token(&Some(format!(" {token}\n"))).unwrap();
    assert_eq!(t.token, token);
    assert!(!t.fresh);
}

#[test]
fn a_token_that_cannot_be_used_is_replaced() {
    let short = "0".repeat(63);
    let long = "0".repeat(65);
    let odd = format!("{}g", "0".repeat(63));
    let wide = format!("{}\u{e9}", "0".repeat(62));
    for stored in [None, Some(short), Some(long), Some(odd), Some(wide), Some(String::new())] {
        let t = server::load_or_create_token(&stored).unwrap();
        assert!(t.fresh);
        assert_eq!(t.token.len(), 64);
        let again = server::load_or_create_token(&Some(t.token.clone())).unwrap();
        assert_eq!(again.token, t.token);
        assert!(!again.fresh);
    }
}

#[test]
fn tokens_are_random() {
    let a = server::load_or_create_token(&None).unwrap().token;
    let b = server::load_or_create_token(&None).unwrap().token;
    assert_ne!(a, b);
    assert_eq!(hex::decode(&a).unwrap().len(), 32);
}

#[test]
fn routes_requests() {
    assert_eq!(kind(Method::Get, "/"), "page");
    assert_eq!(kind(Method::Get, "/api/info"), "info");
    assert_eq!(kind(Method::Post, "/api/unlock"), "unlock");
    assert_eq!(kind(Method::Post, "/api/new"), "new");
    assert_eq!(kind(Method::Post, "/api/restore"), "restore");
    assert_eq!(kind(Method::Post, "/api/send"), "act send");
    assert_eq!(kind(Method::Post, "/api/stake"), "act stake");
    assert_eq!(kind(Method::Post, "/api/claim"), "act claim");
    assert_eq!(kind(Method::Post, "/api/unjail"), "act unjail");
    assert_eq!(kind(Method::Post, "/api/withdraw-commission"), "act withdrawcommission");
}

#[test]
fn other_requests_ask_for_nothing() {
    for (m, u) in [
        (Method::Post, "/"),
        (Method::Post, "/api/info"),
        (Method::Get, "/api/send"),
        (Method::Get, "/api/unlock"),
        (Method::Other, "/"),
        (Method::Other, "/api/send"),
        (Method::Get, "/index.html"),
        (Method::Get, "/?x"),
        (Method::Post, "/api/unstake"),
    ] {
        assert_eq!(kind(m, u), "nothing");
    }
}

#[test]
fn fixed_replies() {
    assert_eq!(parts(&server::forbidden()), (403, "application/json", "{\"error\":\"forbidden\"}"));
    assert_eq!(parts(&server::not_found()), (404, "text/plain", "not found"));
    assert_eq!(
        parts(&server::internal_error()),
        (500, "application/json", "{\"error\":\"wrong password or internal error\"}")
    );
}

#[test]
fn the_page_carries_the_token() {
    let r = server::page("<a __CSRF_TOKEN__><b __CSRF_TOKEN__>", "tok");
    assert_eq!(parts(&r), (200, "text/html", "<a tok><b tok>"));
}

#[test]
fn replies_have_their_headers() {
    let names = |r: &Reply| -> Vec<(String, String)> {
        server::reply_headers(r).into_iter().map(|h| (h.name, h.value)).collect()
    };
    let page = names(&server::page("", "t"));
    assert_eq!(page[0], ("Content-Type".to_string(), "text/html".to_string()));
    assert_eq!(page[1], ("Cache-Control".to_string(), "no-store, must-revalidate".to_string()));
    assert_eq!(page[2].0, "Content-Security-Policy");
    assert_eq!(
        page[2].1,
        "default-src 'self'; script-src 'self' 'unsafe-inline'; style-src 'self' 'unsafe-inline'; connect-src 'self'; img-src 'self' data:"
    );
    assert_eq!(page.len(), 3);
    assert_eq!(
        names(&server::forbidden()),
        vec![("Content-Type".to_string(), "application/json".to_string())]
    );
}

#[test]
fn unlocks_with_the_right_password_only() {
    let data = Some(seal_wallet(&[1; 32], "pw", &[1; 16], &[2; 12]).ok().unwrap().data);
    let reply = |body: &str| server::api_unlock(body, &data).body;
    assert_eq!(reply("{\"password\":\"pw\"}"), "{\"ok\":true}");
    assert_eq!(reply("{\"password\":\"pW\"}"), "{\"ok\":false,\"error\":\"wrong password\"}");
    assert_eq!(reply("{\"password\":\"\"}"), "{\"ok\":false,\"error\":\"enter your password\"}");
    assert_eq!(reply("{\"password\":7}"), "{\"ok\":false,\"error\":\"enter your password\"}");
    assert_eq!(reply("garbage"), "{\"ok\":false,\"error\":\"enter your password\"}");
    let r = server::api_unlock("{\"password\":\"pw\"}", &None);
    assert_eq!(parts(&r), (200, "application/json", "{\"ok\":false,\"error\":\"wrong password\"}"));
}

#[test]
fn a_new_wallet_needs_a_password() {
    match server::api_new("{}") {
        Some(NewStep::Answer { reply }) => assert_eq!(
            parts(&reply),
            (200, "application/json", "{\"ok\":false,\"error\":\"a password is required\"}")
        ),
        _ => panic!("taken"),
    }
    match server::api_new("{\"password\":\"pw\"}") {
        Some(NewStep::Save { password, new }) => {
            assert_eq!(password, "pw");
            assert_eq!(seed_from_phrase(&new.phrase), Ok(new.seed));
        }
        _ => panic!("refused"),
    }
}

#[test]
fn restoring_needs_a_phrase_and_a_password() {
    let body = |r: RestoreStep| match r {
        RestoreStep::Answer { reply } => {
            assert_eq!((reply.status, reply.content_type.as_str()), (200, "application/json"));
            reply.body
        }
        RestoreStep::Save { .. } => panic!("taken"),
    };
    let both = "{\"ok\":false,\"error\":\"recovery phrase and a new password are both required\"}";
    assert_eq!(body(server::api_restore("{}")), both);
    assert_eq!(body(server::api_restore("{\"mnemonic\":\" \\n\",\"password\":\"pw\"}")), both);
    assert_eq!(body(server::api_restore("{\"mnemonic\":\"abandon\"}")), both);
    assert_eq!(
        body(server::api_restore("{\"mnemonic\":\"abandon\",\"password\":\"pw\"}")),
        "{\"ok\":false,\"error\":\"invalid recovery phrase — check the words and order\"}"
    );
    let twelve = format!("{{\"mnemonic\":\"{}about\",\"password\":\"pw\"}}", "abandon ".repeat(11));
    assert_eq!(
        body(server::api_restore(&twelve)),
        "{\"ok\":false,\"error\":\"expected a 24-word recovery phrase\"}"
    );
}

#[test]
fn restoring_takes_a_phrase() {
    let request = format!("{{\"mnemonic\":\"  {} \",\"password\":\"pw\"}}", recovery_phrase(&[3; 32]));
    match server::api_restore(&request) {
        RestoreStep::Save { password, seed } => {
            assert_eq!(password, "pw");
            assert_eq!(seed, [3; 32]);
        }
        RestoreStep::Answer { .. } => panic!("refused"),
    }
}

#[test]
fn replies_to_saving() {
    let saved = Ok("sqr1a".to_string());
    let r = server::saved_reply(&saved, &Some("a b".to_string()));
    assert_eq!(
        parts(&r),
        (200, "application/json", "{\"address\":\"sqr1a\",\"mnemonic\":\"a b\",\"ok\":true}")
    );
    let r = server::saved_reply(&saved, &None);
    assert_eq!(r.body, "{\"address\":\"sqr1a\",\"ok\":true}");
    let r = server::saved_reply(&Err("no \"room\"".to_string()), &Some("a b".to_string()));
    assert_eq!(r.body, "{\"error\":\"no \\\"room\\\"\",\"ok\":false}");
}

fn order(body: &str, kind: &str) -> (tx::Order, String) {
    match server::api_action(body, &Some("{\"pubkey\":\"616263\"}".to_string()), kind) {
        Ok(ActionStep::Broadcast { order, password }) => (order, password),
        _ => panic!("no order"),
    }
}

fn same(a: &tx::Order, b: &tx::Order) -> bool {
    a.type_url == b.type_url && a.value == b.value && a.gas == b.gas && a.fee == b.fee
}

#[test]
fn takes_orders() {
    let (from, own) = (derive_address(b"abc"), derive_valoper(b"abc"));
    let body = "{\"to\":\"sqr1t\",\"valoper\":\"sqrvaloper1v\",\"amount\":\"9\",\"password\":\"pw\"}";
    assert!(same(&order(body, "send").0, &tx::send_order(&from, "sqr1t", "9")));
    assert!(same(&order(body, "stake").0, &tx::stake_order(&from, "sqrvaloper1v", "9")));
    assert!(same(&order(body, "claim").0, &tx::claim_order(&from, "sqrvaloper1v")));
    assert!(same(&order(body, "unjail").0, &tx::unjail_order(&own)));
    assert!(same(&order(body, "withdrawcommission").0, &tx::withdraw_commission_order(&own)));
    assert_eq!(order(body, "send").1, "pw");
}

#[test]
fn what_an_order_lacks_is_empty() {
    let from = derive_address(b"abc");
    assert!(same(&order("{\"amount\":9}", "send").0, &tx::send_order(&from, "", "0")));
    assert_eq!(order("nonsense", "stake").1, "");
}

#[test]
fn operator_orders_are_always_the_wallets_own() {
    let a = order("{\"valoper\":\"sqrvaloper1other\"}", "unjail").0;
    let b = order("{}", "unjail").0;
    assert!(same(&a, &b));
}

#[test]
fn unknown_actions_are_refused() {
    let data = Some("{\"pubkey\":\"616263\"}".to_string());
    match server::api_action("{}", &data, "mint") {
        Ok(ActionStep::Answer { reply }) => assert_eq!(
            parts(&reply),
            (400, "application/json", "{\"error\":\"unknown action\"}")
        ),
        _ => panic!("taken"),
    }
    assert!(matches!(server::api_action("{}", &None, "mint"), Err(KeyError::NoWallet)));
    assert!(matches!(server::api_action("{}", &Some("{}".to_string()), "send"), Err(KeyError::MissingPubkey)));
}

#[test]
fn replies_to_sending() {
    let receipt = tx::Receipt { code: -1, txhash: "AB".to_string(), log: String::new() };
    let r = server::sent_reply(&Ok(receipt));
    assert_eq!(parts(&r), (200, "application/json", "{\"code\":-1,\"log\":\"\",\"txhash\":\"AB\"}"));
    let r = server::sent_reply(&Err("broadcast: x".to_string()));
    assert_eq!(r.body, "{\"error\":\"broadcast: x\"}");
}
