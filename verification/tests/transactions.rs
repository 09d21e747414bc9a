use cosmos_sdk_proto::cosmos::bank::v1beta1::MsgSend;
use cosmos_sdk_proto::cosmos::distribution::v1beta1::{
    MsgWithdrawDelegatorReward, MsgWithdrawValidatorCommission,
};
use cosmos_sdk_proto::cosmos::slashing::v1beta1::MsgUnjail;
use cosmos_sdk_proto::cosmos::staking::v1beta1::{MsgDelegate, MsgUndelegate};
use cosmos_sdk_proto::cosmos::tx::v1beta1::{AuthInfo, SignDoc, TxBody, TxRaw};
use base64::Engine;
use fips204::ml_dsa_65;
use fips204::traits::{SerDes, Verifier};
use prost::Message;
use sqrwallet::keyfile::{load_keypair, seal_wallet, KeyError, KeyPair};
use sqrwallet::proto::pubkey_any_value;
use sqrwallet::tx;

fn wallet_file() -> Option<String> {
    Some(seal_wallet(&[7u8; 32], "pw", &[1u8; 16], &[2u8; 12]).ok().unwrap().data)
}

fn wallet_keys() -> KeyPair {
    load_keypair(&wallet_file(), "pw").ok().unwrap()
}

#[test]
fn a_send_order_is_the_message_the_chain_knows() {
    let order = tx::send_order("sqr1a", "sqr1b", "42");
    assert_eq!(order.type_url, "/cosmos.bank.v1beta1.MsgSend");
    assert_eq!((order.gas, order.fee), (400_000, 12_000));
    let msg = MsgSend::decode(&order.value[..]).unwrap();
    assert_eq!((msg.from_address.as_str(), msg.to_address.as_str()), ("sqr1a", "sqr1b"));
    assert_eq!(msg.amount.len(), 1);
    assert_eq!((msg.amount[0].denom.as_str(), msg.amount[0].amount.as_str()), ("usqr", "42"));
    let bytes = b"\x0a\x05sqr1a\x12\x05sqr1b\x1a\x0a\x0a\x04usqr\x12\x0242";
    assert_eq!(order.value, bytes.to_vec());
}

#[test]
fn empty_fields_are_left_out() {
    let order = tx::send_order("", "sqr1b", "");
    assert_eq!(order.value, b"\x12\x05sqr1b\x1a\x06\x0a\x04usqr".to_vec());
}

#[test]
fn a_stake_order_is_the_message_the_chain_knows() {
    let order = tx::stake_order("sqr1a", "sqrvaloper1v", "5");
    assert_eq!(order.type_url, "/cosmos.staking.v1beta1.MsgDelegate");
    assert_eq!((order.gas, order.fee), (500_000, 15_000));
    let msg = MsgDelegate::decode(&order.value[..]).unwrap();
    assert_eq!((msg.delegator_address.as_str(), msg.validator_address.as_str()), ("sqr1a", "sqrvaloper1v"));
    let coin = msg.amount.unwrap();
    assert_eq!((coin.denom.as_str(), coin.amount.as_str()), ("usqr", "5"));
}

#[test]
fn an_unstake_order_is_the_message_the_chain_knows() {
    let order = tx::unstake_order("sqr1a", "sqrvaloper1v", "6");
    assert_eq!(order.type_url, "/cosmos.staking.v1beta1.MsgUndelegate");
    assert_eq!((order.gas, order.fee), (500_000, 15_000));
    let msg = MsgUndelegate::decode(&order.value[..]).unwrap();
    assert_eq!((msg.delegator_address.as_str(), msg.validator_address.as_str()), ("sqr1a", "sqrvaloper1v"));
    assert_eq!(msg.amount.unwrap().amount, "6");
}

#[test]
fn a_claim_order_is_the_message_the_chain_knows() {
    let order = tx::claim_order("sqr1a", "sqrvaloper1v");
    assert_eq!(order.type_url, "/cosmos.distribution.v1beta1.MsgWithdrawDelegatorReward");
    assert_eq!((order.gas, order.fee), (300_000, 9_000));
    let msg = MsgWithdrawDelegatorReward::decode(&order.value[..]).unwrap();
    assert_eq!((msg.delegator_address.as_str(), msg.validator_address.as_str()), ("sqr1a", "sqrvaloper1v"));
}

#[test]
fn operator_orders_are_the_messages_the_chain_knows() {
    let unjail = tx::unjail_order("sqrvaloper1v");
    assert_eq!(unjail.type_url, "/cosmos.slashing.v1beta1.MsgUnjail");
    assert_eq!((unjail.gas, unjail.fee), (200_000, 6_000));
    assert_eq!(MsgUnjail::decode(&unjail.value[..]).unwrap().validator_addr, "sqrvaloper1v");
    let withdraw = tx::withdraw_commission_order("sqrvaloper1v");
    assert_eq!(withdraw.type_url, "/cosmos.distribution.v1beta1.MsgWithdrawValidatorCommission");
    assert_eq!((withdraw.gas, withdraw.fee), (300_000, 9_000));
    let msg = MsgWithdrawValidatorCommission::decode(&withdraw.value[..]).unwrap();
    assert_eq!(msg.validator_address, "sqrvaloper1v");
    assert_eq!(withdraw.value, b"\x0a\x0csqrvaloper1v".to_vec());
}

#[test]
fn an_unsigned_transaction_has_its_parts() {
    let order = tx::send_order("sqr1a", "sqr1b", "42");
    let unsigned = tx::unsigned_tx(&order, &[9u8; 3], "sequora-wasm", 11, 300);
    let body = TxBody::decode(&unsigned.body[..]).unwrap();
    assert_eq!(body.messages.len(), 1);
    assert_eq!(body.messages[0].type_url, order.type_url);
    assert_eq!(body.messages[0].value, order.value);
    assert_eq!(body.memo, "");
    let auth = AuthInfo::decode(&unsigned.auth_info[..]).unwrap();
    assert_eq!(auth.signer_infos.len(), 1);
    let signer = &auth.signer_infos[0];
    assert_eq!(signer.sequence, 300);
    let key = signer.public_key.clone().unwrap();
    assert_eq!(key.type_url, "/sequora.crypto.v1.PubKey");
    assert_eq!(key.value, pubkey_any_value(&[9u8; 3]));
    let fee = auth.fee.unwrap();
    assert_eq!((fee.gas_limit, fee.payer.as_str(), fee.granter.as_str()), (400_000, "", ""));
    assert_eq!((fee.amount[0].denom.as_str(), fee.amount[0].amount.as_str()), ("usqr", "12000"));
    let doc = SignDoc::decode(&unsigned.sign_doc[..]).unwrap();
    assert_eq!((doc.chain_id.as_str(), doc.account_number), ("sequora-wasm", 11));
    assert_eq!((doc.body_bytes, doc.auth_info_bytes), (unsigned.body, unsigned.auth_info));
}

#[test]
fn signing_mode_is_direct() {
    let order = tx::unjail_order("v");
    let unsigned = tx::unsigned_tx(&order, &[9u8], "c", 0, 0);
    let expected = b"\x0a\x28\x0a\x20\x0a\x19/sequora.crypto.v1.PubKey\x12\x03\x0a\x01\x09\x12\x04\x0a\x02\x08\x01";
    assert_eq!(&unsigned.auth_info[..expected.len()], &expected[..]);
    let fee = b"\x12\x12\x0a\x0c\x0a\x04usqr\x12\x046000\x10\xc0\x9a\x0c";
    assert_eq!(&unsigned.auth_info[expected.len()..], &fee[..]);
    assert_eq!(&unsigned.sign_doc[unsigned.sign_doc.len() - 3..], b"\x1a\x01c");
}

#[test]
fn what_differs_is_signed_differently() {
    let a = tx::send_order("sqr1a", "sqr1b", "42");
    let b = tx::send_order("sqr1a", "sqr1b", "43");
    let c = tx::send_order("sqr1a", "sqr1b4", "2");
    let doc = |o: &tx::Order, chain: &str, n: u64, s: u64| tx::unsigned_tx(o, &[1], chain, n, s).sign_doc;
    let base = doc(&a, "c", 1, 2);
    for other in [doc(&b, "c", 1, 2), doc(&c, "c", 1, 2), doc(&a, "d", 1, 2), doc(&a, "c", 2, 2), doc(&a, "c", 1, 3)] {
        assert_ne!(base, other);
    }
    assert_ne!(base, tx::unsigned_tx(&a, &[2], "c", 1, 2).sign_doc);
}

#[test]
fn writes_base64_with_padding() {
    let unsigned = |body: &[u8]| tx::Unsigned { body: body.to_vec(), auth_info: vec![], sign_doc: vec![] };
    assert_eq!(tx::signed_text(&unsigned(b""), b"\xff\xfe"), "GgL//g==");
    assert_eq!(tx::signed_text(&unsigned(b"a"), b"\xfb"), "CgFhGgH7");
    assert_eq!(tx::signed_text(&unsigned(b"ab"), b"\xfb"), "CgJhYhoB+w==");
    assert_eq!(tx::signed_text(&unsigned(b"abc"), b"\xfb"), "CgNhYmMaAfs=");
}

#[test]
fn a_signed_transaction_is_accepted_by_its_key() {
    let keys = wallet_keys();
    let pubkey: [u8; 1952] = keys.pubkey().try_into().unwrap();
    let order = tx::send_order("sqr1a", "sqr1b", "42");
    let text = tx::sign_order(&keys, &order, "sequora-wasm", 11, 3).unwrap();
    let raw = base64::engine::general_purpose::STANDARD.decode(&text).unwrap();
    let raw = TxRaw::decode(&raw[..]).unwrap();
    let unsigned = tx::unsigned_tx(&order, &pubkey, "sequora-wasm", 11, 3);
    assert_eq!(raw.body_bytes, unsigned.body);
    assert_eq!(raw.auth_info_bytes, unsigned.auth_info);
    assert_eq!(raw.signatures.len(), 1);
    let sig: [u8; 3309] = raw.signatures[0].clone().try_into().unwrap();
    let key = ml_dsa_65::PublicKey::try_from_bytes(pubkey).unwrap();
    assert!(key.verify(&unsigned.sign_doc, &sig, &[]));
    let other = tx::unsigned_tx(&order, &pubkey, "sequora-wasm", 11, 4);
    assert!(!key.verify(&other.sign_doc, &sig, &[]));
}

#[test]
fn opens_the_wallet_for_a_broadcast() {
    let data = wallet_file();
    let opened = tx::begin_broadcast(&data, "pw", "http://node/").ok().unwrap();
    let addr = sqrwallet::address::derive_address(opened.keys.pubkey());
    assert_eq!(opened.account_url, format!("http://node/cosmos/auth/v1beta1/accounts/{addr}"));
    assert!(matches!(tx::begin_broadcast(&data, "no", "r"), Err(KeyError::WrongPassword)));
    assert!(matches!(tx::begin_broadcast(&None, "pw", "r"), Err(KeyError::NoWallet)));
}

#[test]
fn builds_the_broadcast_request() {
    let order = tx::claim_order("sqr1a", "sqrvaloper1v");
    let answer = Some("{\"account\":{\"account_number\":\"5\",\"sequence\":\"9\"}}".to_string());
    let body = tx::broadcast_request(wallet_keys(), &order, "c", &answer).ok().unwrap();
    let v: serde_json::Value = serde_json::from_str(&body).unwrap();
    assert_eq!(v["mode"], "BROADCAST_MODE_SYNC");
    let raw = base64::engine::general_purpose::STANDARD.decode(v["tx_bytes"].as_str().unwrap()).unwrap();
    let raw = TxRaw::decode(&raw[..]).unwrap();
    let auth = AuthInfo::decode(&raw.auth_info_bytes[..]).unwrap();
    assert_eq!(auth.signer_infos[0].sequence, 9);
    let bad = tx::broadcast_request(wallet_keys(), &order, "c", &Some("no json".to_string()));
    assert!(matches!(bad, Err(tx::BroadcastError::BadAccount)));
    let none = tx::broadcast_request(wallet_keys(), &order, "c", &None);
    assert!(matches!(none, Err(tx::BroadcastError::NoAnswer)));
}

#[test]
fn the_broadcast_request_is_compact_json() {
    assert_eq!(tx::broadcast_body("AAE="), "{\"mode\":\"BROADCAST_MODE_SYNC\",\"tx_bytes\":\"AAE=\"}");
    assert_eq!(tx::broadcast_url("http://localhost:1317///"), "http://localhost:1317/cosmos/tx/v1beta1/txs");
}

#[test]
fn reads_receipts() {
    let answer = "{\"tx_response\":{\"code\":5,\"txhash\":\"AB\",\"raw_log\":\"out of gas\"}}";
    let r = tx::read_receipt(answer).ok().unwrap();
    assert_eq!((r.code, r.txhash.as_str(), r.log.as_str()), (5, "AB", "out of gas"));
    let r = tx::read_receipt("{\"tx_response\":{\"code\":\"5\"}}").ok().unwrap();
    assert_eq!((r.code, r.txhash.as_str(), r.log.as_str()), (-1, "", ""));
    let r = tx::read_receipt("[]").ok().unwrap();
    assert_eq!((r.code, r.txhash.as_str(), r.log.as_str()), (-1, "", ""));
}

#[test]
fn reads_outcomes() {
    let refused = tx::read_outcome(&Err("connection refused".to_string()));
    assert_eq!(refused.err().unwrap(), "broadcast: connection refused");
    let garbled = tx::read_outcome(&Ok("<html>".to_string())).err().unwrap();
    assert_eq!(garbled, "expected value at line 1 column 1");
    let sent = tx::read_outcome(&Ok("{\"tx_response\":{\"code\":0,\"txhash\":\"CD\"}}".to_string())).ok().unwrap();
    assert_eq!((sent.code, sent.txhash.as_str(), sent.log.as_str()), (0, "CD", ""));
}
