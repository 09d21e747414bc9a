use argon2::{Algorithm, Argon2, Params, Version};
use chacha20poly1305::aead::Aead;
use chacha20poly1305::{ChaCha20Poly1305, KeyInit, Nonce};
use fips204::ml_dsa_65;
use fips204::traits::{KeyGen, SerDes, Verifier};
use sqrwallet::address::derive_address;
use sqrwallet::crypto::{derive_key, KdfError};
use sqrwallet::keyfile::{
    accept_plain, accepts, load_keypair, load_pubkey, match_secret, my_address, seal_wallet, show_signature, shown_message, sign_message, verify_password, KeyError,
};

const SALT: [u8; 16] = [5; 16];
const NONCE: [u8; 12] = [6; 12];

fn keys_of(seed: &[u8; 32]) -> (Vec<u8>, Vec<u8>) {
    let (pk, sk) = ml_dsa_65::KG::keygen_from_seed(seed);
    (pk.into_bytes().to_vec(), sk.into_bytes().to_vec())
}

fn sealed(password: &str, m: u32, t: u32, p: u32, plain: &[u8]) -> String {
    let mut key = [0u8; 32];
    Argon2::new(Algorithm::Argon2id, Version::V0x13, Params::new(m, t, p, Some(32)).unwrap())
        .hash_password_into(password.as_bytes(), &SALT, &mut key)
        .unwrap();
    let cipher = ChaCha20Poly1305::new_from_slice(&key).unwrap();
    hex::encode(cipher.encrypt(Nonce::from_slice(&NONCE), plain).unwrap())
}

fn file(pubkey: &[u8], costs: &str, field: &str, text: &str) -> Option<String> {
    Some(format!(
        "{{\"pubkey\":\"{}\",\"enc\":{{{}\"salt\":\"{}\",\"nonce\":\"{}\",\"{}\":\"{}\"}}}}",
        hex::encode(pubkey),
        costs,
        hex::encode(SALT),
        hex::encode(NONCE),
        field,
        text
    ))
}

const LOW: &str = "\"m_cost\":8,\"t_cost\":1,\"p_cost\":1,";

fn error(data: &Option<String>, password: &str) -> KeyError {
    match load_keypair(data, password) {
        Ok(_) => panic!("opened"),
        Err(e) => e,
    }
}

#[test]
fn a_sealed_wallet_opens_with_its_password() {
    let seed = [7u8; 32];
    let wallet = seal_wallet(&seed, "correct horse", &SALT, &NONCE).ok().unwrap();
    let (pubkey, _) = keys_of(&seed);
    assert_eq!(wallet.address, derive_address(&pubkey));
    let data = Some(wallet.data);
    assert_eq!(load_pubkey(&data).unwrap(), pubkey);
    assert_eq!(my_address(&data).unwrap(), wallet.address);
    let keys = load_keypair(&data, "correct horse").ok().unwrap();
    assert_eq!(keys.pubkey(), &pubkey[..]);
    assert_eq!(error(&data, "wrong horse"), KeyError::WrongPassword);
}

#[test]
fn a_sealed_wallet_is_written_as_json() {
    let seed = [9u8; 32];
    let wallet = seal_wallet(&seed, "pw", &SALT, &NONCE).ok().unwrap();
    let v: serde_json::Value = serde_json::from_str(&wallet.data).unwrap();
    assert_eq!(v["scheme"], "ML-DSA-65");
    assert_eq!(v["pubkey"], hex::encode(keys_of(&seed).0));
    assert_eq!(v["address"], wallet.address);
    assert_eq!(v["enc"]["kdf"], "argon2id");
    assert_eq!(v["enc"]["cipher"], "chacha20poly1305");
    assert_eq!(v["enc"]["m_cost"], 65536);
    assert_eq!(v["enc"]["t_cost"], 3);
    assert_eq!(v["enc"]["p_cost"], 1);
    assert_eq!(v["enc"]["salt"], "05050505050505050505050505050505");
    assert_eq!(v["enc"]["nonce"], "060606060606060606060606");
    assert_eq!(v["enc"]["seed_ciphertext"], sealed("pw", 65536, 3, 1, &seed));
    assert!(wallet.data.starts_with("{\n  \"address\": \"sqr1"));
}

#[test]
fn verifies_passwords() {
    let seed = [1u8; 32];
    let data = file(&keys_of(&seed).0, LOW, "seed_ciphertext", &sealed("pw", 8, 1, 1, &seed));
    assert!(verify_password(&data, "pw"));
    assert!(!verify_password(&data, "PW"));
    assert!(!verify_password(&data, ""));
    assert!(!verify_password(&None, "pw"));
    assert!(!verify_password(&Some("{}".to_string()), "pw"));
}

#[test]
fn a_file_without_costs_uses_the_defaults() {
    let seed = [2u8; 32];
    let data = file(&keys_of(&seed).0, "", "seed_ciphertext", &sealed("pw", 19456, 2, 1, &seed));
    assert!(load_keypair(&data, "pw").is_ok());
}

#[test]
fn costs_are_cut_to_32_bits() {
    let seed = [2u8; 32];
    let costs = "\"m_cost\":4294967304,\"t_cost\":4294967297,\"p_cost\":1,";
    let data = file(&keys_of(&seed).0, costs, "seed_ciphertext", &sealed("pw", 8, 1, 1, &seed));
    assert!(load_keypair(&data, "pw").is_ok());
}

#[test]
fn opens_a_wallet_without_a_recovery_phrase() {
    let (pubkey, secret) = keys_of(&[3u8; 32]);
    let data = file(&pubkey, LOW, "ciphertext", &sealed("pw", 8, 1, 1, &secret));
    let keys = load_keypair(&data, "pw").ok().unwrap();
    assert_eq!(keys.pubkey(), &pubkey[..]);
    assert_eq!(error(&data, "no"), KeyError::WrongPassword);
}

#[test]
fn an_old_wallet_still_opens() {
    let (pubkey, secret) = keys_of(&[3u8; 32]);
    let data = file(&pubkey, "", "ciphertext", &sealed("pw", 19456, 2, 1, &secret));
    assert!(load_keypair(&data, "pw").is_ok());
}

#[test]
fn accepts_what_has_the_right_length() {
    assert_eq!(accept_plain(None, 2, KeyError::BadSeed), Err(KeyError::WrongPassword));
    assert_eq!(accept_plain(Some(vec![1]), 2, KeyError::BadSeed), Err(KeyError::BadSeed));
    assert_eq!(accept_plain(Some(vec![1, 2]), 2, KeyError::BadSeed), Ok(vec![1, 2]));
    assert_eq!(match_secret(&[1], vec![9], &[1]), Ok(vec![9]));
    assert_eq!(match_secret(&[1], vec![9], &[2]), Err(KeyError::PubkeyMismatch));
}

#[test]
fn says_why_a_public_key_is_missing() {
    assert_eq!(load_pubkey(&None), Err(KeyError::NoWallet));
    assert_eq!(load_pubkey(&Some("not json".to_string())), Err(KeyError::Corrupt));
    assert_eq!(load_pubkey(&Some("{\"pubkey\":7}".to_string())), Err(KeyError::MissingPubkey));
    assert_eq!(load_pubkey(&Some("{\"pubkey\":\"abc\"}".to_string())), Err(KeyError::BadHex));
    assert_eq!(load_pubkey(&Some("{\"pubkey\":\"zz\"}".to_string())), Err(KeyError::BadHex));
    assert_eq!(load_pubkey(&Some("{\"pubkey\":\"aBc0\"}".to_string())), Ok(vec![0xab, 0xc0]));
    assert_eq!(my_address(&None), Err(KeyError::NoWallet));
    let abc = Some("{\"pubkey\":\"616263\"}".to_string());
    assert_eq!(my_address(&abc).unwrap(), "sqr1hfupd0u0q8875s2pgr09mt3zywcqxcdryq0hed");
}

#[test]
fn says_why_a_wallet_does_not_open() {
    assert_eq!(error(&None, "pw"), KeyError::NoWallet);
    assert_eq!(error(&Some("[".to_string()), "pw"), KeyError::Corrupt);
    assert_eq!(error(&Some("{}".to_string()), "pw"), KeyError::MissingPubkey);
    assert_eq!(error(&Some("{\"pubkey\":\"00\"}".to_string()), "pw"), KeyError::MissingSalt);
    let salted = "{\"pubkey\":\"00\",\"enc\":{\"salt\":\"0505050505050505\"}}";
    assert_eq!(error(&Some(salted.to_string()), "pw"), KeyError::MissingNonce);
    assert_eq!(error(&file(&[0], LOW, "other", ""), "pw"), KeyError::MissingCiphertext);
    assert_eq!(error(&file(&[0], LOW, "ciphertext", "0"), "pw"), KeyError::BadHex);
    assert_eq!(error(&file(&[0], LOW, "seed_ciphertext", "00"), "pw"), KeyError::WrongPassword);
    let nonce = "{\"pubkey\":\"00\",\"enc\":{\"m_cost\":8,\"t_cost\":1,\"salt\":\"0505050505050505\",\"nonce\":\"00\",\"ciphertext\":\"00\"}}";
    assert_eq!(error(&Some(nonce.to_string()), "pw"), KeyError::BadNonce);
}

#[test]
fn refuses_a_seed_that_is_none() {
    let data = file(&[0], LOW, "seed_ciphertext", &sealed("pw", 8, 1, 1, &[1u8; 31]));
    assert_eq!(error(&data, "pw"), KeyError::BadSeed);
}

#[test]
fn refuses_a_public_key_of_another_seed() {
    let data = file(&keys_of(&[4u8; 32]).0, LOW, "seed_ciphertext", &sealed("pw", 8, 1, 1, &[5u8; 32]));
    assert_eq!(error(&data, "pw"), KeyError::PubkeyMismatch);
}

#[test]
fn refuses_a_private_key_of_another_length() {
    for n in [0usize, 32, 4031, 4033] {
        let data = file(&[0], LOW, "ciphertext", &sealed("pw", 8, 1, 1, &vec![1u8; n]));
        assert_eq!(error(&data, "pw"), KeyError::BadKeyLength);
    }
}

#[test]
fn refuses_costs_and_salts_out_of_range() {
    let costs = "\"m_cost\":7,\"t_cost\":1,\"p_cost\":1,";
    assert_eq!(error(&file(&[0], costs, "ciphertext", ""), "pw"), KeyError::Kdf(KdfError::Costs));
    let lanes = "\"m_cost\":15,\"t_cost\":1,\"p_cost\":2,";
    assert_eq!(error(&file(&[0], lanes, "ciphertext", ""), "pw"), KeyError::Kdf(KdfError::Costs));
    assert_eq!(derive_key("pw", &[0; 7], 8, 1, 1), Err(KdfError::Lengths));
    assert_eq!(derive_key("pw", &[0; 8], 8, 0, 1), Err(KdfError::Costs));
    assert_eq!(derive_key("pw", &[0; 8], 8, 1, 0), Err(KdfError::Costs));
}

#[test]
fn derives_the_key_of_argon2id() {
    let mut expected = [0u8; 32];
    Argon2::new(Algorithm::Argon2id, Version::V0x13, Params::new(64, 2, 1, Some(32)).unwrap())
        .hash_password_into(b"pw", &SALT, &mut expected)
        .unwrap();
    assert_eq!(derive_key("pw", &SALT, 64, 2, 1).unwrap(), expected.to_vec());
    assert_ne!(derive_key("pw", &SALT, 64, 1, 1).unwrap(), expected.to_vec());
    assert_ne!(derive_key("pW", &SALT, 64, 2, 1).unwrap(), expected.to_vec());
}

#[test]
fn shows_what_signing_came_to() {
    let shown = show_signature(&[0xab, 1], "hi", Ok(vec![0x0f, 0xf0])).unwrap_or_else(|_| panic!("no signature"));
    assert_eq!((shown.pubkey.as_str(), shown.signature.as_str()), ("ab01", "0ff0"));
    assert_eq!(shown.message, "6869");
    assert_eq!(shown_message("\u{e9}"), "c3a9");
    assert_eq!(shown_message(""), "");
    match show_signature(&[1], "hi", Err("no".to_string())) {
        Err(e) => assert_eq!(e, "no"),
        Ok(_) => panic!("a signature"),
    }
}

#[test]
fn the_shown_public_key_accepts_the_signature() {
    let seed = [8u8; 32];
    let data = file(&keys_of(&seed).0, LOW, "seed_ciphertext", &sealed("pw", 8, 1, 1, &seed));
    let keys = load_keypair(&data, "pw").ok().unwrap();
    let shown = sign_message(keys, "hello-sequora").unwrap();
    let public: [u8; 1952] = hex::decode(&shown.pubkey).unwrap().try_into().unwrap();
    let signature: [u8; 3309] = hex::decode(&shown.signature).unwrap().try_into().unwrap();
    let key = ml_dsa_65::PublicKey::try_from_bytes(public).unwrap();
    assert!(key.verify(b"hello-sequora", &signature, &[]));
    assert!(!key.verify(b"hello-sequorb", &signature, &[]));
    assert_eq!(shown.message, hex::encode("hello-sequora"));
}

#[test]
fn a_public_key_accepts_only_its_own_signatures() {
    let seed = [8u8; 32];
    let data = file(&keys_of(&seed).0, LOW, "seed_ciphertext", &sealed("pw", 8, 1, 1, &seed));
    let keys = load_keypair(&data, "pw").ok().unwrap();
    let sig = keys.sign(b"hi").unwrap();
    assert!(accepts(keys.pubkey(), b"hi", &sig));
    assert!(!accepts(keys.pubkey(), b"ho", &sig));
    assert!(!accepts(&keys_of(&[9u8; 32]).0, b"hi", &sig));
    let mut other = sig.clone();
    other[100] ^= 1;
    assert!(!accepts(keys.pubkey(), b"hi", &other));
    assert!(!accepts(keys.pubkey(), b"hi", &sig[1..]));
    assert!(!accepts(&keys.pubkey()[1..], b"hi", &sig));
}

#[test]
fn each_missing_cost_is_the_default() {
    let (pubkey, secret) = keys_of(&[3u8; 32]);
    for (costs, m, t, p) in [
        ("\"m_cost\":8,", 8, 2, 1),
        ("\"t_cost\":1,", 19456, 1, 1),
        ("\"m_cost\":64,\"p_cost\":2,", 64, 2, 2),
        ("\"m_cost\":16,\"t_cost\":\"9\",", 16, 2, 1),
    ] {
        let old = file(&pubkey, costs, "ciphertext", &sealed("pw", m, t, p, &secret));
        assert!(load_keypair(&old, "pw").is_ok());
        let new = file(&pubkey, costs, "seed_ciphertext", &sealed("pw", m, t, p, &[3u8; 32]));
        assert!(load_keypair(&new, "pw").is_ok());
    }
}
