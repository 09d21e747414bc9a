//! Laws of addresses, key files, recovery phrases and the order in which a wallet is written.
use vstd::prelude::*;
use vstd::utf8::*;

use crate::address;
use crate::codec;
use crate::crypto;
use crate::crypto::KdfError;
use crate::json;
use crate::json::Json;
use crate::keyfile;
use crate::keyfile::{KeyError, KeyFile, SealedWallet};
use crate::laws::formats;
use crate::text;
use crate::wallet;
use crate::wallet::{PhraseError, SaveAction, SaveEvent, SavePhase};

verus! {

/// Both addresses of a public key, of any length, are the bech32 text of the first 20 bytes of its
/// SHA-256 hash, under `sqr` and under `sqrvaloper`.
pub proof fn law_addresses(pubkey: Seq<u8>)
    ensures
        ({
            let account = crypto::sha256(pubkey).take(20);
            let data = codec::bech32_data(account);
            &&& address::account_hash(pubkey) == account
            &&& address::address_of(pubkey) == "sqr1"@ + data + codec::bech32_checksum(
                "sqr"@,
                account,
            )
            &&& address::valoper_of(pubkey) == "sqrvaloper1"@ + data + codec::bech32_checksum(
                "sqrvaloper"@,
                account,
            )
        }),
{
    reveal_strlit("sqr");
    reveal_strlit("sqr1");
    reveal_strlit("sqrvaloper");
    reveal_strlit("sqrvaloper1");
    assert("sqr"@ + seq!['1'] =~= "sqr1"@);
    assert("sqrvaloper"@ + seq!['1'] =~= "sqrvaloper1"@);
}

/// Keys whose hashes begin alike have one address, and only those have.
pub proof fn law_address_depends_on_hash_only(pubkey1: Seq<u8>, pubkey2: Seq<u8>)
    requires
        crypto::sha256(pubkey1).len() == 32,
        crypto::sha256(pubkey2).len() == 32,
    ensures
        address::address_of(pubkey1) == address::address_of(pubkey2) <==> crypto::sha256(
            pubkey1,
        ).take(20) == crypto::sha256(pubkey2).take(20),
        address::valoper_of(pubkey1) == address::valoper_of(pubkey2) <==> crypto::sha256(
            pubkey1,
        ).take(20) == crypto::sha256(pubkey2).take(20),
{
    if address::address_of(pubkey1) == address::address_of(pubkey2) || address::valoper_of(pubkey1)
        == address::valoper_of(pubkey2) {
        address::law_address_names_account(pubkey1, pubkey2);
    }
}

/// A text that holds an account holds the first 20 bytes of the hash of the public key.
pub proof fn law_held_account(s: Seq<char>, at: int, pubkey: Seq<u8>)
    requires
        address::holds_account(s, at, pubkey),
    ensures
        s.len() == at + 38,
        s.subrange(at, at + 32) == codec::bech32_data(crypto::sha256(pubkey).take(20)),
        forall|i: int| 0 <= i < s.len() ==> !('A' <= #[trigger] s[i] <= 'Z'),
{
}

/// A key is what Argon2id makes of all of the password, the salt and the costs. It is refused only
/// for costs and for lengths that Argon2 does not take.
pub proof fn law_derived_key(password: Seq<char>, salt: Seq<u8>, m: u32, t: u32, p: u32)
    ensures
        ({
            let costs = m >= 8 && m >= 8 * p && t >= 1 && 1 <= p && p < 0x100_0000 && 1024 * m
                <= isize::MAX;
            let lengths = encode_utf8(password).len() < 0x1_0000_0000 && 8 <= salt.len()
                < 0x1_0000_0000;
            let key = crypto::derived_key(password, salt, m, t, p);
            &&& costs && lengths ==> key == Ok::<Seq<u8>, KdfError>(
                crypto::argon2id(encode_utf8(password), salt, m, t, p),
            )
            &&& !costs ==> key == Err::<Seq<u8>, KdfError>(KdfError::Costs)
            &&& costs && !lengths ==> key == Err::<Seq<u8>, KdfError>(KdfError::Lengths)
        }),
{
}

/// A new wallet's key is derived at 64 MiB, in three passes, on one lane.
pub proof fn law_new_key(password: Seq<char>, salt: Seq<u8>)
    requires
        salt.len() == 16,
    ensures
        encode_utf8(password).len() < 0x1_0000_0000 ==> keyfile::new_key(password, salt) == Ok::<
            Seq<u8>,
            KdfError,
        >(crypto::argon2id(encode_utf8(password), salt, 65536, 3, 1)),
        encode_utf8(password).len() >= 0x1_0000_0000 ==> keyfile::new_key(password, salt) is Err,
{
}

/// A cost that a file records is used as it is, cut to 32 bits; the default takes the place of one
/// that it does not record.
pub proof fn law_cost(n: u64, small: u32, default: u32)
    ensures
        keyfile::cost(Some(small as u64), default) == small,
        keyfile::cost(Some(n), default) == n % 0x1_0000_0000,
        keyfile::cost(None, default) == default,
{
}

/// A field in hexadecimal is read as the bytes that were written; one that is missing or is no
/// hexadecimal gives the error for it.
pub proof fn law_hex_field(bytes: Seq<u8>, s: Seq<char>, missing: KeyError)
    ensures
        keyfile::hex_field(Some(codec::hex_text(bytes)), missing) == Ok::<Seq<u8>, KeyError>(bytes),
        codec::hex_bytes(s) is None ==> keyfile::hex_field(Some(s), missing) == Err::<
            Seq<u8>,
            KeyError,
        >(KeyError::BadHex),
        codec::hex_bytes(s) matches Some(b) ==> keyfile::hex_field(Some(s), missing) == Ok::<
            Seq<u8>,
            KeyError,
        >(b),
        keyfile::hex_field(None, missing) == Err::<Seq<u8>, KeyError>(missing),
{
    codec::law_hex_round_trip(bytes);
}

/// Whether a cost in a file stands for a number: it is that number, or it is no number of 64 bits
/// and the default stands for it.
pub open spec fn stands_for(recorded: Json, default: u32, n: u32) -> bool {
    match recorded {
        Json::Integer(r) => r == n || (!(0 <= r <= u64::MAX) && n == default),
        _ => n == default,
    }
}

/// Whether a file has the salt, the nonce and the costs under which things are sealed in it.
pub open spec fn is_sealed_with(
    file: Json,
    salt: Seq<u8>,
    nonce: Seq<u8>,
    m: u32,
    t: u32,
    p: u32,
) -> bool {
    let enc = file.field("enc"@);
    &&& enc.field("salt"@) == Json::Text(codec::hex_text(salt))
    &&& enc.field("nonce"@) == Json::Text(codec::hex_text(nonce))
    &&& stands_for(enc.field("m_cost"@), 19456, m)
    &&& stands_for(enc.field("t_cost"@), 2, t)
    &&& stands_for(enc.field("p_cost"@), 1, p)
    &&& nonce.len() == 12
}

/// A wallet opens with its password: where a file shows the public key of a seed, and its sealed
/// seed opens to that seed under the key that Argon2id makes of the whole password, the file opens
/// to the keys of the seed.
pub proof fn law_seed_file_opens(
    data: Seq<char>,
    file: Json,
    salt: Seq<u8>,
    nonce: Seq<u8>,
    m: u32,
    t: u32,
    p: u32,
    sealed: Seq<u8>,
    seed: Seq<u8>,
    password: Seq<char>,
)
    requires
        json::json_read(data) == Ok::<Json, Seq<char>>(file),
        file.field("pubkey"@) == Json::Text(codec::hex_text(crypto::ml_dsa_keys(seed).0)),
        is_sealed_with(file, salt, nonce, m, t, p),
        file.field("enc"@).field("seed_ciphertext"@) == Json::Text(codec::hex_text(sealed)),
        crypto::derived_key(password, salt, m, t, p) is Ok,
        crypto::aead_opened(
            crypto::argon2id(encode_utf8(password), salt, m, t, p),
            nonce,
            sealed,
        ) == Some(seed),
        seed.len() == 32,
    ensures
        keyfile::opened_file(Some(data), password) == Ok::<(Seq<u8>, Seq<u8>), KeyError>(
            crypto::ml_dsa_keys(seed),
        ),
        keyfile::is_password(Some(data), password),
        keyfile::stored_pubkey(Some(data)) == Ok::<Seq<u8>, KeyError>(crypto::ml_dsa_keys(seed).0),
{
    codec::law_hex_round_trip(crypto::ml_dsa_keys(seed).0);
    codec::law_hex_round_trip(salt);
    codec::law_hex_round_trip(nonce);
    codec::law_hex_round_trip(sealed);
}

/// A wallet without a recovery phrase opens with its password to the private key that is sealed in
/// it and to the public key that it shows.
pub proof fn law_key_file_opens(
    data: Seq<char>,
    file: Json,
    pubkey: Seq<u8>,
    salt: Seq<u8>,
    nonce: Seq<u8>,
    m: u32,
    t: u32,
    p: u32,
    sealed: Seq<u8>,
    secret: Seq<u8>,
    password: Seq<char>,
)
    requires
        json::json_read(data) == Ok::<Json, Seq<char>>(file),
        file.field("pubkey"@) == Json::Text(codec::hex_text(pubkey)),
        is_sealed_with(file, salt, nonce, m, t, p),
        !(file.field("enc"@).field("seed_ciphertext"@) is Text),
        file.field("enc"@).field("ciphertext"@) == Json::Text(codec::hex_text(sealed)),
        crypto::derived_key(password, salt, m, t, p) is Ok,
        crypto::aead_opened(
            crypto::argon2id(encode_utf8(password), salt, m, t, p),
            nonce,
            sealed,
        ) == Some(secret),
        secret.len() == 4032,
        crypto::ml_dsa_key_ok(secret),
    ensures
        keyfile::opened_file(Some(data), password) == Ok::<(Seq<u8>, Seq<u8>), KeyError>(
            (pubkey, secret),
        ),
        keyfile::is_password(Some(data), password),
{
    codec::law_hex_round_trip(pubkey);
    codec::law_hex_round_trip(salt);
    codec::law_hex_round_trip(nonce);
    codec::law_hex_round_trip(sealed);
}

/// The bytes that a member of a file holds in hexadecimal.
pub open spec fn bytes_under(j: Json, key: Seq<char>) -> Option<Seq<u8>> {
    match j.field(key) {
        Json::Text(s) => codec::hex_bytes(s),
        _ => None,
    }
}

/// Only a password that opens the ciphertext opens the file: what a file opens to is the public key
/// that it shows, and the keys of the seed, or the private key, that the ciphertext holds under the
/// key that Argon2id makes of the whole password.
pub proof fn law_what_opens_a_file(data: Option<Seq<char>>, password: Seq<char>)
    requires
        keyfile::is_password(data, password),
    ensures
        ({
            let keys = keyfile::opened_file(data, password).unwrap();
            &&& data matches Some(d)
            &&& json::json_read(d) matches Ok(file)
            &&& bytes_under(file, "pubkey"@) == Some(keys.0)
            &&& bytes_under(file.field("enc"@), "salt"@) matches Some(salt)
            &&& bytes_under(file.field("enc"@), "nonce"@) matches Some(nonce)
            &&& nonce.len() == 12
            &&& exists|m: u32, t: u32, p: u32|
                {
                    let key = #[trigger] crypto::argon2id(encode_utf8(password), salt, m, t, p);
                    let enc = file.field("enc"@);
                    if enc.field("seed_ciphertext"@) is Text {
                        &&& bytes_under(enc, "seed_ciphertext"@) matches Some(sealed)
                        &&& crypto::aead_opened(key, nonce, sealed) matches Some(seed)
                        &&& seed.len() == 32
                        &&& crypto::ml_dsa_keys(seed) == keys
                    } else {
                        &&& bytes_under(enc, "ciphertext"@) matches Some(sealed)
                        &&& crypto::aead_opened(key, nonce, sealed) == Some(keys.1)
                        &&& keys.1.len() == 4032
                        &&& crypto::ml_dsa_key_ok(keys.1)
                    }
                }
        }),
{
    let f = keyfile::fields_in(data).unwrap();
    let salt = keyfile::hex_field(f.salt, KeyError::MissingSalt).unwrap();
    let m = keyfile::cost(f.m_cost, 19456);
    let t = keyfile::cost(f.t_cost, 2);
    let p = keyfile::cost(f.p_cost, 1);
    let key = crypto::argon2id(encode_utf8(password), salt, m, t, p);
    assert(keyfile::file_key(f, password, salt) == Ok::<Seq<u8>, KdfError>(key));
}

/// A file that is missing, that is no JSON, or that shows no public key, says so before anything
/// else; a ciphertext that does not open says that the password is wrong.
pub proof fn law_why_a_file_does_not_open(
    data: Seq<char>,
    file: Json,
    salt: Seq<u8>,
    nonce: Seq<u8>,
    m: u32,
    t: u32,
    p: u32,
    pubkey: Seq<u8>,
    sealed: Seq<u8>,
    password: Seq<char>,
)
    ensures
        keyfile::opened_file(None, password) == Err::<(Seq<u8>, Seq<u8>), KeyError>(
            KeyError::NoWallet,
        ),
        keyfile::stored_pubkey(None) == Err::<Seq<u8>, KeyError>(KeyError::NoWallet),
        json::json_read(data) is Err ==> keyfile::opened_file(Some(data), password) == Err::<
            (Seq<u8>, Seq<u8>),
            KeyError,
        >(KeyError::Corrupt) && keyfile::stored_pubkey(Some(data)) == Err::<Seq<u8>, KeyError>(
            KeyError::Corrupt,
        ),
        json::json_read(data) matches Ok(v) ==> !(v.field("pubkey"@) is Text)
            ==> keyfile::opened_file(Some(data), password) == Err::<(Seq<u8>, Seq<u8>), KeyError>(
            KeyError::MissingPubkey,
        ) && keyfile::stored_pubkey(Some(data)) == Err::<Seq<u8>, KeyError>(
            KeyError::MissingPubkey,
        ),
        ({
            let key = crypto::argon2id(encode_utf8(password), salt, m, t, p);
            &&& json::json_read(data) == Ok::<Json, Seq<char>>(file)
            &&& file.field("pubkey"@) == Json::Text(codec::hex_text(pubkey))
            &&& is_sealed_with(file, salt, nonce, m, t, p)
            &&& file.field("enc"@).field("seed_ciphertext"@) == Json::Text(codec::hex_text(sealed))
            &&& crypto::derived_key(password, salt, m, t, p) is Ok
            &&& crypto::aead_opened(key, nonce, sealed) is None
        }) ==> keyfile::opened_file(Some(data), password) == Err::<(Seq<u8>, Seq<u8>), KeyError>(
            KeyError::WrongPassword,
        ),
{
    codec::law_hex_round_trip(pubkey);
    codec::law_hex_round_trip(salt);
    codec::law_hex_round_trip(nonce);
    codec::law_hex_round_trip(sealed);
}

/// The public key that a file stores is the one that it shows in hexadecimal.
pub proof fn law_stored_pubkey(data: Seq<char>, file: Json, pubkey: Seq<u8>)
    requires
        json::json_read(data) == Ok::<Json, Seq<char>>(file),
        file.field("pubkey"@) == Json::Text(codec::hex_text(pubkey)),
    ensures
        keyfile::stored_pubkey(Some(data)) == Ok::<Seq<u8>, KeyError>(pubkey),
{
    codec::law_hex_round_trip(pubkey);
}

/// What was found in a ciphertext is used as it is, if it is there and has the right length; a
/// private key, if the public key beside it is the right one.
pub proof fn law_accepted(plain: Seq<u8>, len: nat, e: KeyError, keys: (Seq<u8>, Seq<u8>), pk: Seq<u8>)
    ensures
        plain.len() == len ==> keyfile::accepted(Some(plain), len, e) == Ok::<Seq<u8>, KeyError>(
            plain,
        ),
        plain.len() != len ==> keyfile::accepted(Some(plain), len, e) == Err::<Seq<u8>, KeyError>(e),
        keyfile::accepted(None, len, e) == Err::<Seq<u8>, KeyError>(KeyError::WrongPassword),
        keys.0 == pk ==> keyfile::matched(keys, pk) == Ok::<Seq<u8>, KeyError>(keys.1),
        keys.0 != pk ==> keyfile::matched(keys, pk) == Err::<Seq<u8>, KeyError>(
            KeyError::PubkeyMismatch,
        ),
{
}

/// The fields of a key file hold what they hold.
pub proof fn law_key_file_view(f: KeyFile, r: Result<Vec<u8>, KeyError>)
    ensures
        f@.pubkey == text::opt_view(f.pubkey),
        f@.salt == text::opt_view(f.salt),
        f@.nonce == text::opt_view(f.nonce),
        f@.m_cost == f.m_cost && f@.t_cost == f.t_cost && f@.p_cost == f.p_cost,
        f@.seed_ciphertext == text::opt_view(f.seed_ciphertext),
        f@.ciphertext == text::opt_view(f.ciphertext),
        r matches Ok(b) ==> keyfile::bytes_view(r) == Ok::<Seq<u8>, KeyError>(b@),
        r matches Err(e) ==> keyfile::bytes_view(r) == Err::<Seq<u8>, KeyError>(e),
{
}

/// A signature is over the whole message and with no context: it is one that the private key makes
/// of it, and the public key of the same seed accepts it.
pub proof fn law_signature(secret: Seq<u8>, message: Seq<u8>, sig: Seq<u8>, seed: Seq<u8>)
    requires
        keyfile::signs(secret, message, sig),
    ensures
        sig.len() == 3309,
        exists|rnd: Seq<u8>|
            rnd.len() == 32 && sig == #[trigger] crypto::ml_dsa_signature(
                secret,
                message,
                Seq::<u8>::empty(),
                rnd,
            ),
        seed.len() == 32 && crypto::ml_dsa_keys(seed).1 == secret ==> crypto::ml_dsa_accepts(
            crypto::ml_dsa_keys(seed).0,
            message,
            Seq::<u8>::empty(),
            sig,
        ),
{
}

/// A new key file shows the scheme, the public key and the address of the seed, and holds the seed
/// sealed under the key, with the salt, the nonce and the costs to open it again.
pub proof fn law_new_file(seed: Seq<u8>, key: Seq<u8>, salt: Seq<u8>, nonce: Seq<u8>)
    ensures
        ({
            let pubkey = crypto::ml_dsa_keys(seed).0;
            let file = keyfile::new_key_json(seed, key, salt, nonce);
            let enc = file.field("enc"@);
            &&& file.field("scheme"@) == Json::Text("ML-DSA-65"@)
            &&& file.field("pubkey"@) == Json::Text(codec::hex_text(pubkey))
            &&& file.field("address"@) == Json::Text(address::address_of(pubkey))
            &&& enc.field("kdf"@) == Json::Text("argon2id"@)
            &&& enc.field("cipher"@) == Json::Text("chacha20poly1305"@)
            &&& enc.field("m_cost"@) == Json::Integer(65536)
            &&& enc.field("t_cost"@) == Json::Integer(3)
            &&& enc.field("p_cost"@) == Json::Integer(1)
            &&& enc.field("salt"@) == Json::Text(codec::hex_text(salt))
            &&& enc.field("nonce"@) == Json::Text(codec::hex_text(nonce))
            &&& enc.field("seed_ciphertext"@) == Json::Text(
                codec::hex_text(crypto::aead_sealed(key, nonce, seed)),
            )
            &&& enc.field("ciphertext"@) == Json::Null
        }),
{
    reveal_strlit("scheme");
    reveal_strlit("pubkey");
    reveal_strlit("address");
    reveal_strlit("enc");
    reveal_strlit("kdf");
    reveal_strlit("cipher");
    reveal_strlit("m_cost");
    reveal_strlit("t_cost");
    reveal_strlit("p_cost");
    reveal_strlit("salt");
    reveal_strlit("nonce");
    reveal_strlit("seed_ciphertext");
    reveal_strlit("ciphertext");
    assert("scheme"@.len() == 6);
    assert("pubkey"@.len() == 6);
    assert("address"@.len() == 7);
    assert("enc"@.len() == 3);
    assert("kdf"@.len() == 3);
    assert("cipher"@.len() == 6);
    assert("m_cost"@.len() == 6);
    assert("t_cost"@.len() == 6);
    assert("p_cost"@.len() == 6);
    assert("salt"@.len() == 4);
    assert("nonce"@.len() == 5);
    assert("seed_ciphertext"@.len() == 15);
    assert("ciphertext"@.len() == 10);
    assert("scheme"@[0] == 's');
    assert("pubkey"@[0] == 'p');
    assert("cipher"@[0] == 'c');
    assert("m_cost"@[0] == 'm');
    assert("t_cost"@[0] == 't');
    assert("p_cost"@[0] == 'p');
    assert("pubkey"@[1] == 'u');
    assert("p_cost"@[1] == '_');
    assert("enc"@[0] == 'e');
    assert("kdf"@[0] == 'k');
    let file = keyfile::new_key_json(seed, key, salt, nonce);
    let enc = file.field("enc"@);
    let sealed = crypto::aead_sealed(key, nonce, seed);
    assert(enc == keyfile::sealing_json(salt, nonce, sealed));
    assert(enc.field("kdf"@) == Json::Text("argon2id"@));
    assert(enc.field("cipher"@) == Json::Text("chacha20poly1305"@));
    assert(enc.field("m_cost"@) == Json::Integer(65536));
    assert(enc.field("t_cost"@) == Json::Integer(3));
    assert(enc.field("p_cost"@) == Json::Integer(1));
    assert(enc.field("salt"@) == Json::Text(codec::hex_text(salt)));
    assert(enc.field("nonce"@) == Json::Text(codec::hex_text(nonce)));
    assert(enc.field("ciphertext"@) == Json::Null);
}

/// A saved wallet is the seed's: it has the seed's address, its file reads back as a new key file
/// of the seed, sealed under the key that Argon2id makes of the whole password with a salt of 16
/// bytes and a nonce of 12, and it opens with the password to the seed's keys.
pub proof fn law_saved_wallet(w: SealedWallet, seed: Seq<u8>, password: Seq<char>)
    requires
        wallet::is_sealed(w, seed, password),
    ensures
        w.address@ == address::address_of(crypto::ml_dsa_keys(seed).0),
        keyfile::opened_file(Some(w.data@), password) == Ok::<(Seq<u8>, Seq<u8>), KeyError>(
            crypto::ml_dsa_keys(seed),
        ),
        keyfile::stored_pubkey(Some(w.data@)) == Ok::<Seq<u8>, KeyError>(
            crypto::ml_dsa_keys(seed).0,
        ),
        exists|salt: Seq<u8>, nonce: Seq<u8>, key: Seq<u8>|
            #![trigger keyfile::new_key_json(seed, key, salt, nonce)]
            {
                &&& salt.len() == 16
                &&& nonce.len() == 12
                &&& key == crypto::argon2id(encode_utf8(password), salt, 65536, 3, 1)
                &&& w.data@ == json::json_pretty(keyfile::new_key_json(seed, key, salt, nonce))
                &&& json::json_read(w.data@) == Ok::<Json, Seq<char>>(
                    keyfile::new_key_json(seed, key, salt, nonce),
                )
                &&& crypto::aead_opened(key, nonce, crypto::aead_sealed(key, nonce, seed)) == Some(seed)
                &&& crypto::aead_sealed(key, nonce, seed).len() == 48
            },
{
    let (salt, nonce) = choose|salt: Seq<u8>, nonce: Seq<u8>|
        {
            &&& salt.len() == 16
            &&& nonce.len() == 12
            &&& #[trigger] keyfile::new_key_file(seed, password, salt, nonce) == Ok::<
                Seq<char>,
                KdfError,
            >(w.data@)
            &&& keyfile::reads_back(w.data@, seed, password, salt, nonce)
            &&& keyfile::holds_seed(seed, password, salt, nonce)
        };
    let key = crypto::argon2id(encode_utf8(password), salt, 65536, 3, 1);
    assert(keyfile::new_key(password, salt) == Ok::<Seq<u8>, KdfError>(key));
    let file = keyfile::new_key_json(seed, key, salt, nonce);
    assert(w.data@ == json::json_pretty(file));
}

/// A sealed file with given salt and nonce is the text of a new key file under the derived key.
pub proof fn law_new_key_file(seed: Seq<u8>, password: Seq<char>, salt: Seq<u8>, nonce: Seq<u8>)
    requires
        salt.len() == 16,
        encode_utf8(password).len() < 0x1_0000_0000,
    ensures
        keyfile::new_key_file(seed, password, salt, nonce) == Ok::<Seq<char>, KdfError>(
            json::json_pretty(
                keyfile::new_key_json(
                    seed,
                    crypto::argon2id(encode_utf8(password), salt, 65536, 3, 1),
                    salt,
                    nonce,
                ),
            ),
        ),
{
}

/// A recovery phrase stands for the 32 bytes that it encodes, whatever white space is around it;
/// one that encodes nothing, or another number of bytes, stands for no seed.
pub proof fn law_phrase(front: Seq<char>, phrase: Seq<char>, back: Seq<char>)
    requires
        forall|k: int| 0 <= k < front.len() ==> text::is_white_space(#[trigger] front[k]),
        forall|k: int| 0 <= k < back.len() ==> text::is_white_space(#[trigger] back[k]),
        phrase.len() > 0 ==> !text::is_white_space(phrase.first()) && !text::is_white_space(
            phrase.last(),
        ),
    ensures
        ({
            let seed = wallet::seed_of_phrase(front + phrase + back);
            match crypto::mnemonic_entropy(phrase) {
                Some(entropy) => if entropy.len() == 32 {
                    seed == Ok::<Seq<u8>, PhraseError>(entropy)
                } else {
                    seed == Err::<Seq<u8>, PhraseError>(PhraseError::WrongLength)
                },
                None => seed == Err::<Seq<u8>, PhraseError>(PhraseError::Invalid),
            }
        }),
{
    formats::law_trim_takes_white_space_only(front, phrase, back);
}

/// A seed's phrase is the one of exactly its bytes, and encodes exactly its bytes.
pub proof fn law_phrase_of_seed(phrase: Seq<char>, seed: Seq<u8>)
    requires
        wallet::is_phrase_of(phrase, seed),
    ensures
        crypto::mnemonic_phrase(seed) == Some(phrase),
        crypto::mnemonic_entropy(phrase) == Some(seed),
        seed.len() == 32,
        phrase.len() > 0,
{
}

/// The wallet lies in one directory below the home directory, or below the current one where there
/// is none; a slash at the end of the home directory makes no difference.
pub proof fn law_paths(home: Seq<char>)
    requires
        home.len() > 0,
        home.last() != '/',
    ensures
        wallet::wallet_dir_of(Some(home)) == home + "/.sequora-wallet"@,
        wallet::wallet_dir_of(Some(home.push('/'))) == home + "/.sequora-wallet"@,
        wallet::wallet_dir_of(Some(Seq::empty())) == ".sequora-wallet"@,
        wallet::wallet_dir_of(None) == "./.sequora-wallet"@,
{
    reveal_strlit("/");
    reveal_strlit(".");
    reveal_strlit(".sequora-wallet");
    reveal_strlit("/.sequora-wallet");
    reveal_strlit("./.sequora-wallet");
    assert("/"@ + ".sequora-wallet"@ =~= "/.sequora-wallet"@);
    assert(wallet::wallet_dir_of(Some(home)) =~= home + "/.sequora-wallet"@);
    assert(wallet::wallet_dir_of(Some(home.push('/'))) =~= home + "/.sequora-wallet"@);
    assert(wallet::wallet_dir_of(Some(Seq::empty())) =~= ".sequora-wallet"@);
    assert(wallet::wallet_dir_of(None) =~= "./.sequora-wallet"@);
}

/// The key file, the token and the backups have their names in that directory.
pub proof fn law_names_in_directory(home: Option<Seq<char>>, time: nat, n: nat)
    ensures
        wallet::key_path_of(home) == wallet::wallet_dir_of(home) + "/key.json"@,
        wallet::session_token_path_of(home) == wallet::wallet_dir_of(home) + "/.session_token"@,
        wallet::backup_path_of(home, time, 0) == wallet::key_path_of(home) + "."@ + text::decimal(
            time,
        ) + ".bak"@,
        n > 0 ==> wallet::backup_path_of(home, time, n) == wallet::key_path_of(home) + "."@
            + text::decimal(time) + "."@ + text::decimal(n) + ".bak"@,
{
    reveal_strlit(".");
    assert("."@ =~= seq!['.']);
    if n > 0 {
        assert(wallet::backup_path_of(home, time, n) =~= wallet::key_path_of(home) + "."@
            + text::decimal(time) + "."@ + text::decimal(n) + ".bak"@);
    }
}

/// What is done while a wallet is written, in each phase and on each event: the new key file is
/// written where there was none and after a copy was made, and never else.
pub proof fn law_save_actions(
    phase: SavePhase,
    event: SaveEvent,
    home: Option<Seq<char>>,
    action: SaveAction,
)
    requires
        wallet::is_action(phase, event, home, action),
    ensures
        action is Look <==> phase is Start && event is Begin,
        action is Write <==> (phase is Looking && event is Absent) || (phase is BackingUp
            && event is BackedUp),
        action is Report <==> phase is Writing && event is Written,
        phase is Looking ==> (event matches SaveEvent::Present { time } ==> (action
            matches SaveAction::BackUp { to } && to@ == wallet::key_path_of(home) + "."@
            + text::decimal(time as nat) + ".bak"@)),
        phase matches SavePhase::BackingUp { time, n } ==> (event is BackupTaken && n < u64::MAX
            ==> (action matches SaveAction::BackUp { to } && to@ == wallet::key_path_of(home) + "."@
            + text::decimal(time as nat) + "."@ + text::decimal((n + 1) as nat) + ".bak"@)),
        action is BackUp ==> (phase is Looking && event is Present) || (phase is BackingUp
            && event is BackupTaken),
        phase matches SavePhase::BackingUp { time, n } ==> (event
            matches SaveEvent::BackupFailed { error } ==> (action matches SaveAction::Refuse { message }
            && message@ == "refusing to overwrite existing wallet: backup to "@
            + wallet::backup_path_of(home, time as nat, n as nat) + " failed: "@ + error@)),
{
    match phase {
        SavePhase::BackingUp { time, n } => {
            law_names_in_directory(home, time as nat, (n + 1) as nat);
        },
        _ => {},
    }
}

/// A first wallet is looked for, written and reported; over an existing one a copy comes between.
pub proof fn law_save_runs(time: u64)
    ensures
        wallet::next_phase(SavePhase::Start, SaveEvent::Begin) == SavePhase::Looking,
        wallet::next_phase(SavePhase::Looking, SaveEvent::Absent) == SavePhase::Writing,
        wallet::next_phase(SavePhase::Looking, (SaveEvent::Present { time })) == (
        SavePhase::BackingUp { time, n: 0 }),
        wallet::next_phase((SavePhase::BackingUp { time, n: 0 }), SaveEvent::BackedUp)
            == SavePhase::Writing,
        wallet::next_phase((SavePhase::BackingUp { time, n: 0 }), SaveEvent::BackupTaken) == (
        SavePhase::BackingUp { time, n: 1 }),
        wallet::next_phase(SavePhase::Writing, SaveEvent::Written) == SavePhase::Done,
{
}

/// A key file holds nothing but the public key, the address and what was sealed.
pub proof fn law_new_file_members(seed: Seq<u8>, key: Seq<u8>, salt: Seq<u8>, nonce: Seq<u8>)
    ensures
        ({
            let file = keyfile::new_key_json(seed, key, salt, nonce);
            &&& file matches Json::Object(m) && m.dom() == set![
                "scheme"@,
                "pubkey"@,
                "address"@,
                "enc"@,
            ]
            &&& file.field("enc"@) matches Json::Object(m) && m.dom() == set![
                "kdf"@,
                "cipher"@,
                "m_cost"@,
                "t_cost"@,
                "p_cost"@,
                "salt"@,
                "nonce"@,
                "seed_ciphertext"@,
            ]
        }),
{
}

} // verus!
