//! The key file: what it holds, how a wallet is sealed into it and opened from it.
use vstd::prelude::*;
use vstd::utf8::*;

use crate::address;
use crate::codec;
use crate::crypto;
use crate::crypto::KdfError;
use crate::json;
use crate::json::{Json, JsonValue};
use crate::text;

verus! {

/// Memory that deriving the key of a new wallet takes, in KiB.
pub const ARGON2_M_COST: u32 = 65536;

/// Passes that deriving the key of a new wallet takes.
pub const ARGON2_T_COST: u32 = 3;

/// Lanes that deriving the key of a new wallet takes.
pub const ARGON2_P_COST: u32 = 1;

/// Memory for a file that records none, in KiB.
pub const ARGON2_DEFAULT_M: u32 = 19456;

/// Passes for a file that records none.
pub const ARGON2_DEFAULT_T: u32 = 2;

/// Lanes for a file that records none.
pub const ARGON2_DEFAULT_P: u32 = 1;

/// Length of the salt of a new wallet, in bytes.
pub const SALT_LEN: usize = 16;

/// Why a key file does not open.
#[derive(Clone, Copy, Debug, PartialEq, Eq, Structural)]
pub enum KeyError {
    /// There is no key file, or it cannot be read.
    NoWallet,
    /// The file is no JSON.
    Corrupt,
    /// There is no public key.
    MissingPubkey,
    /// There is no salt.
    MissingSalt,
    /// There is no nonce.
    MissingNonce,
    /// There is neither a sealed seed nor a sealed private key.
    MissingCiphertext,
    /// A field that should be hexadecimal is not.
    BadHex,
    /// The costs, the salt or the password cannot be used.
    Kdf(KdfError),
    /// The nonce has a wrong length.
    BadNonce,
    /// The ciphertext does not open: the password is wrong, or the file was changed.
    WrongPassword,
    /// What was sealed is no seed.
    BadSeed,
    /// The stored public key is not the one that the seed gives.
    PubkeyMismatch,
    /// What was sealed is no private key, by its length.
    BadKeyLength,
    /// What was sealed is no private key.
    BadKey,
}

/// The fields of a key file.
pub struct KeyFile {
    /// The public key, in hexadecimal.
    pub pubkey: Option<String>,
    /// The salt, in hexadecimal.
    pub salt: Option<String>,
    /// The nonce, in hexadecimal.
    pub nonce: Option<String>,
    /// The recorded memory cost.
    pub m_cost: Option<u64>,
    /// The recorded number of passes.
    pub t_cost: Option<u64>,
    /// The recorded number of lanes.
    pub p_cost: Option<u64>,
    /// The sealed seed, in hexadecimal.
    pub seed_ciphertext: Option<String>,
    /// The sealed private key, in hexadecimal, of a wallet without a recovery phrase.
    pub ciphertext: Option<String>,
}

/// What the fields of a key file hold.
pub struct KeyFields {
    pub pubkey: Option<Seq<char>>,
    pub salt: Option<Seq<char>>,
    pub nonce: Option<Seq<char>>,
    pub m_cost: Option<u64>,
    pub t_cost: Option<u64>,
    pub p_cost: Option<u64>,
    pub seed_ciphertext: Option<Seq<char>>,
    pub ciphertext: Option<Seq<char>>,
}

impl View for KeyFile {
    type V = KeyFields;

    open spec fn view(&self) -> KeyFields {
        KeyFields {
            pubkey: text::opt_view(self.pubkey),
            salt: text::opt_view(self.salt),
            nonce: text::opt_view(self.nonce),
            m_cost: self.m_cost,
            t_cost: self.t_cost,
            p_cost: self.p_cost,
            seed_ciphertext: text::opt_view(self.seed_ciphertext),
            ciphertext: text::opt_view(self.ciphertext),
        }
    }
}

/// What a result that is bytes holds.
pub open spec fn bytes_view(r: Result<Vec<u8>, KeyError>) -> Result<Seq<u8>, KeyError> {
    match r {
        Ok(b) => Ok(b@),
        Err(e) => Err(e),
    }
}

/// The fields of a key file, as its JSON has them.
pub open spec fn key_fields(file: Json) -> KeyFields {
    let enc = file.field("enc"@);
    KeyFields {
        pubkey: file.field("pubkey"@).text(),
        salt: enc.field("salt"@).text(),
        nonce: enc.field("nonce"@).text(),
        m_cost: enc.field("m_cost"@).unsigned(),
        t_cost: enc.field("t_cost"@).unsigned(),
        p_cost: enc.field("p_cost"@).unsigned(),
        seed_ciphertext: enc.field("seed_ciphertext"@).text(),
        ciphertext: enc.field("ciphertext"@).text(),
    }
}

/// The bytes of a field in hexadecimal, or why there are none.
pub open spec fn hex_field(field: Option<Seq<char>>, missing: KeyError) -> Result<
    Seq<u8>,
    KeyError,
> {
    match field {
        None => Err(missing),
        Some(s) => match codec::hex_bytes(s) {
            None => Err(KeyError::BadHex),
            Some(b) => Ok(b),
        },
    }
}

/// A recorded cost, cut to 32 bits, or the default where none is recorded.
pub open spec fn cost(recorded: Option<u64>, default: u32) -> u32 {
    match recorded {
        Some(n) => (n % 0x1_0000_0000) as u32,
        None => default,
    }
}

/// The key that a password gives for a file.
pub open spec fn file_key(f: KeyFields, password: Seq<char>, salt: Seq<u8>) -> Result<
    Seq<u8>,
    KdfError,
> {
    crypto::derived_key(
        password,
        salt,
        cost(f.m_cost, ARGON2_DEFAULT_M),
        cost(f.t_cost, ARGON2_DEFAULT_T),
        cost(f.p_cost, ARGON2_DEFAULT_P),
    )
}

/// What a ciphertext was found to hold, if it has the length that it should have.
pub open spec fn accepted(opened: Option<Seq<u8>>, len: nat, otherwise: KeyError) -> Result<
    Seq<u8>,
    KeyError,
> {
    match opened {
        None => Err(KeyError::WrongPassword),
        Some(plain) => if plain.len() != len {
            Err(otherwise)
        } else {
            Ok(plain)
        },
    }
}

/// What a ciphertext of a given length holds under a key and a nonce, or why there is nothing.
pub open spec fn unsealed(
    key: Seq<u8>,
    nonce: Seq<u8>,
    field: Option<Seq<char>>,
    len: nat,
    otherwise: KeyError,
) -> Result<Seq<u8>, KeyError> {
    match hex_field(field, KeyError::MissingCiphertext) {
        Err(e) => Err(e),
        Ok(sealed) => if nonce.len() != crypto::NONCE_LEN {
            Err(KeyError::BadNonce)
        } else {
            accepted(crypto::aead_opened(key, nonce, sealed), len, otherwise)
        },
    }
}

/// The private key of a key pair, if its public key is the one that is stored.
pub open spec fn matched(keys: (Seq<u8>, Seq<u8>), pubkey: Seq<u8>) -> Result<Seq<u8>, KeyError> {
    if keys.0 != pubkey {
        Err(KeyError::PubkeyMismatch)
    } else {
        Ok(keys.1)
    }
}

/// The private key that a key and a nonce open, or why they do not. A sealed seed has to give
/// the stored public key.
pub open spec fn unsealed_secret(
    f: KeyFields,
    pubkey: Seq<u8>,
    key: Seq<u8>,
    nonce: Seq<u8>,
) -> Result<Seq<u8>, KeyError> {
    if f.seed_ciphertext is Some {
        match unsealed(
            key,
            nonce,
            f.seed_ciphertext,
            crypto::SEED_LEN as nat,
            KeyError::BadSeed,
        ) {
            Err(e) => Err(e),
            Ok(seed) => matched(crypto::ml_dsa_keys(seed), pubkey),
        }
    } else {
        match unsealed(
            key,
            nonce,
            f.ciphertext,
            crypto::SK_LEN as nat,
            KeyError::BadKeyLength,
        ) {
            Err(e) => Err(e),
            Ok(secret) => if !crypto::ml_dsa_key_ok(secret) {
                Err(KeyError::BadKey)
            } else {
                Ok(secret)
            },
        }
    }
}

/// The public and the private key of a wallet that a password opens, or why it does not open.
pub open spec fn opened(f: KeyFields, password: Seq<char>) -> Result<
    (Seq<u8>, Seq<u8>),
    KeyError,
> {
    match hex_field(f.pubkey, KeyError::MissingPubkey) {
        Err(e) => Err(e),
        Ok(pubkey) => match hex_field(f.salt, KeyError::MissingSalt) {
            Err(e) => Err(e),
            Ok(salt) => match hex_field(f.nonce, KeyError::MissingNonce) {
                Err(e) => Err(e),
                Ok(nonce) => match file_key(f, password, salt) {
                    Err(e) => Err(KeyError::Kdf(e)),
                    Ok(key) => match unsealed_secret(f, pubkey, key, nonce) {
                        Err(e) => Err(e),
                        Ok(secret) => Ok((pubkey, secret)),
                    },
                },
            },
        },
    }
}

/// The fields of the key file, if there is one, or why there are none.
pub open spec fn fields_in(data: Option<Seq<char>>) -> Result<KeyFields, KeyError> {
    match data {
        None => Err(KeyError::NoWallet),
        Some(data) => match json::json_read(data) {
            Err(_) => Err(KeyError::Corrupt),
            Ok(file) => Ok(key_fields(file)),
        },
    }
}

/// The public key that the key file stores, or why it stores none.
pub open spec fn stored_pubkey(data: Option<Seq<char>>) -> Result<Seq<u8>, KeyError> {
    match fields_in(data) {
        Err(e) => Err(e),
        Ok(f) => hex_field(f.pubkey, KeyError::MissingPubkey),
    }
}

/// The keys of the wallet in the key file that a password opens, or why it does not open.
pub open spec fn opened_file(data: Option<Seq<char>>, password: Seq<char>) -> Result<
    (Seq<u8>, Seq<u8>),
    KeyError,
> {
    match fields_in(data) {
        Err(e) => Err(e),
        Ok(f) => opened(f, password),
    }
}

/// A wallet's keys. The private key is always a well-formed one.
pub struct KeyPair {
    pub(crate) pubkey: Vec<u8>,
    pub(crate) secret: Vec<u8>,
}

impl View for KeyPair {
    type V = (Seq<u8>, Seq<u8>);

    closed spec fn view(&self) -> (Seq<u8>, Seq<u8>) {
        (self.pubkey@, self.secret@)
    }
}

impl KeyPair {
    #[verifier::type_invariant]
    spec fn well_formed(self) -> bool {
        self.secret@.len() == crypto::SK_LEN && crypto::ml_dsa_key_ok(self.secret@)
    }

    /// The public key.
    pub fn pubkey(&self) -> (r: &[u8])
        ensures
            r@ == self@.0,
    {
        self.pubkey.as_slice()
    }

    /// Scrubs the private key.
    pub(crate) fn discard(self) {
        let mut secret = self.secret;
        crypto::scrub_bytes(&mut secret);
    }

    /// Signs a message with an empty context. The public key of the same seed accepts the
    /// signature. Whether the system has the randomness for it decides whether there is one; the
    /// only error says that it has none.
    pub fn sign(&self, message: &[u8]) -> (r: Result<Vec<u8>, String>)
        ensures
            match r {
                Ok(sig) => signs(self@.1, message@, sig@),
                Err(e) => e@ == crypto::no_randomness_text(),
            },
    {
        proof {
            use_type_invariant(self);
        }
        let empty: Vec<u8> = Vec::new();
        assert(empty@ =~= Seq::<u8>::empty());
        crypto::ml_dsa_sign(self.secret.as_slice(), message, empty.as_slice())
    }
}

/// Whether a public key accepts a signature of a message with an empty context; none is accepted
/// where the key or the signature has a wrong length.
pub fn accepts(public: &[u8], message: &[u8], signature: &[u8]) -> (r: bool)
    ensures
        r == (public@.len() == crypto::PK_LEN && signature@.len() == crypto::SIG_LEN
            && crypto::ml_dsa_accepts(public@, message@, Seq::<u8>::empty(), signature@)),
{
    if public.len() != crypto::PK_LEN || signature.len() != crypto::SIG_LEN {
        return false;
    }
    let empty: Vec<u8> = Vec::new();
    assert(empty@ =~= Seq::<u8>::empty());
    crypto::ml_dsa_verify(public, message, empty.as_slice(), signature)
}

/// A message's signature, ready to be shown.
pub struct SignedMessage {
    /// The public key, in hexadecimal.
    pub pubkey: String,
    /// The message, in hexadecimal.
    pub message: String,
    /// The signature, in hexadecimal.
    pub signature: String,
}

/// A message as it is shown beside its signature: its UTF-8 bytes in hexadecimal.
pub fn shown_message(message: &str) -> (r: String)
    ensures
        r@ == codec::hex_text(encode_utf8(message@)),
{
    codec::hex_encode(message.as_bytes())
}

/// Shows a public key, a message and what signing it came to: all in hexadecimal, or why there is
/// no signature.
pub fn show_signature(pubkey: &[u8], message: &str, signed: Result<Vec<u8>, String>) -> (r: Result<
    SignedMessage,
    String,
>)
    ensures
        match signed {
            Ok(sig) => r matches Ok(shown) && shown.pubkey@ == codec::hex_text(pubkey@)
                && shown.message@ == codec::hex_text(encode_utf8(message@)) && shown.signature@
                == codec::hex_text(sig@),
            Err(e) => r == Err::<SignedMessage, String>(e),
        },
{
    match signed {
        Ok(sig) => Ok(
            SignedMessage {
                pubkey: codec::hex_encode(pubkey),
                message: shown_message(message),
                signature: codec::hex_encode(sig.as_slice()),
            },
        ),
        Err(e) => Err(e),
    }
}

/// Signs a text, and shows the public key, the text and the signature in hexadecimal. Whether the system
/// has the randomness for a signature decides whether there is one; the only error says that it
/// has none. The private key is scrubbed before this returns.
pub fn sign_message(keys: KeyPair, message: &str) -> (r: Result<SignedMessage, String>)
    ensures
        match r {
            Ok(shown) => {
                &&& shown.pubkey@ == codec::hex_text(keys@.0)
                &&& shown.message@ == codec::hex_text(encode_utf8(message@))
                &&& exists|sig: Seq<u8>|
                    signs(keys@.1, encode_utf8(message@), sig) && shown.signature@
                        == #[trigger] codec::hex_text(sig)
            },
            Err(e) => e@ == crypto::no_randomness_text(),
        },
{
    let signed = keys.sign(message.as_bytes());
    let r = show_signature(keys.pubkey(), message, signed);
    keys.discard();
    r
}

/// Whether a signature is one that a private key makes of a message, and that the public key of
/// the same seed accepts.
pub open spec fn signs(secret: Seq<u8>, message: Seq<u8>, sig: Seq<u8>) -> bool {
    let empty = Seq::<u8>::empty();
    &&& sig.len() == crypto::SIG_LEN
    &&& exists|rnd: Seq<u8>|
        rnd.len() == 32 && sig == #[trigger] crypto::ml_dsa_signature(secret, message, empty, rnd)
    &&& forall|seed: Seq<u8>|
        seed.len() == 32 && #[trigger] crypto::ml_dsa_keys(seed).1 == secret
            ==> crypto::ml_dsa_accepts(crypto::ml_dsa_keys(seed).0, message, empty, sig)
}

/// The fields of a key file.
pub fn read_key_file(file: &JsonValue) -> (r: KeyFile)
    ensures
        r@ == key_fields(file@),
{
    let enc = file.field("enc");
    KeyFile {
        pubkey: file.field("pubkey").as_text(),
        salt: enc.field("salt").as_text(),
        nonce: enc.field("nonce").as_text(),
        m_cost: enc.field("m_cost").as_unsigned(),
        t_cost: enc.field("t_cost").as_unsigned(),
        p_cost: enc.field("p_cost").as_unsigned(),
        seed_ciphertext: enc.field("seed_ciphertext").as_text(),
        ciphertext: enc.field("ciphertext").as_text(),
    }
}

/// The bytes of a field in hexadecimal.
fn read_hex(field: &Option<String>, missing: KeyError) -> (r: Result<Vec<u8>, KeyError>)
    ensures
        bytes_view(r) == hex_field(text::opt_view(*field), missing),
{
    match field {
        None => Err(missing),
        Some(s) => match codec::hex_decode(s.as_str()) {
            Some(b) => Ok(b),
            None => Err(KeyError::BadHex),
        },
    }
}

/// A recorded cost, or the default.
fn read_cost(recorded: Option<u64>, default: u32) -> (r: u32)
    ensures
        r == cost(recorded, default),
{
    match recorded {
        Some(n) => {
            assert(n as u32 == n % 0x1_0000_0000) by (bit_vector);
            n as u32
        },
        None => default,
    }
}

/// What a ciphertext was found to hold, if it has the length that it should have.
pub fn accept_plain(opened: Option<Vec<u8>>, len: usize, otherwise: KeyError) -> (r: Result<
    Vec<u8>,
    KeyError,
>)
    ensures
        bytes_view(r) == accepted(
            match opened {
                Some(b) => Some(b@),
                None => None,
            },
            len as nat,
            otherwise,
        ),
{
    match opened {
        None => Err(KeyError::WrongPassword),
        Some(plain) => if plain.len() != len {
            let mut plain = plain;
            crypto::scrub_bytes(&mut plain);
            Err(otherwise)
        } else {
            Ok(plain)
        },
    }
}

/// What a ciphertext in hexadecimal holds.
fn unseal(
    key: &[u8],
    nonce: &[u8],
    field: &Option<String>,
    len: usize,
    otherwise: KeyError,
) -> (r: Result<Vec<u8>, KeyError>)
    requires
        key@.len() == crypto::KEY_LEN,
    ensures
        bytes_view(r) == unsealed(key@, nonce@, text::opt_view(*field), len as nat, otherwise),
{
    let sealed = match read_hex(field, KeyError::MissingCiphertext) {
        Ok(b) => b,
        Err(e) => {
            return Err(e);
        },
    };
    if nonce.len() != crypto::NONCE_LEN {
        return Err(KeyError::BadNonce);
    }
    accept_plain(crypto::aead_open(key, nonce, sealed.as_slice()), len, otherwise)
}

/// The private key of a key pair, if its public key is the one that is stored. The private key
/// is scrubbed where it is not handed on.
pub fn match_secret(public: &[u8], secret: Vec<u8>, pubkey: &[u8]) -> (r: Result<Vec<u8>, KeyError>)
    ensures
        bytes_view(r) == matched((public@, secret@), pubkey@),
{
    if same_bytes(public, pubkey) {
        Ok(secret)
    } else {
        let mut secret = secret;
        crypto::scrub_bytes(&mut secret);
        Err(KeyError::PubkeyMismatch)
    }
}

/// The 32 bytes of a seed, as an array.
pub(crate) fn seed_array(bytes: &[u8]) -> (r: [u8; 32])
    requires
        bytes@.len() == 32,
    ensures
        r@ == bytes@,
{
    let mut seed = [0u8; 32];
    let mut i: usize = 0;
    while i < 32
        invariant
            i <= 32,
            bytes@.len() == 32,
            forall|k: int| 0 <= k < i ==> seed@[k] == bytes@[k],
        decreases 32 - i,
    {
        seed[i] = bytes[i];
        i = i + 1;
    }
    assert(seed@ =~= bytes@);
    seed
}

/// Whether two rows of bytes are equal.
fn same_bytes(a: &[u8], b: &[u8]) -> (r: bool)
    ensures
        r == (a@ == b@),
{
    if a.len() != b.len() {
        return false;
    }
    let mut i: usize = 0;
    while i < a.len()
        invariant
            a@.len() == b@.len(),
            i <= a@.len(),
            forall|k: int| 0 <= k < i ==> a@[k] == b@[k],
        decreases a@.len() - i,
    {
        if a[i] != b[i] {
            return false;
        }
        i = i + 1;
    }
    assert(a@ =~= b@);
    true
}

/// The private key that a key and a nonce open.
fn unseal_secret(f: &KeyFile, pubkey: &[u8], key: &[u8], nonce: &[u8]) -> (r: Result<
    Vec<u8>,
    KeyError,
>)
    requires
        key@.len() == crypto::KEY_LEN,
    ensures
        bytes_view(r) == unsealed_secret(f@, pubkey@, key@, nonce@),
        r matches Ok(b) ==> b@.len() == crypto::SK_LEN && crypto::ml_dsa_key_ok(b@),
{
    if f.seed_ciphertext.is_some() {
        let mut plain = match unseal(
            key,
            nonce,
            &f.seed_ciphertext,
            crypto::SEED_LEN,
            KeyError::BadSeed,
        ) {
            Ok(b) => b,
            Err(e) => {
                return Err(e);
            },
        };
        let mut seed = seed_array(plain.as_slice());
        crypto::scrub_bytes(&mut plain);
        let (public, secret) = crypto::ml_dsa_keygen(&seed);
        crypto::scrub_seed(&mut seed);
        match_secret(public.as_slice(), secret, pubkey)
    } else {
        let mut secret = match unseal(
            key,
            nonce,
            &f.ciphertext,
            crypto::SK_LEN,
            KeyError::BadKeyLength,
        ) {
            Ok(b) => b,
            Err(e) => {
                return Err(e);
            },
        };
        if !crypto::ml_dsa_check_key(secret.as_slice()) {
            crypto::scrub_bytes(&mut secret);
            return Err(KeyError::BadKey);
        }
        Ok(secret)
    }
}

/// Opens a wallet from the fields of its key file.
pub fn open_key_file(f: &KeyFile, password: &str) -> (r: Result<KeyPair, KeyError>)
    ensures
        match r {
            Ok(k) => opened(f@, password@) == Ok::<(Seq<u8>, Seq<u8>), KeyError>(k@),
            Err(e) => opened(f@, password@) == Err::<(Seq<u8>, Seq<u8>), KeyError>(e),
        },
{
    let pubkey = match read_hex(&f.pubkey, KeyError::MissingPubkey) {
        Ok(b) => b,
        Err(e) => {
            return Err(e);
        },
    };
    let salt = match read_hex(&f.salt, KeyError::MissingSalt) {
        Ok(b) => b,
        Err(e) => {
            return Err(e);
        },
    };
    let nonce = match read_hex(&f.nonce, KeyError::MissingNonce) {
        Ok(b) => b,
        Err(e) => {
            return Err(e);
        },
    };
    let m: u32 = read_cost(f.m_cost, ARGON2_DEFAULT_M);
    let t: u32 = read_cost(f.t_cost, ARGON2_DEFAULT_T);
    let p: u32 = read_cost(f.p_cost, ARGON2_DEFAULT_P);
    let mut key = match crypto::derive_key(password, salt.as_slice(), m, t, p) {
        Ok(k) => k,
        Err(e) => {
            return Err(KeyError::Kdf(e));
        },
    };
    let secret = unseal_secret(f, pubkey.as_slice(), key.as_slice(), nonce.as_slice());
    crypto::scrub_bytes(&mut key);
    match secret {
        Ok(secret) => Ok(KeyPair { pubkey, secret }),
        Err(e) => Err(e),
    }
}

/// The fields of the key file, if there is one.
fn read_fields(data: &Option<String>) -> (r: Result<KeyFile, KeyError>)
    ensures
        match r {
            Ok(f) => fields_in(text::opt_view(*data)) == Ok::<KeyFields, KeyError>(f@),
            Err(e) => fields_in(text::opt_view(*data)) == Err::<KeyFields, KeyError>(e),
        },
{
    match data {
        None => Err(KeyError::NoWallet),
        Some(data) => match JsonValue::parse(data.as_str()) {
            Ok(file) => Ok(read_key_file(&file)),
            Err(_) => Err(KeyError::Corrupt),
        },
    }
}

/// Opens the wallet in the key file, if there is one.
pub fn load_keypair(data: &Option<String>, password: &str) -> (r: Result<KeyPair, KeyError>)
    ensures
        match r {
            Ok(k) => opened_file(text::opt_view(*data), password@) == Ok::<
                (Seq<u8>, Seq<u8>),
                KeyError,
            >(k@),
            Err(e) => opened_file(text::opt_view(*data), password@) == Err::<
                (Seq<u8>, Seq<u8>),
                KeyError,
            >(e),
        },
{
    match read_fields(data) {
        Ok(f) => open_key_file(&f, password),
        Err(e) => Err(e),
    }
}

/// The public key that the key file stores. No password is needed.
pub fn load_pubkey(data: &Option<String>) -> (r: Result<Vec<u8>, KeyError>)
    ensures
        bytes_view(r) == stored_pubkey(text::opt_view(*data)),
{
    match read_fields(data) {
        Ok(f) => read_hex(&f.pubkey, KeyError::MissingPubkey),
        Err(e) => Err(e),
    }
}

/// The address of the wallet in the key file. No password is needed.
pub fn my_address(data: &Option<String>) -> (r: Result<String, KeyError>)
    ensures
        match r {
            Ok(a) => stored_pubkey(text::opt_view(*data)) matches Ok(pubkey) && a@
                == address::address_of(pubkey),
            Err(e) => stored_pubkey(text::opt_view(*data)) == Err::<Seq<u8>, KeyError>(e),
        },
{
    match load_pubkey(data) {
        Ok(pubkey) => Ok(address::derive_address(pubkey.as_slice())),
        Err(e) => Err(e),
    }
}

/// Whether a password opens the wallet in the key file, if there is one.
pub open spec fn is_password(data: Option<Seq<char>>, password: Seq<char>) -> bool {
    opened_file(data, password) is Ok
}

/// No password is right where there is no key file, or where it is no JSON or stores no public
/// key.
pub proof fn law_no_password_without_wallet(data: Option<Seq<char>>, password: Seq<char>)
    requires
        stored_pubkey(data) is Err,
    ensures
        !is_password(data, password),
{
}

/// Whether a password opens the wallet in the key file; `false` where there is none. The
/// private key is scrubbed before this returns.
pub fn verify_password(data: &Option<String>, password: &str) -> (r: bool)
    ensures
        r == is_password(text::opt_view(*data), password@),
{
    match load_keypair(data, password) {
        Ok(keys) => {
            keys.discard();
            true
        },
        Err(_) => false,
    }
}

/// Whether a cost is the recorded one, or the default where none is recorded.
pub open spec fn is_cost(recorded: Option<u64>, default: u32, n: u32) -> bool {
    match recorded {
        Some(r) => r == n,
        None => n == default,
    }
}

/// An old wallet still opens: a file that seals the private key itself opens with the key that
/// the password gives at the costs that it records, with the default in place of each one that it
/// does not.
pub proof fn law_old_wallet_opens(
    f: KeyFields,
    password: Seq<char>,
    pubkey: Seq<u8>,
    salt: Seq<u8>,
    nonce: Seq<u8>,
    m: u32,
    t: u32,
    p: u32,
    key: Seq<u8>,
    secret: Seq<u8>,
)
    requires
        hex_field(f.pubkey, KeyError::MissingPubkey) == Ok::<Seq<u8>, KeyError>(pubkey),
        hex_field(f.salt, KeyError::MissingSalt) == Ok::<Seq<u8>, KeyError>(salt),
        hex_field(f.nonce, KeyError::MissingNonce) == Ok::<Seq<u8>, KeyError>(nonce),
        is_cost(f.m_cost, ARGON2_DEFAULT_M, m),
        is_cost(f.t_cost, ARGON2_DEFAULT_T, t),
        is_cost(f.p_cost, ARGON2_DEFAULT_P, p),
        crypto::derived_key(password, salt, m, t, p) == Ok::<Seq<u8>, KdfError>(key),
        f.seed_ciphertext is None,
        unsealed(
            key,
            nonce,
            f.ciphertext,
            crypto::SK_LEN as nat,
            KeyError::BadKeyLength,
        ) == Ok::<Seq<u8>, KeyError>(secret),
        crypto::ml_dsa_key_ok(secret),
    ensures
        opened(f, password) == Ok::<(Seq<u8>, Seq<u8>), KeyError>((pubkey, secret)),
{
}

/// A file with a sealed seed opens in the same way, whichever costs it records.
pub proof fn law_seed_wallet_opens(
    f: KeyFields,
    password: Seq<char>,
    salt: Seq<u8>,
    nonce: Seq<u8>,
    m: u32,
    t: u32,
    p: u32,
    key: Seq<u8>,
    seed: Seq<u8>,
)
    requires
        hex_field(f.pubkey, KeyError::MissingPubkey) == Ok::<Seq<u8>, KeyError>(
            crypto::ml_dsa_keys(seed).0,
        ),
        hex_field(f.salt, KeyError::MissingSalt) == Ok::<Seq<u8>, KeyError>(salt),
        hex_field(f.nonce, KeyError::MissingNonce) == Ok::<Seq<u8>, KeyError>(nonce),
        is_cost(f.m_cost, ARGON2_DEFAULT_M, m),
        is_cost(f.t_cost, ARGON2_DEFAULT_T, t),
        is_cost(f.p_cost, ARGON2_DEFAULT_P, p),
        crypto::derived_key(password, salt, m, t, p) == Ok::<Seq<u8>, KdfError>(key),
        f.seed_ciphertext is Some,
        unsealed(
            key,
            nonce,
            f.seed_ciphertext,
            crypto::SEED_LEN as nat,
            KeyError::BadSeed,
        ) == Ok::<Seq<u8>, KeyError>(seed),
    ensures
        opened(f, password) == Ok::<(Seq<u8>, Seq<u8>), KeyError>(crypto::ml_dsa_keys(seed)),
{
}

/// A wallet that opens from a sealed seed has the keys of that seed: the public key that the
/// file shows is the one that belongs to the private key.
pub proof fn law_opened_keys_belong_together(f: KeyFields, password: Seq<char>)
    requires
        opened(f, password) is Ok,
        f.seed_ciphertext is Some,
    ensures
        exists|seed: Seq<u8>|
            seed.len() == crypto::SEED_LEN && opened(f, password) == Ok::<
                (Seq<u8>, Seq<u8>),
                KeyError,
            >(#[trigger] crypto::ml_dsa_keys(seed)),
{
    let salt = hex_field(f.salt, KeyError::MissingSalt).unwrap();
    let nonce = hex_field(f.nonce, KeyError::MissingNonce).unwrap();
    let key = file_key(f, password, salt).unwrap();
    let seed = unsealed(
        key,
        nonce,
        f.seed_ciphertext,
        crypto::SEED_LEN as nat,
        KeyError::BadSeed,
    ).unwrap();
    let keys = opened(f, password).unwrap();
    assert(crypto::ml_dsa_keys(seed) == keys);
}

/// What a wallet opened from a sealed seed signs, the public key that its file shows accepts.
pub proof fn law_signature_is_accepted(
    f: KeyFields,
    password: Seq<char>,
    message: Seq<u8>,
    sig: Seq<u8>,
)
    requires
        opened(f, password) is Ok,
        f.seed_ciphertext is Some,
        signs(opened(f, password).unwrap().1, message, sig),
    ensures
        crypto::ml_dsa_accepts(
            opened(f, password).unwrap().0,
            message,
            Seq::<u8>::empty(),
            sig,
        ),
{
    law_opened_keys_belong_together(f, password);
    let seed = choose|seed: Seq<u8>|
        seed.len() == crypto::SEED_LEN && opened(f, password) == Ok::<
            (Seq<u8>, Seq<u8>),
            KeyError,
        >(#[trigger] crypto::ml_dsa_keys(seed));
    assert(crypto::ml_dsa_keys(seed).1 == opened(f, password).unwrap().1);
}

/// What a new key file says of how its seed is sealed.
pub open spec fn sealing_json(salt: Seq<u8>, nonce: Seq<u8>, sealed: Seq<u8>) -> Json {
    Json::empty_object()
        .with("kdf"@, Json::Text("argon2id"@))
        .with("cipher"@, Json::Text("chacha20poly1305"@))
        .with("m_cost"@, Json::Integer(ARGON2_M_COST as int))
        .with("t_cost"@, Json::Integer(ARGON2_T_COST as int))
        .with("p_cost"@, Json::Integer(ARGON2_P_COST as int))
        .with("salt"@, Json::Text(codec::hex_text(salt)))
        .with("nonce"@, Json::Text(codec::hex_text(nonce)))
        .with("seed_ciphertext"@, Json::Text(codec::hex_text(sealed)))
}

/// A new key file: the public key and the address, and the sealed seed.
pub open spec fn key_file_json(
    pubkey: Seq<u8>,
    address: Seq<char>,
    salt: Seq<u8>,
    nonce: Seq<u8>,
    sealed: Seq<u8>,
) -> Json {
    Json::empty_object()
        .with("scheme"@, Json::Text("ML-DSA-65"@))
        .with("pubkey"@, Json::Text(codec::hex_text(pubkey)))
        .with("address"@, Json::Text(address))
        .with("enc"@, sealing_json(salt, nonce, sealed))
}

/// The key that a password gives for a new wallet.
pub open spec fn new_key(password: Seq<char>, salt: Seq<u8>) -> Result<Seq<u8>, KdfError> {
    crypto::derived_key(password, salt, ARGON2_M_COST, ARGON2_T_COST, ARGON2_P_COST)
}

/// The key file of a new wallet, whose seed is sealed under a key.
pub open spec fn new_key_json(seed: Seq<u8>, key: Seq<u8>, salt: Seq<u8>, nonce: Seq<u8>) -> Json {
    let pubkey = crypto::ml_dsa_keys(seed).0;
    let sealed = crypto::aead_sealed(key, nonce, seed);
    key_file_json(pubkey, address::address_of(pubkey), salt, nonce, sealed)
}

/// The text of the key file of a new wallet, or why there is none.
pub open spec fn new_key_file(
    seed: Seq<u8>,
    password: Seq<char>,
    salt: Seq<u8>,
    nonce: Seq<u8>,
) -> Result<Seq<char>, KdfError> {
    match new_key(password, salt) {
        Err(e) => Err(e),
        Ok(key) => Ok(json::json_pretty(new_key_json(seed, key, salt, nonce))),
    }
}

/// Whether what a new key file seals is the seed: its ciphertext is 48 bytes long, 96 digits in
/// hexadecimal, and opens to the seed under the key that the password gives.
pub open spec fn holds_seed(
    seed: Seq<u8>,
    password: Seq<char>,
    salt: Seq<u8>,
    nonce: Seq<u8>,
) -> bool {
    &&& new_key(password, salt) matches Ok(key)
    &&& crypto::aead_sealed(key, nonce, seed).len() == 48
    &&& codec::hex_text(crypto::aead_sealed(key, nonce, seed)).len() == 96
    &&& crypto::aead_opened(key, nonce, crypto::aead_sealed(key, nonce, seed)) == Some(seed)
}

/// Whether a text reads back as the whole key file of a new wallet.
pub open spec fn reads_back(
    data: Seq<char>,
    seed: Seq<u8>,
    password: Seq<char>,
    salt: Seq<u8>,
    nonce: Seq<u8>,
) -> bool {
    &&& new_key(password, salt) matches Ok(key)
    &&& json::reads_as(data, new_key_json(seed, key, salt, nonce))
}

/// Whether another password opens what a password sealed: the key that it gives opens the
/// ciphertext, and to a seed with the same public key.
pub open spec fn also_opens(
    other: Seq<char>,
    seed: Seq<u8>,
    password: Seq<char>,
    salt: Seq<u8>,
    nonce: Seq<u8>,
) -> bool {
    &&& new_key(password, salt) matches Ok(key)
    &&& new_key(other, salt) matches Ok(other_key)
    &&& crypto::aead_opened(other_key, nonce, crypto::aead_sealed(key, nonce, seed)) matches Some(s)
    &&& s.len() == crypto::SEED_LEN
    &&& crypto::ml_dsa_keys(s).0 == crypto::ml_dsa_keys(seed).0
}

/// A password is right for a new key file if and only if the key that it gives opens the
/// ciphertext to a seed with the public key that the file shows.
pub proof fn law_right_passwords(
    data: Seq<char>,
    seed: Seq<u8>,
    password: Seq<char>,
    salt: Seq<u8>,
    nonce: Seq<u8>,
    other: Seq<char>,
)
    requires
        nonce.len() == crypto::NONCE_LEN,
        reads_back(data, seed, password, salt, nonce),
    ensures
        is_password(Some(data), other) == also_opens(other, seed, password, salt, nonce),
{
    let key = new_key(password, salt).unwrap();
    let pubkey = crypto::ml_dsa_keys(seed).0;
    let sealed = crypto::aead_sealed(key, nonce, seed);
    lemma_new_key_fields(pubkey, address::address_of(pubkey), salt, nonce, sealed);
    codec::law_hex_round_trip(pubkey);
    codec::law_hex_round_trip(salt);
    codec::law_hex_round_trip(nonce);
    codec::law_hex_round_trip(sealed);
}

/// A key file that opens with the password it was sealed with gives back the keys of its seed.
pub open spec fn gives_back(data: Seq<char>, password: Seq<char>, seed: Seq<u8>) -> bool {
    &&& opened_file(Some(data), password) == Ok::<(Seq<u8>, Seq<u8>), KeyError>(
        crypto::ml_dsa_keys(seed),
    )
    &&& stored_pubkey(Some(data)) == Ok::<Seq<u8>, KeyError>(crypto::ml_dsa_keys(seed).0)
}

/// The fields of a new key file.
proof fn lemma_new_key_fields(
    pubkey: Seq<u8>,
    address: Seq<char>,
    salt: Seq<u8>,
    nonce: Seq<u8>,
    sealed: Seq<u8>,
)
    ensures
        key_fields(key_file_json(pubkey, address, salt, nonce, sealed)) == (KeyFields {
            pubkey: Some(codec::hex_text(pubkey)),
            salt: Some(codec::hex_text(salt)),
            nonce: Some(codec::hex_text(nonce)),
            m_cost: Some(ARGON2_M_COST as u64),
            t_cost: Some(ARGON2_T_COST as u64),
            p_cost: Some(ARGON2_P_COST as u64),
            seed_ciphertext: Some(codec::hex_text(sealed)),
            ciphertext: None,
        }),
{
    reveal_strlit("scheme");
    reveal_strlit("pubkey");
    reveal_strlit("address");
    reveal_strlit("enc");
    reveal_strlit("kdf");
    reveal_strlit("cipher");
    reveal_strlit("m_cost");
    reveal_strlit("t_cost");
    reveal_strlit("p_cost");
    reveal_strlit("salt");
    reveal_strlit("nonce");
    reveal_strlit("seed_ciphertext");
    reveal_strlit("ciphertext");
    assert("scheme"@.len() == 6 && "pubkey"@.len() == 6 && "address"@.len() == 7);
    assert("enc"@.len() == 3 && "kdf"@.len() == 3 && "cipher"@.len() == 6);
    assert("m_cost"@.len() == 6 && "t_cost"@.len() == 6 && "p_cost"@.len() == 6);
    assert("salt"@.len() == 4 && "nonce"@.len() == 5);
    assert("seed_ciphertext"@.len() == 15 && "ciphertext"@.len() == 10);
    assert("m_cost"@[0] == 'm' && "t_cost"@[0] == 't' && "p_cost"@[0] == 'p');
    let file = key_file_json(pubkey, address, salt, nonce, sealed);
    let enc = sealing_json(salt, nonce, sealed);
    assert(file.field("enc"@) == enc);
    assert(file.field("pubkey"@) == Json::Text(codec::hex_text(pubkey)));
    assert(enc.field("salt"@) == Json::Text(codec::hex_text(salt)));
    assert(enc.field("nonce"@) == Json::Text(codec::hex_text(nonce)));
    assert(enc.field("m_cost"@) == Json::Integer(ARGON2_M_COST as int));
    assert(enc.field("t_cost"@) == Json::Integer(ARGON2_T_COST as int));
    assert(enc.field("p_cost"@) == Json::Integer(ARGON2_P_COST as int));
    assert(enc.field("ciphertext"@) == Json::Null);
}

/// A new key file is written without loss.
proof fn lemma_new_key_file_exact(
    pubkey: Seq<u8>,
    address: Seq<char>,
    salt: Seq<u8>,
    nonce: Seq<u8>,
    sealed: Seq<u8>,
)
    ensures
        key_file_json(pubkey, address, salt, nonce, sealed).is_exact(100),
{
    let e0 = Json::empty_object();
    assert(e0.is_exact(99));
    json::lemma_with_is_exact(e0, "kdf"@, Json::Text("argon2id"@), 99);
    let e1 = e0.with("kdf"@, Json::Text("argon2id"@));
    json::lemma_with_is_exact(e1, "cipher"@, Json::Text("chacha20poly1305"@), 99);
    let e2 = e1.with("cipher"@, Json::Text("chacha20poly1305"@));
    json::lemma_with_is_exact(e2, "m_cost"@, Json::Integer(ARGON2_M_COST as int), 99);
    let e3 = e2.with("m_cost"@, Json::Integer(ARGON2_M_COST as int));
    json::lemma_with_is_exact(e3, "t_cost"@, Json::Integer(ARGON2_T_COST as int), 99);
    let e4 = e3.with("t_cost"@, Json::Integer(ARGON2_T_COST as int));
    json::lemma_with_is_exact(e4, "p_cost"@, Json::Integer(ARGON2_P_COST as int), 99);
    let e5 = e4.with("p_cost"@, Json::Integer(ARGON2_P_COST as int));
    json::lemma_with_is_exact(e5, "salt"@, Json::Text(codec::hex_text(salt)), 99);
    let e6 = e5.with("salt"@, Json::Text(codec::hex_text(salt)));
    json::lemma_with_is_exact(e6, "nonce"@, Json::Text(codec::hex_text(nonce)), 99);
    let e7 = e6.with("nonce"@, Json::Text(codec::hex_text(nonce)));
    json::lemma_with_is_exact(e7, "seed_ciphertext"@, Json::Text(codec::hex_text(sealed)), 99);
    let f0 = Json::empty_object();
    assert(f0.is_exact(100));
    json::lemma_with_is_exact(f0, "scheme"@, Json::Text("ML-DSA-65"@), 100);
    let f1 = f0.with("scheme"@, Json::Text("ML-DSA-65"@));
    json::lemma_with_is_exact(f1, "pubkey"@, Json::Text(codec::hex_text(pubkey)), 100);
    let f2 = f1.with("pubkey"@, Json::Text(codec::hex_text(pubkey)));
    json::lemma_with_is_exact(f2, "address"@, Json::Text(address), 100);
    let f3 = f2.with("address"@, Json::Text(address));
    json::lemma_with_is_exact(f3, "enc"@, sealing_json(salt, nonce, sealed), 100);
}

/// A wallet ready to be written.
pub struct SealedWallet {
    /// The text of the key file.
    pub data: String,
    /// The account address.
    pub address: String,
}

/// What a new key file says of how its seed is sealed.
fn sealing_value(salt: &[u8], nonce: &[u8], sealed: &[u8]) -> (r: JsonValue)
    ensures
        r@ == sealing_json(salt@, nonce@, sealed@),
{
    let mut enc = JsonValue::object();
    enc.insert("kdf", JsonValue::text("argon2id"));
    enc.insert("cipher", JsonValue::text("chacha20poly1305"));
    enc.insert("m_cost", JsonValue::integer(ARGON2_M_COST as i64));
    enc.insert("t_cost", JsonValue::integer(ARGON2_T_COST as i64));
    enc.insert("p_cost", JsonValue::integer(ARGON2_P_COST as i64));
    enc.insert("salt", JsonValue::text(codec::hex_encode(salt).as_str()));
    enc.insert("nonce", JsonValue::text(codec::hex_encode(nonce).as_str()));
    enc.insert("seed_ciphertext", JsonValue::text(codec::hex_encode(sealed).as_str()));
    enc
}

/// A new key file, from what it holds. Its fields read back as what they were made of.
pub fn key_file_value(pubkey: &[u8], address: &str, salt: &[u8], nonce: &[u8], sealed: &[u8]) -> (r:
    JsonValue)
    ensures
        r@ == key_file_json(pubkey@, address@, salt@, nonce@, sealed@),
        r@.is_exact(100),
        ({
            let f = key_fields(r@);
            &&& hex_field(f.pubkey, KeyError::MissingPubkey) == Ok::<Seq<u8>, KeyError>(pubkey@)
            &&& hex_field(f.salt, KeyError::MissingSalt) == Ok::<Seq<u8>, KeyError>(salt@)
            &&& hex_field(f.nonce, KeyError::MissingNonce) == Ok::<Seq<u8>, KeyError>(nonce@)
            &&& hex_field(f.seed_ciphertext, KeyError::MissingCiphertext) == Ok::<
                Seq<u8>,
                KeyError,
            >(sealed@)
            &&& cost(f.m_cost, ARGON2_DEFAULT_M) == ARGON2_M_COST
            &&& cost(f.t_cost, ARGON2_DEFAULT_T) == ARGON2_T_COST
            &&& cost(f.p_cost, ARGON2_DEFAULT_P) == ARGON2_P_COST
        }),
{
    let mut file = JsonValue::object();
    file.insert("scheme", JsonValue::text("ML-DSA-65"));
    file.insert("pubkey", JsonValue::text(codec::hex_encode(pubkey).as_str()));
    file.insert("address", JsonValue::text(address));
    file.insert("enc", sealing_value(salt, nonce, sealed));
    proof {
        lemma_new_key_fields(pubkey@, address@, salt@, nonce@, sealed@);
        lemma_new_key_file_exact(pubkey@, address@, salt@, nonce@, sealed@);
        codec::law_hex_round_trip(pubkey@);
        codec::law_hex_round_trip(salt@);
        codec::law_hex_round_trip(nonce@);
        codec::law_hex_round_trip(sealed@);
    }
    file
}

/// Seals a seed under a password into a key file, with the given salt and nonce. The file opens
/// with the same password to the keys of the seed.
pub fn seal_wallet(seed: &[u8; 32], password: &str, salt: &[u8], nonce: &[u8]) -> (r: Result<
    SealedWallet,
    KdfError,
>)
    requires
        nonce@.len() == crypto::NONCE_LEN,
    ensures
        match r {
            Ok(w) => {
                &&& new_key_file(seed@, password@, salt@, nonce@) == Ok::<Seq<char>, KdfError>(
                    w.data@,
                )
                &&& reads_back(w.data@, seed@, password@, salt@, nonce@)
                &&& holds_seed(seed@, password@, salt@, nonce@)
                &&& w.address@ == address::address_of(crypto::ml_dsa_keys(seed@).0)
                &&& gives_back(w.data@, password@, seed@)
            },
            Err(e) => new_key_file(seed@, password@, salt@, nonce@) == Err::<Seq<char>, KdfError>(e),
        },
{
    let (pubkey, mut secret) = crypto::ml_dsa_keygen(seed);
    crypto::scrub_bytes(&mut secret);
    let address = address::derive_address(pubkey.as_slice());
    let mut key = match crypto::derive_key(
        password,
        salt,
        ARGON2_M_COST,
        ARGON2_T_COST,
        ARGON2_P_COST,
    ) {
        Ok(k) => k,
        Err(e) => {
            return Err(e);
        },
    };
    let sealed = crypto::aead_seal(key.as_slice(), nonce, seed.as_slice());
    crypto::scrub_bytes(&mut key);
    let file = key_file_value(
        pubkey.as_slice(),
        address.as_str(),
        salt,
        nonce,
        sealed.as_slice(),
    );
    let data = file.render_pretty();
    Ok(SealedWallet { data, address })
}

} // verus!
