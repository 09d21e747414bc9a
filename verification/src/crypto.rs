//! The cryptographic primitives: hashing, key derivation, sealing, signing, recovery phrases,
//! randomness and scrubbing.
use argon2::{Algorithm, Argon2, Params, Version};
use chacha20poly1305::aead::Aead;
use chacha20poly1305::{ChaCha20Poly1305, KeyInit, Nonce};
use fips204::ml_dsa_65;
use fips204::traits::{KeyGen, SerDes, Signer, Verifier};
use sha2::Digest;
use vstd::prelude::*;
use vstd::utf8::*;
use zeroize::Zeroize;

verus! {

/// Length of a seed, in bytes.
pub const SEED_LEN: usize = 32;

/// Length of a public key, in bytes.
pub const PK_LEN: usize = 1952;

/// Length of a private key, in bytes.
pub const SK_LEN: usize = 4032;

/// Length of a signature, in bytes.
pub const SIG_LEN: usize = 3309;

/// Length of the key that seals a wallet, in bytes.
pub const KEY_LEN: usize = 32;

/// Length of the nonce that a wallet is sealed with, in bytes.
pub const NONCE_LEN: usize = 12;

/// The SHA-256 hash of bytes.
pub uninterp spec fn sha256(data: Seq<u8>) -> Seq<u8>;

/// `sha2::Sha256::digest`: the hash, 32 bytes.
#[verifier::external_body]
pub(crate) fn sha256_digest(data: &[u8]) -> (r: Vec<u8>)
    ensures
        r@ == sha256(data@),
        r@.len() == 32,
{
    sha2::Sha256::digest(data).to_vec()
}

/// `getrandom::getrandom` into a buffer of `n` bytes: that many bytes, of which nothing else is
/// known, or `None` where the system has no randomness to give.
#[verifier::external_body]
pub(crate) fn rand_bytes(n: usize) -> (r: Option<Vec<u8>>)
    ensures
        r matches Some(b) ==> b@.len() == n,
{
    let mut b = vec![0u8; n];
    getrandom::getrandom(&mut b).ok().map(|_| b)
}

/// `zeroize::Zeroize::zeroize` on a `Vec<u8>`, which overwrites the bytes and leaves it empty.
#[verifier::external_body]
pub(crate) fn scrub_bytes(b: &mut Vec<u8>)
    ensures
        final(b)@.len() == 0,
{
    b.zeroize();
}

/// `zeroize::Zeroize::zeroize` on a `String`, which overwrites the text and leaves it empty.
#[verifier::external_body]
pub(crate) fn scrub_text(s: &mut String)
    ensures
        final(s)@.len() == 0,
{
    s.zeroize();
}

/// `zeroize::Zeroize::zeroize` on an array, which overwrites it with zeros.
#[verifier::external_body]
pub(crate) fn scrub_seed(b: &mut [u8; 32])
    ensures
        final(b)@ == Seq::new(32, |i: int| 0u8),
{
    b.zeroize();
}

/// Whether Argon2 takes these costs: memory of at least 8 KiB and at least 8 KiB a lane, at
/// least one pass, 1 to 2^24 - 1 lanes, and memory that can be addressed.
pub open spec fn kdf_costs_ok(m: u32, t: u32, p: u32) -> bool {
    &&& m >= 8
    &&& m >= 8 * p
    &&& t >= 1
    &&& 1 <= p <= 0xff_ffff
    &&& m * 1024 <= isize::MAX
}

/// Whether Argon2 takes a password and a salt of these lengths in bytes.
pub open spec fn kdf_lengths_ok(password: nat, salt: nat) -> bool {
    password <= 0xffff_ffff && 8 <= salt <= 0xffff_ffff
}

/// What Argon2id, version 1.3, makes of a password and a salt at the costs `m` (memory in KiB),
/// `t` (passes) and `p` (lanes), in 32 bytes.
pub uninterp spec fn argon2id(password: Seq<u8>, salt: Seq<u8>, m: u32, t: u32, p: u32) -> Seq<u8>;

/// `argon2::Params::new` and `argon2::Argon2::hash_password_into`, for Argon2id of version 0x13
/// with 32 bytes of output. Neither refuses what `requires` admits.
#[verifier::external_body]
pub(crate) fn argon2id_hash(password: &[u8], salt: &[u8], m: u32, t: u32, p: u32) -> (r: Vec<u8>)
    requires
        kdf_costs_ok(m, t, p),
        kdf_lengths_ok(password@.len(), salt@.len()),
    ensures
        r@ == argon2id(password@, salt@, m, t, p),
        r@.len() == 32,
{
    let mut key = vec![0u8; 32];
    let params = Params::new(m, t, p, Some(32)).expect("argon2 params");
    Argon2::new(Algorithm::Argon2id, Version::V0x13, params).hash_password_into(
        password,
        salt,
        &mut key,
    ).expect("argon2id");
    key
}

/// Why no key could be derived.
#[derive(Clone, Copy, Debug, PartialEq, Eq, Structural)]
pub enum KdfError {
    /// The costs are out of range.
    Costs,
    /// The password or the salt has a length that cannot be used.
    Lengths,
}

/// The key that a password gives with a salt at the given costs.
pub open spec fn derived_key(
    password: Seq<char>,
    salt: Seq<u8>,
    m: u32,
    t: u32,
    p: u32,
) -> Result<Seq<u8>, KdfError> {
    if !kdf_costs_ok(m, t, p) {
        Err(KdfError::Costs)
    } else if !kdf_lengths_ok(encode_utf8(password).len(), salt.len()) {
        Err(KdfError::Lengths)
    } else {
        Ok(argon2id(encode_utf8(password), salt, m, t, p))
    }
}

/// Derives the key that seals a wallet from a password, a salt and the costs.
pub fn derive_key(password: &str, salt: &[u8], m: u32, t: u32, p: u32) -> (r: Result<
    Vec<u8>,
    KdfError,
>)
    ensures
        match r {
            Ok(key) => derived_key(password@, salt@, m, t, p) == Ok::<Seq<u8>, KdfError>(key@)
                && key@.len() == KEY_LEN,
            Err(e) => derived_key(password@, salt@, m, t, p) == Err::<Seq<u8>, KdfError>(e),
        },
{
    let costs_ok = m >= 8 && t >= 1 && 1 <= p && p <= 0xff_ffff && m as u64 >= 8 * (p as u64)
        && (m as u64) * 1024 <= isize::MAX as u64;
    if !costs_ok {
        return Err(KdfError::Costs);
    }
    let bytes = password.as_bytes();
    if bytes.len() as u64 > 0xffff_ffff || salt.len() < 8 || salt.len() as u64 > 0xffff_ffff {
        return Err(KdfError::Lengths);
    }
    Ok(argon2id_hash(bytes, salt, m, t, p))
}

/// The ChaCha20-Poly1305 ciphertext, tag included, of a text under a key and a nonce, with no
/// associated data.
pub uninterp spec fn aead_sealed(key: Seq<u8>, nonce: Seq<u8>, plain: Seq<u8>) -> Seq<u8>;

/// The text that a ChaCha20-Poly1305 ciphertext, tag included, holds under a key and a nonce,
/// with no associated data: `None` where the tag does not match.
pub uninterp spec fn aead_opened(key: Seq<u8>, nonce: Seq<u8>, sealed: Seq<u8>) -> Option<Seq<u8>>;

/// `chacha20poly1305::ChaCha20Poly1305::encrypt`: the ciphertext, 16 bytes longer than the text,
/// which opens to the text under the same key and nonce. The key's and the nonce's lengths are
/// the cipher's, and the text is far below its limit, so nothing is refused.
#[verifier::external_body]
pub(crate) fn aead_seal(key: &[u8], nonce: &[u8], plain: &[u8]) -> (r: Vec<u8>)
    requires
        key@.len() == KEY_LEN,
        nonce@.len() == NONCE_LEN,
        plain@.len() <= 0x7fff_ffff,
    ensures
        r@ == aead_sealed(key@, nonce@, plain@),
        r@.len() == plain@.len() + 16,
        aead_opened(key@, nonce@, r@) == Some(plain@),
{
    let cipher = ChaCha20Poly1305::new_from_slice(key).expect("cipher");
    cipher.encrypt(Nonce::from_slice(nonce), plain).expect("encrypt")
}

/// `chacha20poly1305::ChaCha20Poly1305::decrypt`: the text, or an error (here `None`) where the
/// ciphertext was not made under this key and nonce. The key's and the nonce's lengths are the
/// cipher's.
#[verifier::external_body]
pub(crate) fn aead_open(key: &[u8], nonce: &[u8], sealed: &[u8]) -> (r: Option<Vec<u8>>)
    requires
        key@.len() == KEY_LEN,
        nonce@.len() == NONCE_LEN,
    ensures
        match r {
            Some(plain) => aead_opened(key@, nonce@, sealed@) == Some(plain@),
            None => aead_opened(key@, nonce@, sealed@) is None,
        },
{
    let cipher = ChaCha20Poly1305::new_from_slice(key).expect("cipher");
    cipher.decrypt(Nonce::from_slice(nonce), sealed).ok()
}

/// The ML-DSA-65 public key and private key, as bytes, that a seed of 32 bytes gives.
pub uninterp spec fn ml_dsa_keys(seed: Seq<u8>) -> (Seq<u8>, Seq<u8>);

/// Whether bytes are a well-formed ML-DSA-65 private key.
pub uninterp spec fn ml_dsa_key_ok(secret: Seq<u8>) -> bool;

/// The ML-DSA-65 signature that a private key makes of a message and a context with the 32
/// random bytes `rnd`: what fips204 gives where the system hands it these bytes.
pub uninterp spec fn ml_dsa_signature(
    secret: Seq<u8>,
    message: Seq<u8>,
    context: Seq<u8>,
    rnd: Seq<u8>,
) -> Seq<u8>;

/// Whether an ML-DSA-65 public key accepts a signature of a message and a context.
pub uninterp spec fn ml_dsa_accepts(
    public: Seq<u8>,
    message: Seq<u8>,
    context: Seq<u8>,
    signature: Seq<u8>,
) -> bool;

/// `fips204::ml_dsa_65::KG::keygen_from_seed`, with both keys as `SerDes::into_bytes` gives them:
/// a public key of 1952 bytes and a well-formed private key of 4032.
#[verifier::external_body]
pub(crate) fn ml_dsa_keygen(seed: &[u8; 32]) -> (r: (Vec<u8>, Vec<u8>))
    ensures
        (r.0@, r.1@) == ml_dsa_keys(seed@),
        r.0@.len() == PK_LEN,
        r.1@.len() == SK_LEN,
        ml_dsa_key_ok(r.1@),
{
    let (public, secret) = ml_dsa_65::KG::keygen_from_seed(seed);
    (public.into_bytes().to_vec(), secret.into_bytes().to_vec())
}

/// `fips204::traits::SerDes::try_from_bytes` for `fips204::ml_dsa_65::PrivateKey`: whether it
/// takes the bytes. The copy that it is handed is scrubbed.
#[verifier::external_body]
pub(crate) fn ml_dsa_check_key(secret: &[u8]) -> (r: bool)
    requires
        secret@.len() == SK_LEN,
    ensures
        r == ml_dsa_key_ok(secret@),
{
    let mut bytes: [u8; SK_LEN] = secret.try_into().expect("private key length");
    let taken = ml_dsa_65::PrivateKey::try_from_bytes(bytes).is_ok();
    bytes.zeroize();
    taken
}

/// What fips204 says, as `Debug` writes it, where there is no randomness to sign with.
pub open spec fn no_randomness_text() -> Seq<char> {
    "\"ML-DSA.Sign: random number generator failed\""@
}

/// `fips204::traits::Signer::try_sign` with the private key that the bytes are: a signature of
/// 3309 bytes, made with 32 random bytes of the system. The public key that came with the private
/// key accepts it. An error comes where the context is longer than 255 bytes, and otherwise only
/// where the system has no randomness; the error is the text that `Debug` writes of it. It tries
/// until a signature is short enough, and how often is left to chance. The copy of the private key
/// that is made for it is scrubbed.
#[verifier::external_body]
pub(crate) fn ml_dsa_sign(secret: &[u8], message: &[u8], context: &[u8]) -> (r: Result<
    Vec<u8>,
    String,
>)
    requires
        secret@.len() == SK_LEN,
        ml_dsa_key_ok(secret@),
    ensures
        context@.len() > 255 ==> r is Err,
        context@.len() <= 255 ==> (r matches Err(e) ==> e@ == no_randomness_text()),
        r matches Ok(sig) ==> {
            &&& sig@.len() == SIG_LEN
            &&& exists|rnd: Seq<u8>|
                rnd.len() == 32 && sig@ == #[trigger] ml_dsa_signature(
                    secret@,
                    message@,
                    context@,
                    rnd,
                )
            &&& forall|seed: Seq<u8>|
                seed.len() == 32 && #[trigger] ml_dsa_keys(seed).1 == secret@ ==> ml_dsa_accepts(
                    ml_dsa_keys(seed).0,
                    message@,
                    context@,
                    sig@,
                )
        },
{
    let mut bytes: [u8; SK_LEN] = secret.try_into().expect("private key length");
    let key = ml_dsa_65::PrivateKey::try_from_bytes(bytes).map_err(|e| format!("{e:?}"));
    bytes.zeroize();
    key?.try_sign(message, context).map(|sig| sig.to_vec()).map_err(|e| format!("{e:?}"))
}

/// `fips204::traits::Verifier::verify` with the public key that the bytes are, as
/// `SerDes::try_from_bytes` takes them: whether the key accepts the signature. A key that is not
/// taken accepts none.
#[verifier::external_body]
pub(crate) fn ml_dsa_verify(public: &[u8], message: &[u8], context: &[u8], signature: &[u8]) -> (r:
    bool)
    requires
        public@.len() == PK_LEN,
        signature@.len() == SIG_LEN,
    ensures
        r == ml_dsa_accepts(public@, message@, context@, signature@),
{
    let sig = signature.try_into().expect("signature length");
    match ml_dsa_65::PublicKey::try_from_bytes(public.try_into().expect("public key length")) {
        Ok(key) => key.verify(message, sig, context),
        Err(_) => false,
    }
}

/// Whether entropy of this many bytes has a recovery phrase.
pub open spec fn is_entropy_len(n: nat) -> bool {
    n == 16 || n == 20 || n == 24 || n == 28 || n == 32
}

/// The English recovery phrase of entropy, if its length has one.
pub uninterp spec fn mnemonic_phrase(entropy: Seq<u8>) -> Option<Seq<char>>;

/// The entropy that a recovery phrase encodes: `None` where it has a wrong number of words, an
/// unknown word or a wrong checksum.
pub uninterp spec fn mnemonic_entropy(phrase: Seq<char>) -> Option<Seq<u8>>;

/// `bip39::Mnemonic::from_entropy`, as text: the phrase, which begins and ends with a letter and
/// reads back as the entropy; an error (here `None`) for a length that has no phrase. The number
/// of bits must not overflow.
#[verifier::external_body]
pub(crate) fn mnemonic_from_entropy(entropy: &[u8]) -> (r: Option<String>)
    requires
        8 * entropy@.len() <= usize::MAX,
    ensures
        r is Some == is_entropy_len(entropy@.len()),
        match r {
            Some(phrase) => mnemonic_phrase(entropy@) == Some(phrase@),
            None => mnemonic_phrase(entropy@) is None,
        },
        r matches Some(phrase) ==> {
            &&& phrase@.len() > 0
            &&& 'a' <= phrase@.first() <= 'z'
            &&& 'a' <= phrase@.last() <= 'z'
            &&& mnemonic_entropy(phrase@) == Some(entropy@)
        },
{
    bip39::Mnemonic::from_entropy(entropy).ok().map(|m| m.to_string())
}

/// `bip39::Mnemonic::parse` and `bip39::Mnemonic::to_entropy`: the entropy that the phrase
/// encodes, or an error (here `None`).
#[verifier::external_body]
pub(crate) fn mnemonic_to_entropy(phrase: &str) -> (r: Option<Vec<u8>>)
    ensures
        match r {
            Some(entropy) => mnemonic_entropy(phrase@) == Some(entropy@),
            None => mnemonic_entropy(phrase@) is None,
        },
        r matches Some(entropy) ==> is_entropy_len(entropy@.len()),
{
    bip39::Mnemonic::parse(phrase).ok().map(|m| m.to_entropy())
}

} // verus!
