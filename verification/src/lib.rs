//! A wallet for the Sequora chain with post-quantum keys (ML-DSA-65).
//!
//! A wallet is a seed of 32 bytes, which a recovery phrase of 24 words stands for. The seed gives
//! the keys, the public key gives the address, and a password seals the seed into a key file.
//! The library holds what the wallet computes and decides: the key file and its sealing, the
//! order in which it is written, addresses, transactions and their signatures, what is made of
//! the chain's answers, and how a request to the local web server is worked on. Files, the
//! network and printing are the caller's.
//!
//! - [`text`], [`codec`], [`json`], [`proto`]: the formats.
//! - [`crypto`]: the cryptographic primitives.
//! - [`address`], [`keyfile`], [`wallet`]: keys, where they come from and how they are kept.
//! - [`tx`], [`chain`]: what is sent to the chain and what it answers.
//! - [`server`], [`session`]: the local web server.
//! - [`laws`]: what the library promises of all this.
pub mod address;
pub mod chain;
pub mod codec;
pub mod crypto;
pub mod json;
pub mod keyfile;
pub mod laws;
pub mod proto;
pub mod server;
pub mod session;
pub mod text;
pub mod tx;
pub mod wallet;
