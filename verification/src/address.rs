//! Addresses: the bech32 text of the first 20 bytes of a public key's hash.
use vstd::prelude::*;

use crate::codec;
use crate::crypto;
use crate::text;

verus! {

/// The account that a public key stands for: the first 20 bytes of its SHA-256 hash.
pub open spec fn account_hash(pubkey: Seq<u8>) -> Seq<u8> {
    crypto::sha256(pubkey).take(20)
}

/// The account address of a public key.
pub open spec fn address_of(pubkey: Seq<u8>) -> Seq<char> {
    codec::bech32_text("sqr"@, account_hash(pubkey))
}

/// The validator-operator address of a public key.
pub open spec fn valoper_of(pubkey: Seq<u8>) -> Seq<char> {
    codec::bech32_text("sqrvaloper"@, account_hash(pubkey))
}

/// The account that a public key with the given hash stands for: the hash's first 20 bytes.
pub fn account_of_hash(hash: Vec<u8>) -> (r: Vec<u8>)
    requires
        hash@.len() == 32,
    ensures
        r@ == hash@.take(20),
{
    let mut account = hash;
    account.truncate(20);
    assert(account@ =~= hash@.take(20));
    account
}

/// Whether a text is written in bech32 characters, none of them upper-case, with the account of
/// a public key after the first `at`.
pub open spec fn holds_account(s: Seq<char>, at: int, pubkey: Seq<u8>) -> bool {
    &&& s.len() == at + 32 + 6
    &&& s.subrange(at, at + 32) == codec::bech32_data(account_hash(pubkey))
    &&& forall|i: int| at <= i < s.len() ==> codec::bech32_alphabet().contains(#[trigger] s[i])
    &&& forall|i: int| 0 <= i < s.len() ==> !('A' <= #[trigger] s[i] <= 'Z')
}

/// The two addresses of a public key hold the same account: between the prefix and the checksum
/// they are the same 32 characters.
pub proof fn law_addresses_share_account(pubkey: Seq<u8>)
    requires
        crypto::sha256(pubkey).len() == 32,
    ensures
        address_of(pubkey).subrange(4, 36) == codec::bech32_data(account_hash(pubkey)),
        valoper_of(pubkey).subrange(11, 43) == address_of(pubkey).subrange(4, 36),
{
    reveal_strlit("sqr");
    reveal_strlit("sqrvaloper");
    let data = codec::bech32_data(account_hash(pubkey));
    assert(data.len() == 32);
    assert(address_of(pubkey).subrange(4, 36) =~= data);
    assert(valoper_of(pubkey).subrange(11, 43) =~= data);
}

/// An address belongs to one account only.
pub proof fn law_address_names_account(pubkey1: Seq<u8>, pubkey2: Seq<u8>)
    requires
        crypto::sha256(pubkey1).len() == 32,
        crypto::sha256(pubkey2).len() == 32,
        address_of(pubkey1) == address_of(pubkey2) || valoper_of(pubkey1) == valoper_of(pubkey2),
    ensures
        account_hash(pubkey1) == account_hash(pubkey2),
{
    law_addresses_share_account(pubkey1);
    law_addresses_share_account(pubkey2);
    codec::law_bech32_data_injective(account_hash(pubkey1), account_hash(pubkey2));
}

/// The account address of a public key. It begins with `sqr1`, is 42 characters long and in lower
/// case, and belongs to one account only.
pub fn derive_address(pubkey: &[u8]) -> (r: String)
    ensures
        r@ == address_of(pubkey@),
        r@.len() == 42,
        text::begins_with(r@, "sqr1"@),
        holds_account(r@, 4, pubkey@),
        r@.subrange(4, 36) == codec::bech32_data(crypto::sha256(pubkey@).take(20)),
        forall|other: Seq<u8>|
            crypto::sha256(other).len() == 32 && #[trigger] address_of(other) == r@
                ==> account_hash(other) == account_hash(pubkey@),
{
    let hash = crypto::sha256_digest(pubkey);
    let account = account_of_hash(hash);
    proof {
        reveal_strlit("sqr");
        reveal_strlit("sqr1");
    }
    let r = codec::bech32_encode("sqr", account.as_slice());
    proof {
        assert("sqr1"@ =~= "sqr"@ + seq!['1']);
        assert(r@.take(4) =~= "sqr1"@);
        law_addresses_share_account(pubkey@);
        lemma_lower(r@, 4);
        assert forall|other: Seq<u8>|
            crypto::sha256(other).len() == 32 && #[trigger] address_of(other)
                == r@ implies account_hash(other) == account_hash(pubkey@) by {
            law_address_names_account(other, pubkey@);
        }
    }
    r
}

/// A text of bech32 characters behind a part without upper-case letters has none.
proof fn lemma_lower(s: Seq<char>, at: int)
    requires
        0 <= at <= s.len(),
        forall|i: int| 0 <= i < at ==> !('A' <= #[trigger] s[i] <= 'Z'),
        forall|i: int| at <= i < s.len() ==> codec::bech32_alphabet().contains(#[trigger] s[i]),
    ensures
        forall|i: int| 0 <= i < s.len() ==> !('A' <= #[trigger] s[i] <= 'Z'),
{
    assert forall|i: int| 0 <= i < s.len() implies !('A' <= #[trigger] s[i] <= 'Z') by {
        if i >= at {
            codec::lemma_bech32_lower(s[i]);
        }
    }
}

/// The validator-operator address of a public key: the same account under another prefix. It
/// begins with `sqrvaloper1`, is 49 characters long and in lower case, and shares the characters
/// of the account with the account address.
pub fn derive_valoper(pubkey: &[u8]) -> (r: String)
    ensures
        r@ == valoper_of(pubkey@),
        r@.len() == 49,
        text::begins_with(r@, "sqrvaloper1"@),
        holds_account(r@, 11, pubkey@),
        r@.subrange(11, 43) == codec::bech32_data(crypto::sha256(pubkey@).take(20)),
        r@.subrange(11, 43) == address_of(pubkey@).subrange(4, 36),
        forall|other: Seq<u8>|
            crypto::sha256(other).len() == 32 && #[trigger] valoper_of(other) == r@
                ==> account_hash(other) == account_hash(pubkey@),
{
    let hash = crypto::sha256_digest(pubkey);
    let account = account_of_hash(hash);
    proof {
        reveal_strlit("sqrvaloper");
        reveal_strlit("sqrvaloper1");
    }
    let r = codec::bech32_encode("sqrvaloper", account.as_slice());
    proof {
        assert("sqrvaloper1"@ =~= "sqrvaloper"@ + seq!['1']);
        assert(r@.take(11) =~= "sqrvaloper1"@);
        law_addresses_share_account(pubkey@);
        lemma_lower(r@, 11);
        assert forall|other: Seq<u8>|
            crypto::sha256(other).len() == 32 && #[trigger] valoper_of(other)
                == r@ implies account_hash(other) == account_hash(pubkey@) by {
            law_address_names_account(other, pubkey@);
        }
    }
    r
}

} // verus!
