//! The protocol-buffers wire format of the messages that a transaction is made of.
use cosmos_sdk_proto::cosmos::bank::v1beta1::MsgSend;
use cosmos_sdk_proto::cosmos::base::v1beta1::Coin;
use cosmos_sdk_proto::cosmos::distribution::v1beta1::{
    MsgWithdrawDelegatorReward, MsgWithdrawValidatorCommission,
};
use cosmos_sdk_proto::cosmos::slashing::v1beta1::MsgUnjail;
use cosmos_sdk_proto::cosmos::staking::v1beta1::{MsgDelegate, MsgUndelegate};
use cosmos_sdk_proto::cosmos::tx::v1beta1::{
    mode_info, AuthInfo, Fee, ModeInfo, SignDoc, SignerInfo, TxBody, TxRaw,
};
use cosmos_sdk_proto::Any;
use prost::Message;
use vstd::prelude::*;
use vstd::utf8::*;

use crate::text;

verus! {

/// A number as a base-128 varint: seven bits a byte, the lowest first, the top bit set on every
/// byte but the last.
pub open spec fn varint(n: nat) -> Seq<u8>
    decreases n,
{
    if n < 128 {
        seq![n as u8]
    } else {
        seq![(n % 128 + 128) as u8] + varint(n / 128)
    }
}

/// The varint that bytes begin with: its number, and how many bytes it takes.
pub open spec fn read_varint(b: Seq<u8>) -> Option<(nat, nat)>
    decreases b.len(),
{
    if b.len() == 0 {
        None
    } else if b[0] < 128 {
        Some((b[0] as nat, 1))
    } else {
        match read_varint(b.drop_first()) {
            Some((n, len)) => Some(((b[0] - 128) as nat + 128 * n, len + 1)),
            None => None,
        }
    }
}

/// A length-delimited field: the field's key, the length, the bytes.
pub open spec fn len_field(field: nat, b: Seq<u8>) -> Seq<u8> {
    varint(8 * field + 2) + varint(b.len()) + b
}

/// A `bytes` field, which is left out where it is empty.
pub open spec fn bytes_field(field: nat, b: Seq<u8>) -> Seq<u8> {
    if b.len() == 0 {
        Seq::empty()
    } else {
        len_field(field, b)
    }
}

/// A `string` field, which is left out where it is empty.
pub open spec fn text_field(field: nat, s: Seq<char>) -> Seq<u8> {
    bytes_field(field, encode_utf8(s))
}

/// A field that holds an unsigned number or an enumeration, which is left out where it is zero.
pub open spec fn uint_field(field: nat, n: nat) -> Seq<u8> {
    if n == 0 {
        Seq::empty()
    } else {
        varint(8 * field) + varint(n)
    }
}

/// The length-delimited field that bytes begin with: its number, its bytes and what follows.
pub open spec fn read_len_field(b: Seq<u8>) -> Option<(nat, Seq<u8>, Seq<u8>)> {
    match read_varint(b) {
        Some((key, k)) => match read_varint(b.skip(k as int)) {
            Some((len, l)) => if key % 8 == 2 && k + l + len <= b.len() {
                Some(
                    (
                        key / 8,
                        b.subrange((k + l) as int, (k + l + len) as int),
                        b.skip((k + l + len) as int),
                    ),
                )
            } else {
                None
            },
            None => None,
        },
        None => None,
    }
}

/// A varint reads back as its number, whatever follows it.
pub proof fn lemma_read_varint(n: nat, rest: Seq<u8>)
    ensures
        varint(n).len() > 0,
        read_varint(varint(n) + rest) == Some((n, varint(n).len())),
    decreases n,
{
    let b = varint(n) + rest;
    if n >= 128 {
        lemma_read_varint(n / 128, rest);
        assert(b.drop_first() =~= varint(n / 128) + rest);
    }
}

/// A length-delimited field reads back as its number and its bytes, whatever follows it.
pub proof fn lemma_read_len_field(field: nat, b: Seq<u8>, rest: Seq<u8>)
    ensures
        read_len_field(len_field(field, b) + rest) == Some((field, b, rest)),
{
    let whole = len_field(field, b) + rest;
    let (key, len) = (varint(8 * field + 2), varint(b.len()));
    lemma_read_varint(8 * field + 2, len + b + rest);
    assert(whole =~= key + (len + b + rest));
    lemma_read_varint(b.len(), b + rest);
    assert(whole.skip(key.len() as int) =~= len + (b + rest));
    assert(whole.subrange((key.len() + len.len()) as int, (key.len() + len.len() + b.len()) as int)
        =~= b);
    assert(whole.skip((key.len() + len.len() + b.len()) as int) =~= rest);
}

/// The value of the `Any` that holds a public key: a message whose field 1 is the key.
pub fn pubkey_any_value(pk: &[u8]) -> (r: Vec<u8>)
    ensures
        r@ == len_field(1, pk@),
{
    let mut v: Vec<u8> = Vec::new();
    v.push(0x0a);
    let mut len: usize = pk.len();
    let ghost head = v@;
    assert(head =~= varint(10));
    loop
        invariant_except_break
            head + varint(pk@.len()) =~= v@ + varint(len as nat),
        ensures
            v@ =~= head + varint(pk@.len()),
        decreases len,
    {
        assert(len & 0x7f == len % 128) by (bit_vector);
        let mut b: u8 = (len & 0x7f) as u8;
        let ghost (low, before) = (b, len);
        assert(len >> 7 == len / 128) by (bit_vector);
        len = len >> 7;
        if len != 0 {
            assert(low < 128 ==> low | 0x80 == low + 128) by (bit_vector);
            b = b | 0x80;
        }
        v.push(b);
        if len == 0 {
            assert(varint(before as nat) =~= seq![b]);
            break;
        }
        assert(varint(before as nat) =~= seq![b] + varint(len as nat));
    }
    v.extend_from_slice(pk);
    v
}

/// The public key's `Any` value reads back as one field, number 1, that holds the key, and
/// nothing after it.
pub proof fn law_pubkey_any_value_reads_back(pk: Seq<u8>)
    ensures
        read_len_field(len_field(1, pk)) == Some((1nat, pk, Seq::<u8>::empty())),
{
    lemma_read_len_field(1, pk, Seq::empty());
    assert(len_field(1, pk) + Seq::empty() =~= len_field(1, pk));
}

/// `cosmos.base.v1beta1.Coin`.
pub open spec fn coin_bytes(denom: Seq<char>, amount: Seq<char>) -> Seq<u8> {
    text_field(1, denom) + text_field(2, amount)
}

/// `google.protobuf.Any`.
pub open spec fn any_bytes(type_url: Seq<char>, value: Seq<u8>) -> Seq<u8> {
    text_field(1, type_url) + bytes_field(2, value)
}

/// A message of two addresses.
pub open spec fn two_address_bytes(first: Seq<char>, second: Seq<char>) -> Seq<u8> {
    text_field(1, first) + text_field(2, second)
}

/// A message of two addresses and one coin.
pub open spec fn transfer_bytes(
    first: Seq<char>,
    second: Seq<char>,
    denom: Seq<char>,
    amount: Seq<char>,
) -> Seq<u8> {
    two_address_bytes(first, second) + len_field(3, coin_bytes(denom, amount))
}

/// `cosmos.tx.v1beta1.TxBody` with one message and nothing else.
pub open spec fn tx_body_bytes(type_url: Seq<char>, value: Seq<u8>) -> Seq<u8> {
    len_field(1, any_bytes(type_url, value))
}

/// `cosmos.tx.v1beta1.SignerInfo` with a public key, one single signing mode and a sequence
/// number.
pub open spec fn signer_info_bytes(
    key_url: Seq<char>,
    key_value: Seq<u8>,
    mode: nat,
    sequence: nat,
) -> Seq<u8> {
    len_field(1, any_bytes(key_url, key_value)) + len_field(2, len_field(1, uint_field(1, mode)))
        + uint_field(3, sequence)
}

/// `cosmos.tx.v1beta1.Fee` with one coin and a gas limit.
pub open spec fn fee_bytes(denom: Seq<char>, amount: Seq<char>, gas: nat) -> Seq<u8> {
    len_field(1, coin_bytes(denom, amount)) + uint_field(2, gas)
}

/// `cosmos.tx.v1beta1.AuthInfo` with one signer and a fee.
pub open spec fn auth_info_bytes(signer: Seq<u8>, fee: Seq<u8>) -> Seq<u8> {
    len_field(1, signer) + len_field(2, fee)
}

/// `cosmos.tx.v1beta1.SignDoc`.
pub open spec fn sign_doc_bytes(
    body: Seq<u8>,
    auth_info: Seq<u8>,
    chain_id: Seq<char>,
    account_number: nat,
) -> Seq<u8> {
    bytes_field(1, body) + bytes_field(2, auth_info) + text_field(3, chain_id) + uint_field(
        4,
        account_number,
    )
}

/// `cosmos.tx.v1beta1.TxRaw` with one signature.
pub open spec fn tx_raw_bytes(body: Seq<u8>, auth_info: Seq<u8>, signature: Seq<u8>) -> Seq<u8> {
    bytes_field(1, body) + bytes_field(2, auth_info) + len_field(3, signature)
}

/// Whether bytes are empty or begin with another byte than `key`.
pub open spec fn starts_without(b: Seq<u8>, key: u8) -> bool {
    b.len() == 0 || b[0] != key
}

/// A `bytes` field and what follows it are both determined by their concatenation, where what
/// follows does not begin with the field's key.
pub proof fn lemma_bytes_field_splits(
    field: nat,
    b1: Seq<u8>,
    rest1: Seq<u8>,
    b2: Seq<u8>,
    rest2: Seq<u8>,
)
    requires
        field < 16,
        bytes_field(field, b1) + rest1 == bytes_field(field, b2) + rest2,
        starts_without(rest1, (8 * field + 2) as u8),
        starts_without(rest2, (8 * field + 2) as u8),
    ensures
        b1 == b2,
        rest1 == rest2,
{
    let whole = bytes_field(field, b1) + rest1;
    let key = (8 * field + 2) as u8;
    assert(varint(8 * field + 2) =~= seq![key]);
    lemma_read_len_field(field, b1, rest1);
    lemma_read_len_field(field, b2, rest2);
    assert(len_field(field, b1)[0] == key && len_field(field, b2)[0] == key);
    assert(Seq::<u8>::empty() + rest1 =~= rest1);
    assert(Seq::<u8>::empty() + rest2 =~= rest2);
    if b1.len() > 0 {
        assert(whole[0] == key);
    }
    if b2.len() > 0 {
        assert((bytes_field(field, b2) + rest2)[0] == key);
    }
    assert(b1.len() == 0 && b2.len() == 0 ==> b1 =~= b2);
}

/// A `string` field and what follows it are both determined by their concatenation, where what
/// follows does not begin with the field's key.
pub proof fn lemma_text_field_splits(
    field: nat,
    s1: Seq<char>,
    rest1: Seq<u8>,
    s2: Seq<char>,
    rest2: Seq<u8>,
)
    requires
        field < 16,
        text_field(field, s1) + rest1 == text_field(field, s2) + rest2,
        starts_without(rest1, (8 * field + 2) as u8),
        starts_without(rest2, (8 * field + 2) as u8),
    ensures
        s1 == s2,
        rest1 == rest2,
{
    lemma_bytes_field_splits(field, encode_utf8(s1), rest1, encode_utf8(s2), rest2);
    text::lemma_utf8_injective(s1, s2);
}

/// An unsigned field is determined by its bytes.
pub proof fn lemma_uint_field_injective(field: nat, n1: nat, n2: nat)
    requires
        uint_field(field, n1) == uint_field(field, n2),
    ensures
        n1 == n2,
{
    let key = varint(8 * field);
    let none = Seq::<u8>::empty();
    lemma_read_varint(8 * field, none);
    lemma_read_varint(n1, none);
    lemma_read_varint(n2, none);
    assert(varint(n1) + none =~= varint(n1) && varint(n2) + none =~= varint(n2));
    assert((key + varint(n1)).skip(key.len() as int) =~= varint(n1));
    assert((key + varint(n2)).skip(key.len() as int) =~= varint(n2));
}

/// The first byte of an unsigned field is its key.
proof fn lemma_uint_field_starts(field: nat, n: nat)
    requires
        field < 16,
    ensures
        n > 0 ==> uint_field(field, n).len() > 0 && uint_field(field, n)[0] == 8 * field,
{
    assert(varint(8 * field) =~= seq![(8 * field) as u8]);
}

/// The first byte of a `bytes` field is its key.
proof fn lemma_bytes_field_starts(field: nat, b: Seq<u8>)
    requires
        field < 16,
    ensures
        len_field(field, b).len() > 0 && len_field(field, b)[0] == 8 * field + 2,
        b.len() > 0 ==> bytes_field(field, b).len() > 0 && bytes_field(field, b)[0] == 8 * field
            + 2,
{
    assert(varint(8 * field + 2) =~= seq![(8 * field + 2) as u8]);
}

/// A coin is determined by its bytes.
pub proof fn law_coin_bytes_injective(
    denom1: Seq<char>,
    amount1: Seq<char>,
    denom2: Seq<char>,
    amount2: Seq<char>,
)
    requires
        coin_bytes(denom1, amount1) == coin_bytes(denom2, amount2),
    ensures
        denom1 == denom2,
        amount1 == amount2,
{
    law_two_address_bytes_injective(denom1, amount1, denom2, amount2);
}

/// The two addresses are determined by the message's bytes.
pub proof fn law_two_address_bytes_injective(
    first1: Seq<char>,
    second1: Seq<char>,
    first2: Seq<char>,
    second2: Seq<char>,
)
    requires
        two_address_bytes(first1, second1) == two_address_bytes(first2, second2),
    ensures
        first1 == first2,
        second1 == second2,
{
    let none = Seq::<u8>::empty();
    lemma_bytes_field_starts(2, encode_utf8(second1));
    lemma_bytes_field_starts(2, encode_utf8(second2));
    lemma_text_field_splits(1, first1, text_field(2, second1), first2, text_field(2, second2));
    assert(text_field(2, second1) + none =~= text_field(2, second1));
    assert(text_field(2, second2) + none =~= text_field(2, second2));
    lemma_text_field_splits(2, second1, none, second2, none);
}

/// The message inside a transaction body is determined by the body's bytes.
pub proof fn law_tx_body_bytes_injective(
    url1: Seq<char>,
    value1: Seq<u8>,
    url2: Seq<char>,
    value2: Seq<u8>,
)
    requires
        tx_body_bytes(url1, value1) == tx_body_bytes(url2, value2),
    ensures
        url1 == url2,
        value1 == value2,
{
    let none = Seq::<u8>::empty();
    let (any1, any2) = (any_bytes(url1, value1), any_bytes(url2, value2));
    lemma_read_len_field(1, any1, none);
    lemma_read_len_field(1, any2, none);
    assert(len_field(1, any1) + none =~= len_field(1, any1));
    assert(len_field(1, any2) + none =~= len_field(1, any2));
    lemma_bytes_field_starts(2, value1);
    lemma_bytes_field_starts(2, value2);
    lemma_text_field_splits(1, url1, bytes_field(2, value1), url2, bytes_field(2, value2));
    assert(bytes_field(2, value1) + none =~= bytes_field(2, value1));
    assert(bytes_field(2, value2) + none =~= bytes_field(2, value2));
    lemma_bytes_field_splits(2, value1, none, value2, none);
}

/// Sender, recipient, denomination and amount are determined by the message's bytes.
pub proof fn law_transfer_bytes_injective(
    first1: Seq<char>,
    second1: Seq<char>,
    denom1: Seq<char>,
    amount1: Seq<char>,
    first2: Seq<char>,
    second2: Seq<char>,
    denom2: Seq<char>,
    amount2: Seq<char>,
)
    requires
        transfer_bytes(first1, second1, denom1, amount1) == transfer_bytes(
            first2,
            second2,
            denom2,
            amount2,
        ),
    ensures
        first1 == first2,
        second1 == second2,
        denom1 == denom2,
        amount1 == amount2,
{
    let (coin1, coin2) = (coin_bytes(denom1, amount1), coin_bytes(denom2, amount2));
    let (c1, c2) = (len_field(3, coin1), len_field(3, coin2));
    let (b1, b2) = (text_field(2, second1) + c1, text_field(2, second2) + c2);
    let none = Seq::<u8>::empty();
    lemma_bytes_field_starts(3, coin1);
    lemma_bytes_field_starts(3, coin2);
    lemma_bytes_field_starts(2, encode_utf8(second1));
    lemma_bytes_field_starts(2, encode_utf8(second2));
    assert(none + c1 =~= c1 && none + c2 =~= c2);
    assert(transfer_bytes(first1, second1, denom1, amount1) =~= text_field(1, first1) + b1);
    assert(transfer_bytes(first2, second2, denom2, amount2) =~= text_field(1, first2) + b2);
    lemma_text_field_splits(1, first1, b1, first2, b2);
    lemma_text_field_splits(2, second1, c1, second2, c2);
    lemma_read_len_field(3, coin1, none);
    lemma_read_len_field(3, coin2, none);
    assert(c1 + none =~= c1 && c2 + none =~= c2);
    law_coin_bytes_injective(denom1, amount1, denom2, amount2);
}

/// A public key in a message, a signing mode and a sequence number are determined by the bytes
/// of the signer.
pub proof fn law_signer_info_bytes_injective(
    url1: Seq<char>,
    key1: Seq<u8>,
    mode1: nat,
    sequence1: nat,
    url2: Seq<char>,
    key2: Seq<u8>,
    mode2: nat,
    sequence2: nat,
)
    requires
        signer_info_bytes(url1, key1, mode1, sequence1) == signer_info_bytes(
            url2,
            key2,
            mode2,
            sequence2,
        ),
    ensures
        url1 == url2,
        key1 == key2,
        mode1 == mode2,
        sequence1 == sequence2,
{
    let none = Seq::<u8>::empty();
    let (any1, any2) = (any_bytes(url1, key1), any_bytes(url2, key2));
    let (m1, m2) = (uint_field(1, mode1), uint_field(1, mode2));
    let (n1, n2) = (len_field(1, m1), len_field(1, m2));
    let (s1, s2) = (uint_field(3, sequence1), uint_field(3, sequence2));
    let (r1, r2) = (len_field(2, n1) + s1, len_field(2, n2) + s2);
    assert(signer_info_bytes(url1, key1, mode1, sequence1) =~= len_field(1, any1) + r1);
    assert(signer_info_bytes(url2, key2, mode2, sequence2) =~= len_field(1, any2) + r2);
    lemma_read_len_field(1, any1, r1);
    lemma_read_len_field(1, any2, r2);
    assert(tx_body_bytes(url1, key1) == tx_body_bytes(url2, key2));
    law_tx_body_bytes_injective(url1, key1, url2, key2);
    lemma_read_len_field(2, n1, s1);
    lemma_read_len_field(2, n2, s2);
    lemma_uint_field_injective(3, sequence1, sequence2);
    assert(n1 + none =~= n1 && n2 + none =~= n2);
    lemma_read_len_field(1, m1, none);
    lemma_read_len_field(1, m2, none);
    lemma_uint_field_injective(1, mode1, mode2);
}

/// The coin and the gas limit are determined by the bytes of the fee.
pub proof fn law_fee_bytes_injective(
    denom1: Seq<char>,
    amount1: Seq<char>,
    gas1: nat,
    denom2: Seq<char>,
    amount2: Seq<char>,
    gas2: nat,
)
    requires
        fee_bytes(denom1, amount1, gas1) == fee_bytes(denom2, amount2, gas2),
    ensures
        denom1 == denom2,
        amount1 == amount2,
        gas1 == gas2,
{
    let (coin1, coin2) = (coin_bytes(denom1, amount1), coin_bytes(denom2, amount2));
    lemma_read_len_field(1, coin1, uint_field(2, gas1));
    lemma_read_len_field(1, coin2, uint_field(2, gas2));
    law_coin_bytes_injective(denom1, amount1, denom2, amount2);
    lemma_uint_field_injective(2, gas1, gas2);
}

/// Signer and fee are determined by the bytes of the authentication part.
pub proof fn law_auth_info_bytes_injective(
    signer1: Seq<u8>,
    fee1: Seq<u8>,
    signer2: Seq<u8>,
    fee2: Seq<u8>,
)
    requires
        auth_info_bytes(signer1, fee1) == auth_info_bytes(signer2, fee2),
    ensures
        signer1 == signer2,
        fee1 == fee2,
{
    let none = Seq::<u8>::empty();
    lemma_read_len_field(1, signer1, len_field(2, fee1));
    lemma_read_len_field(1, signer2, len_field(2, fee2));
    assert(len_field(2, fee1) + none =~= len_field(2, fee1));
    assert(len_field(2, fee2) + none =~= len_field(2, fee2));
    lemma_read_len_field(2, fee1, none);
    lemma_read_len_field(2, fee2, none);
}

/// What is signed determines what it was made of: two sign documents with the same bytes agree
/// in the body, the authentication part, the chain and the account number.
pub proof fn law_sign_doc_bytes_injective(
    body1: Seq<u8>,
    auth1: Seq<u8>,
    chain1: Seq<char>,
    account1: nat,
    body2: Seq<u8>,
    auth2: Seq<u8>,
    chain2: Seq<char>,
    account2: nat,
)
    requires
        sign_doc_bytes(body1, auth1, chain1, account1) == sign_doc_bytes(
            body2,
            auth2,
            chain2,
            account2,
        ),
    ensures
        body1 == body2,
        auth1 == auth2,
        chain1 == chain2,
        account1 == account2,
{
    let (n1, n2) = (uint_field(4, account1), uint_field(4, account2));
    let (c1, c2) = (text_field(3, chain1) + n1, text_field(3, chain2) + n2);
    let (a1, a2) = (bytes_field(2, auth1) + c1, bytes_field(2, auth2) + c2);
    let none = Seq::<u8>::empty();
    lemma_uint_field_starts(4, account1);
    lemma_uint_field_starts(4, account2);
    lemma_bytes_field_starts(3, encode_utf8(chain1));
    lemma_bytes_field_starts(3, encode_utf8(chain2));
    lemma_bytes_field_starts(2, auth1);
    lemma_bytes_field_starts(2, auth2);
    assert(none + n1 =~= n1 && none + n2 =~= n2);
    assert(none + c1 =~= c1 && none + c2 =~= c2);
    assert(sign_doc_bytes(body1, auth1, chain1, account1) =~= bytes_field(1, body1) + a1);
    assert(sign_doc_bytes(body2, auth2, chain2, account2) =~= bytes_field(1, body2) + a2);
    lemma_bytes_field_splits(1, body1, a1, body2, a2);
    lemma_bytes_field_splits(2, auth1, c1, auth2, c2);
    lemma_text_field_splits(3, chain1, n1, chain2, n2);
    lemma_uint_field_injective(4, account1, account2);
}

/// `prost::Message::encode_to_vec` on cosmos-sdk-proto's `MsgSend`: fields 1 and 2 are the
/// addresses, field 3 is the one coin, in this order.
#[verifier::external_body]
pub(crate) fn encode_msg_send(from: &str, to: &str, denom: &str, amount: &str) -> (r: Vec<u8>)
    ensures
        r@ == transfer_bytes(from@, to@, denom@, amount@),
{
    MsgSend {
        from_address: from.to_string(),
        to_address: to.to_string(),
        amount: vec![Coin { denom: denom.to_string(), amount: amount.to_string() }],
    }.encode_to_vec()
}

/// `prost::Message::encode_to_vec` on cosmos-sdk-proto's `MsgDelegate`: fields 1 and 2 are the
/// addresses, field 3 is the coin, in this order.
#[verifier::external_body]
pub(crate) fn encode_msg_delegate(delegator: &str, validator: &str, denom: &str, amount: &str) -> (r:
    Vec<u8>)
    ensures
        r@ == transfer_bytes(delegator@, validator@, denom@, amount@),
{
    MsgDelegate {
        delegator_address: delegator.to_string(),
        validator_address: validator.to_string(),
        amount: Some(Coin { denom: denom.to_string(), amount: amount.to_string() }),
    }.encode_to_vec()
}

/// `prost::Message::encode_to_vec` on cosmos-sdk-proto's `MsgUndelegate`: fields 1 and 2 are the
/// addresses, field 3 is the coin, in this order.
#[verifier::external_body]
pub(crate) fn encode_msg_undelegate(
    delegator: &str,
    validator: &str,
    denom: &str,
    amount: &str,
) -> (r: Vec<u8>)
    ensures
        r@ == transfer_bytes(delegator@, validator@, denom@, amount@),
{
    MsgUndelegate {
        delegator_address: delegator.to_string(),
        validator_address: validator.to_string(),
        amount: Some(Coin { denom: denom.to_string(), amount: amount.to_string() }),
    }.encode_to_vec()
}

/// `prost::Message::encode_to_vec` on cosmos-sdk-proto's `MsgWithdrawDelegatorReward`: fields 1
/// and 2 are the addresses, in this order.
#[verifier::external_body]
pub(crate) fn encode_msg_withdraw_reward(delegator: &str, validator: &str) -> (r: Vec<u8>)
    ensures
        r@ == two_address_bytes(delegator@, validator@),
{
    MsgWithdrawDelegatorReward {
        delegator_address: delegator.to_string(),
        validator_address: validator.to_string(),
    }.encode_to_vec()
}

/// `prost::Message::encode_to_vec` on cosmos-sdk-proto's `MsgWithdrawValidatorCommission`: field
/// 1 is the address.
#[verifier::external_body]
pub(crate) fn encode_msg_withdraw_commission(validator: &str) -> (r: Vec<u8>)
    ensures
        r@ == text_field(1, validator@),
{
    MsgWithdrawValidatorCommission {
        validator_address: validator.to_string(),
    }.encode_to_vec()
}

/// `prost::Message::encode_to_vec` on cosmos-sdk-proto's `MsgUnjail`: field 1 is the address.
#[verifier::external_body]
pub(crate) fn encode_msg_unjail(validator: &str) -> (r: Vec<u8>)
    ensures
        r@ == text_field(1, validator@),
{
    MsgUnjail {
        validator_addr: validator.to_string(),
    }.encode_to_vec()
}

/// `prost::Message::encode_to_vec` on cosmos-sdk-proto's `TxBody` with one message and every
/// other field at its default, which leaves them out.
#[verifier::external_body]
pub(crate) fn encode_tx_body(type_url: &str, value: &[u8]) -> (r: Vec<u8>)
    ensures
        r@ == tx_body_bytes(type_url@, value@),
{
    TxBody {
        messages: vec![Any { type_url: type_url.to_string(), value: value.to_vec() }],
        ..Default::default()
    }.encode_to_vec()
}

/// `prost::Message::encode_to_vec` on cosmos-sdk-proto's `AuthInfo` with one signer, whose mode
/// is one `ModeInfo::Single`, and a fee of one coin; the other fields are at their defaults,
/// which leaves them out.
#[verifier::external_body]
pub(crate) fn encode_auth_info(
    key_url: &str,
    key_value: &[u8],
    mode: u8,
    sequence: u64,
    denom: &str,
    amount: &str,
    gas: u64,
) -> (r: Vec<u8>)
    ensures
        r@ == auth_info_bytes(
            signer_info_bytes(key_url@, key_value@, mode as nat, sequence as nat),
            fee_bytes(denom@, amount@, gas as nat),
        ),
{
    let single = mode_info::Single { mode: i32::from(mode) };
    let signer = SignerInfo {
        public_key: Some(Any { type_url: key_url.to_string(), value: key_value.to_vec() }),
        mode_info: Some(ModeInfo { sum: Some(mode_info::Sum::Single(single)) }),
        sequence,
    };
    let coin = Coin { denom: denom.to_string(), amount: amount.to_string() };
    let fee = Fee { amount: vec![coin], gas_limit: gas, ..Default::default() };
    AuthInfo { signer_infos: vec![signer], fee: Some(fee), ..Default::default() }.encode_to_vec()
}

/// `prost::Message::encode_to_vec` on cosmos-sdk-proto's `SignDoc`: four fields, in this order.
#[verifier::external_body]
pub(crate) fn encode_sign_doc(
    body: &[u8],
    auth_info: &[u8],
    chain_id: &str,
    account_number: u64,
) -> (r: Vec<u8>)
    ensures
        r@ == sign_doc_bytes(body@, auth_info@, chain_id@, account_number as nat),
{
    SignDoc {
        body_bytes: body.to_vec(),
        auth_info_bytes: auth_info.to_vec(),
        chain_id: chain_id.to_string(),
        account_number,
    }.encode_to_vec()
}

/// `prost::Message::encode_to_vec` on cosmos-sdk-proto's `TxRaw` with one signature.
#[verifier::external_body]
pub(crate) fn encode_tx_raw(body: &[u8], auth_info: &[u8], signature: &[u8]) -> (r: Vec<u8>)
    ensures
        r@ == tx_raw_bytes(body@, auth_info@, signature@),
{
    TxRaw {
        body_bytes: body.to_vec(),
        auth_info_bytes: auth_info.to_vec(),
        signatures: vec![signature.to_vec()],
    }.encode_to_vec()
}

} // verus!
