//! Laws of transactions: what the bytes of an order, of what is signed and of what is sent hold.
use vstd::prelude::*;
use vstd::utf8::*;

use crate::chain::Account;
use crate::codec;
use crate::json;
use crate::json::Json;
use crate::keyfile;
use crate::laws::formats;
use crate::proto;
use crate::text;
use crate::tx;
use crate::tx::{Order, OrderParts, Receipt};

verus! {

/// What a field of a message holds.
pub enum Held {
    /// Bytes: a text, a message or bytes.
    Bytes(Seq<u8>),
    /// A number.
    Number(nat),
}

/// The field that a message begins with: its number, what it holds and what follows.
pub open spec fn first_field(b: Seq<u8>) -> Option<(nat, Held, Seq<u8>)> {
    match proto::read_varint(b) {
        None => None,
        Some((key, k)) => if key % 8 == 2 {
            match proto::read_len_field(b) {
                None => None,
                Some((field, bytes, rest)) => Some((field, Held::Bytes(bytes), rest)),
            }
        } else if key % 8 == 0 {
            match proto::read_varint(b.skip(k as int)) {
                None => None,
                Some((n, l)) => Some((key / 8, Held::Number(n), b.skip((k + l) as int))),
            }
        } else {
            None
        },
    }
}

/// What a message holds under a field's number, where it is first.
pub open spec fn held(b: Seq<u8>, field: nat) -> Option<Held>
    decreases b.len(),
{
    match first_field(b) {
        None => None,
        Some((f, h, rest)) => if f == field {
            Some(h)
        } else if rest.len() < b.len() {
            held(rest, field)
        } else {
            None
        },
    }
}

/// The bytes that a message holds under a field's number; none where the field is left out.
pub open spec fn bytes_in(b: Seq<u8>, field: nat) -> Seq<u8> {
    match held(b, field) {
        Some(Held::Bytes(x)) => x,
        _ => Seq::empty(),
    }
}

/// The number that a message holds under a field's number; zero where the field is left out.
pub open spec fn number_in(b: Seq<u8>, field: nat) -> nat {
    match held(b, field) {
        Some(Held::Number(n)) => n,
        _ => 0,
    }
}

/// What is held before and after a length-delimited field.
proof fn lemma_held_len(f: nat, x: Seq<u8>, rest: Seq<u8>, field: nat)
    ensures
        held(proto::len_field(f, x) + rest, field) == if field == f {
            Some(Held::Bytes(x))
        } else {
            held(rest, field)
        },
{
    let b = proto::len_field(f, x) + rest;
    proto::lemma_read_len_field(f, x, rest);
    let key = proto::varint(8 * f + 2);
    let tail = proto::varint(x.len()) + x + rest;
    proto::lemma_read_varint(8 * f + 2, tail);
    assert(b =~= key + tail);
    assert((8 * f + 2) % 8 == 2) by (nonlinear_arith);
    assert(rest.len() < b.len());
}

/// What is held before and after a `bytes` field.
proof fn lemma_held_bytes(f: nat, x: Seq<u8>, rest: Seq<u8>, field: nat)
    ensures
        held(proto::bytes_field(f, x) + rest, field) == if field == f && x.len() > 0 {
            Some(Held::Bytes(x))
        } else {
            held(rest, field)
        },
{
    if x.len() == 0 {
        assert(proto::bytes_field(f, x) + rest =~= rest);
    } else {
        lemma_held_len(f, x, rest, field);
    }
}

/// What is held before and after a number.
proof fn lemma_held_uint(f: nat, n: nat, rest: Seq<u8>, field: nat)
    ensures
        held(proto::uint_field(f, n) + rest, field) == if field == f && n > 0 {
            Some(Held::Number(n))
        } else {
            held(rest, field)
        },
{
    if n == 0 {
        assert(proto::uint_field(f, n) + rest =~= rest);
    } else {
        let b = proto::uint_field(f, n) + rest;
        let key = proto::varint(8 * f);
        let tail = proto::varint(n) + rest;
        proto::lemma_read_varint(8 * f, tail);
        proto::lemma_read_varint(n, rest);
        assert(b =~= key + tail);
        assert(b.skip(key.len() as int) =~= tail);
        assert(b.skip((key.len() + proto::varint(n).len()) as int) =~= rest);
        assert((8 * f) % 8 == 0 && (8 * f) / 8 == f) by (nonlinear_arith);
    }
}

/// An empty message holds nothing.
proof fn lemma_held_nothing(field: nat)
    ensures
        held(Seq::<u8>::empty(), field) is None,
{
}

/// What two texts under the first two numbers decode to.
proof fn lemma_two_texts(first: Seq<char>, second: Seq<char>, rest: Seq<u8>, field: nat)
    ensures
        ({
            let b = proto::text_field(1, first) + proto::text_field(2, second) + rest;
            &&& held(rest, 1) is None ==> bytes_in(b, 1) == encode_utf8(first)
            &&& held(rest, 2) is None ==> bytes_in(b, 2) == encode_utf8(second)
            &&& field > 2 ==> held(b, field) == held(rest, field)
        }),
{
    let (a, c) = (encode_utf8(first), encode_utf8(second));
    let tail = proto::bytes_field(2, c) + rest;
    let b = proto::text_field(1, first) + proto::text_field(2, second) + rest;
    assert(b =~= proto::bytes_field(1, a) + tail);
    lemma_held_bytes(1, a, tail, 1);
    lemma_held_bytes(1, a, tail, 2);
    lemma_held_bytes(1, a, tail, field);
    lemma_held_bytes(2, c, rest, 1);
    lemma_held_bytes(2, c, rest, 2);
    lemma_held_bytes(2, c, rest, field);
    assert(a.len() == 0 ==> a =~= Seq::<u8>::empty());
    assert(c.len() == 0 ==> c =~= Seq::<u8>::empty());
}

/// A message of two texts decodes to them.
proof fn lemma_pair(first: Seq<char>, second: Seq<char>)
    ensures
        bytes_in(proto::two_address_bytes(first, second), 1) == encode_utf8(first),
        bytes_in(proto::two_address_bytes(first, second), 2) == encode_utf8(second),
{
    let none = Seq::<u8>::empty();
    lemma_two_texts(first, second, none, 1);
    lemma_held_nothing(1);
    lemma_held_nothing(2);
    assert(proto::text_field(1, first) + proto::text_field(2, second) + none
        =~= proto::two_address_bytes(first, second));
}

/// A message of two texts and a coin decodes to them.
proof fn lemma_transfer(first: Seq<char>, second: Seq<char>, denom: Seq<char>, amount: Seq<char>)
    ensures
        ({
            let b = proto::transfer_bytes(first, second, denom, amount);
            let coin = bytes_in(b, 3);
            &&& bytes_in(b, 1) == encode_utf8(first)
            &&& bytes_in(b, 2) == encode_utf8(second)
            &&& bytes_in(coin, 1) == encode_utf8(denom)
            &&& bytes_in(coin, 2) == encode_utf8(amount)
        }),
{
    let none = Seq::<u8>::empty();
    let coin = proto::coin_bytes(denom, amount);
    let rest = proto::len_field(3, coin);
    assert(rest + none =~= rest);
    lemma_held_len(3, coin, none, 1);
    lemma_held_len(3, coin, none, 2);
    lemma_held_len(3, coin, none, 3);
    lemma_held_nothing(1);
    lemma_held_nothing(2);
    lemma_two_texts(first, second, rest, 3);
    lemma_pair(denom, amount);
}

/// A message of one text decodes to it.
proof fn lemma_single(s: Seq<char>)
    ensures
        bytes_in(proto::text_field(1, s), 1) == encode_utf8(s),
{
    let none = Seq::<u8>::empty();
    let x = encode_utf8(s);
    lemma_held_bytes(1, x, none, 1);
    lemma_held_nothing(1);
    assert(proto::text_field(1, s) + none =~= proto::text_field(1, s));
    assert(x.len() == 0 ==> x =~= none);
}

/// A message of a type and its bytes decodes to them.
proof fn lemma_any(url: Seq<char>, value: Seq<u8>)
    ensures
        bytes_in(proto::any_bytes(url, value), 1) == encode_utf8(url),
        bytes_in(proto::any_bytes(url, value), 2) == value,
{
    let none = Seq::<u8>::empty();
    let u = encode_utf8(url);
    let tail = proto::bytes_field(2, value);
    assert(tail + none =~= tail);
    lemma_held_bytes(1, u, tail, 1);
    lemma_held_bytes(1, u, tail, 2);
    lemma_held_bytes(2, value, none, 1);
    lemma_held_bytes(2, value, none, 2);
    lemma_held_nothing(1);
    lemma_held_nothing(2);
    assert(u.len() == 0 ==> u =~= none);
    assert(value.len() == 0 ==> value =~= none);
}

/// A public key that is framed decodes to itself.
pub proof fn law_framed_key(pk: Seq<u8>)
    ensures
        bytes_in(proto::len_field(1, pk), 1) == pk,
        pk.len() < 128 ==> proto::len_field(1, pk) == seq![0x0au8, pk.len() as u8] + pk,
        128 <= pk.len() < 16384 ==> proto::len_field(1, pk) == seq![
            0x0au8, (pk.len() % 128 + 128) as u8, (pk.len() / 128) as u8,
        ] + pk,
{
    let none = Seq::<u8>::empty();
    lemma_held_len(1, pk, none, 1);
    assert(proto::len_field(1, pk) + none =~= proto::len_field(1, pk));
    reveal_with_fuel(proto::varint, 3);
    if pk.len() < 128 {
        assert(proto::len_field(1, pk) =~= seq![0x0au8, pk.len() as u8] + pk);
    } else if pk.len() < 16384 {
        assert(proto::len_field(1, pk) =~= seq![
            0x0au8, (pk.len() % 128 + 128) as u8, (pk.len() / 128) as u8,
        ] + pk);
    }
}

/// An order to send decodes to who pays, who is paid and how much, in `usqr`, at its gas and fee.
pub proof fn law_send_order(from: Seq<char>, to: Seq<char>, amount: Seq<char>)
    ensures
        ({
            let order = tx::send_parts(from, to, amount);
            let coin = bytes_in(order.value, 3);
            &&& order.type_url == "/cosmos.bank.v1beta1.MsgSend"@
            &&& order.gas == 400_000
            &&& order.fee == 12_000
            &&& bytes_in(order.value, 1) == encode_utf8(from)
            &&& bytes_in(order.value, 2) == encode_utf8(to)
            &&& bytes_in(coin, 1) == encode_utf8("usqr"@)
            &&& bytes_in(coin, 2) == encode_utf8(amount)
        }),
{
    lemma_transfer(from, to, "usqr"@, amount);
}

/// An order to stake decodes to the delegator, the validator and how much, in `usqr`, at its gas and
/// fee.
pub proof fn law_stake_order(from: Seq<char>, valoper: Seq<char>, amount: Seq<char>)
    ensures
        ({
            let order = tx::stake_parts(from, valoper, amount);
            let coin = bytes_in(order.value, 3);
            &&& order.type_url == "/cosmos.staking.v1beta1.MsgDelegate"@
            &&& order.gas == 500_000
            &&& order.fee == 15_000
            &&& bytes_in(order.value, 1) == encode_utf8(from)
            &&& bytes_in(order.value, 2) == encode_utf8(valoper)
            &&& bytes_in(coin, 1) == encode_utf8("usqr"@)
            &&& bytes_in(coin, 2) == encode_utf8(amount)
        }),
{
    lemma_transfer(from, valoper, "usqr"@, amount);
}

/// An order to unstake decodes to the delegator, the validator and how much, in `usqr`, at its gas
/// and fee.
pub proof fn law_unstake_order(from: Seq<char>, valoper: Seq<char>, amount: Seq<char>)
    ensures
        ({
            let order = tx::unstake_parts(from, valoper, amount);
            let coin = bytes_in(order.value, 3);
            &&& order.type_url == "/cosmos.staking.v1beta1.MsgUndelegate"@
            &&& order.gas == 500_000
            &&& order.fee == 15_000
            &&& bytes_in(order.value, 1) == encode_utf8(from)
            &&& bytes_in(order.value, 2) == encode_utf8(valoper)
            &&& bytes_in(coin, 1) == encode_utf8("usqr"@)
            &&& bytes_in(coin, 2) == encode_utf8(amount)
        }),
{
    lemma_transfer(from, valoper, "usqr"@, amount);
}

/// An order to claim rewards decodes to the delegator and the validator, at its gas and fee.
pub proof fn law_claim_order(from: Seq<char>, valoper: Seq<char>)
    ensures
        ({
            let order = tx::claim_parts(from, valoper);
            &&& order.type_url == "/cosmos.distribution.v1beta1.MsgWithdrawDelegatorReward"@
            &&& order.gas == 300_000
            &&& order.fee == 9_000
            &&& bytes_in(order.value, 1) == encode_utf8(from)
            &&& bytes_in(order.value, 2) == encode_utf8(valoper)
        }),
{
    lemma_pair(from, valoper);
}

/// The orders of an operator decode to the validator, at their gas and fees.
pub proof fn law_operator_orders(valoper: Seq<char>)
    ensures
        ({
            let (unjail, withdraw) = (
                tx::unjail_parts(valoper),
                tx::withdraw_commission_parts(valoper),
            );
            &&& unjail.type_url == "/cosmos.slashing.v1beta1.MsgUnjail"@
            &&& unjail.gas == 200_000
            &&& unjail.fee == 6_000
            &&& bytes_in(unjail.value, 1) == encode_utf8(valoper)
            &&& withdraw.type_url
                == "/cosmos.distribution.v1beta1.MsgWithdrawValidatorCommission"@
            &&& withdraw.gas == 300_000
            &&& withdraw.fee == 9_000
            &&& bytes_in(withdraw.value, 1) == encode_utf8(valoper)
        }),
{
    lemma_single(valoper);
}

/// A signature of an order to stake binds who delegates, to whom and how much.
pub proof fn law_signed_bytes_bind_stake(
    from1: Seq<char>,
    valoper1: Seq<char>,
    amount1: Seq<char>,
    pubkey1: Seq<u8>,
    chain1: Seq<char>,
    account1: u64,
    sequence1: u64,
    from2: Seq<char>,
    valoper2: Seq<char>,
    amount2: Seq<char>,
    pubkey2: Seq<u8>,
    chain2: Seq<char>,
    account2: u64,
    sequence2: u64,
)
    requires
        tx::sign_bytes(
            tx::stake_parts(from1, valoper1, amount1),
            pubkey1,
            chain1,
            account1,
            sequence1,
        ) == tx::sign_bytes(
            tx::stake_parts(from2, valoper2, amount2),
            pubkey2,
            chain2,
            account2,
            sequence2,
        ),
    ensures
        from1 == from2 && valoper1 == valoper2 && amount1 == amount2,
        pubkey1 == pubkey2 && chain1 == chain2 && account1 == account2 && sequence1 == sequence2,
{
    tx::law_signed_bytes_bind_order(
        tx::stake_parts(from1, valoper1, amount1),
        pubkey1,
        chain1,
        account1,
        sequence1,
        tx::stake_parts(from2, valoper2, amount2),
        pubkey2,
        chain2,
        account2,
        sequence2,
    );
    law_stake_order(from1, valoper1, amount1);
    law_stake_order(from2, valoper2, amount2);
    text::lemma_utf8_injective(from1, from2);
    text::lemma_utf8_injective(valoper1, valoper2);
    text::lemma_utf8_injective(amount1, amount2);
}

/// A signature of an order to unstake binds who takes back, from whom and how much.
pub proof fn law_signed_bytes_bind_unstake(
    from1: Seq<char>,
    valoper1: Seq<char>,
    amount1: Seq<char>,
    pubkey1: Seq<u8>,
    chain1: Seq<char>,
    account1: u64,
    sequence1: u64,
    from2: Seq<char>,
    valoper2: Seq<char>,
    amount2: Seq<char>,
    pubkey2: Seq<u8>,
    chain2: Seq<char>,
    account2: u64,
    sequence2: u64,
)
    requires
        tx::sign_bytes(
            tx::unstake_parts(from1, valoper1, amount1),
            pubkey1,
            chain1,
            account1,
            sequence1,
        ) == tx::sign_bytes(
            tx::unstake_parts(from2, valoper2, amount2),
            pubkey2,
            chain2,
            account2,
            sequence2,
        ),
    ensures
        from1 == from2 && valoper1 == valoper2 && amount1 == amount2,
        pubkey1 == pubkey2 && chain1 == chain2 && account1 == account2 && sequence1 == sequence2,
{
    tx::law_signed_bytes_bind_order(
        tx::unstake_parts(from1, valoper1, amount1),
        pubkey1,
        chain1,
        account1,
        sequence1,
        tx::unstake_parts(from2, valoper2, amount2),
        pubkey2,
        chain2,
        account2,
        sequence2,
    );
    law_unstake_order(from1, valoper1, amount1);
    law_unstake_order(from2, valoper2, amount2);
    text::lemma_utf8_injective(from1, from2);
    text::lemma_utf8_injective(valoper1, valoper2);
    text::lemma_utf8_injective(amount1, amount2);
}

/// A signature of an order to send binds who pays, who is paid and how much.
pub proof fn law_signed_bytes_bind_send(
    from1: Seq<char>,
    to1: Seq<char>,
    amount1: Seq<char>,
    pubkey1: Seq<u8>,
    chain1: Seq<char>,
    account1: u64,
    sequence1: u64,
    from2: Seq<char>,
    to2: Seq<char>,
    amount2: Seq<char>,
    pubkey2: Seq<u8>,
    chain2: Seq<char>,
    account2: u64,
    sequence2: u64,
)
    requires
        tx::sign_bytes(
            tx::send_parts(from1, to1, amount1),
            pubkey1,
            chain1,
            account1,
            sequence1,
        ) == tx::sign_bytes(
            tx::send_parts(from2, to2, amount2),
            pubkey2,
            chain2,
            account2,
            sequence2,
        ),
    ensures
        from1 == from2 && to1 == to2 && amount1 == amount2,
        pubkey1 == pubkey2 && chain1 == chain2 && account1 == account2 && sequence1 == sequence2,
{
    tx::law_signed_bytes_bind_order(
        tx::send_parts(from1, to1, amount1),
        pubkey1,
        chain1,
        account1,
        sequence1,
        tx::send_parts(from2, to2, amount2),
        pubkey2,
        chain2,
        account2,
        sequence2,
    );
    law_send_order(from1, to1, amount1);
    law_send_order(from2, to2, amount2);
    text::lemma_utf8_injective(from1, from2);
    text::lemma_utf8_injective(to1, to2);
    text::lemma_utf8_injective(amount1, amount2);
}

/// A signature of an order to claim, to unjail or to withdraw binds for whom and from whom.
pub proof fn law_signed_bytes_bind_others(
    from1: Seq<char>,
    valoper1: Seq<char>,
    from2: Seq<char>,
    valoper2: Seq<char>,
    pubkey: Seq<u8>,
    chain: Seq<char>,
    account: u64,
    sequence: u64,
)
    ensures
        tx::sign_bytes(tx::claim_parts(from1, valoper1), pubkey, chain, account, sequence)
            == tx::sign_bytes(tx::claim_parts(from2, valoper2), pubkey, chain, account, sequence)
            ==> from1 == from2 && valoper1 == valoper2,
        tx::sign_bytes(tx::unjail_parts(valoper1), pubkey, chain, account, sequence)
            == tx::sign_bytes(tx::unjail_parts(valoper2), pubkey, chain, account, sequence)
            ==> valoper1 == valoper2,
        tx::sign_bytes(tx::withdraw_commission_parts(valoper1), pubkey, chain, account, sequence)
            == tx::sign_bytes(
            tx::withdraw_commission_parts(valoper2),
            pubkey,
            chain,
            account,
            sequence,
        ) ==> valoper1 == valoper2,
{
    let (c1, c2) = (tx::claim_parts(from1, valoper1), tx::claim_parts(from2, valoper2));
    let (u1, u2) = (tx::unjail_parts(valoper1), tx::unjail_parts(valoper2));
    let (w1, w2) = (
        tx::withdraw_commission_parts(valoper1),
        tx::withdraw_commission_parts(valoper2),
    );
    law_claim_order(from1, valoper1);
    law_claim_order(from2, valoper2);
    law_operator_orders(valoper1);
    law_operator_orders(valoper2);
    if tx::sign_bytes(c1, pubkey, chain, account, sequence) == tx::sign_bytes(
        c2,
        pubkey,
        chain,
        account,
        sequence,
    ) {
        tx::law_signed_bytes_bind_order(
            c1, pubkey, chain, account, sequence, c2, pubkey, chain, account, sequence,
        );
        text::lemma_utf8_injective(from1, from2);
        text::lemma_utf8_injective(valoper1, valoper2);
    }
    if tx::sign_bytes(u1, pubkey, chain, account, sequence) == tx::sign_bytes(
        u2,
        pubkey,
        chain,
        account,
        sequence,
    ) {
        tx::law_signed_bytes_bind_order(
            u1, pubkey, chain, account, sequence, u2, pubkey, chain, account, sequence,
        );
        text::lemma_utf8_injective(valoper1, valoper2);
    }
    if tx::sign_bytes(w1, pubkey, chain, account, sequence) == tx::sign_bytes(
        w2,
        pubkey,
        chain,
        account,
        sequence,
    ) {
        tx::law_signed_bytes_bind_order(
            w1, pubkey, chain, account, sequence, w2, pubkey, chain, account, sequence,
        );
        text::lemma_utf8_injective(valoper1, valoper2);
    }
}

/// The body of a transaction holds the order's message, with its type and its bytes.
pub proof fn law_body(order: OrderParts)
    ensures
        ({
            let message = bytes_in(tx::body_of(order), 1);
            &&& bytes_in(message, 1) == encode_utf8(order.type_url)
            &&& bytes_in(message, 2) == order.value
        }),
{
    let none = Seq::<u8>::empty();
    let any = proto::any_bytes(order.type_url, order.value);
    lemma_held_len(1, any, none, 1);
    assert(proto::len_field(1, any) + none =~= proto::len_field(1, any));
    lemma_any(order.type_url, order.value);
}

/// The authentication part holds the wallet's public key, that the sign document is signed as it is,
/// the account's sequence, and the order's fee in `usqr` and gas limit.
pub proof fn law_auth_info(order: OrderParts, pubkey: Seq<u8>, sequence: u64)
    ensures
        ({
            let auth_info = tx::auth_info_of(order, pubkey, sequence);
            let signer = bytes_in(auth_info, 1);
            let key = bytes_in(signer, 1);
            let mode = bytes_in(bytes_in(signer, 2), 1);
            let fee = bytes_in(auth_info, 2);
            let coin = bytes_in(fee, 1);
            &&& bytes_in(key, 1) == encode_utf8("/sequora.crypto.v1.PubKey"@)
            &&& bytes_in(bytes_in(key, 2), 1) == pubkey
            &&& number_in(mode, 1) == 1
            &&& number_in(signer, 3) == sequence
            &&& bytes_in(coin, 1) == encode_utf8("usqr"@)
            &&& bytes_in(coin, 2) == encode_utf8(text::decimal(order.fee as nat))
            &&& number_in(fee, 2) == order.gas
        }),
{
    let none = Seq::<u8>::empty();
    let url = "/sequora.crypto.v1.PubKey"@;
    let any = proto::any_bytes(url, proto::len_field(1, pubkey));
    let m = proto::uint_field(1, tx::SIGN_MODE_DIRECT as nat);
    let single = proto::len_field(1, m);
    let seq_field = proto::uint_field(3, sequence as nat);
    let signer = proto::signer_info_bytes(
        url,
        proto::len_field(1, pubkey),
        tx::SIGN_MODE_DIRECT as nat,
        sequence as nat,
    );
    let amount = text::decimal(order.fee as nat);
    let coin = proto::coin_bytes("usqr"@, amount);
    let gas = proto::uint_field(2, order.gas as nat);
    let fee = proto::fee_bytes("usqr"@, amount, order.gas as nat);
    lemma_held_nothing(1);
    lemma_held_nothing(2);
    lemma_held_nothing(3);
    lemma_held_len(1, signer, proto::len_field(2, fee), 1);
    lemma_held_len(1, signer, proto::len_field(2, fee), 2);
    lemma_held_len(2, fee, none, 2);
    assert(proto::len_field(2, fee) + none =~= proto::len_field(2, fee));
    let tail = proto::len_field(2, single) + seq_field;
    assert(signer =~= proto::len_field(1, any) + tail);
    lemma_held_len(1, any, tail, 1);
    lemma_held_len(1, any, tail, 2);
    lemma_held_len(1, any, tail, 3);
    lemma_held_len(2, single, seq_field, 2);
    lemma_held_len(2, single, seq_field, 3);
    lemma_held_uint(3, sequence as nat, none, 3);
    assert(seq_field + none =~= seq_field);
    lemma_any(url, proto::len_field(1, pubkey));
    law_framed_key(pubkey);
    lemma_held_len(1, m, none, 1);
    assert(single + none =~= single);
    lemma_held_uint(1, tx::SIGN_MODE_DIRECT as nat, none, 1);
    assert(m + none =~= m);
    lemma_held_len(1, coin, gas, 1);
    lemma_held_len(1, coin, gas, 2);
    lemma_held_uint(2, order.gas as nat, none, 2);
    assert(gas + none =~= gas);
    lemma_pair("usqr"@, amount);
}

/// What is signed holds the body, the authentication part, the chain and the account's number.
pub proof fn law_sign_doc(
    order: OrderParts,
    pubkey: Seq<u8>,
    chain_id: Seq<char>,
    account: u64,
    sequence: u64,
)
    ensures
        ({
            let doc = tx::sign_bytes(order, pubkey, chain_id, account, sequence);
            &&& bytes_in(doc, 1) == tx::body_of(order)
            &&& bytes_in(doc, 2) == tx::auth_info_of(order, pubkey, sequence)
            &&& bytes_in(doc, 3) == encode_utf8(chain_id)
            &&& number_in(doc, 4) == account
        }),
{
    let none = Seq::<u8>::empty();
    let (body, auth) = (tx::body_of(order), tx::auth_info_of(order, pubkey, sequence));
    let c = encode_utf8(chain_id);
    let n = proto::uint_field(4, account as nat);
    let t3 = proto::bytes_field(3, c) + n;
    let t2 = proto::bytes_field(2, auth) + t3;
    let doc = tx::sign_bytes(order, pubkey, chain_id, account, sequence);
    assert(doc =~= proto::bytes_field(1, body) + t2);
    assert(n + none =~= n);
    lemma_held_nothing(1);
    lemma_held_nothing(2);
    lemma_held_nothing(3);
    lemma_held_nothing(4);
    assert forall|f: nat| 1 <= f <= 4 implies #[trigger] held(doc, f) == if f == 1 && body.len() > 0 {
        Some(Held::Bytes(body))
    } else if f == 2 && auth.len() > 0 {
        Some(Held::Bytes(auth))
    } else if f == 3 && c.len() > 0 {
        Some(Held::Bytes(c))
    } else if f == 4 && account > 0 {
        Some(Held::Number(account as nat))
    } else {
        None
    } by {
        lemma_held_bytes(1, body, t2, f);
        lemma_held_bytes(2, auth, t3, f);
        lemma_held_bytes(3, c, n, f);
        lemma_held_uint(4, account as nat, none, f);
        lemma_held_nothing(f);
    }
    assert(held(doc, 1) == held(doc, 1) && held(doc, 2) == held(doc, 2) && held(doc, 3) == held(
        doc,
        3,
    ) && held(doc, 4) == held(doc, 4));
    assert(body.len() == 0 ==> body =~= none);
    assert(auth.len() == 0 ==> auth =~= none);
    assert(c.len() == 0 ==> c =~= none);
}

/// Whether bytes are a transaction with an order, for an account, and a signature.
pub open spec fn is_transaction(
    raw: Seq<u8>,
    order: OrderParts,
    pubkey: Seq<u8>,
    sequence: u64,
    sig: Seq<u8>,
) -> bool {
    &&& bytes_in(raw, 1) == tx::body_of(order)
    &&& bytes_in(raw, 2) == tx::auth_info_of(order, pubkey, sequence)
    &&& bytes_in(raw, 3) == sig
}

/// What is sent is, in base64, the body and the authentication part that were signed, and the
/// signature.
pub proof fn law_transaction(order: OrderParts, pubkey: Seq<u8>, sequence: u64, sig: Seq<u8>)
    ensures
        exists|raw: Seq<u8>|
            tx::tx_text(order, pubkey, sequence, sig) == #[trigger] codec::base64_text(raw)
                && is_transaction(raw, order, pubkey, sequence, sig),
{
    let none = Seq::<u8>::empty();
    let (body, auth) = (tx::body_of(order), tx::auth_info_of(order, pubkey, sequence));
    let last = proto::len_field(3, sig);
    let tail = proto::bytes_field(2, auth) + last;
    let raw = proto::tx_raw_bytes(body, auth, sig);
    assert(raw =~= proto::bytes_field(1, body) + tail);
    assert(last + none =~= last);
    assert forall|f: nat| 1 <= f <= 3 implies #[trigger] held(raw, f) == if f == 1 && body.len() > 0 {
        Some(Held::Bytes(body))
    } else if f == 2 && auth.len() > 0 {
        Some(Held::Bytes(auth))
    } else if f == 3 {
        Some(Held::Bytes(sig))
    } else {
        None
    } by {
        lemma_held_bytes(1, body, tail, f);
        lemma_held_bytes(2, auth, last, f);
        lemma_held_len(3, sig, none, f);
        lemma_held_nothing(f);
    }
    assert(held(raw, 1) == held(raw, 1) && held(raw, 2) == held(raw, 2) && held(raw, 3) == held(
        raw,
        3,
    ));
    assert(body.len() == 0 ==> body =~= none);
    assert(auth.len() == 0 ==> auth =~= none);
    assert(tx::tx_text(order, pubkey, sequence, sig) == codec::base64_text(raw));
}

/// A request that is sent reads as the transaction of the order in base64, to be answered once it
/// was checked. Its signature is one of the sign document for the chain and for the account's number
/// and sequence, made with the wallet's private key.
pub proof fn law_request(
    body: Seq<char>,
    keys: (Seq<u8>, Seq<u8>),
    order: OrderParts,
    chain_id: Seq<char>,
    account: Account,
)
    requires
        tx::is_request(body, keys, order, chain_id, account),
    ensures
        json::json_read(body) is Ok,
        (json::json_read(body)->Ok_0).field("mode"@) == Json::Text("BROADCAST_MODE_SYNC"@),
        exists|raw: Seq<u8>, sig: Seq<u8>|
            {
                &&& (json::json_read(body)->Ok_0).field("tx_bytes"@) == Json::Text(
                    codec::base64_text(raw),
                )
                &&& #[trigger] is_transaction(raw, order, keys.0, account.sequence, sig)
                &&& keyfile::signs(
                    keys.1,
                    tx::sign_bytes(order, keys.0, chain_id, account.number, account.sequence),
                    sig,
                )
            },
{
    reveal_strlit("mode");
    reveal_strlit("tx_bytes");
    assert("mode"@.len() == 4);
    assert("tx_bytes"@.len() == 8);
    let sig = choose|sig: Seq<u8>|
        {
            &&& keyfile::signs(
                keys.1,
                tx::sign_bytes(order, keys.0, chain_id, account.number, account.sequence),
                sig,
            )
            &&& json::reads_as(
                body,
                tx::broadcast_json(#[trigger] tx::tx_text(order, keys.0, account.sequence, sig)),
            )
            &&& body == json::json_compact(
                tx::broadcast_json(tx::tx_text(order, keys.0, account.sequence, sig)),
            )
        };
    law_transaction(order, keys.0, account.sequence, sig);
    let raw = choose|raw: Seq<u8>|
        tx::tx_text(order, keys.0, account.sequence, sig) == #[trigger] codec::base64_text(raw)
            && is_transaction(raw, order, keys.0, account.sequence, sig);
    let v = (json::json_read(body)->Ok_0);
    assert(v.field("tx_bytes"@) == Json::Text(codec::base64_text(raw)));
    assert(is_transaction(raw, order, keys.0, account.sequence, sig));
}

/// What is sent to the chain goes to its address for transactions.
pub proof fn law_broadcast_url(rest: Seq<char>, slashes: nat)
    requires
        rest.len() > 0 ==> rest.last() != '/',
    ensures
        tx::broadcast_url_of(rest + Seq::new(slashes, |i: int| '/')) == rest
            + "/cosmos/tx/v1beta1/txs"@,
{
    formats::law_trailing_is_dropped(rest, '/', slashes);
}

/// The body of a request to send holds the transaction as it is.
pub proof fn law_broadcast_body(t: Seq<char>)
    ensures
        tx::broadcast_json(t).field("tx_bytes"@) == Json::Text(t),
        tx::broadcast_json(t).field("mode"@) == Json::Text("BROADCAST_MODE_SYNC"@),
{
    reveal_strlit("mode");
    reveal_strlit("tx_bytes");
    assert("mode"@.len() == 4);
    assert("tx_bytes"@.len() == 8);
}

/// A receipt has the code, the hash and the log that the chain answered, and -1 and empty texts for
/// what it did not.
pub proof fn law_receipt(answer: Json)
    ensures
        ({
            let response = answer.field("tx_response"@);
            let (code, hash, log) = (
                response.field("code"@),
                response.field("txhash"@),
                response.field("raw_log"@),
            );
            let receipt = tx::receipt_in(answer);
            &&& code matches Json::Integer(n) ==> i64::MIN <= n <= i64::MAX ==> receipt.code == n
            &&& !(code is Integer) ==> receipt.code == -1
            &&& hash matches Json::Text(s) ==> receipt.txhash == s
            &&& !(hash is Text) ==> receipt.txhash.len() == 0
            &&& log matches Json::Text(s) ==> receipt.log == s
            &&& !(log is Text) ==> receipt.log.len() == 0
        }),
{
}

/// What came of a request: the receipt in the answer, why the answer is no JSON, or why there was
/// none.
pub proof fn law_outcome(answer: Seq<char>, e: Seq<char>)
    ensures
        tx::outcome_of(Err(e)) == Err::<tx::ReceiptParts, Seq<char>>("broadcast: "@ + e),
        json::json_read(answer) matches Ok(v) ==> tx::outcome_of(Ok(answer)) == Ok::<
            tx::ReceiptParts,
            Seq<char>,
        >(tx::receipt_in(v)),
        json::json_read(answer) matches Err(why) ==> tx::outcome_of(Ok(answer)) == Err::<
            tx::ReceiptParts,
            Seq<char>,
        >(why),
        tx::unsigned_text() == "sign: "@ + "\"ML-DSA.Sign: random number generator failed\""@,
{
}

/// An order, a receipt and an outcome hold what they hold.
pub proof fn law_order_views(order: Order, receipt: Receipt, outcome: Result<Receipt, String>)
    ensures
        order@.type_url == order.type_url@ && order@.value == order.value@,
        order@.gas == order.gas && order@.fee == order.fee,
        receipt@.code == receipt.code && receipt@.txhash == receipt.txhash@ && receipt@.log
            == receipt.log@,
        outcome matches Ok(r) ==> tx::outcome_view(outcome) == Ok::<tx::ReceiptParts, Seq<char>>(r@),
        outcome matches Err(e) ==> tx::outcome_view(outcome) == Err::<tx::ReceiptParts, Seq<char>>(
            e@,
        ),
{
}

} // verus!
