//! Transactions: what a wallet can order on the chain, how an order is signed, and what the
//! chain answers.
use vstd::prelude::*;

use crate::address;
use crate::chain;
use crate::chain::Account;
use crate::codec;
use crate::crypto;
use crate::json;
use crate::json::{Json, JsonValue};
use crate::keyfile;
use crate::keyfile::{KeyError, KeyPair};
use crate::proto;
use crate::text;

verus! {

/// The number of the signing mode `SIGN_MODE_DIRECT`.
pub const SIGN_MODE_DIRECT: u8 = 1;

/// One message for the chain, with the gas it may use and the fee it pays.
pub struct Order {
    /// The type of the message.
    pub type_url: String,
    /// The message's bytes.
    pub value: Vec<u8>,
    /// The gas limit.
    pub gas: u64,
    /// The fee, in `usqr`.
    pub fee: u64,
}

/// What an order holds.
pub struct OrderParts {
    pub type_url: Seq<char>,
    pub value: Seq<u8>,
    pub gas: u64,
    pub fee: u64,
}

impl View for Order {
    type V = OrderParts;

    open spec fn view(&self) -> OrderParts {
        OrderParts {
            type_url: self.type_url@,
            value: self.value@,
            gas: self.gas,
            fee: self.fee,
        }
    }
}

/// Sends coins to an account.
pub open spec fn send_parts(from: Seq<char>, to: Seq<char>, amount: Seq<char>) -> OrderParts {
    OrderParts {
        type_url: "/cosmos.bank.v1beta1.MsgSend"@,
        value: proto::transfer_bytes(from, to, "usqr"@, amount),
        gas: 400_000,
        fee: 12_000,
    }
}

/// Delegates coins to a validator.
pub open spec fn stake_parts(from: Seq<char>, valoper: Seq<char>, amount: Seq<char>) -> OrderParts {
    OrderParts {
        type_url: "/cosmos.staking.v1beta1.MsgDelegate"@,
        value: proto::transfer_bytes(from, valoper, "usqr"@, amount),
        gas: 500_000,
        fee: 15_000,
    }
}

/// Takes delegated coins back from a validator.
pub open spec fn unstake_parts(
    from: Seq<char>,
    valoper: Seq<char>,
    amount: Seq<char>,
) -> OrderParts {
    OrderParts {
        type_url: "/cosmos.staking.v1beta1.MsgUndelegate"@,
        value: proto::transfer_bytes(from, valoper, "usqr"@, amount),
        gas: 500_000,
        fee: 15_000,
    }
}

/// Claims the rewards that a validator owes a delegator.
pub open spec fn claim_parts(from: Seq<char>, valoper: Seq<char>) -> OrderParts {
    OrderParts {
        type_url: "/cosmos.distribution.v1beta1.MsgWithdrawDelegatorReward"@,
        value: proto::two_address_bytes(from, valoper),
        gas: 300_000,
        fee: 9_000,
    }
}

/// Frees a validator that was jailed.
pub open spec fn unjail_parts(valoper: Seq<char>) -> OrderParts {
    OrderParts {
        type_url: "/cosmos.slashing.v1beta1.MsgUnjail"@,
        value: proto::text_field(1, valoper),
        gas: 200_000,
        fee: 6_000,
    }
}

/// Withdraws the commission that a validator has earned.
pub open spec fn withdraw_commission_parts(valoper: Seq<char>) -> OrderParts {
    OrderParts {
        type_url: "/cosmos.distribution.v1beta1.MsgWithdrawValidatorCommission"@,
        value: proto::text_field(1, valoper),
        gas: 300_000,
        fee: 9_000,
    }
}

/// Sends `amount` `usqr` to an account.
pub fn send_order(from: &str, to: &str, amount: &str) -> (r: Order)
    ensures
        r@ == send_parts(from@, to@, amount@),
{
    Order {
        type_url: "/cosmos.bank.v1beta1.MsgSend".to_owned(),
        value: proto::encode_msg_send(from, to, "usqr", amount),
        gas: 400_000,
        fee: 12_000,
    }
}

/// Delegates `amount` `usqr` to a validator.
pub fn stake_order(from: &str, valoper: &str, amount: &str) -> (r: Order)
    ensures
        r@ == stake_parts(from@, valoper@, amount@),
{
    Order {
        type_url: "/cosmos.staking.v1beta1.MsgDelegate".to_owned(),
        value: proto::encode_msg_delegate(from, valoper, "usqr", amount),
        gas: 500_000,
        fee: 15_000,
    }
}

/// Takes `amount` delegated `usqr` back from a validator.
pub fn unstake_order(from: &str, valoper: &str, amount: &str) -> (r: Order)
    ensures
        r@ == unstake_parts(from@, valoper@, amount@),
{
    Order {
        type_url: "/cosmos.staking.v1beta1.MsgUndelegate".to_owned(),
        value: proto::encode_msg_undelegate(from, valoper, "usqr", amount),
        gas: 500_000,
        fee: 15_000,
    }
}

/// Claims the rewards that a validator owes the account.
pub fn claim_order(from: &str, valoper: &str) -> (r: Order)
    ensures
        r@ == claim_parts(from@, valoper@),
{
    Order {
        type_url: "/cosmos.distribution.v1beta1.MsgWithdrawDelegatorReward".to_owned(),
        value: proto::encode_msg_withdraw_reward(from, valoper),
        gas: 300_000,
        fee: 9_000,
    }
}

/// Frees a validator that was jailed.
pub fn unjail_order(valoper: &str) -> (r: Order)
    ensures
        r@ == unjail_parts(valoper@),
{
    Order {
        type_url: "/cosmos.slashing.v1beta1.MsgUnjail".to_owned(),
        value: proto::encode_msg_unjail(valoper),
        gas: 200_000,
        fee: 6_000,
    }
}

/// Withdraws the commission that a validator has earned.
pub fn withdraw_commission_order(valoper: &str) -> (r: Order)
    ensures
        r@ == withdraw_commission_parts(valoper@),
{
    Order {
        type_url: "/cosmos.distribution.v1beta1.MsgWithdrawValidatorCommission".to_owned(),
        value: proto::encode_msg_withdraw_commission(valoper),
        gas: 300_000,
        fee: 9_000,
    }
}

/// The body of the transaction that carries an order.
pub open spec fn body_of(order: OrderParts) -> Seq<u8> {
    proto::tx_body_bytes(order.type_url, order.value)
}

/// The authentication part of the transaction that carries an order: the signer's public key
/// and sequence number, the fee and the gas limit.
pub open spec fn auth_info_of(order: OrderParts, pubkey: Seq<u8>, sequence: u64) -> Seq<u8> {
    proto::auth_info_bytes(
        proto::signer_info_bytes(
            "/sequora.crypto.v1.PubKey"@,
            proto::len_field(1, pubkey),
            SIGN_MODE_DIRECT as nat,
            sequence as nat,
        ),
        proto::fee_bytes("usqr"@, text::decimal(order.fee as nat), order.gas as nat),
    )
}

/// The bytes that are signed for an order.
pub open spec fn sign_bytes(
    order: OrderParts,
    pubkey: Seq<u8>,
    chain_id: Seq<char>,
    account_number: u64,
    sequence: u64,
) -> Seq<u8> {
    proto::sign_doc_bytes(
        body_of(order),
        auth_info_of(order, pubkey, sequence),
        chain_id,
        account_number as nat,
    )
}

/// The bytes of a signed transaction, in base64.
pub open spec fn tx_text(
    order: OrderParts,
    pubkey: Seq<u8>,
    sequence: u64,
    signature: Seq<u8>,
) -> Seq<char> {
    codec::base64_text(
        proto::tx_raw_bytes(body_of(order), auth_info_of(order, pubkey, sequence), signature),
    )
}

/// A signature binds everything that matters of an order: where the signed bytes are the same,
/// so are the message, the gas limit, the fee, the public key, the chain, the account number and
/// the sequence number.
pub proof fn law_signed_bytes_bind_order(
    order1: OrderParts,
    pubkey1: Seq<u8>,
    chain1: Seq<char>,
    account1: u64,
    sequence1: u64,
    order2: OrderParts,
    pubkey2: Seq<u8>,
    chain2: Seq<char>,
    account2: u64,
    sequence2: u64,
)
    requires
        sign_bytes(order1, pubkey1, chain1, account1, sequence1) == sign_bytes(
            order2,
            pubkey2,
            chain2,
            account2,
            sequence2,
        ),
    ensures
        order1 == order2,
        pubkey1 == pubkey2,
        chain1 == chain2,
        account1 == account2,
        sequence1 == sequence2,
{
    let (key_url, denom) = ("/sequora.crypto.v1.PubKey"@, "usqr"@);
    let (key1, key2) = (proto::len_field(1, pubkey1), proto::len_field(1, pubkey2));
    let mode = SIGN_MODE_DIRECT as nat;
    let (fee1, fee2) = (text::decimal(order1.fee as nat), text::decimal(order2.fee as nat));
    let (gas1, gas2) = (order1.gas as nat, order2.gas as nat);
    proto::law_sign_doc_bytes_injective(
        body_of(order1),
        auth_info_of(order1, pubkey1, sequence1),
        chain1,
        account1 as nat,
        body_of(order2),
        auth_info_of(order2, pubkey2, sequence2),
        chain2,
        account2 as nat,
    );
    proto::law_tx_body_bytes_injective(
        order1.type_url,
        order1.value,
        order2.type_url,
        order2.value,
    );
    proto::law_auth_info_bytes_injective(
        proto::signer_info_bytes(key_url, key1, mode, sequence1 as nat),
        proto::fee_bytes(denom, fee1, gas1),
        proto::signer_info_bytes(key_url, key2, mode, sequence2 as nat),
        proto::fee_bytes(denom, fee2, gas2),
    );
    proto::law_signer_info_bytes_injective(
        key_url,
        key1,
        mode,
        sequence1 as nat,
        key_url,
        key2,
        mode,
        sequence2 as nat,
    );
    proto::law_pubkey_any_value_reads_back(pubkey1);
    proto::law_pubkey_any_value_reads_back(pubkey2);
    proto::law_fee_bytes_injective(denom, fee1, gas1, denom, fee2, gas2);
    text::lemma_decimal(order1.fee as nat);
    text::lemma_decimal(order2.fee as nat);
}

/// A signature of a transfer binds who pays, who is paid and how much.
pub proof fn law_signed_bytes_bind_transfer(
    from1: Seq<char>,
    to1: Seq<char>,
    amount1: Seq<char>,
    from2: Seq<char>,
    to2: Seq<char>,
    amount2: Seq<char>,
    pubkey: Seq<u8>,
    chain: Seq<char>,
    account: u64,
    sequence: u64,
)
    requires
        sign_bytes(send_parts(from1, to1, amount1), pubkey, chain, account, sequence)
            == sign_bytes(send_parts(from2, to2, amount2), pubkey, chain, account, sequence),
    ensures
        from1 == from2,
        to1 == to2,
        amount1 == amount2,
{
    law_signed_bytes_bind_order(
        send_parts(from1, to1, amount1),
        pubkey,
        chain,
        account,
        sequence,
        send_parts(from2, to2, amount2),
        pubkey,
        chain,
        account,
        sequence,
    );
    proto::law_transfer_bytes_injective(
        from1,
        to1,
        "usqr"@,
        amount1,
        from2,
        to2,
        "usqr"@,
        amount2,
    );
}

/// The body, the authentication part and the bytes to sign of a transaction.
pub struct Unsigned {
    /// The body.
    pub body: Vec<u8>,
    /// The authentication part.
    pub auth_info: Vec<u8>,
    /// The bytes to sign.
    pub sign_doc: Vec<u8>,
}

/// Builds the transaction that carries an order, up to the signature.
pub fn unsigned_tx(
    order: &Order,
    pubkey: &[u8],
    chain_id: &str,
    account_number: u64,
    sequence: u64,
) -> (r: Unsigned)
    ensures
        r.body@ == body_of(order@),
        r.auth_info@ == auth_info_of(order@, pubkey@, sequence),
        r.sign_doc@ == sign_bytes(order@, pubkey@, chain_id@, account_number, sequence),
{
    let body = proto::encode_tx_body(order.type_url.as_str(), order.value.as_slice());
    let key_value = proto::pubkey_any_value(pubkey);
    let fee = text::decimal_text(order.fee);
    let auth_info = proto::encode_auth_info(
        "/sequora.crypto.v1.PubKey",
        key_value.as_slice(),
        SIGN_MODE_DIRECT,
        sequence,
        "usqr",
        fee.as_str(),
        order.gas,
    );
    let sign_doc = proto::encode_sign_doc(
        body.as_slice(),
        auth_info.as_slice(),
        chain_id,
        account_number,
    );
    Unsigned { body, auth_info, sign_doc }
}

/// Puts a signature to a transaction and writes it in base64.
pub fn signed_text(unsigned: &Unsigned, signature: &[u8]) -> (r: String)
    ensures
        r@ == codec::base64_text(
            proto::tx_raw_bytes(unsigned.body@, unsigned.auth_info@, signature@),
        ),
{
    let raw = proto::encode_tx_raw(
        unsigned.body.as_slice(),
        unsigned.auth_info.as_slice(),
        signature,
    );
    codec::base64_encode(raw.as_slice())
}

/// What is said where there is no randomness to sign a transaction with.
pub open spec fn unsigned_text() -> Seq<char> {
    "sign: "@ + crypto::no_randomness_text()
}

/// Signs the transaction that carries an order and writes it in base64. What is signed are the
/// bytes of the sign document, and nothing but the signature is added to what was signed. There
/// is no transaction only where the system has no randomness for the signature.
pub fn sign_order(
    keys: &KeyPair,
    order: &Order,
    chain_id: &str,
    account_number: u64,
    sequence: u64,
) -> (r: Result<String, String>)
    ensures
        match r {
            Ok(tx) => exists|sig: Seq<u8>|
                keyfile::signs(
                    keys@.1,
                    sign_bytes(order@, keys@.0, chain_id@, account_number, sequence),
                    sig,
                ) && tx@ == #[trigger] tx_text(order@, keys@.0, sequence, sig),
            Err(e) => e@ == unsigned_text(),
        },
{
    let unsigned = unsigned_tx(order, keys.pubkey(), chain_id, account_number, sequence);
    match keys.sign(unsigned.sign_doc.as_slice()) {
        Ok(sig) => {
            let tx = signed_text(&unsigned, sig.as_slice());
            assert(tx@ == tx_text(order@, keys@.0, sequence, sig@));
            Ok(tx)
        },
        Err(e) => {
            let mut message = "sign: ".to_owned();
            message.append(e.as_str());
            Err(message)
        },
    }
}

/// The address that transactions are sent to.
pub open spec fn broadcast_url_of(rest: Seq<char>) -> Seq<char> {
    text::without_trailing(rest, '/') + "/cosmos/tx/v1beta1/txs"@
}

/// The address that transactions are sent to.
pub fn broadcast_url(rest: &str) -> (r: String)
    ensures
        r@ == broadcast_url_of(rest@),
{
    let mut url = text::trim_end_slashes(rest);
    url.append("/cosmos/tx/v1beta1/txs");
    url
}

/// The request that sends a transaction: the chain answers once it has checked it.
pub open spec fn broadcast_json(tx: Seq<char>) -> Json {
    Json::empty_object().with("tx_bytes"@, Json::Text(tx)).with(
        "mode"@,
        Json::Text("BROADCAST_MODE_SYNC"@),
    )
}

/// The request that sends a transaction. It reads back as what it was made of.
pub fn broadcast_body(tx: &str) -> (r: String)
    ensures
        r@ == json::json_compact(broadcast_json(tx@)),
        json::reads_as(r@, broadcast_json(tx@)),
{
    proof {
        let mode = Json::Text("BROADCAST_MODE_SYNC"@);
        let empty = Json::empty_object();
        assert(empty.is_exact(100));
        json::lemma_with_is_exact(empty, "tx_bytes"@, Json::Text(tx@), 100);
        json::lemma_with_is_exact(empty.with("tx_bytes"@, Json::Text(tx@)), "mode"@, mode, 100);
    }
    let mut request = JsonValue::object();
    request.insert("tx_bytes", JsonValue::text(tx));
    request.insert("mode", JsonValue::text("BROADCAST_MODE_SYNC"));
    request.render()
}

/// What the chain answers to a transaction.
pub struct Receipt {
    /// The result code, 0 for success.
    pub code: i64,
    /// The hash of the transaction.
    pub txhash: String,
    /// What the chain has to say of it.
    pub log: String,
}

/// What a receipt holds.
pub struct ReceiptParts {
    pub code: i64,
    pub txhash: Seq<char>,
    pub log: Seq<char>,
}

impl View for Receipt {
    type V = ReceiptParts;

    open spec fn view(&self) -> ReceiptParts {
        ReceiptParts { code: self.code, txhash: self.txhash@, log: self.log@ }
    }
}

/// The receipt in an answer: the code is -1 and a text is empty where the answer has none.
pub open spec fn receipt_in(answer: Json) -> ReceiptParts {
    let response = answer.field("tx_response"@);
    ReceiptParts {
        code: match response.field("code"@).signed() {
            Some(code) => code,
            None => -1i64,
        },
        txhash: response.field("txhash"@).text_or(Seq::empty()),
        log: response.field("raw_log"@).text_or(Seq::empty()),
    }
}

/// A wallet opened for a broadcast, and the question that comes first.
pub struct Opened {
    /// The keys.
    pub keys: KeyPair,
    /// Where the number and the sequence of the account are asked for.
    pub account_url: String,
}

/// Opens the wallet for a broadcast.
pub fn begin_broadcast(data: &Option<String>, password: &str, rest: &str) -> (r: Result<
    Opened,
    KeyError,
>)
    ensures
        match r {
            Ok(o) => keyfile::opened_file(text::opt_view(*data), password@) == Ok::<
                (Seq<u8>, Seq<u8>),
                KeyError,
            >(o.keys@) && o.account_url@ == chain::account_url_of(
                rest@,
                address::address_of(o.keys@.0),
            ),
            Err(e) => keyfile::opened_file(text::opt_view(*data), password@) == Err::<
                (Seq<u8>, Seq<u8>),
                KeyError,
            >(e),
        },
{
    match keyfile::load_keypair(data, password) {
        Ok(keys) => {
            let addr = address::derive_address(keys.pubkey());
            let account_url = chain::account_url(rest, addr.as_str());
            Ok(Opened { keys, account_url })
        },
        Err(e) => Err(e),
    }
}

/// Why there is no request to send.
pub enum BroadcastError {
    /// The chain did not answer about the account.
    NoAnswer,
    /// The answer about the account is no JSON.
    BadAccount,
    /// There is no signature, and why.
    NoSignature { message: String },
}

/// Whether a request sends an order, signed with a private key for an account, to a chain.
pub open spec fn is_request(
    body: Seq<char>,
    keys: (Seq<u8>, Seq<u8>),
    order: OrderParts,
    chain_id: Seq<char>,
    account: Account,
) -> bool {
    exists|sig: Seq<u8>|
        {
            &&& keyfile::signs(
                keys.1,
                sign_bytes(order, keys.0, chain_id, account.number, account.sequence),
                sig,
            )
            &&& json::reads_as(
                body,
                broadcast_json(#[trigger] tx_text(order, keys.0, account.sequence, sig)),
            )
            &&& body == json::json_compact(
                broadcast_json(tx_text(order, keys.0, account.sequence, sig)),
            )
        }
}

/// Signs an order for an account and builds the request that sends it.
pub fn request_for(keys: &KeyPair, order: &Order, chain_id: &str, account: &Account) -> (r: Result<
    String,
    String,
>)
    ensures
        match r {
            Ok(body) => is_request(body@, keys@, order@, chain_id@, *account),
            Err(message) => message@ == unsigned_text(),
        },
{
    match sign_order(keys, order, chain_id, account.number, account.sequence) {
        Ok(tx) => Ok(broadcast_body(tx.as_str())),
        Err(message) => Err(message),
    }
}

/// Signs an order with the account's number and sequence, as the chain answered them, and
/// builds the request that sends it. The private key is scrubbed before this returns.
pub fn broadcast_request(
    keys: KeyPair,
    order: &Order,
    chain_id: &str,
    answer: &Option<String>,
) -> (r: Result<String, BroadcastError>)
    ensures
        match text::opt_view(*answer) {
            None => r matches Err(BroadcastError::NoAnswer),
            Some(answer) => match json::json_read(answer) {
                Err(_) => r matches Err(BroadcastError::BadAccount),
                Ok(v) => match r {
                    Ok(body) => is_request(
                        body@,
                        keys@,
                        order@,
                        chain_id@,
                        chain::account_in(v),
                    ),
                    Err(BroadcastError::NoSignature { message }) => message@ == unsigned_text(),
                    Err(_) => false,
                },
            },
        },
{
    let r = match answer {
        None => Err(BroadcastError::NoAnswer),
        Some(answer) => match chain::read_account(answer.as_str()) {
            None => Err(BroadcastError::BadAccount),
            Some(account) => match request_for(&keys, order, chain_id, &account) {
                Ok(body) => Ok(body),
                Err(message) => Err(BroadcastError::NoSignature { message }),
            },
        },
    };
    keys.discard();
    r
}

/// Reads the receipt from what the chain answered.
pub fn receipt_of(answer: &JsonValue) -> (r: Receipt)
    ensures
        r@ == receipt_in(answer@),
{
    proof {
        reveal_strlit("");
        assert(""@ =~= Seq::empty());
    }
    let response = answer.field("tx_response");
    let code: i64 = match response.field("code").as_signed() {
        Some(code) => code,
        None => -1,
    };
    Receipt {
        code,
        txhash: response.field("txhash").text_or(""),
        log: response.field("raw_log").text_or(""),
    }
}

/// Reads the receipt from the text that the chain answered; the error says why the text is no
/// JSON.
pub fn read_receipt(answer: &str) -> (r: Result<Receipt, String>)
    ensures
        match r {
            Ok(receipt) => json::json_read(answer@) matches Ok(v) && receipt@ == receipt_in(v),
            Err(e) => json::json_read(answer@) == Err::<Json, Seq<char>>(e@),
        },
{
    match JsonValue::parse(answer) {
        Ok(v) => Ok(receipt_of(&v)),
        Err(e) => Err(e),
    }
}

/// What came of a request that was sent: the receipt, or why there is none. `sent` is what the
/// chain answered, or why it did not.
pub open spec fn outcome_of(sent: Result<Seq<char>, Seq<char>>) -> Result<
    ReceiptParts,
    Seq<char>,
> {
    match sent {
        Err(e) => Err("broadcast: "@ + e),
        Ok(answer) => match json::json_read(answer) {
            Err(e) => Err(e),
            Ok(v) => Ok(receipt_in(v)),
        },
    }
}

/// What an outcome holds.
pub open spec fn outcome_view(outcome: Result<Receipt, String>) -> Result<
    ReceiptParts,
    Seq<char>,
> {
    match outcome {
        Ok(receipt) => Ok(receipt@),
        Err(e) => Err(e@),
    }
}

/// What came of a request that was sent: the receipt, or why there is none.
pub fn read_outcome(sent: &Result<String, String>) -> (r: Result<Receipt, String>)
    ensures
        outcome_view(r) == outcome_of(text::result_view(*sent)),
{
    match sent {
        Ok(answer) => read_receipt(answer.as_str()),
        Err(e) => {
            let mut message = "broadcast: ".to_owned();
            message.append(e.as_str());
            Err(message)
        },
    }
}

} // verus!
