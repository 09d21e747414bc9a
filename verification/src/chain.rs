//! What is asked of the chain's REST interface, and what is made of its answers.
use vstd::prelude::*;

use crate::address;
use crate::json;
use crate::json::{Json, JsonValue};
use crate::text;

verus! {

/// The address of `path` at a REST interface: slashes that its own address ends in are dropped.
pub open spec fn url_of(rest: Seq<char>, path: Seq<char>) -> Seq<char> {
    text::without_trailing(rest, '/') + path
}

/// The address of `path` at a REST interface.
pub fn rest_url(rest: &str, path: &str) -> (r: String)
    ensures
        r@ == url_of(rest@, path@),
{
    let mut url = text::trim_end_slashes(rest);
    url.append(path);
    url
}

/// A path with an account address at its end.
fn path_to(head: &str, addr: &str) -> (r: String)
    ensures
        r@ == head@ + addr@,
{
    let mut path = head.to_owned();
    path.append(addr);
    path
}

/// Where the balances of an account are asked for.
pub open spec fn balances_url_of(rest: Seq<char>, addr: Seq<char>) -> Seq<char> {
    url_of(rest, "/cosmos/bank/v1beta1/balances/"@ + addr)
}

/// Where an account's number and sequence are asked for.
pub open spec fn account_url_of(rest: Seq<char>, addr: Seq<char>) -> Seq<char> {
    url_of(rest, "/cosmos/auth/v1beta1/accounts/"@ + addr)
}

/// Where the validators are asked for.
pub open spec fn validators_url_of(rest: Seq<char>) -> Seq<char> {
    url_of(rest, "/cosmos/staking/v1beta1/validators?pagination.limit=200"@)
}

/// Where the delegations of an account are asked for.
pub open spec fn delegations_url_of(rest: Seq<char>, addr: Seq<char>) -> Seq<char> {
    url_of(rest, "/cosmos/staking/v1beta1/delegations/"@ + addr)
}

/// Where the rewards of an account are asked for.
pub open spec fn rewards_url_of(rest: Seq<char>, addr: Seq<char>) -> Seq<char> {
    url_of(rest, "/cosmos/distribution/v1beta1/delegators/"@ + addr + "/rewards"@)
}

/// Where the balances of an account are asked for.
pub fn balances_url(rest: &str, addr: &str) -> (r: String)
    ensures
        r@ == balances_url_of(rest@, addr@),
{
    rest_url(rest, path_to("/cosmos/bank/v1beta1/balances/", addr).as_str())
}

/// Where an account's number and sequence are asked for.
pub fn account_url(rest: &str, addr: &str) -> (r: String)
    ensures
        r@ == account_url_of(rest@, addr@),
{
    rest_url(rest, path_to("/cosmos/auth/v1beta1/accounts/", addr).as_str())
}

/// Where the validators are asked for.
pub fn validators_url(rest: &str) -> (r: String)
    ensures
        r@ == validators_url_of(rest@),
{
    rest_url(rest, "/cosmos/staking/v1beta1/validators?pagination.limit=200")
}

/// Where the delegations of an account are asked for.
pub fn delegations_url(rest: &str, addr: &str) -> (r: String)
    ensures
        r@ == delegations_url_of(rest@, addr@),
{
    rest_url(rest, path_to("/cosmos/staking/v1beta1/delegations/", addr).as_str())
}

/// Where the rewards of an account are asked for.
pub fn rewards_url(rest: &str, addr: &str) -> (r: String)
    ensures
        r@ == rewards_url_of(rest@, addr@),
{
    let mut path = path_to("/cosmos/distribution/v1beta1/delegators/", addr);
    path.append("/rewards");
    rest_url(rest, path.as_str())
}

/// What is made of an answer: the value it holds, or an object with no members where there was
/// no answer or it holds none.
pub open spec fn answer_json(body: Option<Seq<char>>) -> Json {
    match body {
        Some(body) => json::read_or_empty(body),
        None => Json::empty_object(),
    }
}

/// What is made of an answer.
fn answer_value(body: &Option<String>) -> (r: JsonValue)
    ensures
        r@ == answer_json(text::opt_view(*body)),
{
    match body {
        Some(body) => JsonValue::parse_or_empty(body.as_str()),
        None => JsonValue::object(),
    }
}

/// The number that a text holds; 0 where it holds none, or where there is no text.
pub open spec fn number_or_zero(field: Json) -> u64 {
    match text::number_in(field.text_or("0"@)) {
        Some(n) => n,
        None => 0,
    }
}

/// The number and the sequence of an account.
pub struct Account {
    /// The account number.
    pub number: u64,
    /// How many transactions the account has sent.
    pub sequence: u64,
}

/// The number and the sequence of an account, as an answer has them.
pub open spec fn account_in(answer: Json) -> Account {
    let account = answer.field("account"@);
    Account {
        number: number_or_zero(account.field("account_number"@)),
        sequence: number_or_zero(account.field("sequence"@)),
    }
}

/// The number that a text holds.
fn read_number(field: &JsonValue) -> (r: u64)
    ensures
        r == number_or_zero(field@),
{
    match text::parse_number(field.text_or("0").as_str()) {
        Some(n) => n,
        None => 0,
    }
}

/// The number and the sequence of an account, as an answer has them.
pub fn account_of(answer: &JsonValue) -> (r: Account)
    ensures
        r == account_in(answer@),
{
    let account = answer.field("account");
    Account {
        number: read_number(&account.field("account_number")),
        sequence: read_number(&account.field("sequence")),
    }
}

/// Reads the number and the sequence of an account from an answer; `None` where it is no JSON.
pub fn read_account(answer: &str) -> (r: Option<Account>)
    ensures
        match r {
            Some(account) => json::json_read(answer@) matches Ok(v) && account == account_in(v),
            None => json::json_read(answer@) is Err,
        },
{
    match JsonValue::parse(answer) {
        Ok(v) => Some(account_of(&v)),
        Err(_) => None,
    }
}

/// An amount of a coin.
pub struct Balance {
    /// The amount, as the chain writes it.
    pub amount: String,
    /// The denomination.
    pub denom: String,
}

impl View for Balance {
    type V = (Seq<char>, Seq<char>);

    open spec fn view(&self) -> (Seq<char>, Seq<char>) {
        (self.amount@, self.denom@)
    }
}

/// The amount and the denomination of a coin, with `?` for what it lacks.
pub open spec fn balance_in(coin: Json) -> (Seq<char>, Seq<char>) {
    (coin.field("amount"@).text_or("?"@), coin.field("denom"@).text_or("?"@))
}

/// The balances in an answer, in its order.
pub open spec fn balances_in(answer: Json) -> Seq<(Seq<char>, Seq<char>)> {
    answer.field("balances"@).items().map_values(|coin: Json| balance_in(coin))
}

/// The balances in an answer, in its order.
pub fn balances_of(answer: &JsonValue) -> (r: Vec<Balance>)
    ensures
        r@.map_values(|b: Balance| b@) == balances_in(answer@),
{
    let coins = answer.field("balances").items();
    let ghost items = answer@.field("balances"@).items();
    let mut out: Vec<Balance> = Vec::new();
    let mut n: usize = 0;
    assert(items.len() == coins@.len());
    while n < coins.len()
        invariant
            n <= coins@.len(),
            items == coins@.map_values(|c: JsonValue| c@),
            out@.len() == n,
            forall|k: int| 0 <= k < n ==> (#[trigger] out@[k])@ == balance_in(items[k]),
        decreases coins@.len() - n,
    {
        let coin = &coins[n];
        out.push(
            Balance {
                amount: coin.field("amount").text_or("?"),
                denom: coin.field("denom").text_or("?"),
            },
        );
        n = n + 1;
    }
    assert(out@.map_values(|b: Balance| b@) =~= balances_in(answer@));
    out
}

/// Reads the balances from an answer; none where it is no JSON.
pub fn read_balances(answer: &str) -> (r: Vec<Balance>)
    ensures
        r@.map_values(|b: Balance| b@) == balances_in(json::read_or_empty(answer@)),
{
    balances_of(&JsonValue::parse_or_empty(answer))
}

/// The first item whose member under `key` is the text `value`.
pub open spec fn first_with(items: Seq<Json>, key: Seq<char>, value: Seq<char>) -> Option<Json>
    decreases items.len(),
{
    if items.len() == 0 {
        None
    } else if items.first().field(key) == Json::Text(value) {
        Some(items.first())
    } else {
        first_with(items.drop_first(), key, value)
    }
}

/// The first item whose member under `key` is the text `value`.
fn find_with(items: &Vec<JsonValue>, key: &str, value: &str) -> (r: Option<JsonValue>)
    ensures
        match r {
            Some(v) => first_with(items@.map_values(|i: JsonValue| i@), key@, value@) == Some(v@),
            None => first_with(items@.map_values(|i: JsonValue| i@), key@, value@) is None,
        },
{
    let ghost all = items@.map_values(|i: JsonValue| i@);
    let mut n: usize = 0;
    assert(all.skip(0) =~= all);
    while n < items.len()
        invariant
            n <= items@.len(),
            all == items@.map_values(|i: JsonValue| i@),
            first_with(all, key@, value@) == first_with(all.skip(n as int), key@, value@),
        decreases items@.len() - n,
    {
        let ghost rest = all.skip(n as int);
        assert(rest.first() == items@[n as int]@);
        assert(rest.drop_first() =~= all.skip(n + 1));
        match items[n].field(key).as_text() {
            Some(s) => {
                if text::same_text(s.as_str(), value) {
                    return Some(items[n].copy());
                }
            },
            None => {},
        }
        n = n + 1;
    }
    assert(all.skip(n as int).len() == 0);
    None
}

/// The amount of the first `usqr` coin in a list, if there is one with an amount.
pub open spec fn usqr_amount(coins: Json) -> Option<Seq<char>> {
    match first_with(coins.items(), "denom"@, "usqr"@) {
        Some(coin) => coin.field("amount"@).text(),
        None => None,
    }
}

/// The balance that an answer shows, in `usqr`.
pub open spec fn balance_text(answer: Json) -> Seq<char> {
    match usqr_amount(answer.field("balances"@)) {
        Some(amount) => amount,
        None => "0"@,
    }
}

/// The rewards that an answer shows, in whole `usqr`: what stands before the point.
pub open spec fn rewards_text(answer: Json) -> Seq<char> {
    match usqr_amount(answer.field("total"@)) {
        Some(amount) => text::before_first(amount, '.'),
        None => "0"@,
    }
}

/// The amount of the first `usqr` coin in a list.
fn find_usqr_amount(coins: &JsonValue) -> (r: Option<String>)
    ensures
        match r {
            Some(s) => usqr_amount(coins@) == Some(s@),
            None => usqr_amount(coins@) is None,
        },
{
    match find_with(&coins.items(), "denom", "usqr") {
        Some(coin) => coin.field("amount").as_text(),
        None => None,
    }
}

/// What is shown of a validator in either list.
pub open spec fn validator_details(base: Json, v: Json) -> Json {
    base.with("moniker"@, v.field("description"@).field("moniker"@))
        .with("tokens"@, v.field("tokens"@))
        .with("jailed"@, v.field("jailed"@))
        .with("status"@, v.field("status"@))
        .with("commission"@, v.field("commission"@).field("commission_rates"@).field("rate"@))
}

/// What is shown of one validator among all.
pub open spec fn validator_json(v: Json) -> Json {
    validator_details(
        Json::empty_object().with("valoper"@, v.field("operator_address"@)),
        v,
    )
}

/// What is shown of the validator that the wallet operates, if it operates one of them.
pub open spec fn own_validator_json(validators: Seq<Json>, valoper: Seq<char>) -> Json {
    match first_with(validators, "operator_address"@, valoper) {
        Some(v) => validator_details(
            Json::empty_object().with("exists"@, Json::Bool(true)),
            v,
        ),
        None => Json::empty_object().with("exists"@, Json::Bool(false)),
    }
}

/// What is shown of one delegation.
pub open spec fn delegation_json(d: Json) -> Json {
    Json::empty_object()
        .with("valoper"@, d.field("delegation"@).field("validator_address"@))
        .with("amount"@, d.field("balance"@).field("amount"@))
}

/// Adds what is shown of a validator in either list.
fn add_details(base: JsonValue, v: &JsonValue) -> (r: JsonValue)
    ensures
        r@ == validator_details(base@, v@),
{
    let mut out = base;
    out.insert("moniker", v.field("description").field("moniker"));
    out.insert("tokens", v.field("tokens"));
    out.insert("jailed", v.field("jailed"));
    out.insert("status", v.field("status"));
    out.insert("commission", v.field("commission").field("commission_rates").field("rate"));
    out
}

/// What is shown of all validators.
fn validator_list(validators: &Vec<JsonValue>) -> (r: JsonValue)
    ensures
        r@ == Json::List(
            validators@.map_values(|v: JsonValue| v@).map_values(|v: Json| validator_json(v)),
        ),
{
    let mut out: Vec<JsonValue> = Vec::new();
    let mut n: usize = 0;
    while n < validators.len()
        invariant
            n <= validators@.len(),
            out@.len() == n,
            forall|k: int| 0 <= k < n ==> (#[trigger] out@[k])@ == validator_json(validators@[k]@),
        decreases validators@.len() - n,
    {
        let mut entry = JsonValue::object();
        entry.insert("valoper", validators[n].field("operator_address"));
        out.push(add_details(entry, &validators[n]));
        n = n + 1;
    }
    assert(out@.map_values(|i: JsonValue| i@) =~= validators@.map_values(
        |v: JsonValue| v@,
    ).map_values(|v: Json| validator_json(v)));
    JsonValue::list(&out)
}

/// What is shown of the validator that the wallet operates.
fn own_validator(validators: &Vec<JsonValue>, valoper: &str) -> (r: JsonValue)
    ensures
        r@ == own_validator_json(validators@.map_values(|v: JsonValue| v@), valoper@),
{
    let mut out = JsonValue::object();
    match find_with(validators, "operator_address", valoper) {
        Some(v) => {
            out.insert("exists", JsonValue::boolean(true));
            add_details(out, &v)
        },
        None => {
            out.insert("exists", JsonValue::boolean(false));
            out
        },
    }
}

/// What is shown of all delegations.
fn delegation_list(delegations: &Vec<JsonValue>) -> (r: JsonValue)
    ensures
        r@ == Json::List(
            delegations@.map_values(|d: JsonValue| d@).map_values(|d: Json| delegation_json(d)),
        ),
{
    let mut out: Vec<JsonValue> = Vec::new();
    let mut n: usize = 0;
    while n < delegations.len()
        invariant
            n <= delegations@.len(),
            out@.len() == n,
            forall|k: int|
                0 <= k < n ==> (#[trigger] out@[k])@ == delegation_json(delegations@[k]@),
        decreases delegations@.len() - n,
    {
        let d = &delegations[n];
        let mut entry = JsonValue::object();
        entry.insert("valoper", d.field("delegation").field("validator_address"));
        entry.insert("amount", d.field("balance").field("amount"));
        out.push(entry);
        n = n + 1;
    }
    assert(out@.map_values(|i: JsonValue| i@) =~= delegations@.map_values(
        |d: JsonValue| d@,
    ).map_values(|d: Json| delegation_json(d)));
    JsonValue::list(&out)
}

/// What the dashboard shows of a wallet, from the four answers of the chain.
pub open spec fn info_of(
    pubkey: Seq<u8>,
    balances: Json,
    validators: Json,
    delegations: Json,
    rewards: Json,
) -> Json {
    let valoper = address::valoper_of(pubkey);
    let list = validators.field("validators"@).items();
    let delegated = delegations.field("delegation_responses"@).items();
    Json::empty_object()
        .with("address"@, Json::Text(address::address_of(pubkey)))
        .with("balance"@, Json::Text(balance_text(balances)))
        .with("rewards"@, Json::Text(rewards_text(rewards)))
        .with("validators"@, Json::List(list.map_values(|v: Json| validator_json(v))))
        .with("delegations"@, Json::List(delegated.map_values(|d: Json| delegation_json(d))))
        .with("myvaloper"@, Json::Text(valoper))
        .with("myvalidator"@, own_validator_json(list, valoper))
}

/// What the dashboard shows of a wallet, from the four answers of the chain.
pub fn info_value(
    pubkey: &[u8],
    balances: &JsonValue,
    validators: &JsonValue,
    delegations: &JsonValue,
    rewards: &JsonValue,
) -> (r: JsonValue)
    ensures
        r@ == info_of(pubkey@, balances@, validators@, delegations@, rewards@),
{
    let addr = address::derive_address(pubkey);
    let valoper = address::derive_valoper(pubkey);
    let balance = match find_usqr_amount(&balances.field("balances")) {
        Some(amount) => amount,
        None => "0".to_owned(),
    };
    let reward = match find_usqr_amount(&rewards.field("total")) {
        Some(amount) => text::text_before(amount.as_str(), '.'),
        None => "0".to_owned(),
    };
    let list = validators.field("validators").items();
    let delegated = delegations.field("delegation_responses").items();
    let mut info = JsonValue::object();
    info.insert("address", JsonValue::text(addr.as_str()));
    info.insert("balance", JsonValue::text(balance.as_str()));
    info.insert("rewards", JsonValue::text(reward.as_str()));
    info.insert("validators", validator_list(&list));
    info.insert("delegations", delegation_list(&delegated));
    info.insert("myvaloper", JsonValue::text(valoper.as_str()));
    info.insert("myvalidator", own_validator(&list, valoper.as_str()));
    info
}

/// Where the chain does not answer, a wallet is shown with nothing on it: no balance, no rewards,
/// no validators, no delegations, and no validator of its own.
pub proof fn law_info_without_chain(pubkey: Seq<u8>)
    ensures
        ({
            let none = Json::empty_object();
            let info = info_of(pubkey, none, none, none, none);
            &&& info == none.with("address"@, Json::Text(address::address_of(pubkey))).with(
                "balance"@,
                Json::Text("0"@),
            ).with("rewards"@, Json::Text("0"@)).with("validators"@, Json::List(Seq::empty())).with(
                "delegations"@,
                Json::List(Seq::empty()),
            ).with("myvaloper"@, Json::Text(address::valoper_of(pubkey))).with(
                "myvalidator"@,
                none.with("exists"@, Json::Bool(false)),
            )
        }),
{
    let no_items = Seq::<Json>::empty();
    assert(no_items.map_values(|v: Json| validator_json(v)) =~= no_items);
    assert(no_items.map_values(|d: Json| delegation_json(d)) =~= no_items);
}

/// What the chain answered to the four questions that the dashboard asks; `None` where there
/// was no answer.
pub struct Answers {
    /// The balances.
    pub balances: Option<String>,
    /// The validators.
    pub validators: Option<String>,
    /// The delegations.
    pub delegations: Option<String>,
    /// The rewards.
    pub rewards: Option<String>,
}

/// What the dashboard shows of a wallet, from what the chain answered.
pub open spec fn info_from(pubkey: Seq<u8>, answers: Answers) -> Json {
    info_of(
        pubkey,
        answer_json(text::opt_view(answers.balances)),
        answer_json(text::opt_view(answers.validators)),
        answer_json(text::opt_view(answers.delegations)),
        answer_json(text::opt_view(answers.rewards)),
    )
}

/// The text that the dashboard is sent of a wallet.
pub open spec fn info_text(pubkey: Seq<u8>, answers: Answers) -> Seq<char> {
    json::json_compact(info_from(pubkey, answers))
}

/// The text that the dashboard is sent of a wallet. It reads back as what it was made of, unless
/// the chain answered with numbers that are no integers of 64 bits, or nested too deep.
pub fn info_json(pubkey: &[u8], answers: &Answers) -> (r: String)
    ensures
        r@ == info_text(pubkey@, *answers),
        info_from(pubkey@, *answers).is_exact(100) ==> json::reads_as(
            r@,
            info_from(pubkey@, *answers),
        ),
{
    info_value(
        pubkey,
        &answer_value(&answers.balances),
        &answer_value(&answers.validators),
        &answer_value(&answers.delegations),
        &answer_value(&answers.rewards),
    ).render()
}

} // verus!
