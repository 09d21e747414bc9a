//! Laws of what is asked of the chain and what is made of its answers.
use vstd::prelude::*;

use crate::address;
use crate::chain;
use crate::chain::{Account, Answers, Balance};
use crate::json;
use crate::json::Json;
use crate::laws::formats;
use crate::text;

verus! {

/// An account's number and sequence are the ones that the chain writes: whatever the two numbers,
/// an answer that has them in decimal is read as exactly these.
pub proof fn law_account_is_read(answer: Json, a: u64, s: u64)
    requires
        answer.field("account"@).field("account_number"@) == Json::Text(text::decimal(a as nat)),
        answer.field("account"@).field("sequence"@) == Json::Text(text::decimal(s as nat)),
    ensures
        chain::account_in(answer) == (Account { number: a, sequence: s }),
{
    text::law_number_reads_back(a);
    text::law_number_reads_back(s);
}

/// A number or a sequence that the chain does not write as the text of a number counts as zero.
pub proof fn law_account_without_numbers(answer: Json)
    ensures
        ({
            let account = answer.field("account"@);
            let (number, sequence) = (account.field("account_number"@), account.field("sequence"@));
            &&& !(number is Text) ==> chain::account_in(answer).number == 0
            &&& !(sequence is Text) ==> chain::account_in(answer).sequence == 0
            &&& number matches Json::Text(t) ==> text::number_in(t) is None ==> chain::account_in(
                answer,
            ).number == 0
            &&& sequence matches Json::Text(t) ==> text::number_in(t) is None ==> chain::account_in(
                answer,
            ).sequence == 0
        }),
{
    reveal_strlit("0");
    assert("0"@ =~= text::decimal(0));
    text::law_number_reads_back(0);
}

/// Two accounts are read as the same only if the chain writes the same numbers.
pub proof fn law_accounts_are_told_apart(answer1: Json, a1: u64, s1: u64, answer2: Json, a2: u64, s2: u64)
    requires
        answer1.field("account"@).field("account_number"@) == Json::Text(text::decimal(a1 as nat)),
        answer1.field("account"@).field("sequence"@) == Json::Text(text::decimal(s1 as nat)),
        answer2.field("account"@).field("account_number"@) == Json::Text(text::decimal(a2 as nat)),
        answer2.field("account"@).field("sequence"@) == Json::Text(text::decimal(s2 as nat)),
        chain::account_in(answer1) == chain::account_in(answer2),
    ensures
        a1 == a2,
        s1 == s2,
{
    law_account_is_read(answer1, a1, s1);
    law_account_is_read(answer2, a2, s2);
}

/// The chain is asked at the address that was given, with any number of slashes at its end, and
/// for the account that was given.
pub proof fn law_urls(rest: Seq<char>, slashes: nat, addr: Seq<char>, path: Seq<char>)
    requires
        rest.len() > 0 ==> rest.last() != '/',
    ensures
        ({
            let given = rest + Seq::new(slashes, |i: int| '/');
            &&& chain::url_of(given, path) == rest + path
            &&& chain::balances_url_of(given, addr) == rest + "/cosmos/bank/v1beta1/balances/"@ + addr
            &&& chain::account_url_of(given, addr) == rest + "/cosmos/auth/v1beta1/accounts/"@ + addr
            &&& chain::validators_url_of(given) == rest
                + "/cosmos/staking/v1beta1/validators?pagination.limit=200"@
            &&& chain::delegations_url_of(given, addr) == rest
                + "/cosmos/staking/v1beta1/delegations/"@ + addr
            &&& chain::rewards_url_of(given, addr) == rest
                + "/cosmos/distribution/v1beta1/delegators/"@ + addr + "/rewards"@
        }),
{
    let given = rest + Seq::new(slashes, |i: int| '/');
    formats::law_trailing_is_dropped(rest, '/', slashes);
    assert(chain::balances_url_of(given, addr) =~= rest + "/cosmos/bank/v1beta1/balances/"@ + addr);
    assert(chain::account_url_of(given, addr) =~= rest + "/cosmos/auth/v1beta1/accounts/"@ + addr);
    assert(chain::delegations_url_of(given, addr) =~= rest
        + "/cosmos/staking/v1beta1/delegations/"@ + addr);
    assert(chain::rewards_url_of(given, addr) =~= rest
        + "/cosmos/distribution/v1beta1/delegators/"@ + addr + "/rewards"@);
}

/// An answer that is JSON counts as what it holds; one that is not, or that did not come, counts
/// as an object with no members.
pub proof fn law_answer(body: Seq<char>)
    ensures
        json::json_read(body) matches Ok(v) ==> chain::answer_json(Some(body)) == v,
        json::json_read(body) is Err ==> chain::answer_json(Some(body)) == Json::Object(
            Map::<Seq<char>, Json>::empty(),
        ),
        chain::answer_json(None) == Json::Object(Map::<Seq<char>, Json>::empty()),
{
}

/// The balances that are shown are those that the chain lists, one for one and in its order, each
/// with its amount and its denomination, or `?` for what is no text.
pub proof fn law_balances(answer: Json, coins: Seq<Json>, i: int, b: Balance)
    requires
        answer.field("balances"@) == Json::List(coins),
        0 <= i < coins.len(),
    ensures
        chain::balances_in(answer).len() == coins.len(),
        coins[i].field("amount"@) matches Json::Text(t) ==> chain::balances_in(answer)[i].0 == t,
        coins[i].field("denom"@) matches Json::Text(t) ==> chain::balances_in(answer)[i].1 == t,
        !(coins[i].field("amount"@) is Text) ==> chain::balances_in(answer)[i].0 == "?"@,
        !(coins[i].field("denom"@) is Text) ==> chain::balances_in(answer)[i].1 == "?"@,
        b@.0 == b.amount@ && b@.1 == b.denom@,
{
}

/// Where the chain lists no balances there are none.
pub proof fn law_no_balances(answer: Json)
    requires
        !(answer.field("balances"@) is List),
    ensures
        chain::balances_in(answer).len() == 0,
{
}

/// The item that is found is the first one that has the text under the key.
pub proof fn law_first_with(items: Seq<Json>, key: Seq<char>, value: Seq<char>, k: int)
    requires
        0 <= k < items.len(),
        items[k].field(key) == Json::Text(value),
        forall|i: int| 0 <= i < k ==> (#[trigger] items[i]).field(key) != Json::Text(value),
    ensures
        chain::first_with(items, key, value) == Some(items[k]),
    decreases items.len(),
{
    if k > 0 {
        assert(items[0].field(key) != Json::Text(value));
        let rest = items.drop_first();
        assert forall|i: int| 0 <= i < k - 1 implies (#[trigger] rest[i]).field(key) != Json::Text(
            value,
        ) by {
            assert(rest[i] == items[i + 1]);
        }
        law_first_with(rest, key, value, k - 1);
    }
}

/// Where no item has the text under the key, none is found.
pub proof fn law_none_with(items: Seq<Json>, key: Seq<char>, value: Seq<char>)
    requires
        forall|i: int| 0 <= i < items.len() ==> (#[trigger] items[i]).field(key) != Json::Text(
            value,
        ),
    ensures
        chain::first_with(items, key, value) is None,
    decreases items.len(),
{
    if items.len() > 0 {
        assert(items[0].field(key) != Json::Text(value));
        let rest = items.drop_first();
        assert forall|i: int| 0 <= i < rest.len() implies (#[trigger] rest[i]).field(key)
            != Json::Text(value) by {
            assert(rest[i] == items[i + 1]);
        }
        law_none_with(rest, key, value);
    }
}

/// The balance that is shown is the amount of the first coin in `usqr` that the chain lists, as the
/// chain writes it.
pub proof fn law_balance_shown(answer: Json, coins: Seq<Json>, k: int, amount: Seq<char>)
    requires
        answer.field("balances"@) == Json::List(coins),
        0 <= k < coins.len(),
        coins[k].field("denom"@) == Json::Text("usqr"@),
        forall|i: int| 0 <= i < k ==> (#[trigger] coins[i]).field("denom"@) != Json::Text("usqr"@),
    ensures
        coins[k].field("amount"@) == Json::Text(amount) ==> chain::balance_text(answer) == amount,
        !(coins[k].field("amount"@) is Text) ==> chain::balance_text(answer) == "0"@,
{
    law_first_with(coins, "denom"@, "usqr"@, k);
}

/// The rewards that are shown are what stands before the point of the amount of the first coin in
/// `usqr` that the chain lists, or all of it where it has no point.
pub proof fn law_rewards_shown(
    answer: Json,
    coins: Seq<Json>,
    k: int,
    whole: Seq<char>,
    fraction: Seq<char>,
)
    requires
        answer.field("total"@) == Json::List(coins),
        0 <= k < coins.len(),
        coins[k].field("denom"@) == Json::Text("usqr"@),
        forall|i: int| 0 <= i < k ==> (#[trigger] coins[i]).field("denom"@) != Json::Text("usqr"@),
        forall|i: int| 0 <= i < whole.len() ==> #[trigger] whole[i] != '.',
    ensures
        coins[k].field("amount"@) == Json::Text(whole.push('.') + fraction) ==> chain::rewards_text(
            answer,
        ) == whole,
        coins[k].field("amount"@) == Json::Text(whole) ==> chain::rewards_text(answer) == whole,
        !(coins[k].field("amount"@) is Text) ==> chain::rewards_text(answer) == "0"@,
{
    law_first_with(coins, "denom"@, "usqr"@, k);
    formats::law_before_first(whole, '.', fraction);
}

/// Without a coin in `usqr` nothing is shown but zero.
pub proof fn law_nothing_shown_without_usqr(answer: Json)
    ensures
        (forall|i: int|
            0 <= i < answer.field("balances"@).items().len() ==> (#[trigger] answer.field(
                "balances"@,
            ).items()[i]).field("denom"@) != Json::Text("usqr"@)) ==> chain::balance_text(answer)
            == "0"@,
        (forall|i: int|
            0 <= i < answer.field("total"@).items().len() ==> (#[trigger] answer.field(
                "total"@,
            ).items()[i]).field("denom"@) != Json::Text("usqr"@)) ==> chain::rewards_text(answer)
            == "0"@,
{
    let balances = answer.field("balances"@).items();
    let total = answer.field("total"@).items();
    if forall|i: int|
        0 <= i < balances.len() ==> (#[trigger] balances[i]).field("denom"@) != Json::Text("usqr"@) {
        law_none_with(balances, "denom"@, "usqr"@);
    }
    if forall|i: int|
        0 <= i < total.len() ==> (#[trigger] total[i]).field("denom"@) != Json::Text("usqr"@) {
        law_none_with(total, "denom"@, "usqr"@);
    }
}

/// Whether what is shown of a validator are the members that the chain has for it.
pub open spec fn shows(shown: Json, v: Json) -> bool {
    &&& shown.field("moniker"@) == v.field("description"@).field("moniker"@)
    &&& shown.field("tokens"@) == v.field("tokens"@)
    &&& shown.field("jailed"@) == v.field("jailed"@)
    &&& shown.field("status"@) == v.field("status"@)
    &&& shown.field("commission"@) == v.field("commission"@).field("commission_rates"@).field(
        "rate"@,
    )
}

/// Of each validator that the chain lists the dashboard shows its own moniker, address, tokens,
/// jail, status and commission.
pub proof fn law_validator_shown(v: Json)
    ensures
        shows(chain::validator_json(v), v),
        chain::validator_json(v).field("valoper"@) == v.field("operator_address"@),
{
    reveal_strlit("moniker");
    reveal_strlit("tokens");
    reveal_strlit("jailed");
    reveal_strlit("status");
    reveal_strlit("commission");
    reveal_strlit("valoper");
    reveal_strlit("exists");
    assert("moniker"@.len() == 7);
    assert("tokens"@.len() == 6);
    assert("jailed"@.len() == 6);
    assert("status"@.len() == 6);
    assert("commission"@.len() == 10);
    assert("valoper"@.len() == 7);
    assert("exists"@.len() == 6);
    assert("moniker"@[0] == 'm');
    assert("valoper"@[0] == 'v');
    assert("tokens"@[0] == 't');
    assert("jailed"@[0] == 'j');
    assert("status"@[0] == 's');
    assert("exists"@[0] == 'e');
}

/// Where a validator that the chain lists has the wallet's address, and none before it has, it is
/// the wallet's own, and each of its members is shown as the chain has it.
pub proof fn law_own_validator_shown(list: Seq<Json>, valoper: Seq<char>, k: int)
    requires
        0 <= k < list.len(),
        list[k].field("operator_address"@) == Json::Text(valoper),
        forall|i: int|
            0 <= i < k ==> (#[trigger] list[i]).field("operator_address"@) != Json::Text(valoper),
    ensures
        shows(chain::own_validator_json(list, valoper), list[k]),
        chain::own_validator_json(list, valoper).field("exists"@) == Json::Bool(true),
{
    reveal_strlit("moniker");
    reveal_strlit("tokens");
    reveal_strlit("jailed");
    reveal_strlit("status");
    reveal_strlit("commission");
    reveal_strlit("valoper");
    reveal_strlit("exists");
    assert("moniker"@.len() == 7);
    assert("tokens"@.len() == 6);
    assert("jailed"@.len() == 6);
    assert("status"@.len() == 6);
    assert("commission"@.len() == 10);
    assert("valoper"@.len() == 7);
    assert("exists"@.len() == 6);
    assert("moniker"@[0] == 'm');
    assert("valoper"@[0] == 'v');
    assert("tokens"@[0] == 't');
    assert("jailed"@[0] == 'j');
    assert("status"@[0] == 's');
    assert("exists"@[0] == 'e');
    law_first_with(list, "operator_address"@, valoper, k);
}

/// Where none has it, the wallet operates none.
pub proof fn law_no_own_validator(list: Seq<Json>, valoper: Seq<char>, key: Seq<char>)
    requires
        forall|i: int|
            0 <= i < list.len() ==> (#[trigger] list[i]).field("operator_address"@) != Json::Text(
                valoper,
            ),
    ensures
        chain::own_validator_json(list, valoper).field("exists"@) == Json::Bool(false),
        key != "exists"@ ==> chain::own_validator_json(list, valoper).field(key) == Json::Null,
{
    law_none_with(list, "operator_address"@, valoper);
}

/// Of each delegation the dashboard shows the validator and the amount that the chain has for it.
pub proof fn law_delegation_shown(d: Json)
    ensures
        chain::delegation_json(d).field("valoper"@) == d.field("delegation"@).field(
            "validator_address"@,
        ),
        chain::delegation_json(d).field("amount"@) == d.field("balance"@).field("amount"@),
{
    reveal_strlit("valoper");
    reveal_strlit("amount");
    assert("valoper"@.len() == 7);
    assert("amount"@.len() == 6);
}

/// What the dashboard is sent: under each name what the answers give, for the addresses of the
/// wallet's public key, and one entry for each validator and each delegation, in order.
pub proof fn law_info(
    pubkey: Seq<u8>,
    balances: Json,
    validators: Json,
    delegations: Json,
    rewards: Json,
    i: int,
)
    ensures
        ({
            let info = chain::info_of(pubkey, balances, validators, delegations, rewards);
            let list = validators.field("validators"@).items();
            let delegated = delegations.field("delegation_responses"@).items();
            let (vs, ds) = (info.field("validators"@), info.field("delegations"@));
            &&& info.field("address"@) == Json::Text(address::address_of(pubkey))
            &&& info.field("myvaloper"@) == Json::Text(address::valoper_of(pubkey))
            &&& info.field("balance"@) == Json::Text(chain::balance_text(balances))
            &&& info.field("rewards"@) == Json::Text(chain::rewards_text(rewards))
            &&& vs is List && vs.items().len() == list.len()
            &&& ds is List && ds.items().len() == delegated.len()
            &&& 0 <= i < list.len() ==> shows(vs.items()[i], list[i]) && vs.items()[i].field(
                "valoper"@,
            ) == list[i].field("operator_address"@)
            &&& 0 <= i < delegated.len() ==> ds.items()[i].field("valoper"@) == delegated[i].field(
                "delegation"@,
            ).field("validator_address"@) && ds.items()[i].field("amount"@) == delegated[i].field(
                "balance"@,
            ).field("amount"@)
        }),
{
    reveal_strlit("address");
    reveal_strlit("balance");
    reveal_strlit("rewards");
    reveal_strlit("validators");
    reveal_strlit("delegations");
    reveal_strlit("myvaloper");
    reveal_strlit("myvalidator");
    assert("address"@.len() == 7);
    assert("balance"@.len() == 7);
    assert("rewards"@.len() == 7);
    assert("validators"@.len() == 10);
    assert("delegations"@.len() == 11);
    assert("myvaloper"@.len() == 9);
    assert("myvalidator"@.len() == 11);
    assert("address"@[0] == 'a');
    assert("balance"@[0] == 'b');
    assert("rewards"@[0] == 'r');
    assert("delegations"@[0] == 'd');
    assert("myvalidator"@[0] == 'm');
    let list = validators.field("validators"@).items();
    let delegated = delegations.field("delegation_responses"@).items();
    if 0 <= i < list.len() {
        law_validator_shown(list[i]);
    }
    if 0 <= i < delegated.len() {
        law_delegation_shown(delegated[i]);
    }
}

/// What the dashboard is sent of the wallet's own validator: the first one in the answer that has
/// the wallet's address, each member as the chain has it.
pub proof fn law_info_own_validator(
    pubkey: Seq<u8>,
    balances: Json,
    validators: Json,
    delegations: Json,
    rewards: Json,
    list: Seq<Json>,
    k: int,
)
    requires
        validators.field("validators"@) == Json::List(list),
        0 <= k < list.len(),
        list[k].field("operator_address"@) == Json::Text(address::valoper_of(pubkey)),
        forall|i: int|
            0 <= i < k ==> (#[trigger] list[i]).field("operator_address"@) != Json::Text(
                address::valoper_of(pubkey),
            ),
    ensures
        ({
            let own = chain::info_of(pubkey, balances, validators, delegations, rewards).field(
                "myvalidator"@,
            );
            shows(own, list[k]) && own.field("exists"@) == Json::Bool(true)
        }),
{
    law_own_validator_shown(list, address::valoper_of(pubkey), k);
}

/// The text that the dashboard is sent is that of what the four answers give, each in its place.
pub proof fn law_info_text(pubkey: Seq<u8>, answers: Answers)
    ensures
        chain::info_text(pubkey, answers) == json::json_compact(
            chain::info_of(
                pubkey,
                chain::answer_json(text::opt_view(answers.balances)),
                chain::answer_json(text::opt_view(answers.validators)),
                chain::answer_json(text::opt_view(answers.delegations)),
                chain::answer_json(text::opt_view(answers.rewards)),
            ),
        ),
{
}

/// The dashboard is sent nothing but what it shows.
pub proof fn law_info_members(
    pubkey: Seq<u8>,
    balances: Json,
    validators: Json,
    delegations: Json,
    rewards: Json,
    v: Json,
    d: Json,
    list: Seq<Json>,
    valoper: Seq<char>,
)
    ensures
        chain::info_of(pubkey, balances, validators, delegations, rewards) matches Json::Object(m)
            && m.dom() == set![
            "address"@,
            "balance"@,
            "rewards"@,
            "validators"@,
            "delegations"@,
            "myvaloper"@,
            "myvalidator"@,
        ],
        chain::validator_json(v) matches Json::Object(m) && m.dom() == set![
            "valoper"@,
            "moniker"@,
            "tokens"@,
            "jailed"@,
            "status"@,
            "commission"@,
        ],
        chain::delegation_json(d) matches Json::Object(m) && m.dom() == set![
            "valoper"@,
            "amount"@,
        ],
        chain::own_validator_json(list, valoper) matches Json::Object(m) && m.dom() == (
        if chain::first_with(list, "operator_address"@, valoper) is Some {
            set!["exists"@, "moniker"@, "tokens"@, "jailed"@, "status"@, "commission"@]
        } else {
            set!["exists"@]
        }),
{
}

} // verus!
