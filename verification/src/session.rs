//! One request from its arrival to its reply: what is to be done next, and what comes of it.
use vstd::prelude::*;

use crate::address;
use crate::chain;
use crate::chain::Answers;
use crate::json;
use crate::keyfile;
use crate::keyfile::KeyPair;
use crate::server;
use crate::server::{
    ActionStep, Header, Method, NewStep, Reply, ReplyParts, RestoreStep, Task, TaskParts,
};
use crate::text;
use crate::tx;
use crate::tx::{BroadcastError, Order};
use crate::wallet;

verus! {

/// What the server works with.
pub struct Site {
    /// The session token.
    pub token: String,
    /// The origins that requests may have.
    pub allowed: Vec<String>,
    /// The chain that transactions are signed for.
    pub chain_id: String,
    /// The address of the chain's REST interface.
    pub rest: String,
    /// The dashboard.
    pub html: String,
}

/// How far the work on a request has come.
pub enum State {
    /// The request has not been looked at.
    Start,
    /// The body is being read.
    Body { url: String },
    /// The key file is being read, for what the dashboard shows.
    InfoKey,
    /// The balances are being asked for.
    InfoBalances { pubkey: Vec<u8> },
    /// The validators are being asked for.
    InfoValidators { pubkey: Vec<u8>, balances: Option<String> },
    /// The delegations are being asked for.
    InfoDelegations { pubkey: Vec<u8>, balances: Option<String>, validators: Option<String> },
    /// The rewards are being asked for.
    InfoRewards {
        pubkey: Vec<u8>,
        balances: Option<String>,
        validators: Option<String>,
        delegations: Option<String>,
    },
    /// The key file is being read, to see whether a password opens it.
    UnlockKey { body: String },
    /// A new wallet is being saved.
    NewSave { phrase: String },
    /// A restored wallet is being saved.
    RestoreSave,
    /// The key file is being read, for a transaction.
    ActionKey { body: String, kind: String },
    /// The account is being asked for, for a transaction.
    ActionAccount { keys: KeyPair, order: Order },
    /// A transaction is being sent.
    ActionSend,
    /// The request has its reply.
    Done,
}

/// What happened since the last step.
pub enum Event {
    /// The request arrived.
    Arrived { method: Method, url: String, headers: Vec<Header> },
    /// The body was read.
    Body { text: String },
    /// The key file was read, or there is none.
    Key { data: Option<String> },
    /// The chain answered, or did not.
    Answer { body: Option<String> },
    /// A wallet was saved, with its address; or it was not, and why; or saving failed.
    Saved { saved: Option<Result<String, String>> },
    /// The chain answered to a transaction; or it could not be sent, and why.
    Sent { sent: Result<String, String> },
}

/// What is to be done next.
pub enum Action {
    /// Read the body.
    ReadBody,
    /// Read the key file.
    ReadKey,
    /// Ask the chain.
    Get { url: String },
    /// Save the wallet of a seed under a password.
    Save { seed: [u8; 32], password: String },
    /// Send a request to the chain.
    Post { url: String, body: String },
    /// Send the reply.
    Respond { reply: Reply },
}

/// Whether the request is replied to.
pub open spec fn responds(next: State, action: Action, reply: ReplyParts) -> bool {
    &&& next is Done
    &&& action matches Action::Respond { reply: r }
    &&& r@ == reply
}

/// Whether the chain is asked at an address.
pub open spec fn asks(action: Action, url: Seq<char>) -> bool {
    action matches Action::Get { url: u } && u@ == url
}

/// Whether a request for a new wallet is taken as it should be: it is refused without a
/// password; with one, a seed is drawn and saved under it, and its phrase is kept for the reply,
/// unless the system has no randomness.
pub open spec fn takes_new(body: Seq<char>, next: State, action: Action) -> bool {
    let password = server::password_in(json::read_or_empty(body));
    if password.len() == 0 {
        responds(
            next,
            action,
            server::json_reply_of(200, "{\"ok\":false,\"error\":\"a password is required\"}"@),
        )
    } else {
        ||| responds(next, action, server::internal_error_reply())
        ||| {
            &&& next matches State::NewSave { phrase }
            &&& action matches Action::Save { seed, password: p }
            &&& p@ == password
            &&& wallet::is_phrase_of(phrase@, seed@)
        }
    }
}

/// Whether a request to restore a wallet is taken as it should be.
pub open spec fn takes_restore(body: Seq<char>, next: State, action: Action) -> bool {
    let request = json::read_or_empty(body);
    match server::restore_of(request) {
        Err(e) => responds(next, action, server::json_reply_of(200, e)),
        Ok(seed) => {
            &&& next is RestoreSave
            &&& action matches Action::Save { seed: s, password }
            &&& s@ == seed
            &&& password@ == server::password_in(request)
        },
    }
}

/// Whether the work on a request with its body begins as it should.
pub open spec fn dispatches(
    site: Site,
    method: Method,
    url: Seq<char>,
    body: Seq<char>,
    next: State,
    action: Action,
) -> bool {
    match server::task_of(method, url) {
        TaskParts::Page => responds(
            next,
            action,
            server::page_reply(site.html@, site.token@),
        ),
        TaskParts::Info => next is InfoKey && action is ReadKey,
        TaskParts::Unlock => next matches State::UnlockKey { body: b } && b@ == body
            && action is ReadKey,
        TaskParts::New => takes_new(body, next, action),
        TaskParts::Restore => takes_restore(body, next, action),
        TaskParts::Act { kind } => next matches State::ActionKey { body: b, kind: k } && b@ == body
            && k@ == kind && action is ReadKey,
        TaskParts::NotFound => responds(next, action, server::not_found_reply()),
    }
}

/// Whether a request that arrived is taken as it should be.
pub open spec fn takes_arrival(
    site: Site,
    method: Method,
    url: Seq<char>,
    headers: Seq<(Seq<char>, Seq<char>)>,
    next: State,
    action: Action,
) -> bool {
    if !server::admits(url, headers, site.token@, server::texts_view(site.allowed@)) {
        responds(next, action, server::forbidden_reply())
    } else if method is Post {
        next matches State::Body { url: u } && u@ == url && action is ReadBody
    } else {
        dispatches(site, method, url, ""@, next, action)
    }
}

/// Whether a transaction begins as it should, once the key file was read.
pub open spec fn takes_action_key(
    site: Site,
    body: Seq<char>,
    kind: Seq<char>,
    data: Option<Seq<char>>,
    next: State,
    action: Action,
) -> bool {
    let request = json::read_or_empty(body);
    match keyfile::stored_pubkey(data) {
        Err(_) => responds(next, action, server::internal_error_reply()),
        Ok(pubkey) => match server::order_in(kind, request, pubkey) {
            None => responds(
                next,
                action,
                server::json_reply_of(400, "{\"error\":\"unknown action\"}"@),
            ),
            Some(parts) => match keyfile::opened_file(data, server::password_in(request)) {
                Err(_) => responds(next, action, server::internal_error_reply()),
                Ok(opened) => {
                    &&& next matches State::ActionAccount { keys, order }
                    &&& keys@ == opened
                    &&& order@ == parts
                    &&& asks(
                        action,
                        chain::account_url_of(site.rest@, address::address_of(opened.0)),
                    )
                },
            },
        },
    }
}

/// Whether a transaction goes on as it should, once the chain answered about the account: it is
/// signed with what was answered and sent, unless there is no signature.
pub open spec fn takes_account(
    site: Site,
    keys: KeyPair,
    order: Order,
    answer: Option<Seq<char>>,
    next: State,
    action: Action,
) -> bool {
    match answer {
        None => responds(next, action, server::internal_error_reply()),
        Some(answer) => match json::json_read(answer) {
            Err(_) => responds(next, action, server::internal_error_reply()),
            Ok(v) => {
                ||| {
                    &&& next is ActionSend
                    &&& action matches Action::Post { url, body }
                    &&& url@ == tx::broadcast_url_of(site.rest@)
                    &&& tx::is_request(
                        body@,
                        keys@,
                        order@,
                        site.chain_id@,
                        chain::account_in(v),
                    )
                }
                ||| responds(
                    next,
                    action,
                    server::json_reply_of(
                        200,
                        json::json_compact(server::sent_json(Err(tx::unsigned_text()))),
                    ),
                )
            },
        },
    }
}

/// Whether the reply follows once a wallet was saved, was not, or saving failed.
pub open spec fn takes_saved(
    saved: Option<Result<String, String>>,
    phrase: Option<Seq<char>>,
    next: State,
    action: Action,
) -> bool {
    match saved {
        None => responds(next, action, server::internal_error_reply()),
        Some(r) => responds(
            next,
            action,
            server::json_reply_of(
                200,
                json::json_compact(server::saved_json(text::result_view(r), phrase)),
            ),
        ),
    }
}

/// Whether a state and an action follow a state on an event. An event that does not belong to
/// the state ends the work with a reply that says that it failed.
pub open spec fn follows(
    site: Site,
    state: State,
    event: Event,
    next: State,
    action: Action,
) -> bool {
    match (state, event) {
        (State::Start, Event::Arrived { method, url, headers }) => takes_arrival(
            site,
            method,
            url@,
            server::headers_view(headers@),
            next,
            action,
        ),
        (State::Body { url }, Event::Body { text }) => dispatches(
            site,
            Method::Post,
            url@,
            text@,
            next,
            action,
        ),
        (State::InfoKey, Event::Key { data }) => match keyfile::stored_pubkey(
            text::opt_view(data),
        ) {
            Err(_) => responds(next, action, server::internal_error_reply()),
            Ok(pubkey) => {
                &&& next matches State::InfoBalances { pubkey: p }
                &&& p@ == pubkey
                &&& asks(
                    action,
                    chain::balances_url_of(site.rest@, address::address_of(pubkey)),
                )
            },
        },
        (State::InfoBalances { pubkey }, Event::Answer { body }) => {
            &&& next == (State::InfoValidators { pubkey, balances: body })
            &&& asks(action, chain::validators_url_of(site.rest@))
        },
        (State::InfoValidators { pubkey, balances }, Event::Answer { body }) => {
            &&& next == (State::InfoDelegations { pubkey, balances, validators: body })
            &&& asks(
                action,
                chain::delegations_url_of(site.rest@, address::address_of(pubkey@)),
            )
        },
        (State::InfoDelegations { pubkey, balances, validators }, Event::Answer { body }) => {
            &&& next == (State::InfoRewards { pubkey, balances, validators, delegations: body })
            &&& asks(action, chain::rewards_url_of(site.rest@, address::address_of(pubkey@)))
        },
        (
            State::InfoRewards { pubkey, balances, validators, delegations },
            Event::Answer { body },
        ) => responds(
            next,
            action,
            server::json_reply_of(
                200,
                chain::info_text(
                    pubkey@,
                    (Answers { balances, validators, delegations, rewards: body }),
                ),
            ),
        ),
        (State::UnlockKey { body }, Event::Key { data }) => {
            let password = server::password_in(json::read_or_empty(body@));
            let opens = keyfile::opened_file(text::opt_view(data), password) is Ok;
            responds(
                next,
                action,
                server::json_reply_of(200, server::unlock_body(password, opens)),
            )
        },
        (State::NewSave { phrase }, Event::Saved { saved }) => takes_saved(
            saved,
            Some(phrase@),
            next,
            action,
        ),
        (State::RestoreSave, Event::Saved { saved }) => takes_saved(saved, None, next, action),
        (State::ActionKey { body, kind }, Event::Key { data }) => takes_action_key(
            site,
            body@,
            kind@,
            text::opt_view(data),
            next,
            action,
        ),
        (State::ActionAccount { keys, order }, Event::Answer { body }) => takes_account(
            site,
            keys,
            order,
            text::opt_view(body),
            next,
            action,
        ),
        (State::ActionSend, Event::Sent { sent }) => responds(
            next,
            action,
            server::json_reply_of(
                200,
                json::json_compact(server::sent_json(tx::outcome_of(text::result_view(sent)))),
            ),
        ),
        _ => responds(next, action, server::internal_error_reply()),
    }
}

/// Replies to the request.
fn respond(reply: Reply) -> (r: (State, Action))
    ensures
        responds(r.0, r.1, reply@),
{
    (State::Done, Action::Respond { reply })
}

/// Replies that the work on the request failed.
fn fail() -> (r: (State, Action))
    ensures
        responds(r.0, r.1, server::internal_error_reply()),
{
    respond(server::internal_error())
}

/// Begins the work on a request with its body.
fn dispatch(site: &Site, method: Method, url: &str, body: String) -> (r: (State, Action))
    ensures
        dispatches(*site, method, url@, body@, r.0, r.1),
{
    match server::route(method, url) {
        Task::Page => respond(server::page(site.html.as_str(), site.token.as_str())),
        Task::Info => (State::InfoKey, Action::ReadKey),
        Task::Unlock => (State::UnlockKey { body }, Action::ReadKey),
        Task::New => match server::api_new(body.as_str()) {
            None => fail(),
            Some(NewStep::Answer { reply }) => respond(reply),
            Some(NewStep::Save { password, new }) => (
                State::NewSave { phrase: new.phrase },
                Action::Save { seed: new.seed, password },
            ),
        },
        Task::Restore => match server::api_restore(body.as_str()) {
            RestoreStep::Answer { reply } => respond(reply),
            RestoreStep::Save { password, seed } => (
                State::RestoreSave,
                Action::Save { seed, password },
            ),
        },
        Task::Act { kind } => (State::ActionKey { body, kind }, Action::ReadKey),
        Task::NotFound => respond(server::not_found()),
    }
}

/// Takes a request that arrived.
fn arrive(site: &Site, method: Method, url: String, headers: &Vec<Header>) -> (r: (State, Action))
    ensures
        takes_arrival(*site, method, url@, server::headers_view(headers@), r.0, r.1),
{
    if !server::is_admitted(url.as_str(), headers, site.token.as_str(), &site.allowed) {
        return respond(server::forbidden());
    }
    match method {
        Method::Post => (State::Body { url }, Action::ReadBody),
        _ => dispatch(site, method, url.as_str(), "".to_owned()),
    }
}

/// Asks for the balances, once the key file was read.
fn begin_info(site: &Site, data: &Option<String>) -> (r: (State, Action))
    ensures
        follows(*site, State::InfoKey, (Event::Key { data: *data }), r.0, r.1),
{
    match keyfile::load_pubkey(data) {
        Err(_) => fail(),
        Ok(pubkey) => {
            let addr = address::derive_address(pubkey.as_slice());
            let url = chain::balances_url(site.rest.as_str(), addr.as_str());
            (State::InfoBalances { pubkey }, Action::Get { url })
        },
    }
}

/// Begins a transaction, once the key file was read.
fn begin_action(site: &Site, body: &str, kind: &str, data: &Option<String>) -> (r: (State, Action))
    ensures
        takes_action_key(*site, body@, kind@, text::opt_view(*data), r.0, r.1),
{
    match server::api_action(body, data, kind) {
        Err(_) => fail(),
        Ok(ActionStep::Answer { reply }) => respond(reply),
        Ok(ActionStep::Broadcast { order, password }) => match tx::begin_broadcast(
            data,
            password.as_str(),
            site.rest.as_str(),
        ) {
            Err(_) => fail(),
            Ok(opened) => (
                State::ActionAccount { keys: opened.keys, order },
                Action::Get { url: opened.account_url },
            ),
        },
    }
}

/// Signs a transaction, once the chain answered about the account.
fn sign_action(site: &Site, keys: KeyPair, order: Order, answer: &Option<String>) -> (r: (
    State,
    Action,
))
    ensures
        takes_account(*site, keys, order, text::opt_view(*answer), r.0, r.1),
{
    match tx::broadcast_request(keys, &order, site.chain_id.as_str(), answer) {
        Ok(body) => (
            State::ActionSend,
            Action::Post { url: tx::broadcast_url(site.rest.as_str()), body },
        ),
        Err(BroadcastError::NoSignature { message }) => {
            let outcome = Err(message);
            respond(server::sent_reply(&outcome))
        },
        Err(_) => fail(),
    }
}

/// Replies once a wallet was saved, was not, or saving failed.
fn finish_save(saved: &Option<Result<String, String>>, phrase: &Option<String>) -> (r: (
    State,
    Action,
))
    ensures
        takes_saved(*saved, text::opt_view(*phrase), r.0, r.1),
{
    match saved {
        None => fail(),
        Some(saved) => respond(server::saved_reply(saved, phrase)),
    }
}

/// One step of the work on a request: the state that follows and what is to be done in it.
pub fn step(site: &Site, state: State, event: Event) -> (r: (State, Action))
    ensures
        follows(*site, state, event, r.0, r.1),
{
    match (state, event) {
        (State::Start, Event::Arrived { method, url, headers }) => arrive(
            site,
            method,
            url,
            &headers,
        ),
        (State::Body { url }, Event::Body { text }) => dispatch(
            site,
            Method::Post,
            url.as_str(),
            text,
        ),
        (State::InfoKey, Event::Key { data }) => begin_info(site, &data),
        (State::InfoBalances { pubkey }, Event::Answer { body }) => {
            let url = chain::validators_url(site.rest.as_str());
            (State::InfoValidators { pubkey, balances: body }, Action::Get { url })
        },
        (State::InfoValidators { pubkey, balances }, Event::Answer { body }) => {
            let addr = address::derive_address(pubkey.as_slice());
            let url = chain::delegations_url(site.rest.as_str(), addr.as_str());
            (
                State::InfoDelegations { pubkey, balances, validators: body },
                Action::Get { url },
            )
        },
        (State::InfoDelegations { pubkey, balances, validators }, Event::Answer { body }) => {
            let addr = address::derive_address(pubkey.as_slice());
            let url = chain::rewards_url(site.rest.as_str(), addr.as_str());
            (
                State::InfoRewards { pubkey, balances, validators, delegations: body },
                Action::Get { url },
            )
        },
        (
            State::InfoRewards { pubkey, balances, validators, delegations },
            Event::Answer { body },
        ) => {
            let answers = Answers { balances, validators, delegations, rewards: body };
            respond(server::info_reply(pubkey.as_slice(), &answers))
        },
        (State::UnlockKey { body }, Event::Key { data }) => respond(
            server::api_unlock(body.as_str(), &data),
        ),
        (State::NewSave { phrase }, Event::Saved { saved }) => finish_save(
            &saved,
            &Some(phrase),
        ),
        (State::RestoreSave, Event::Saved { saved }) => finish_save(&saved, &None),
        (State::ActionKey { body, kind }, Event::Key { data }) => begin_action(
            site,
            body.as_str(),
            kind.as_str(),
            &data,
        ),
        (State::ActionAccount { keys, order }, Event::Answer { body }) => sign_action(
            site,
            keys,
            order,
            &body,
        ),
        (State::ActionSend, Event::Sent { sent }) => respond(
            server::sent_reply(&tx::read_outcome(&sent)),
        ),
        (State::ActionAccount { keys, .. }, _) => {
            keys.discard();
            fail()
        },
        _ => fail(),
    }
}

/// How many steps are left at most until a request has its reply.
pub open spec fn steps_left(state: State) -> nat {
    match state {
        State::Start => 7,
        State::Body { .. } => 6,
        State::InfoKey => 5,
        State::InfoBalances { .. } => 4,
        State::InfoValidators { .. } => 3,
        State::InfoDelegations { .. } => 2,
        State::InfoRewards { .. } => 1,
        State::UnlockKey { .. } => 1,
        State::NewSave { .. } => 1,
        State::RestoreSave => 1,
        State::ActionKey { .. } => 3,
        State::ActionAccount { .. } => 2,
        State::ActionSend => 1,
        State::Done => 0,
    }
}

/// Every request gets its one reply: each step comes nearer to it, and the work ends with the
/// step that replies, and with no other.
pub proof fn law_every_request_gets_one_reply(
    site: Site,
    state: State,
    event: Event,
    next: State,
    action: Action,
)
    requires
        follows(site, state, event, next, action),
        !(state is Done),
    ensures
        steps_left(next) < steps_left(state),
        action is Respond <==> next is Done,
{
}

/// Whether states, events and actions are those of a request from its beginning on.
pub open spec fn is_run(
    site: Site,
    states: Seq<State>,
    events: Seq<Event>,
    actions: Seq<Action>,
) -> bool {
    &&& states.len() == events.len() + 1
    &&& actions.len() == events.len()
    &&& states[0] is Start
    &&& forall|i: int|
        0 <= i < events.len() ==> follows(
            site,
            states[i],
            events[i],
            states[i + 1],
            #[trigger] actions[i],
        )
}

/// Whether the work on a request is where nothing but the page can be had.
spec fn is_outside(state: State) -> bool {
    state is Done || (state matches State::Body { url } && !server::is_api(url@))
}

/// A request without the token stays outside.
proof fn lemma_stays_outside(
    site: Site,
    states: Seq<State>,
    events: Seq<Event>,
    actions: Seq<Action>,
    headers: Seq<(Seq<char>, Seq<char>)>,
    i: int,
)
    requires
        is_run(site, states, events, actions),
        0 <= i < events.len(),
        events[0] matches Event::Arrived { headers: h, .. } && headers == server::headers_view(h@),
        !server::token_ok(headers, site.token@),
    ensures
        is_outside(states[i + 1]),
        actions[i] is ReadBody || actions[i] is Respond,
    decreases i,
{
    let allowed = server::texts_view(site.allowed@);
    assert(follows(site, states[i], events[i], states[i + 1], actions[i]));
    if i == 0 {
        match events[0] {
            Event::Arrived { method, url, headers: h } => {
                if server::admits(url@, headers, site.token@, allowed) {
                    server::law_only_page_is_open(method, url@, headers, site.token@, allowed);
                }
            },
            _ => {},
        }
    } else {
        lemma_stays_outside(site, states, events, actions, headers, i - 1);
        match states[i] {
            State::Body { url } => {
                server::law_only_page_is_open(Method::Post, url@, headers, site.token@, allowed);
            },
            _ => {},
        }
    }
}

/// Without the token nothing is touched: whatever follows on a request that does not bring it,
/// the key file is not read, nothing is saved, and the chain is neither asked nor sent anything.
pub proof fn law_without_token_nothing_is_touched(
    site: Site,
    states: Seq<State>,
    events: Seq<Event>,
    actions: Seq<Action>,
    i: int,
)
    requires
        is_run(site, states, events, actions),
        0 <= i < actions.len(),
        events[0] matches Event::Arrived { headers, .. } && !server::token_ok(
            server::headers_view(headers@),
            site.token@,
        ),
    ensures
        actions[i] is ReadBody || actions[i] is Respond,
{
    match events[0] {
        Event::Arrived { headers, .. } => {
            lemma_stays_outside(
                site,
                states,
                events,
                actions,
                server::headers_view(headers@),
                i,
            );
        },
        _ => {},
    }
}

/// With a wrong password nothing is sent: a request for a transaction whose password does not
/// open the wallet is replied to before the chain is asked anything.
pub proof fn law_wrong_password_sends_nothing(
    site: Site,
    body: String,
    kind: String,
    data: Option<String>,
    next: State,
    action: Action,
)
    requires
        follows(
            site,
            (State::ActionKey { body, kind }),
            (Event::Key { data }),
            next,
            action,
        ),
        keyfile::opened_file(
            text::opt_view(data),
            server::password_in(json::read_or_empty(body@)),
        ) is Err,
    ensures
        next is Done,
        action matches Action::Respond { reply } && (reply.status == 500 || reply.status == 400),
{
}

/// What is sent is what was asked for: the transaction that goes out after a request is the
/// order in it, paid by the wallet's own address, signed with the keys that its password opens,
/// for the server's chain and for the account as the chain described it.
pub proof fn law_what_is_sent_was_asked_for(
    site: Site,
    body: String,
    kind: String,
    data: Option<String>,
    answer: String,
    asked: State,
    question: Action,
    next: State,
    url: String,
    sent: String,
)
    requires
        follows(
            site,
            (State::ActionKey { body, kind }),
            (Event::Key { data }),
            asked,
            question,
        ),
        follows(
            site,
            asked,
            (Event::Answer { body: Some(answer) }),
            next,
            (Action::Post { url, body: sent }),
        ),
    ensures
        ({
            let request = json::read_or_empty(body@);
            let file = text::opt_view(data);
            &&& url@ == tx::broadcast_url_of(site.rest@)
            &&& json::json_read(answer@) matches Ok(v)
            &&& keyfile::stored_pubkey(file) matches Ok(pubkey)
            &&& keyfile::opened_file(file, server::password_in(request)) matches Ok(keys)
            &&& server::order_in(kind@, request, pubkey) matches Some(order)
            &&& keys.0 == pubkey
            &&& tx::is_request(sent@, keys, order, site.chain_id@, chain::account_in(v))
        }),
{
}

/// A recovery phrase brings its wallet back: a request to restore with the phrase that came with
/// a new wallet, under any password, saves the seed that the new wallet has.
pub proof fn law_phrase_brings_wallet_back(
    new_body: Seq<char>,
    phrase: String,
    seed: [u8; 32],
    password: String,
    restore_body: Seq<char>,
    next: State,
    action: Action,
)
    requires
        takes_new(
            new_body,
            (State::NewSave { phrase }),
            (Action::Save { seed, password }),
        ),
        server::phrase_in(json::read_or_empty(restore_body)) == phrase@,
        server::password_in(json::read_or_empty(restore_body)).len() > 0,
        takes_restore(restore_body, next, action),
    ensures
        next is RestoreSave,
        action matches Action::Save { seed: s, password: p } && s@ == seed@ && p@
            == server::password_in(json::read_or_empty(restore_body)),
{
}

} // verus!
