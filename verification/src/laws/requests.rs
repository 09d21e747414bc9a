//! Laws of the local web server: who is let in, what is replied, and what is done on the way.
use vstd::prelude::*;

use crate::address;
use crate::chain;
use crate::chain::Answers;
use crate::codec;
use crate::crypto;
use crate::json;
use crate::json::Json;
use crate::keyfile;
use crate::keyfile::SealedWallet;
use crate::laws::formats;
use crate::laws::keys;
use crate::server;
use crate::server::{Header, Method, NewStep, Reply, ReplyParts, RestoreStep, Task, TaskParts};
use crate::session;
use crate::session::{Action, Event, Site, State};
use crate::text;
use crate::tx;
use crate::wallet;

verus! {

/// A header is found by the first name that is the one asked for but for case, and has the value
/// that stands with it.
pub proof fn law_header(headers: Seq<(Seq<char>, Seq<char>)>, name: Seq<char>, k: int)
    requires
        0 <= k < headers.len(),
        text::same_ignoring_case(headers[k].0, name),
        forall|i: int|
            0 <= i < k ==> !text::same_ignoring_case((#[trigger] headers[i]).0, name),
    ensures
        server::header_in(headers, name) == Some(headers[k].1),
    decreases headers.len(),
{
    if k > 0 {
        assert(!text::same_ignoring_case(headers[0].0, name));
        let rest = headers.drop_first();
        assert forall|i: int| 0 <= i < k - 1 implies !text::same_ignoring_case(
            (#[trigger] rest[i]).0,
            name,
        ) by {
            assert(rest[i] == headers[i + 1]);
        }
        law_header(rest, name, k - 1);
    }
}

/// A header that is not there is not found.
pub proof fn law_no_header(headers: Seq<(Seq<char>, Seq<char>)>, name: Seq<char>)
    requires
        forall|i: int|
            0 <= i < headers.len() ==> !text::same_ignoring_case((#[trigger] headers[i]).0, name),
    ensures
        server::header_in(headers, name) is None,
    decreases headers.len(),
{
    if headers.len() > 0 {
        assert(!text::same_ignoring_case(headers[0].0, name));
        let rest = headers.drop_first();
        assert forall|i: int| 0 <= i < rest.len() implies !text::same_ignoring_case(
            (#[trigger] rest[i]).0,
            name,
        ) by {
            assert(rest[i] == headers[i + 1]);
        }
        law_no_header(rest, name);
    }
}

/// The server's own origins are this machine's two names with the port, and no others.
pub proof fn law_origins(port: u16, origin: Seq<char>)
    ensures
        server::origins_of(port).contains(origin) <==> origin == "http://localhost:"@
            + text::decimal(port as nat) || origin == "http://127.0.0.1:"@ + text::decimal(
            port as nat,
        ),
{
    let own = server::origins_of(port);
    assert(own[0] == "http://localhost:"@ + text::decimal(port as nat));
    assert(own[1] == "http://127.0.0.1:"@ + text::decimal(port as nat));
    assert(own.len() == 2);
}

/// Who is let in: anyone to what is not below `/api/`; to what is, whoever brings the token, from
/// an allowed origin or from none.
pub proof fn law_who_is_let_in(
    url: Seq<char>,
    below: Seq<char>,
    headers: Seq<(Seq<char>, Seq<char>)>,
    token: Seq<char>,
    allowed: Seq<Seq<char>>,
)
    ensures
        server::admits("/api/"@ + below, headers, token, allowed) <==> server::header_in(
            headers,
            "X-Sequora-Token"@,
        ) == Some(token) && (server::header_in(headers, "Origin"@) is None || (server::header_in(
            headers,
            "Origin"@,
        ) matches Some(origin) && allowed.contains(origin))),
        (forall|rest: Seq<char>| url != #[trigger] ("/api/"@ + rest)) ==> server::admits(
            url,
            headers,
            token,
            allowed,
        ),
{
    formats::law_begins_with("/api/"@ + below, "/api/"@);
    formats::law_begins_with(url, "/api/"@);
    assert("/api/"@ + below == "/api/"@ + below);
}

/// Of a body at most 64 KiB are read.
pub proof fn law_body_limit()
    ensures
        server::MAX_BODY == 64 * 1024,
{
}

/// A token is 64 hexadecimal digits, whatever white space is around them; no other text is one.
pub proof fn law_token(front: Seq<char>, s: Seq<char>, back: Seq<char>)
    requires
        forall|k: int| 0 <= k < front.len() ==> text::is_white_space(#[trigger] front[k]),
        forall|k: int| 0 <= k < back.len() ==> text::is_white_space(#[trigger] back[k]),
        s.len() > 0 ==> !text::is_white_space(s.first()) && !text::is_white_space(s.last()),
    ensures
        server::token_in(front + s + back) == if s.len() == 64 && (forall|i: int|
            0 <= i < s.len() ==> ('0' <= #[trigger] s[i] <= '9' || 'a' <= s[i] <= 'f' || 'A' <= s[i]
                <= 'F')) {
            Some(s)
        } else {
            None
        },
{
    formats::law_trim_takes_white_space_only(front, s, back);
    assert(codec::all_hex_digits(s) <==> forall|i: int|
        0 <= i < s.len() ==> ('0' <= #[trigger] s[i] <= '9' || 'a' <= s[i] <= 'f' || 'A' <= s[i]
            <= 'F'));
}

/// What is asked for, by method and address.
pub proof fn law_tasks(method: Method, url: Seq<char>)
    ensures
        ({
            let task = server::task_of(method, url);
            let post = method is Post;
            &&& task is Page <==> method is Get && url == "/"@
            &&& task is Info <==> method is Get && url == "/api/info"@
            &&& task is Unlock <==> post && url == "/api/unlock"@
            &&& task is New <==> post && url == "/api/new"@
            &&& task is Restore <==> post && url == "/api/restore"@
            &&& post && url == "/api/send"@ ==> task == (TaskParts::Act { kind: "send"@ })
            &&& post && url == "/api/stake"@ ==> task == (TaskParts::Act { kind: "stake"@ })
            &&& post && url == "/api/claim"@ ==> task == (TaskParts::Act { kind: "claim"@ })
            &&& post && url == "/api/unjail"@ ==> task == (TaskParts::Act { kind: "unjail"@ })
            &&& post && url == "/api/withdraw-commission"@ ==> task == (TaskParts::Act {
                kind: "withdrawcommission"@,
            })
            &&& task is Act ==> post && (url == "/api/send"@ || url == "/api/stake"@ || url
                == "/api/claim"@ || url == "/api/unjail"@ || url == "/api/withdraw-commission"@)
        }),
{
    lemma_urls_apart();
}

/// The addresses that requests are sent to are apart.
proof fn lemma_urls_apart()
    ensures
        "/"@ != "/api/info"@,
        "/api/unlock"@ != "/api/new"@,
        "/api/unlock"@ != "/api/restore"@,
        "/api/unlock"@ != "/api/send"@,
        "/api/unlock"@ != "/api/stake"@,
        "/api/unlock"@ != "/api/claim"@,
        "/api/unlock"@ != "/api/unjail"@,
        "/api/unlock"@ != "/api/withdraw-commission"@,
        "/api/new"@ != "/api/restore"@,
        "/api/new"@ != "/api/send"@,
        "/api/new"@ != "/api/stake"@,
        "/api/new"@ != "/api/claim"@,
        "/api/new"@ != "/api/unjail"@,
        "/api/new"@ != "/api/withdraw-commission"@,
        "/api/restore"@ != "/api/send"@,
        "/api/restore"@ != "/api/stake"@,
        "/api/restore"@ != "/api/claim"@,
        "/api/restore"@ != "/api/unjail"@,
        "/api/restore"@ != "/api/withdraw-commission"@,
        "/api/send"@ != "/api/stake"@,
        "/api/send"@ != "/api/claim"@,
        "/api/send"@ != "/api/unjail"@,
        "/api/send"@ != "/api/withdraw-commission"@,
        "/api/stake"@ != "/api/claim"@,
        "/api/stake"@ != "/api/unjail"@,
        "/api/stake"@ != "/api/withdraw-commission"@,
        "/api/claim"@ != "/api/unjail"@,
        "/api/claim"@ != "/api/withdraw-commission"@,
        "/api/unjail"@ != "/api/withdraw-commission"@,
{
    reveal_strlit("/");
    reveal_strlit("/api/info");
    reveal_strlit("/api/unlock");
    reveal_strlit("/api/new");
    reveal_strlit("/api/restore");
    reveal_strlit("/api/send");
    reveal_strlit("/api/stake");
    reveal_strlit("/api/claim");
    reveal_strlit("/api/unjail");
    reveal_strlit("/api/withdraw-commission");
    assert("/"@.len() == 1);
    assert("/api/info"@.len() == 9);
    assert("/api/unlock"@.len() == 11);
    assert("/api/new"@.len() == 8);
    assert("/api/restore"@.len() == 12);
    assert("/api/send"@.len() == 9);
    assert("/api/stake"@.len() == 10);
    assert("/api/claim"@.len() == 10);
    assert("/api/unjail"@.len() == 11);
    assert("/api/withdraw-commission"@.len() == 24);
    assert("/api/info"@[5] == 'i');
    assert("/api/send"@[5] == 's');
    assert("/api/unlock"@[7] == 'l');
    assert("/api/unjail"@[7] == 'j');
    assert("/api/stake"@[5] == 's');
    assert("/api/claim"@[5] == 'c');
}

/// The kinds of transactions are apart.
proof fn lemma_kinds_apart()
    ensures
        "send"@ != "stake"@,
        "send"@ != "claim"@,
        "send"@ != "unjail"@,
        "send"@ != "withdrawcommission"@,
        "stake"@ != "claim"@,
        "stake"@ != "unjail"@,
        "stake"@ != "withdrawcommission"@,
        "claim"@ != "unjail"@,
        "claim"@ != "withdrawcommission"@,
        "unjail"@ != "withdrawcommission"@,
{
    reveal_strlit("send");
    reveal_strlit("stake");
    reveal_strlit("claim");
    reveal_strlit("unjail");
    reveal_strlit("withdrawcommission");
    assert("send"@.len() == 4);
    assert("stake"@.len() == 5);
    assert("claim"@.len() == 5);
    assert("unjail"@.len() == 6);
    assert("withdrawcommission"@.len() == 18);
    assert("stake"@[0] == 's');
    assert("claim"@[0] == 'c');
}

/// The password in a request is the text under `password`, all of it; there is none where that is
/// no text.
pub proof fn law_password(m: Map<Seq<char>, Json>, p: Seq<char>, request: Json)
    ensures
        m.dom().contains("password"@) && m["password"@] == Json::Text(p) ==> server::password_in(
            Json::Object(m),
        ) == p,
        !(request.field("password"@) is Text) ==> server::password_in(request).len() == 0,
        m.dom().contains("mnemonic"@) && m["mnemonic"@] == Json::Text(p) ==> server::phrase_in(
            Json::Object(m),
        ) == p,
        !(request.field("mnemonic"@) is Text) ==> server::phrase_in(request).len() == 0,
{
    reveal_strlit("");
}

/// A request to unlock is told whether its password, all of it, opens the wallet, or that it has
/// none.
pub proof fn law_unlock(request: Json, data: Option<Seq<char>>, p: Seq<char>)
    requires
        request.field("password"@) == Json::Text(p),
    ensures
        p.len() > 0 && keyfile::is_password(data, p) ==> server::unlock_reply(request, data) == (
        ReplyParts { status: 200, content_type: "application/json"@, body: "{\"ok\":true}"@ }),
        p.len() > 0 && !keyfile::is_password(data, p) ==> server::unlock_reply(request, data) == (
        ReplyParts {
            status: 200,
            content_type: "application/json"@,
            body: "{\"ok\":false,\"error\":\"wrong password\"}"@,
        }),
        p.len() == 0 ==> server::unlock_reply(request, data) == (ReplyParts {
            status: 200,
            content_type: "application/json"@,
            body: "{\"ok\":false,\"error\":\"enter your password\"}"@,
        }),
{
}

/// A request without a password is told to bring one.
pub proof fn law_unlock_without_password(request: Json, data: Option<Seq<char>>)
    requires
        !(request.field("password"@) is Text),
    ensures
        server::unlock_reply(request, data) == (ReplyParts {
            status: 200,
            content_type: "application/json"@,
            body: "{\"ok\":false,\"error\":\"enter your password\"}"@,
        }),
{
    reveal_strlit("");
}

/// A wallet unlocks with the password that it was saved under, whatever password that is.
pub proof fn law_saved_wallet_unlocks(
    w: SealedWallet,
    seed: Seq<u8>,
    p: Seq<char>,
    request: Json,
)
    requires
        wallet::is_sealed(w, seed, p),
        request.field("password"@) == Json::Text(p),
        p.len() > 0,
    ensures
        server::unlock_reply(request, Some(w.data@)).body == "{\"ok\":true}"@,
{
    keys::law_saved_wallet(w, seed, p);
}

/// A new wallet is saved under the whole password of the request, with a phrase that encodes its
/// seed; without a password it is refused.
pub proof fn law_new_wallet(request: Json, p: Seq<char>, r: Option<NewStep>)
    requires
        server::is_new(request, r),
    ensures
        request.field("password"@) == Json::Text(p) && p.len() > 0 ==> (r is None || (r matches Some(
            NewStep::Save { password, new },
        ) && password@ == p && crypto::mnemonic_phrase(new.seed@) == Some(new.phrase@)
            && crypto::mnemonic_entropy(new.phrase@) == Some(new.seed@))),
        !(request.field("password"@) is Text) || request.field("password"@) == Json::Text(
            Seq::empty(),
        ) ==> (r matches Some(NewStep::Answer { reply }) && reply@ == (ReplyParts {
            status: 200,
            content_type: "application/json"@,
            body: "{\"ok\":false,\"error\":\"a password is required\"}"@,
        })),
{
    reveal_strlit("");
}

/// A wallet is restored from exactly what its phrase encodes, white space around it aside, and
/// saved under the whole password of the request.
pub proof fn law_restore(
    request: Json,
    front: Seq<char>,
    phrase: Seq<char>,
    back: Seq<char>,
    p: Seq<char>,
    r: RestoreStep,
)
    requires
        request.field("mnemonic"@) == Json::Text(front + phrase + back),
        request.field("password"@) == Json::Text(p),
        phrase.len() > 0 && p.len() > 0,
        forall|k: int| 0 <= k < front.len() ==> text::is_white_space(#[trigger] front[k]),
        forall|k: int| 0 <= k < back.len() ==> text::is_white_space(#[trigger] back[k]),
        !text::is_white_space(phrase.first()) && !text::is_white_space(phrase.last()),
        server::is_restore(request, r),
    ensures
        ({
            match crypto::mnemonic_entropy(phrase) {
                Some(entropy) => if entropy.len() == 32 {
                    r matches RestoreStep::Save { password, seed } && password@ == p && seed@ == entropy
                } else {
                    r matches RestoreStep::Answer { reply } && reply@ == server::json_reply_of(
                        200,
                        "{\"ok\":false,\"error\":\"expected a 24-word recovery phrase\"}"@,
                    )
                },
                None => r matches RestoreStep::Answer { reply } && reply@ == server::json_reply_of(
                    200,
                    "{\"ok\":false,\"error\":\"invalid recovery phrase — check the words and order\"}"@,
                ),
            }
        }),
{
    formats::law_trim_takes_white_space_only(front, phrase, back);
    keys::law_phrase(front, phrase, back);
}

/// Whether a request lacks a text under a name: there is none, or it is nothing but white space.
pub open spec fn lacks(request: Json, name: Seq<char>) -> bool {
    request.field(name) matches Json::Text(s) ==> forall|k: int|
        0 <= k < s.len() ==> text::is_white_space(#[trigger] s[k])
}

/// Without a phrase or without a password nothing is restored.
pub proof fn law_restore_needs_both(request: Json, r: RestoreStep)
    requires
        server::is_restore(request, r),
        lacks(request, "mnemonic"@) || !(request.field("password"@) is Text)
            || request.field("password"@) == Json::Text(Seq::empty()),
    ensures
        r matches RestoreStep::Answer { reply } && reply@ == (ReplyParts {
            status: 200,
            content_type: "application/json"@,
            body: "{\"ok\":false,\"error\":\"recovery phrase and a new password are both required\"}"@,
        }),
{
    lemma_lacking(request);
}

/// A phrase that a request lacks is empty once white space is taken off.
proof fn lemma_lacking(request: Json)
    ensures
        lacks(request, "mnemonic"@) ==> text::trimmed(server::phrase_in(request)).len() == 0,
        !(request.field("password"@) is Text) ==> server::password_in(request).len() == 0,
{
    reveal_strlit("");
    if lacks(request, "mnemonic"@) {
        let (s, none) = (server::phrase_in(request), Seq::<char>::empty());
        formats::law_trim_takes_white_space_only(s, none, none);
        assert(s + none + none =~= s);
    }
}

/// The reply once a wallet was saved has its address, and the phrase if it is a new one; or why it
/// was not.
pub proof fn law_saved_reply(addr: Seq<char>, phrase: Seq<char>, e: Seq<char>, o: Option<Seq<char>>)
    ensures
        ({
            let new = server::saved_json(Ok(addr), Some(phrase));
            let old = server::saved_json(Ok(addr), None);
            let refused = server::saved_json(Err(e), o);
            &&& new.field("ok"@) == Json::Bool(true) && old.field("ok"@) == Json::Bool(true)
            &&& new.field("address"@) == Json::Text(addr) && old.field("address"@) == Json::Text(addr)
            &&& new.field("mnemonic"@) == Json::Text(phrase)
            &&& old.field("mnemonic"@) == Json::Null && refused.field("mnemonic"@) == Json::Null
            &&& refused.field("ok"@) == Json::Bool(false)
            &&& refused.field("error"@) == Json::Text(e)
            &&& new matches Json::Object(m) && m.dom() == set!["ok"@, "address"@, "mnemonic"@]
            &&& old matches Json::Object(m) && m.dom() == set!["ok"@, "address"@]
            &&& refused matches Json::Object(m) && m.dom() == set!["ok"@, "error"@]
        }),
{
    reveal_strlit("ok");
    reveal_strlit("address");
    reveal_strlit("mnemonic");
    reveal_strlit("error");
    assert("ok"@.len() == 2);
    assert("address"@.len() == 7);
    assert("mnemonic"@.len() == 8);
    assert("error"@.len() == 5);
}

/// The reply once a transaction was sent has the code, the hash and the log, or the error.
pub proof fn law_sent_reply(receipt: tx::ReceiptParts, e: Seq<char>)
    ensures
        ({
            let sent = server::sent_json(Ok(receipt));
            &&& sent.field("code"@) == Json::Integer(receipt.code as int)
            &&& sent.field("txhash"@) == Json::Text(receipt.txhash)
            &&& sent.field("log"@) == Json::Text(receipt.log)
            &&& sent.field("error"@) == Json::Null
            &&& sent matches Json::Object(m) && m.dom() == set!["code"@, "txhash"@, "log"@]
            &&& server::sent_json(Err(e)).field("error"@) == Json::Text(e)
            &&& server::sent_json(Err(e)) matches Json::Object(m) && m.dom() == set!["error"@]
        }),
{
    reveal_strlit("code");
    reveal_strlit("txhash");
    reveal_strlit("log");
    reveal_strlit("error");
    assert("code"@.len() == 4);
    assert("txhash"@.len() == 6);
    assert("log"@.len() == 3);
    assert("error"@.len() == 5);
}

/// Whether a text is the one that a request has under a name, all of it, or the one that stands in
/// for it where the request has none.
pub open spec fn is_given(request: Json, name: Seq<char>, otherwise: Seq<char>, s: Seq<char>) -> bool {
    match request.field(name) {
        Json::Text(t) => s == t,
        _ => s == otherwise,
    }
}

/// What a request orders, by its kind: the recipient or the validator and the amount are the texts
/// in the request, all of them, nothing and zero where it has none, and who pays or acts is the
/// wallet.
pub proof fn law_order(
    request: Json,
    pubkey: Seq<u8>,
    to: Seq<char>,
    valoper: Seq<char>,
    amount: Seq<char>,
    kind: Seq<char>,
)
    requires
        is_given(request, "to"@, ""@, to),
        is_given(request, "valoper"@, ""@, valoper),
        is_given(request, "amount"@, "0"@, amount),
    ensures
        ({
            let from = address::address_of(pubkey);
            let own = address::valoper_of(pubkey);
            &&& server::order_in("send"@, request, pubkey) == Some(tx::send_parts(from, to, amount))
            &&& server::order_in("stake"@, request, pubkey) == Some(
                tx::stake_parts(from, valoper, amount),
            )
            &&& server::order_in("claim"@, request, pubkey) == Some(tx::claim_parts(from, valoper))
            &&& server::order_in("unjail"@, request, pubkey) == Some(tx::unjail_parts(own))
            &&& server::order_in("withdrawcommission"@, request, pubkey) == Some(
                tx::withdraw_commission_parts(own),
            )
            &&& kind != "send"@ && kind != "stake"@ && kind != "claim"@ && kind != "unjail"@ && kind
                != "withdrawcommission"@ ==> server::order_in(kind, request, pubkey) is None
        }),
{
    lemma_kinds_apart();
}

/// The replies that are always the same.
pub proof fn law_fixed_replies(status: u16, body: Seq<char>)
    ensures
        server::json_reply_of(status, body) == (ReplyParts {
            status,
            content_type: "application/json"@,
            body,
        }),
        server::forbidden_reply() == (ReplyParts {
            status: 403,
            content_type: "application/json"@,
            body: "{\"error\":\"forbidden\"}"@,
        }),
        server::internal_error_reply() == (ReplyParts {
            status: 500,
            content_type: "application/json"@,
            body: "{\"error\":\"wrong password or internal error\"}"@,
        }),
        server::not_found_reply() == (ReplyParts {
            status: 404,
            content_type: "text/plain"@,
            body: "not found"@,
        }),
{
}

/// The page is the dashboard with the token put in for each place held for it.
pub proof fn law_page(head: Seq<char>, tail: Seq<char>, token: Seq<char>)
    requires
        forall|i: int|
            0 <= i < head.len() ==> !text::begins_with(
                #[trigger] (head + "__CSRF_TOKEN__"@ + tail).skip(i),
                "__CSRF_TOKEN__"@,
            ),
        forall|i: int|
            0 <= i < tail.len() ==> !text::begins_with(#[trigger] tail.skip(i), "__CSRF_TOKEN__"@),
    ensures
        server::page_reply(head + "__CSRF_TOKEN__"@ + tail, token) == (ReplyParts {
            status: 200,
            content_type: "text/html"@,
            body: head + token + tail,
        }),
{
    reveal_strlit("__CSRF_TOKEN__");
    formats::law_replaced_step(head, "__CSRF_TOKEN__"@, tail, token);
    formats::law_replaced_without_occurrence(tail, "__CSRF_TOKEN__"@, token);
}

/// Every reply names its type; every one but that to a request that was not let in is not to be
/// stored and says what its page may load.
pub proof fn law_reply_headers(reply: ReplyParts)
    ensures
        server::headers_of(reply).len() > 0,
        server::headers_of(reply)[0] == ("Content-Type"@, reply.content_type),
        reply.status == 403 ==> server::headers_of(reply).len() == 1,
        reply.status != 403 ==> server::headers_of(reply).len() == 3 && server::headers_of(reply)[1] == (
            "Cache-Control"@,
            "no-store, must-revalidate"@,
        ) && server::headers_of(reply)[2] == (
            "Content-Security-Policy"@,
            "default-src 'self'; script-src 'self' 'unsafe-inline'; style-src 'self' 'unsafe-inline'; connect-src 'self'; img-src 'self' data:"@,
        ),
{
}

/// Headers, tasks, replies and lists of them hold what they hold.
pub proof fn law_server_views(
    h: Header,
    r: Reply,
    hs: Seq<Header>,
    ts: Seq<String>,
    t: Task,
    i: int,
)
    ensures
        h@ == (h.name@, h.value@),
        r@ == (ReplyParts { status: r.status, content_type: r.content_type@, body: r.body@ }),
        server::headers_view(hs).len() == hs.len(),
        0 <= i < hs.len() ==> server::headers_view(hs)[i] == hs[i]@,
        server::texts_view(ts).len() == ts.len(),
        0 <= i < ts.len() ==> server::texts_view(ts)[i] == ts[i]@,
        t is Page <==> t@ is Page,
        t is Info <==> t@ is Info,
        t is Unlock <==> t@ is Unlock,
        t is New <==> t@ is New,
        t is Restore <==> t@ is Restore,
        t is NotFound <==> t@ is NotFound,
        t matches Task::Act { kind } ==> t@ == (TaskParts::Act { kind: kind@ }),
{
}

/// A request that is not let in is answered so, and nothing follows; one that is let in has its body
/// read if it is sent by `POST`.
pub proof fn law_arrival(
    site: Site,
    method: Method,
    url: String,
    headers: Vec<Header>,
    next: State,
    action: Action,
)
    requires
        session::follows(
            site,
            State::Start,
            (Event::Arrived { method, url, headers }),
            next,
            action,
        ),
    ensures
        ({
            let let_in = server::admits(
                url@,
                server::headers_view(headers@),
                site.token@,
                server::texts_view(site.allowed@),
            );
            &&& !let_in ==> next is Done && (action matches Action::Respond { reply } && reply@ == (
            ReplyParts {
                status: 403,
                content_type: "application/json"@,
                body: "{\"error\":\"forbidden\"}"@,
            }))
            &&& let_in && method is Post ==> action is ReadBody && (next matches State::Body { url: u }
                && u@ == url@)
            &&& let_in && method is Get && url@ == "/"@ ==> next is Done && (action
                matches Action::Respond { reply } && reply@ == server::page_reply(
                site.html@,
                site.token@,
            ))
            &&& let_in && method is Get && url@ == "/api/info"@ ==> next is InfoKey
                && action is ReadKey
            &&& let_in && !(method is Post) && !(method is Get && (url@ == "/"@ || url@
                == "/api/info"@)) ==> next is Done && (action matches Action::Respond { reply }
                && reply@.status == 404 && reply@.body == "not found"@)
        }),
{
    law_tasks(method, url@);
}

/// What the dashboard is told: the key file is read, the chain is asked for the balances, the
/// validators, the delegations and the rewards of the wallet, and the reply is made of what it
/// answered, each in its place.
pub proof fn law_info_run(
    site: Site,
    data: Option<String>,
    pubkey: Seq<u8>,
    balances: Option<String>,
    validators: Option<String>,
    delegations: Option<String>,
    rewards: Option<String>,
    s1: State,
    a1: Action,
    s2: State,
    a2: Action,
    s3: State,
    a3: Action,
    s4: State,
    a4: Action,
    s5: State,
    a5: Action,
)
    requires
        keyfile::stored_pubkey(text::opt_view(data)) == Ok::<Seq<u8>, keyfile::KeyError>(pubkey),
        session::follows(site, State::InfoKey, (Event::Key { data }), s1, a1),
        session::follows(site, s1, (Event::Answer { body: balances }), s2, a2),
        session::follows(site, s2, (Event::Answer { body: validators }), s3, a3),
        session::follows(site, s3, (Event::Answer { body: delegations }), s4, a4),
        session::follows(site, s4, (Event::Answer { body: rewards }), s5, a5),
    ensures
        ({
            let addr = address::address_of(pubkey);
            let rest = site.rest@;
            &&& a1 matches Action::Get { url } && url@ == chain::balances_url_of(rest, addr)
            &&& a2 matches Action::Get { url } && url@ == chain::validators_url_of(rest)
            &&& a3 matches Action::Get { url } && url@ == chain::delegations_url_of(rest, addr)
            &&& a4 matches Action::Get { url } && url@ == chain::rewards_url_of(rest, addr)
            &&& s5 is Done
            &&& a5 matches Action::Respond { reply } && reply@ == (ReplyParts {
                status: 200,
                content_type: "application/json"@,
                body: chain::info_text(
                    pubkey,
                    (Answers { balances, validators, delegations, rewards }),
                ),
            })
        }),
{
}

/// Unlocking: the key file is read, and the reply says whether the whole password in the body opens
/// it.
pub proof fn law_unlock_run(
    site: Site,
    url: String,
    body: String,
    p: Seq<char>,
    data: Option<String>,
    s1: State,
    a1: Action,
    s2: State,
    a2: Action,
)
    requires
        url@ == "/api/unlock"@,
        json::read_or_empty(body@).field("password"@) == Json::Text(p),
        p.len() > 0,
        session::follows(site, (State::Body { url }), (Event::Body { text: body }), s1, a1),
        session::follows(site, s1, (Event::Key { data }), s2, a2),
    ensures
        a1 is ReadKey,
        s2 is Done,
        a2 matches Action::Respond { reply } && reply@ == server::json_reply_of(
            200,
            if keyfile::is_password(text::opt_view(data), p) {
                "{\"ok\":true}"@
            } else {
                "{\"ok\":false,\"error\":\"wrong password\"}"@
            },
        ),
{
    law_tasks(Method::Post, url@);
    law_unlock(json::read_or_empty(body@), text::opt_view(data), p);
}

/// A new wallet: with a password, a seed is saved under it, and once it was, the reply has the
/// address and the phrase that encodes the seed.
pub proof fn law_new_run(
    site: Site,
    url: String,
    body: String,
    p: Seq<char>,
    addr: String,
    s1: State,
    a1: Action,
    s2: State,
    a2: Action,
)
    requires
        url@ == "/api/new"@,
        json::read_or_empty(body@).field("password"@) == Json::Text(p),
        p.len() > 0,
        session::follows(site, (State::Body { url }), (Event::Body { text: body }), s1, a1),
        a1 is Save,
        session::follows(site, s1, (Event::Saved { saved: Some(Ok(addr)) }), s2, a2),
    ensures
        ({
            &&& a1 matches Action::Save { seed, password }
            &&& password@ == p
            &&& a2 matches Action::Respond { reply }
            &&& crypto::mnemonic_phrase(seed@) matches Some(phrase)
            &&& crypto::mnemonic_entropy(phrase) == Some(seed@)
            &&& reply@ == server::json_reply_of(
                200,
                json::json_compact(server::saved_json(Ok(addr@), Some(phrase))),
            )
        }),
{
    law_tasks(Method::Post, url@);
}

/// Restoring: what the phrase encodes is saved under the whole password, and the reply has the
/// address.
pub proof fn law_restore_run(
    site: Site,
    url: String,
    body: String,
    front: Seq<char>,
    phrase: Seq<char>,
    back: Seq<char>,
    p: Seq<char>,
    seed: Seq<u8>,
    addr: String,
    s1: State,
    a1: Action,
    s2: State,
    a2: Action,
)
    requires
        url@ == "/api/restore"@,
        json::read_or_empty(body@).field("mnemonic"@) == Json::Text(front + phrase + back),
        json::read_or_empty(body@).field("password"@) == Json::Text(p),
        phrase.len() > 0 && p.len() > 0,
        forall|k: int| 0 <= k < front.len() ==> text::is_white_space(#[trigger] front[k]),
        forall|k: int| 0 <= k < back.len() ==> text::is_white_space(#[trigger] back[k]),
        !text::is_white_space(phrase.first()) && !text::is_white_space(phrase.last()),
        crypto::mnemonic_entropy(phrase) == Some(seed),
        seed.len() == 32,
        session::follows(site, (State::Body { url }), (Event::Body { text: body }), s1, a1),
        session::follows(site, s1, (Event::Saved { saved: Some(Ok(addr)) }), s2, a2),
    ensures
        a1 matches Action::Save { seed: s, password } && s@ == seed && password@ == p,
        a2 matches Action::Respond { reply } && reply@ == server::json_reply_of(
            200,
            json::json_compact(server::saved_json(Ok(addr@), None)),
        ),
{
    law_tasks(Method::Post, url@);
    formats::law_trim_takes_white_space_only(front, phrase, back);
    keys::law_phrase(front, phrase, back);
}

/// A transaction begins with the key file for the kind that the address names, with the body as it
/// came; once it was sent, the reply is made of what the chain answered.
pub proof fn law_action_run(
    site: Site,
    url: String,
    body: String,
    s1: State,
    a1: Action,
    sent: Result<String, String>,
    s2: State,
    a2: Action,
)
    requires
        session::follows(site, (State::Body { url }), (Event::Body { text: body }), s1, a1),
        session::follows(site, State::ActionSend, (Event::Sent { sent }), s2, a2),
    ensures
        ({
            let begins = |kind: Seq<char>|
                a1 is ReadKey && (s1 matches State::ActionKey { body: b, kind: k } && b@ == body@ && k@
                    == kind);
            &&& url@ == "/api/send"@ ==> begins("send"@)
            &&& url@ == "/api/stake"@ ==> begins("stake"@)
            &&& url@ == "/api/claim"@ ==> begins("claim"@)
            &&& url@ == "/api/unjail"@ ==> begins("unjail"@)
            &&& url@ == "/api/withdraw-commission"@ ==> begins("withdrawcommission"@)
        }),
        s2 is Done,
        a2 matches Action::Respond { reply } && reply@ == (ReplyParts {
            status: 200,
            content_type: "application/json"@,
            body: json::json_compact(
                server::sent_json(tx::outcome_of(text::result_view(sent))),
            ),
        }),
{
    law_tasks(Method::Post, url@);
}

/// With the right password, and an order in the request, the account of the wallet is asked for with
/// the keys that the password opens; with the answer, the order is sent, or it is said why it could
/// not be signed.
pub proof fn law_signing_run(
    site: Site,
    body: String,
    kind: String,
    data: Option<String>,
    p: Seq<char>,
    pubkey: Seq<u8>,
    keys: (Seq<u8>, Seq<u8>),
    parts: tx::OrderParts,
    answer: String,
    v: Json,
    s1: State,
    a1: Action,
    s2: State,
    a2: Action,
)
    requires
        json::read_or_empty(body@).field("password"@) == Json::Text(p),
        keyfile::stored_pubkey(text::opt_view(data)) == Ok::<Seq<u8>, keyfile::KeyError>(pubkey),
        keyfile::opened_file(text::opt_view(data), p) == Ok::<
            (Seq<u8>, Seq<u8>),
            keyfile::KeyError,
        >(keys),
        server::order_in(kind@, json::read_or_empty(body@), pubkey) == Some(parts),
        json::json_read(answer@) == Ok::<Json, Seq<char>>(v),
        session::follows(site, (State::ActionKey { body, kind }), (Event::Key { data }), s1, a1),
        session::follows(site, s1, (Event::Answer { body: Some(answer) }), s2, a2),
    ensures
        a1 matches Action::Get { url } && url@ == chain::account_url_of(
            site.rest@,
            address::address_of(keys.0),
        ),
        (a2 matches Action::Post { url, body: sent } && s2 is ActionSend && url@
            == tx::broadcast_url_of(site.rest@) && tx::is_request(
            sent@,
            keys,
            parts,
            site.chain_id@,
            chain::account_in(v),
        )) || (a2 matches Action::Respond { reply } && s2 is Done && reply@
            == server::json_reply_of(
            200,
            json::json_compact(server::sent_json(Err(tx::unsigned_text()))),
        )),
{
}

/// Whether a request is answered as one that failed.
pub open spec fn fails(next: State, action: Action) -> bool {
    &&& next is Done
    &&& action matches Action::Respond { reply }
    &&& reply@ == (ReplyParts {
        status: 500,
        content_type: "application/json"@,
        body: "{\"error\":\"wrong password or internal error\"}"@,
    })
}

/// What goes wrong on the way is answered as a failure: no public key in the key file, a password
/// that does not open it, no answer about the account or one that is no JSON, a wallet that could
/// not be saved.
pub proof fn law_failures(
    site: Site,
    body: String,
    kind: String,
    data: Option<String>,
    phrase: String,
    keys: keyfile::KeyPair,
    order: tx::Order,
    answer: Option<String>,
    next: State,
    action: Action,
)
    ensures
        ({
            let file = text::opt_view(data);
            let request = json::read_or_empty(body@);
            let key = Event::Key { data };
            let acting = State::ActionKey { body, kind };
            let asking = State::ActionAccount { keys, order };
            let unsaved = Event::Saved { saved: None };
            &&& keyfile::stored_pubkey(file) is Err && session::follows(
                site,
                State::InfoKey,
                key,
                next,
                action,
            ) ==> fails(next, action)
            &&& keyfile::stored_pubkey(file) is Err && session::follows(
                site,
                acting,
                key,
                next,
                action,
            ) ==> fails(next, action)
            &&& keyfile::stored_pubkey(file) matches Ok(pubkey) ==> server::order_in(
                kind@,
                request,
                pubkey,
            ) is Some && keyfile::opened_file(file, server::password_in(request)) is Err
                && session::follows(site, acting, key, next, action) ==> fails(next, action)
            &&& (answer matches Some(a) ==> json::json_read(a@) is Err) && session::follows(
                site,
                asking,
                (Event::Answer { body: answer }),
                next,
                action,
            ) ==> fails(next, action)
            &&& session::follows(site, (State::NewSave { phrase }), unsaved, next, action)
                ==> fails(next, action)
            &&& session::follows(site, State::RestoreSave, unsaved, next, action) ==> fails(
                next,
                action,
            )
        }),
{
}

/// A request for a transaction of a kind that there is not is told so.
pub proof fn law_unknown_action(
    site: Site,
    body: String,
    kind: String,
    data: Option<String>,
    pubkey: Seq<u8>,
    next: State,
    action: Action,
)
    requires
        keyfile::stored_pubkey(text::opt_view(data)) == Ok::<Seq<u8>, keyfile::KeyError>(pubkey),
        kind@ != "send"@ && kind@ != "stake"@ && kind@ != "claim"@ && kind@ != "unjail"@ && kind@
            != "withdrawcommission"@,
        session::follows(site, (State::ActionKey { body, kind }), (Event::Key { data }), next, action),
    ensures
        next is Done,
        action matches Action::Respond { reply } && reply@ == (ReplyParts {
            status: 400,
            content_type: "application/json"@,
            body: "{\"error\":\"unknown action\"}"@,
        }),
{
}

/// A wallet that was not saved is answered with the reason, and with nothing of its phrase.
pub proof fn law_unsaved(
    site: Site,
    phrase: String,
    e: String,
    state: State,
    next: State,
    action: Action,
)
    requires
        state == (State::NewSave { phrase }) || state is RestoreSave,
        session::follows(site, state, (Event::Saved { saved: Some(Err(e)) }), next, action),
    ensures
        next is Done,
        action matches Action::Respond { reply } && reply@ == server::json_reply_of(
            200,
            json::json_compact(
                Json::Object(map!["ok"@ => Json::Bool(false), "error"@ => Json::Text(e@)]),
            ),
        ),
{
    let m = map!["ok"@ => Json::Bool(false), "error"@ => Json::Text(e@)];
    let n = Map::<Seq<char>, Json>::empty().insert("ok"@, Json::Bool(false)).insert(
        "error"@,
        Json::Text(e@),
    );
    assert(m =~= n);
}

/// A request to unlock, to make or to restore a wallet without a password is told so, and one for a
/// new wallet that is not taken up failed.
pub proof fn law_runs_need_password(
    site: Site,
    url: String,
    body: String,
    data: Option<String>,
    next: State,
    action: Action,
)
    ensures
        ({
            let begins = session::follows(
                site,
                (State::Body { url }),
                (Event::Body { text: body }),
                next,
                action,
            );
            let request = json::read_or_empty(body@);
            let given = request.field("password"@);
            let none = !(given matches Json::Text(p) && p.len() > 0);
            let told = |what: Seq<char>|
                next is Done && (action matches Action::Respond { reply } && reply@
                    == server::json_reply_of(200, what));
            &&& none && session::follows(
                site,
                (State::UnlockKey { body }),
                (Event::Key { data }),
                next,
                action,
            ) ==> told("{\"ok\":false,\"error\":\"enter your password\"}"@)
            &&& begins && none && url@ == "/api/new"@ ==> told(
                "{\"ok\":false,\"error\":\"a password is required\"}"@,
            )
            &&& begins && !none && url@ == "/api/new"@ && !(action is Save) ==> fails(next, action)
            &&& begins && (none || lacks(request, "mnemonic"@)) && url@ == "/api/restore"@ ==> told(
                "{\"ok\":false,\"error\":\"recovery phrase and a new password are both required\"}"@,
            )
        }),
{
    law_tasks(Method::Post, url@);
    lemma_lacking(json::read_or_empty(body@));
}

/// Restoring from a phrase that encodes no seed: the request is told why.
pub proof fn law_restore_refused(
    site: Site,
    url: String,
    body: String,
    front: Seq<char>,
    phrase: Seq<char>,
    back: Seq<char>,
    p: Seq<char>,
    next: State,
    action: Action,
)
    requires
        url@ == "/api/restore"@,
        json::read_or_empty(body@).field("mnemonic"@) == Json::Text(front + phrase + back),
        json::read_or_empty(body@).field("password"@) == Json::Text(p),
        phrase.len() > 0 && p.len() > 0,
        forall|k: int| 0 <= k < front.len() ==> text::is_white_space(#[trigger] front[k]),
        forall|k: int| 0 <= k < back.len() ==> text::is_white_space(#[trigger] back[k]),
        !text::is_white_space(phrase.first()) && !text::is_white_space(phrase.last()),
        match crypto::mnemonic_entropy(phrase) {
            Some(entropy) => entropy.len() != 32,
            None => true,
        },
        session::follows(site, (State::Body { url }), (Event::Body { text: body }), next, action),
    ensures
        next is Done,
        action matches Action::Respond { reply } && reply@ == server::json_reply_of(
            200,
            if crypto::mnemonic_entropy(phrase) is Some {
                "{\"ok\":false,\"error\":\"expected a 24-word recovery phrase\"}"@
            } else {
                "{\"ok\":false,\"error\":\"invalid recovery phrase — check the words and order\"}"@
            },
        ),
{
    law_tasks(Method::Post, url@);
    formats::law_trim_takes_white_space_only(front, phrase, back);
    keys::law_phrase(front, phrase, back);
}

/// Posting to an address where there is nothing to post to is answered so.
pub proof fn law_nothing_there(site: Site, url: String, body: String, next: State, action: Action)
    requires
        server::task_of(Method::Post, url@) is NotFound,
        session::follows(site, (State::Body { url }), (Event::Body { text: body }), next, action),
    ensures
        next is Done,
        action matches Action::Respond { reply } && reply@ == (ReplyParts {
            status: 404,
            content_type: "text/plain"@,
            body: "not found"@,
        }),
{
}

/// An event that does not belong to the state fails the request.
pub proof fn law_misfits(site: Site, state: State, event: Event, next: State, action: Action)
    requires
        session::follows(site, state, event, next, action),
        match state {
            State::Start => !(event is Arrived),
            State::Body { .. } => !(event is Body),
            State::InfoKey => !(event is Key),
            State::UnlockKey { .. } => !(event is Key),
            State::ActionKey { .. } => !(event is Key),
            State::NewSave { .. } => !(event is Saved),
            State::RestoreSave => !(event is Saved),
            State::ActionSend => !(event is Sent),
            State::Done => true,
            _ => !(event is Answer),
        },
    ensures
        fails(next, action),
{
}

} // verus!
