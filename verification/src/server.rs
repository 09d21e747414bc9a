//! The local web server: who is let in, what a request asks for, and what is replied.
use vstd::prelude::*;

use crate::address;
use crate::chain;
use crate::chain::Answers;
use crate::codec;
use crate::crypto;
use crate::json;
use crate::json::{Json, JsonValue};
use crate::keyfile;
use crate::keyfile::KeyError;
use crate::text;
use crate::tx;
use crate::tx::{Order, OrderParts, Receipt, ReceiptParts};
use crate::wallet;
use crate::wallet::{NewSeed, PhraseError};

verus! {

/// How many bytes of a request's body are read.
pub const MAX_BODY: u64 = 65_536;

/// Length of a session token, in characters.
pub const TOKEN_LEN: usize = 64;

/// Whether two texts are equal. Where they are equally long, every byte is looked at, whatever
/// was found before.
pub fn ct_eq(a: &str, b: &str) -> (r: bool)
    ensures
        r == (a@ == b@),
{
    let (x, y) = (a.as_bytes(), b.as_bytes());
    if x.len() != y.len() {
        return false;
    }
    let mut diff: u8 = 0;
    let mut i: usize = 0;
    while i < x.len()
        invariant
            x@.len() == y@.len(),
            i <= x@.len(),
            (diff == 0) == (forall|k: int| 0 <= k < i ==> x@[k] == y@[k]),
        decreases x@.len() - i,
    {
        let (p, q): (u8, u8) = (x[i], y[i]);
        assert((diff | (p ^ q) == 0) == (diff == 0 && p == q)) by (bit_vector);
        diff = diff | (p ^ q);
        i = i + 1;
    }
    proof {
        if diff == 0 {
            assert(x@ =~= y@);
            text::lemma_utf8_injective(a@, b@);
        }
    }
    diff == 0
}

/// A header of a request or a reply.
pub struct Header {
    /// The name.
    pub name: String,
    /// The value.
    pub value: String,
}

impl View for Header {
    type V = (Seq<char>, Seq<char>);

    open spec fn view(&self) -> (Seq<char>, Seq<char>) {
        (self.name@, self.value@)
    }
}

/// What headers hold.
pub open spec fn headers_view(headers: Seq<Header>) -> Seq<(Seq<char>, Seq<char>)> {
    headers.map_values(|h: Header| h@)
}

/// The value of the first header with a name, whose case does not matter.
pub open spec fn header_in(headers: Seq<(Seq<char>, Seq<char>)>, name: Seq<char>) -> Option<
    Seq<char>,
>
    decreases headers.len(),
{
    if headers.len() == 0 {
        None
    } else if text::same_ignoring_case(headers.first().0, name) {
        Some(headers.first().1)
    } else {
        header_in(headers.drop_first(), name)
    }
}

/// The value of the first header with a name, whose case does not matter.
pub fn header_value(headers: &Vec<Header>, name: &str) -> (r: Option<String>)
    ensures
        text::opt_view(r) == header_in(headers_view(headers@), name@),
{
    let ghost all = headers_view(headers@);
    let mut n: usize = 0;
    assert(all.skip(0) =~= all);
    while n < headers.len()
        invariant
            n <= headers@.len(),
            all == headers_view(headers@),
            header_in(all, name@) == header_in(all.skip(n as int), name@),
        decreases headers@.len() - n,
    {
        assert(all.skip(n as int).first() == headers@[n as int]@);
        assert(all.skip(n as int).drop_first() =~= all.skip(n + 1));
        if text::equal_ignoring_case(headers[n].name.as_str(), name) {
            return Some(headers[n].value.as_str().to_owned());
        }
        n = n + 1;
    }
    assert(all.skip(n as int).len() == 0);
    None
}

/// The origins that the server's own page may have.
pub open spec fn origins_of(port: u16) -> Seq<Seq<char>> {
    seq![
        "http://localhost:"@ + text::decimal(port as nat),
        "http://127.0.0.1:"@ + text::decimal(port as nat),
    ]
}

/// What a list of texts holds.
pub open spec fn texts_view(texts: Seq<String>) -> Seq<Seq<char>> {
    texts.map_values(|s: String| s@)
}

/// A text with a number at its end.
fn with_number(head: &str, n: u16) -> (r: String)
    ensures
        r@ == head@ + text::decimal(n as nat),
{
    let mut out = head.to_owned();
    out.append(text::decimal_text(n as u64).as_str());
    out
}

/// The origins that the server's own page may have.
pub fn allowed_origins(port: u16) -> (r: Vec<String>)
    ensures
        texts_view(r@) == origins_of(port),
{
    let mut origins: Vec<String> = Vec::new();
    origins.push(with_number("http://localhost:", port));
    origins.push(with_number("http://127.0.0.1:", port));
    assert(texts_view(origins@) =~= origins_of(port));
    origins
}

/// The address that the server listens at: this machine only.
pub fn bind_address(port: u16) -> (r: String)
    ensures
        r@ == "127.0.0.1:"@ + text::decimal(port as nat),
{
    with_number("127.0.0.1:", port)
}

/// Whether an address is one of the programming interface, which needs the token.
pub open spec fn is_api(url: Seq<char>) -> bool {
    text::begins_with(url, "/api/"@)
}

/// Whether the token came with a request.
pub open spec fn token_ok(headers: Seq<(Seq<char>, Seq<char>)>, token: Seq<char>) -> bool {
    header_in(headers, "X-Sequora-Token"@) == Some(token)
}

/// Whether a request comes from one of the given origins, or names none.
pub open spec fn origin_ok(
    headers: Seq<(Seq<char>, Seq<char>)>,
    allowed: Seq<Seq<char>>,
) -> bool {
    match header_in(headers, "Origin"@) {
        Some(origin) => allowed.contains(origin),
        None => true,
    }
}

/// Whether a request is let in: every one that is not for the programming interface; of the
/// others, those with the token and with an allowed origin or none.
pub open spec fn admits(
    url: Seq<char>,
    headers: Seq<(Seq<char>, Seq<char>)>,
    token: Seq<char>,
    allowed: Seq<Seq<char>>,
) -> bool {
    is_api(url) ==> token_ok(headers, token) && origin_ok(headers, allowed)
}

/// Whether a text is in a list.
fn is_listed(texts: &Vec<String>, s: &str) -> (r: bool)
    ensures
        r == texts_view(texts@).contains(s@),
{
    let mut n: usize = 0;
    while n < texts.len()
        invariant
            n <= texts@.len(),
            forall|k: int| 0 <= k < n ==> (#[trigger] texts@[k])@ != s@,
        decreases texts@.len() - n,
    {
        if ct_eq(texts[n].as_str(), s) {
            assert(texts_view(texts@)[n as int] == s@);
            return true;
        }
        n = n + 1;
    }
    assert forall|k: int| 0 <= k < texts@.len() implies #[trigger] texts_view(texts@)[k] != s@ by {
        assert(texts@[k]@ != s@);
    }
    false
}

/// Whether a request is let in.
pub fn is_admitted(url: &str, headers: &Vec<Header>, token: &str, allowed: &Vec<String>) -> (r: bool)
    ensures
        r == admits(url@, headers_view(headers@), token@, texts_view(allowed@)),
{
    if !text::starts_with(url, "/api/") {
        return true;
    }
    let token_ok = match header_value(headers, "X-Sequora-Token") {
        Some(t) => ct_eq(t.as_str(), token),
        None => false,
    };
    let origin_ok = match header_value(headers, "Origin") {
        Some(o) => is_listed(allowed, o.as_str()),
        None => true,
    };
    token_ok && origin_ok
}

/// Without the token no request to the programming interface is let in, whatever else it has.
pub proof fn law_api_needs_token(
    url: Seq<char>,
    headers: Seq<(Seq<char>, Seq<char>)>,
    token: Seq<char>,
    allowed: Seq<Seq<char>>,
)
    requires
        is_api(url),
        header_in(headers, "X-Sequora-Token"@) != Some(token),
    ensures
        !admits(url, headers, token, allowed),
{
}

/// A request to the programming interface that names an origin other than the server's own is
/// not let in, even with the token.
pub proof fn law_foreign_origin_is_refused(
    url: Seq<char>,
    headers: Seq<(Seq<char>, Seq<char>)>,
    token: Seq<char>,
    port: u16,
    origin: Seq<char>,
)
    requires
        is_api(url),
        header_in(headers, "Origin"@) == Some(origin),
        origin != "http://localhost:"@ + text::decimal(port as nat),
        origin != "http://127.0.0.1:"@ + text::decimal(port as nat),
    ensures
        !admits(url, headers, token, origins_of(port)),
{
    let allowed = origins_of(port);
    assert forall|k: int| 0 <= k < allowed.len() implies #[trigger] allowed[k] != origin by {
        assert(k == 0 || k == 1);
    }
}

/// A request to the programming interface with the token is let in where it names no origin, or
/// the server's own.
pub proof fn law_own_page_is_admitted(
    url: Seq<char>,
    headers: Seq<(Seq<char>, Seq<char>)>,
    token: Seq<char>,
    port: u16,
)
    requires
        header_in(headers, "X-Sequora-Token"@) == Some(token),
        match header_in(headers, "Origin"@) {
            None => true,
            Some(origin) => origin == "http://localhost:"@ + text::decimal(port as nat) || origin
                == "http://127.0.0.1:"@ + text::decimal(port as nat),
        },
    ensures
        admits(url, headers, token, origins_of(port)),
{
    assert(origins_of(port)[0] == "http://localhost:"@ + text::decimal(port as nat));
    assert(origins_of(port)[1] == "http://127.0.0.1:"@ + text::decimal(port as nat));
}

/// The token that a text holds, white space around it aside: 64 hexadecimal digits.
pub open spec fn token_in(s: Seq<char>) -> Option<Seq<char>> {
    let token = text::trimmed(s);
    if token.len() == TOKEN_LEN && codec::all_hex_digits(token) {
        Some(token)
    } else {
        None
    }
}

/// The token that a text holds.
pub fn read_token(s: &str) -> (r: Option<String>)
    ensures
        text::opt_view(r) == token_in(s@),
{
    let token = text::trim(s);
    let chars = text::chars_of(token.as_str());
    if chars.len() != TOKEN_LEN {
        return None;
    }
    let mut n: usize = 0;
    while n < chars.len()
        invariant
            n <= chars@.len(),
            chars@ == text::trimmed(s@),
            forall|k: int| 0 <= k < n ==> codec::is_hex_digit(#[trigger] chars@[k]),
        decreases chars@.len() - n,
    {
        let c = chars[n];
        if !(('0' <= c && c <= '9') || ('a' <= c && c <= 'f') || ('A' <= c && c <= 'F')) {
            assert(!codec::is_hex_digit(chars@[n as int]));
            return None;
        }
        n = n + 1;
    }
    Some(token)
}

/// A token that was read is read again as it is: once stored, it stays the same.
pub proof fn law_token_is_stable(s: Seq<char>)
    requires
        token_in(s) is Some,
    ensures
        token_in(token_in(s).unwrap()) == token_in(s),
{
    let token = token_in(s).unwrap();
    assert(codec::is_hex_digit(token.first()) && codec::is_hex_digit(token.last()));
    text::lemma_trimmed_unchanged(token);
}

/// A session token, and whether it is yet to be stored.
pub struct Token {
    /// The token.
    pub token: String,
    /// Whether the token was made just now.
    pub fresh: bool,
}

/// The token that 32 bytes make. It is read again as it is.
pub fn token_of(bytes: &[u8]) -> (r: String)
    requires
        bytes@.len() == 32,
    ensures
        r@ == codec::hex_text(bytes@),
        token_in(r@) == Some(r@),
{
    let token = codec::hex_encode(bytes);
    proof {
        codec::lemma_hex_text_digits(bytes@);
        assert(codec::is_hex_digit(token@.first()) && codec::is_hex_digit(token@.last()));
        text::lemma_trimmed_unchanged(token@);
    }
    token
}

/// The token that was stored, if it can be used, or else a new one, made from 32 random bytes,
/// which can be used once it was stored. `None` where one is needed and the system has no
/// randomness.
pub fn load_or_create_token(stored: &Option<String>) -> (r: Option<Token>)
    ensures
        match text::opt_view(*stored) {
            Some(s) => token_in(s) is Some ==> r is Some && !r.unwrap().fresh,
            None => true,
        },
        match r {
            Some(t) => if t.fresh {
                &&& stored matches Some(s) ==> token_in(s@) is None
                &&& exists|bytes: Seq<u8>|
                    bytes.len() == 32 && t.token@ == #[trigger] codec::hex_text(bytes)
                &&& token_in(t.token@) == Some(t.token@)
            } else {
                stored matches Some(s) && token_in(s@) == Some(t.token@)
            },
            None => stored matches Some(s) ==> token_in(s@) is None,
        },
{
    match stored {
        Some(s) => match read_token(s.as_str()) {
            Some(token) => {
                return Some(Token { token, fresh: false });
            },
            None => {},
        },
        None => {},
    }
    match crypto::rand_bytes(32) {
        Some(bytes) => {
            let token = token_of(bytes.as_slice());
            assert(token@ == codec::hex_text(bytes@));
            Some(Token { token, fresh: true })
        },
        None => None,
    }
}

/// The method of a request.
#[derive(Clone, Copy, Debug, PartialEq, Eq, Structural)]
pub enum Method {
    /// `GET`.
    Get,
    /// `POST`.
    Post,
    /// Any other.
    Other,
}

/// What a request asks for.
pub enum Task {
    /// The dashboard.
    Page,
    /// What the dashboard shows.
    Info,
    /// Whether a password opens the wallet.
    Unlock,
    /// A new wallet.
    New,
    /// A wallet from its recovery phrase.
    Restore,
    /// A transaction of the given kind.
    Act { kind: String },
    /// Nothing that there is.
    NotFound,
}

/// What a request asks for, with the kind as the text that it is.
pub enum TaskParts {
    Page,
    Info,
    Unlock,
    New,
    Restore,
    Act { kind: Seq<char> },
    NotFound,
}

impl View for Task {
    type V = TaskParts;

    open spec fn view(&self) -> TaskParts {
        match *self {
            Task::Page => TaskParts::Page,
            Task::Info => TaskParts::Info,
            Task::Unlock => TaskParts::Unlock,
            Task::New => TaskParts::New,
            Task::Restore => TaskParts::Restore,
            Task::Act { kind } => TaskParts::Act { kind: kind@ },
            Task::NotFound => TaskParts::NotFound,
        }
    }
}

/// What a request asks for.
pub open spec fn task_of(method: Method, url: Seq<char>) -> TaskParts {
    match method {
        Method::Get => if url == "/"@ {
            TaskParts::Page
        } else if url == "/api/info"@ {
            TaskParts::Info
        } else {
            TaskParts::NotFound
        },
        Method::Post => if url == "/api/unlock"@ {
            TaskParts::Unlock
        } else if url == "/api/new"@ {
            TaskParts::New
        } else if url == "/api/restore"@ {
            TaskParts::Restore
        } else if url == "/api/send"@ {
            TaskParts::Act { kind: "send"@ }
        } else if url == "/api/stake"@ {
            TaskParts::Act { kind: "stake"@ }
        } else if url == "/api/claim"@ {
            TaskParts::Act { kind: "claim"@ }
        } else if url == "/api/unjail"@ {
            TaskParts::Act { kind: "unjail"@ }
        } else if url == "/api/withdraw-commission"@ {
            TaskParts::Act { kind: "withdrawcommission"@ }
        } else {
            TaskParts::NotFound
        },
        Method::Other => TaskParts::NotFound,
    }
}

/// What a request asks for.
pub fn route(method: Method, url: &str) -> (r: Task)
    ensures
        r@ == task_of(method, url@),
{
    match method {
        Method::Get => if text::same_text(url, "/") {
            Task::Page
        } else if text::same_text(url, "/api/info") {
            Task::Info
        } else {
            Task::NotFound
        },
        Method::Post => if text::same_text(url, "/api/unlock") {
            Task::Unlock
        } else if text::same_text(url, "/api/new") {
            Task::New
        } else if text::same_text(url, "/api/restore") {
            Task::Restore
        } else if text::same_text(url, "/api/send") {
            Task::Act { kind: "send".to_owned() }
        } else if text::same_text(url, "/api/stake") {
            Task::Act { kind: "stake".to_owned() }
        } else if text::same_text(url, "/api/claim") {
            Task::Act { kind: "claim".to_owned() }
        } else if text::same_text(url, "/api/unjail") {
            Task::Act { kind: "unjail".to_owned() }
        } else if text::same_text(url, "/api/withdraw-commission") {
            Task::Act { kind: "withdrawcommission".to_owned() }
        } else {
            Task::NotFound
        },
        Method::Other => Task::NotFound,
    }
}

/// Whatever reads or moves what is the wallet's needs the token: a request that is let in without
/// it asks for the page, or for nothing that there is.
pub proof fn law_only_page_is_open(
    method: Method,
    url: Seq<char>,
    headers: Seq<(Seq<char>, Seq<char>)>,
    token: Seq<char>,
    allowed: Seq<Seq<char>>,
)
    requires
        admits(url, headers, token, allowed),
        !token_ok(headers, token),
    ensures
        task_of(method, url) is Page || task_of(method, url) is NotFound,
{
    reveal_strlit("/api/");
    reveal_strlit("/api/info");
    reveal_strlit("/api/unlock");
    reveal_strlit("/api/new");
    reveal_strlit("/api/restore");
    reveal_strlit("/api/send");
    reveal_strlit("/api/stake");
    reveal_strlit("/api/claim");
    reveal_strlit("/api/unjail");
    reveal_strlit("/api/withdraw-commission");
    let prefix = "/api/"@;
    assert("/api/info"@.take(5) =~= prefix);
    assert("/api/unlock"@.take(5) =~= prefix);
    assert("/api/new"@.take(5) =~= prefix);
    assert("/api/restore"@.take(5) =~= prefix);
    assert("/api/send"@.take(5) =~= prefix);
    assert("/api/stake"@.take(5) =~= prefix);
    assert("/api/claim"@.take(5) =~= prefix);
    assert("/api/unjail"@.take(5) =~= prefix);
    assert("/api/withdraw-commission"@.take(5) =~= prefix);
}

/// A reply to a request.
pub struct Reply {
    /// The status code.
    pub status: u16,
    /// The type of the content.
    pub content_type: String,
    /// The content.
    pub body: String,
}

/// What a reply holds.
pub struct ReplyParts {
    pub status: u16,
    pub content_type: Seq<char>,
    pub body: Seq<char>,
}

impl View for Reply {
    type V = ReplyParts;

    open spec fn view(&self) -> ReplyParts {
        ReplyParts {
            status: self.status,
            content_type: self.content_type@,
            body: self.body@,
        }
    }
}

/// A reply in JSON.
pub open spec fn json_reply_of(status: u16, body: Seq<char>) -> ReplyParts {
    ReplyParts { status, content_type: "application/json"@, body }
}

/// A reply in JSON.
fn json_reply(status: u16, body: &str) -> (r: Reply)
    ensures
        r@ == json_reply_of(status, body@),
{
    Reply { status, content_type: "application/json".to_owned(), body: body.to_owned() }
}

/// The reply to a request that is not let in.
pub open spec fn forbidden_reply() -> ReplyParts {
    json_reply_of(403, "{\"error\":\"forbidden\"}"@)
}

/// The reply to a request that is not let in.
pub fn forbidden() -> (r: Reply)
    ensures
        r@ == forbidden_reply(),
{
    json_reply(403, "{\"error\":\"forbidden\"}")
}

/// The reply where the work on a request failed.
pub open spec fn internal_error_reply() -> ReplyParts {
    json_reply_of(500, "{\"error\":\"wrong password or internal error\"}"@)
}

/// The reply where the work on a request failed.
pub fn internal_error() -> (r: Reply)
    ensures
        r@ == internal_error_reply(),
{
    json_reply(500, "{\"error\":\"wrong password or internal error\"}")
}

/// The reply to a request for nothing that there is.
pub open spec fn not_found_reply() -> ReplyParts {
    ReplyParts { status: 404, content_type: "text/plain"@, body: "not found"@ }
}

/// The reply to a request for nothing that there is.
pub fn not_found() -> (r: Reply)
    ensures
        r@ == not_found_reply(),
{
    Reply { status: 404, content_type: "text/plain".to_owned(), body: "not found".to_owned() }
}

/// The dashboard, with the token in each place that is held for it.
pub open spec fn page_reply(html: Seq<char>, token: Seq<char>) -> ReplyParts {
    ReplyParts {
        status: 200,
        content_type: "text/html"@,
        body: text::replaced(html, "__CSRF_TOKEN__"@, token),
    }
}

/// The dashboard, with the token in each place that is held for it.
pub fn page(html: &str, token: &str) -> (r: Reply)
    ensures
        r@ == page_reply(html@, token@),
{
    proof {
        reveal_strlit("__CSRF_TOKEN__");
    }
    Reply {
        status: 200,
        content_type: "text/html".to_owned(),
        body: text::replace_all(html, "__CSRF_TOKEN__", token),
    }
}

/// The page that is sent has the token where the dashboard first holds a place for it.
pub proof fn law_page_carries_token(html: Seq<char>, token: Seq<char>, k: int)
    requires
        0 <= k <= html.len(),
        text::begins_with(html.skip(k), "__CSRF_TOKEN__"@),
        forall|i: int|
            0 <= i < k ==> !text::begins_with(#[trigger] html.skip(i), "__CSRF_TOKEN__"@),
    ensures
        text::begins_with(page_reply(html, token).body, html.take(k) + token),
{
    reveal_strlit("__CSRF_TOKEN__");
    text::lemma_replaced_first(html, "__CSRF_TOKEN__"@, token, k);
}

/// The headers of a reply: the type of its content, and, but for a request that was not let in,
/// that it is not to be stored and what its page may load.
pub open spec fn headers_of(reply: ReplyParts) -> Seq<(Seq<char>, Seq<char>)> {
    let content_type = ("Content-Type"@, reply.content_type);
    if reply.status == 403 {
        seq![content_type]
    } else {
        seq![
            content_type,
            ("Cache-Control"@, "no-store, must-revalidate"@),
            (
                "Content-Security-Policy"@,
                "default-src 'self'; script-src 'self' 'unsafe-inline'; style-src 'self' 'unsafe-inline'; connect-src 'self'; img-src 'self' data:"@,
            ),
        ]
    }
}

/// A header.
fn header(name: &str, value: &str) -> (r: Header)
    ensures
        r@ == (name@, value@),
{
    Header { name: name.to_owned(), value: value.to_owned() }
}

/// The headers of a reply.
pub fn reply_headers(reply: &Reply) -> (r: Vec<Header>)
    ensures
        headers_view(r@) == headers_of(reply@),
{
    let mut headers: Vec<Header> = Vec::new();
    headers.push(header("Content-Type", reply.content_type.as_str()));
    if reply.status != 403 {
        headers.push(header("Cache-Control", "no-store, must-revalidate"));
        headers.push(
            header(
                "Content-Security-Policy",
                "default-src 'self'; script-src 'self' 'unsafe-inline'; style-src 'self' 'unsafe-inline'; connect-src 'self'; img-src 'self' data:",
            ),
        );
    }
    assert(headers_view(headers@) =~= headers_of(reply@));
    headers
}

/// What is replied to a request to unlock, by its password.
pub open spec fn unlock_body(password: Seq<char>, opens: bool) -> Seq<char> {
    if password.len() == 0 {
        "{\"ok\":false,\"error\":\"enter your password\"}"@
    } else if opens {
        "{\"ok\":true}"@
    } else {
        "{\"ok\":false,\"error\":\"wrong password\"}"@
    }
}

/// The password in a request, empty where there is none.
pub open spec fn password_in(request: Json) -> Seq<char> {
    request.field("password"@).text_or(""@)
}

/// Whether a text is empty.
fn is_empty(s: &str) -> (r: bool)
    ensures
        r == (s@.len() == 0),
{
    text::chars_of(s).len() == 0
}

/// Replies to a request to unlock: whether the password in it opens the wallet in the key file.
pub fn api_unlock(body: &str, data: &Option<String>) -> (r: Reply)
    ensures
        r@ == unlock_reply(json::read_or_empty(body@), text::opt_view(*data)),
{
    unlock(&JsonValue::parse_or_empty(body), data)
}

/// What is replied to a request to unlock the wallet in a key file.
pub open spec fn unlock_reply(request: Json, data: Option<Seq<char>>) -> ReplyParts {
    let password = password_in(request);
    let opens = keyfile::is_password(data, password);
    json_reply_of(200, unlock_body(password, opens))
}

/// Replies to a request to unlock.
pub fn unlock(request: &JsonValue, data: &Option<String>) -> (r: Reply)
    ensures
        r@ == unlock_reply(request@, text::opt_view(*data)),
{
    let password = request.field("password").text_or("");
    if is_empty(password.as_str()) {
        return json_reply(200, "{\"ok\":false,\"error\":\"enter your password\"}");
    }
    if keyfile::verify_password(data, password.as_str()) {
        json_reply(200, "{\"ok\":true}")
    } else {
        json_reply(200, "{\"ok\":false,\"error\":\"wrong password\"}")
    }
}

/// What becomes of a request for a new wallet.
pub enum NewStep {
    /// It is replied to at once.
    Answer { reply: Reply },
    /// A wallet of this seed is to be saved under this password.
    Save { password: String, new: NewSeed },
}

/// Whether a request for a new wallet is taken as it should be: without a password it is replied
/// to at once; with one, a seed is drawn, and the phrase that comes with it stands for it, or
/// there is `None`.
pub open spec fn is_new(request: Json, r: Option<NewStep>) -> bool {
    let password = password_in(request);
    match r {
        Some(NewStep::Answer { reply }) => password.len() == 0 && reply@ == json_reply_of(
            200,
            "{\"ok\":false,\"error\":\"a password is required\"}"@,
        ),
        Some(NewStep::Save { password: p, new }) => {
            &&& p@ == password
            &&& password.len() > 0
            &&& wallet::is_phrase_of(new.phrase@, new.seed@)
        },
        None => password.len() > 0,
    }
}

/// Takes a request for a new wallet; `None` where the system has no randomness.
pub fn api_new(body: &str) -> (r: Option<NewStep>)
    ensures
        is_new(json::read_or_empty(body@), r),
{
    new_wallet(&JsonValue::parse_or_empty(body))
}

/// Takes a request for a new wallet; `None` where the system has no randomness.
pub fn new_wallet(request: &JsonValue) -> (r: Option<NewStep>)
    ensures
        is_new(request@, r),
{
    let password = request.field("password").text_or("");
    if is_empty(password.as_str()) {
        return Some(
            NewStep::Answer {
                reply: json_reply(
                    200,
                    "{\"ok\":false,\"error\":\"a password is required\"}",
                ),
            },
        );
    }
    match wallet::draw_seed() {
        Some(new) => Some(NewStep::Save { password, new }),
        None => None,
    }
}

/// What becomes of a request to restore a wallet.
pub enum RestoreStep {
    /// It is replied to at once.
    Answer { reply: Reply },
    /// A wallet of this seed is to be saved under this password.
    Save { password: String, seed: [u8; 32] },
}

/// The recovery phrase in a request, empty where there is none.
pub open spec fn phrase_in(request: Json) -> Seq<char> {
    request.field("mnemonic"@).text_or(""@)
}

/// The seed that a request to restore a wallet stands for, or what is replied to it.
pub open spec fn restore_of(request: Json) -> Result<Seq<u8>, Seq<char>> {
    if text::trimmed(phrase_in(request)).len() == 0 || password_in(request).len() == 0 {
        Err("{\"ok\":false,\"error\":\"recovery phrase and a new password are both required\"}"@)
    } else {
        match wallet::seed_of_phrase(phrase_in(request)) {
            Err(PhraseError::Invalid) => Err(
                "{\"ok\":false,\"error\":\"invalid recovery phrase — check the words and order\"}"@,
            ),
            Err(PhraseError::WrongLength) => Err(
                "{\"ok\":false,\"error\":\"expected a 24-word recovery phrase\"}"@,
            ),
            Ok(seed) => Ok(seed),
        }
    }
}

/// Whether a request to restore a wallet is taken as it should be.
pub open spec fn is_restore(request: Json, r: RestoreStep) -> bool {
    match r {
        RestoreStep::Answer { reply } => restore_of(request) matches Err(e) && reply@
            == json_reply_of(200, e),
        RestoreStep::Save { password, seed } => restore_of(request) == Ok::<Seq<u8>, Seq<char>>(
            seed@,
        ) && password@ == password_in(request),
    }
}

/// Takes a request to restore a wallet.
pub fn api_restore(body: &str) -> (r: RestoreStep)
    ensures
        is_restore(json::read_or_empty(body@), r),
{
    restore(&JsonValue::parse_or_empty(body))
}

/// Takes a request to restore a wallet. The recovery phrase and its trimmed form are scrubbed
/// before this returns.
pub fn restore(request: &JsonValue) -> (r: RestoreStep)
    ensures
        is_restore(request@, r),
{
    let mut phrase = request.field("mnemonic").text_or("");
    let password = request.field("password").text_or("");
    let mut trimmed = text::trim(phrase.as_str());
    let lacking = is_empty(trimmed.as_str()) || is_empty(password.as_str());
    crypto::scrub_text(&mut trimmed);
    if lacking {
        crypto::scrub_text(&mut phrase);
        return RestoreStep::Answer {
            reply: json_reply(
                200,
                "{\"ok\":false,\"error\":\"recovery phrase and a new password are both required\"}",
            ),
        };
    }
    let seed = wallet::seed_from_phrase(phrase.as_str());
    crypto::scrub_text(&mut phrase);
    match seed {
        Ok(seed) => RestoreStep::Save { password, seed },
        Err(PhraseError::Invalid) => RestoreStep::Answer {
            reply: json_reply(
                200,
                "{\"ok\":false,\"error\":\"invalid recovery phrase — check the words and order\"}",
            ),
        },
        Err(PhraseError::WrongLength) => RestoreStep::Answer {
            reply: json_reply(
                200,
                "{\"ok\":false,\"error\":\"expected a 24-word recovery phrase\"}",
            ),
        },
    }
}

/// What is replied once a wallet was saved, or was not: its address, with the recovery phrase of
/// a new one, or why it was not saved.
pub open spec fn saved_json(saved: Result<Seq<char>, Seq<char>>, phrase: Option<Seq<char>>) -> Json {
    match saved {
        Ok(addr) => {
            let reply = Json::empty_object().with("ok"@, Json::Bool(true)).with(
                "address"@,
                Json::Text(addr),
            );
            match phrase {
                Some(phrase) => reply.with("mnemonic"@, Json::Text(phrase)),
                None => reply,
            }
        },
        Err(e) => Json::empty_object().with("ok"@, Json::Bool(false)).with("error"@, Json::Text(e)),
    }
}

/// What is replied once a wallet was saved is written without loss.
proof fn lemma_saved_is_exact(saved: Result<Seq<char>, Seq<char>>, phrase: Option<Seq<char>>)
    ensures
        saved_json(saved, phrase).is_exact(100),
{
    let empty = Json::empty_object();
    assert(empty.is_exact(100));
    match saved {
        Ok(addr) => {
            let one = empty.with("ok"@, Json::Bool(true));
            json::lemma_with_is_exact(empty, "ok"@, Json::Bool(true), 100);
            json::lemma_with_is_exact(one, "address"@, Json::Text(addr), 100);
            let two = one.with("address"@, Json::Text(addr));
            if let Some(phrase) = phrase {
                json::lemma_with_is_exact(two, "mnemonic"@, Json::Text(phrase), 100);
            }
        },
        Err(e) => {
            json::lemma_with_is_exact(empty, "ok"@, Json::Bool(false), 100);
            let one = empty.with("ok"@, Json::Bool(false));
            json::lemma_with_is_exact(one, "error"@, Json::Text(e), 100);
        },
    }
}

/// The reply once a wallet was saved, or was not. It reads back as what it was made of.
pub fn saved_reply(saved: &Result<String, String>, phrase: &Option<String>) -> (r: Reply)
    ensures
        r@ == json_reply_of(
            200,
            json::json_compact(saved_json(text::result_view(*saved), text::opt_view(*phrase))),
        ),
        json::reads_as(r.body@, saved_json(text::result_view(*saved), text::opt_view(*phrase))),
{
    proof {
        lemma_saved_is_exact(text::result_view(*saved), text::opt_view(*phrase));
    }
    let mut reply = JsonValue::object();
    match saved {
        Ok(addr) => {
            reply.insert("ok", JsonValue::boolean(true));
            reply.insert("address", JsonValue::text(addr.as_str()));
            match phrase {
                Some(phrase) => {
                    reply.insert("mnemonic", JsonValue::text(phrase.as_str()));
                },
                None => {},
            }
        },
        Err(e) => {
            reply.insert("ok", JsonValue::boolean(false));
            reply.insert("error", JsonValue::text(e.as_str()));
        },
    }
    json_reply(200, reply.render().as_str())
}

/// The order that a request of a kind stands for, by the wallet's public key; `None` for a kind
/// that there is not.
pub open spec fn order_in(kind: Seq<char>, request: Json, pubkey: Seq<u8>) -> Option<OrderParts> {
    let from = address::address_of(pubkey);
    let own_valoper = address::valoper_of(pubkey);
    let to = request.field("to"@).text_or(""@);
    let valoper = request.field("valoper"@).text_or(""@);
    let amount = request.field("amount"@).text_or("0"@);
    if kind == "send"@ {
        Some(tx::send_parts(from, to, amount))
    } else if kind == "stake"@ {
        Some(tx::stake_parts(from, valoper, amount))
    } else if kind == "claim"@ {
        Some(tx::claim_parts(from, valoper))
    } else if kind == "unjail"@ {
        Some(tx::unjail_parts(own_valoper))
    } else if kind == "withdrawcommission"@ {
        Some(tx::withdraw_commission_parts(own_valoper))
    } else {
        None
    }
}

/// The order that a request of a kind stands for.
pub fn order_of(kind: &str, request: &JsonValue, pubkey: &[u8]) -> (r: Option<Order>)
    ensures
        match r {
            Some(order) => order_in(kind@, request@, pubkey@) == Some(order@),
            None => order_in(kind@, request@, pubkey@) is None,
        },
{
    let from = address::derive_address(pubkey);
    let own_valoper = address::derive_valoper(pubkey);
    let to = request.field("to").text_or("");
    let valoper = request.field("valoper").text_or("");
    let amount = request.field("amount").text_or("0");
    if text::same_text(kind, "send") {
        Some(tx::send_order(from.as_str(), to.as_str(), amount.as_str()))
    } else if text::same_text(kind, "stake") {
        Some(tx::stake_order(from.as_str(), valoper.as_str(), amount.as_str()))
    } else if text::same_text(kind, "claim") {
        Some(tx::claim_order(from.as_str(), valoper.as_str()))
    } else if text::same_text(kind, "unjail") {
        Some(tx::unjail_order(own_valoper.as_str()))
    } else if text::same_text(kind, "withdrawcommission") {
        Some(tx::withdraw_commission_order(own_valoper.as_str()))
    } else {
        None
    }
}

/// What becomes of a request for a transaction.
pub enum ActionStep {
    /// It is replied to at once.
    Answer { reply: Reply },
    /// This order is to be signed with the wallet that this password opens, and sent.
    Broadcast { order: Order, password: String },
}

/// Takes a request for a transaction of a kind. It fails where the key file has no public key.
pub fn api_action(body: &str, data: &Option<String>, kind: &str) -> (r: Result<
    ActionStep,
    KeyError,
>)
    ensures
        ({
            let request = json::read_or_empty(body@);
            match keyfile::stored_pubkey(text::opt_view(*data)) {
                Err(e) => r == Err::<ActionStep, KeyError>(e),
                Ok(pubkey) => match r {
                    Ok(ActionStep::Answer { reply }) => order_in(kind@, request, pubkey) is None
                        && reply@ == json_reply_of(400, "{\"error\":\"unknown action\"}"@),
                    Ok(ActionStep::Broadcast { order, password }) => order_in(
                        kind@,
                        request,
                        pubkey,
                    ) == Some(order@) && password@ == password_in(request),
                    Err(_) => false,
                },
            }
        }),
{
    let request = JsonValue::parse_or_empty(body);
    let pubkey = match keyfile::load_pubkey(data) {
        Ok(pubkey) => pubkey,
        Err(e) => {
            return Err(e);
        },
    };
    match order_of(kind, &request, pubkey.as_slice()) {
        Some(order) => {
            let password = request.field("password").text_or("");
            Ok(ActionStep::Broadcast { order, password })
        },
        None => Ok(
            ActionStep::Answer { reply: json_reply(400, "{\"error\":\"unknown action\"}") },
        ),
    }
}

/// Every transaction that a request can ask for is of a kind that there is.
pub proof fn law_routed_kinds_are_known(
    method: Method,
    url: Seq<char>,
    kind: Seq<char>,
    request: Json,
    pubkey: Seq<u8>,
)
    requires
        task_of(method, url) == (TaskParts::Act { kind }),
    ensures
        order_in(kind, request, pubkey) is Some,
{
}

/// Whatever a request says, who pays, who delegates and which validator is acted for is the
/// wallet's own affair: it follows from the wallet's public key.
pub proof fn law_orders_are_the_wallets_own(kind: Seq<char>, request: Json, pubkey: Seq<u8>)
    ensures
        kind == "send"@ ==> exists|to: Seq<char>, amount: Seq<char>|
            order_in(kind, request, pubkey) == Some(
                #[trigger] tx::send_parts(address::address_of(pubkey), to, amount),
            ),
        kind == "stake"@ ==> exists|valoper: Seq<char>, amount: Seq<char>|
            order_in(kind, request, pubkey) == Some(
                #[trigger] tx::stake_parts(address::address_of(pubkey), valoper, amount),
            ),
        kind == "claim"@ ==> exists|valoper: Seq<char>|
            order_in(kind, request, pubkey) == Some(
                #[trigger] tx::claim_parts(address::address_of(pubkey), valoper),
            ),
        kind == "unjail"@ ==> order_in(kind, request, pubkey) == Some(
            tx::unjail_parts(address::valoper_of(pubkey)),
        ),
        kind == "withdrawcommission"@ ==> order_in(kind, request, pubkey) == Some(
            tx::withdraw_commission_parts(address::valoper_of(pubkey)),
        ),
{
    reveal_strlit("send");
    reveal_strlit("stake");
    reveal_strlit("claim");
    reveal_strlit("unjail");
    reveal_strlit("withdrawcommission");
    assert("send"@.len() == 4 && "stake"@.len() == 5 && "claim"@.len() == 5);
    assert("stake"@[0] == 's' && "claim"@[0] == 'c');
    assert("unjail"@.len() == 6 && "withdrawcommission"@.len() == 18);
    let from = address::address_of(pubkey);
    let to = request.field("to"@).text_or(""@);
    let valoper = request.field("valoper"@).text_or(""@);
    let amount = request.field("amount"@).text_or("0"@);
    if kind == "send"@ {
        assert(order_in(kind, request, pubkey) == Some(tx::send_parts(from, to, amount)));
    }
    if kind == "stake"@ {
        assert(order_in(kind, request, pubkey) == Some(tx::stake_parts(from, valoper, amount)));
    }
    if kind == "claim"@ {
        assert(order_in(kind, request, pubkey) == Some(tx::claim_parts(from, valoper)));
    }
}

/// What is replied once a transaction was sent, or was not.
pub open spec fn sent_json(outcome: Result<ReceiptParts, Seq<char>>) -> Json {
    match outcome {
        Ok(receipt) => Json::empty_object()
            .with("code"@, Json::Integer(receipt.code as int))
            .with("txhash"@, Json::Text(receipt.txhash))
            .with("log"@, Json::Text(receipt.log)),
        Err(e) => Json::empty_object().with("error"@, Json::Text(e)),
    }
}

/// What is replied once a transaction was sent is written without loss.
proof fn lemma_sent_is_exact(outcome: Result<ReceiptParts, Seq<char>>)
    ensures
        sent_json(outcome).is_exact(100),
{
    let empty = Json::empty_object();
    assert(empty.is_exact(100));
    match outcome {
        Ok(receipt) => {
            let code = Json::Integer(receipt.code as int);
            json::lemma_with_is_exact(empty, "code"@, code, 100);
            let one = empty.with("code"@, code);
            json::lemma_with_is_exact(one, "txhash"@, Json::Text(receipt.txhash), 100);
            let two = one.with("txhash"@, Json::Text(receipt.txhash));
            json::lemma_with_is_exact(two, "log"@, Json::Text(receipt.log), 100);
        },
        Err(e) => {
            json::lemma_with_is_exact(empty, "error"@, Json::Text(e), 100);
        },
    }
}

/// The reply once a transaction was sent, or was not. It reads back as what it was made of.
pub fn sent_reply(outcome: &Result<Receipt, String>) -> (r: Reply)
    ensures
        r@ == json_reply_of(200, json::json_compact(sent_json(tx::outcome_view(*outcome)))),
        json::reads_as(r.body@, sent_json(tx::outcome_view(*outcome))),
{
    proof {
        lemma_sent_is_exact(tx::outcome_view(*outcome));
    }
    let mut reply = JsonValue::object();
    match outcome {
        Ok(receipt) => {
            reply.insert("code", JsonValue::integer(receipt.code));
            reply.insert("txhash", JsonValue::text(receipt.txhash.as_str()));
            reply.insert("log", JsonValue::text(receipt.log.as_str()));
        },
        Err(e) => {
            reply.insert("error", JsonValue::text(e.as_str()));
        },
    }
    json_reply(200, reply.render().as_str())
}

/// The reply to a request for what the dashboard shows.
pub fn info_reply(pubkey: &[u8], answers: &Answers) -> (r: Reply)
    ensures
        r@ == json_reply_of(200, chain::info_text(pubkey@, *answers)),
        chain::info_from(pubkey@, *answers).is_exact(100) ==> json::reads_as(
            r.body@,
            chain::info_from(pubkey@, *answers),
        ),
{
    json_reply(200, chain::info_json(pubkey, answers).as_str())
}

} // verus!
