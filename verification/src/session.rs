//! The course of one request, as a machine that is told what happened and
//! answers what is to be done next. The fetching, the reading of the body and
//! the sending of the reply are its caller's.

use crate::dispatch::{
    body_rewritten, choose_css_base, css_base, find_header_text, forward_headers, forwarded,
    header_text, header_texts, rewrite_body, strategy_for, strategy_of_headers, Header, HeaderText,
    Strategy,
};
use crate::resolve::{
    lemma_proxy_path_parses_back, path_suffix, proxy_path, url_parse, AbsoluteUrl,
};
use crate::text::{text_of, text_of_str};
use vstd::prelude::*;
use vstd::string::*;
use vstd::utf8::encode_utf8;

verus! {

/// What a request path asks for.
#[derive(Debug, Clone)]
pub enum Route {
    /// The path names no target: the placeholder is served.
    Placeholder,
    /// What follows the separator is no absolute URL.
    NotFound,
    /// The target that the path names.
    Fetch(AbsoluteUrl),
}

/// Whether a path is empty or the separator alone.
pub open spec fn is_root(path: Seq<char>) -> bool {
    path.len() == 0 || path == seq!['/']
}

/// Reads the target of a request from its path.
pub fn route(path: &str) -> (r: Route)
    ensures
        match r {
            Route::Placeholder => is_root(path@),
            Route::NotFound => !is_root(path@) && url_parse(path_suffix(path@)) is None,
            Route::Fetch(url) => !is_root(path@) && url.wf() && url_parse(path_suffix(path@))
                == Some(url@),
        },
{
    let n = path.unicode_len();
    if n == 0 {
        return Route::Placeholder;
    }
    if n == 1 && path.get_char(0) == '/' {
        assert(path@ =~= seq!['/']);
        return Route::Placeholder;
    }
    let suffix = path.substring_char(1, n);
    assert(suffix@ =~= path_suffix(path@));
    match AbsoluteUrl::parse(suffix) {
        Some(url) => Route::Fetch(url),
        None => Route::NotFound,
    }
}

/// A reply that is sent in one piece.
#[derive(Debug, Clone)]
pub struct Reply {
    pub status: u16,
    pub headers: Vec<Header>,
    pub body: Vec<u8>,
}

/// The status, headers and body of a reply.
pub struct ReplyText {
    pub status: int,
    pub headers: Seq<HeaderText>,
    pub body: Seq<u8>,
}

impl View for Reply {
    type V = ReplyText;

    open spec fn view(&self) -> ReplyText {
        ReplyText {
            status: self.status as int,
            headers: header_texts(self.headers@),
            body: self.body@,
        }
    }
}

/// A reply without headers.
pub open spec fn bare_reply(status: int, body: Seq<char>) -> ReplyText {
    ReplyText { status, headers: Seq::empty(), body: encode_utf8(body) }
}

/// The reply to a request that names no target.
pub open spec fn placeholder_reply() -> ReplyText {
    bare_reply(200, "empty"@)
}

/// The reply to a request whose path holds no absolute URL.
pub open spec fn not_found_reply() -> ReplyText {
    bare_reply(404, ""@)
}

/// The reply to a request whose target could not be fetched.
pub open spec fn fetch_failed_reply() -> ReplyText {
    bare_reply(200, "error when proxying"@)
}

/// The reply to a request whose body could not be rewritten, or whose course
/// was not kept.
pub open spec fn failure_reply() -> ReplyText {
    bare_reply(502, "error when rewriting"@)
}

/// Builds a reply without headers.
fn reply_with(status: u16, body: &str) -> (r: Reply)
    ensures
        r@ == bare_reply(status as int, body@),
{
    let reply = Reply { status, headers: Vec::new(), body: body.as_bytes_vec() };
    assert(header_texts(reply.headers@) =~= Seq::<HeaderText>::empty());
    reply
}

/// Where a request stands.
#[derive(Debug, Clone)]
pub enum Session {
    /// The request has not been looked at.
    Idle,
    /// The target is being fetched.
    Fetching { target: AbsoluteUrl, referer: Option<String> },
    /// The body is being read in full, to be rewritten against `base`.
    Reading { strategy: Strategy, base: AbsoluteUrl, headers: Vec<Header> },
    /// The reply has been decided.
    Done,
}

/// What happened.
#[derive(Debug, Clone)]
pub enum Event {
    /// A request came in, with its path and its headers.
    Request { path: String, headers: Vec<Header> },
    /// The target answered, with these headers.
    Fetched { headers: Vec<Header> },
    /// The target could not be fetched.
    FetchFailed,
    /// The body was read in full.
    Body(Vec<u8>),
    /// The body could not be read.
    BodyFailed,
}

/// What is to be done next.
#[derive(Debug, Clone)]
pub enum Action {
    /// Fetch this URL, and tell how it went.
    Fetch(String),
    /// Read the body in full, and hand it over.
    ReadBody,
    /// Send these headers, then the body as it comes, piece by piece.
    Stream(Vec<Header>),
    /// Send this reply.
    Reply(Reply),
}

/// The session is over with this reply.
pub open spec fn ends_with(next: Session, action: Action, reply: ReplyText) -> bool {
    &&& next is Done
    &&& action matches Action::Reply(r)
    &&& r@ == reply
}

/// What the machine answers to a request: the placeholder for the root, status
/// 404 where the path holds no absolute URL, else the order to fetch the
/// target. It keeps the `Referer` of the request, where that is text.
pub open spec fn on_request(
    path: Seq<char>,
    headers: Seq<HeaderText>,
    next: Session,
    action: Action,
) -> bool {
    if is_root(path) {
        ends_with(next, action, placeholder_reply())
    } else {
        match url_parse(path_suffix(path)) {
            None => ends_with(next, action, not_found_reply()),
            Some(url) => {
                &&& next matches Session::Fetching { target, referer: kept }
                &&& target.wf()
                &&& target@ == url
                &&& text_of(kept) == header_text(headers, "referer"@)
                &&& action matches Action::Fetch(asked)
                &&& asked@ == url
            },
        }
    }
}

/// What the machine answers when the target has answered. A response that
/// is neither HTML nor a style sheet is streamed with all its headers. Any
/// other has its body read in full, and keeps all headers but the length; an
/// HTML document is rewritten against its own URL, a style sheet against the
/// referring document where one is known.
pub open spec fn on_fetched(
    target: Seq<char>,
    referer: Option<Seq<char>>,
    headers: Seq<HeaderText>,
    next: Session,
    action: Action,
) -> bool {
    match strategy_of_headers(headers) {
        Strategy::PassThrough => {
            &&& next is Done
            &&& action matches Action::Stream(sent)
            &&& header_texts(sent@) == headers
        },
        Strategy::RewriteHtml => {
            &&& action is ReadBody
            &&& next matches Session::Reading { strategy, base, headers: kept }
            &&& strategy == Strategy::RewriteHtml
            &&& base@ == target
            &&& header_texts(kept@) == forwarded(Strategy::RewriteHtml, headers)
        },
        Strategy::RewriteCss => {
            &&& action is ReadBody
            &&& next matches Session::Reading { strategy, base, headers: kept }
            &&& strategy == Strategy::RewriteCss
            &&& base@ == css_base(referer, target)
            &&& header_texts(kept@) == forwarded(Strategy::RewriteCss, headers)
        },
    }
}

/// What the machine answers when the body has been read: the rewritten body
/// with the headers that were kept, or the failure reply where the body has
/// no rewritten form.
pub open spec fn on_body(
    strategy: Strategy,
    base: Seq<char>,
    headers: Seq<HeaderText>,
    body: Seq<u8>,
    next: Session,
    action: Action,
) -> bool {
    match body_rewritten(strategy, base, body) {
        Ok(rewritten) => ends_with(
            next,
            action,
            ReplyText { status: 200, headers, body: rewritten },
        ),
        Err(_) => ends_with(next, action, failure_reply()),
    }
}

/// What the machine answers to an event in a state.
pub open spec fn steps(session: Session, event: Event, next: Session, action: Action) -> bool {
    match (session, event) {
        (Session::Idle, Event::Request { path, headers }) => on_request(
            path@,
            header_texts(headers@),
            next,
            action,
        ),
        (Session::Fetching { target, referer }, Event::Fetched { headers }) => on_fetched(
            target@,
            text_of(referer),
            header_texts(headers@),
            next,
            action,
        ),
        (Session::Fetching { .. }, Event::FetchFailed) => ends_with(
            next,
            action,
            fetch_failed_reply(),
        ),
        (Session::Reading { strategy, base, headers }, Event::Body(body)) => on_body(
            strategy,
            base@,
            header_texts(headers@),
            body@,
            next,
            action,
        ),
        (Session::Reading { .. }, Event::BodyFailed) => ends_with(next, action, failure_reply()),
        _ => ends_with(next, action, failure_reply()),
    }
}

/// Ends a session with a reply without headers.
fn end_with(status: u16, body: &str) -> (r: (Session, Action))
    ensures
        ends_with(r.0, r.1, bare_reply(status as int, body@)),
{
    (Session::Done, Action::Reply(reply_with(status, body)))
}

/// An optional string, borrowed.
fn as_text(s: &Option<String>) -> (r: Option<&str>)
    ensures
        text_of_str(r) == text_of(*s),
{
    match s {
        Some(text) => Some(text.as_str()),
        None => None,
    }
}

/// Takes an event in a state, and answers with the next state and with what
/// is to be done.
///
/// A request for the root gets the placeholder, one whose path holds no
/// absolute URL gets status 404, any other has its target fetched. A failed
/// fetch gets a fixed text. A fetched response is streamed with all its
/// headers, unless it is HTML or a style sheet: then its body is read in full
/// and rewritten, and goes out with all headers but the length. A body that
/// cannot be read or rewritten, and an event that the state does not await,
/// end the session with a failure reply.
pub fn step(session: Session, event: Event) -> (r: (Session, Action))
    ensures
        steps(session, event, r.0, r.1),
{
    match (session, event) {
        (Session::Idle, Event::Request { path, headers }) => {
            match route(path.as_str()) {
                Route::Placeholder => end_with(200, "empty"),
                Route::NotFound => end_with(404, ""),
                Route::Fetch(target) => {
                    let referer = find_header_text(&headers, "referer");
                    let asked = String::from_str(target.as_str());
                    (Session::Fetching { target, referer }, Action::Fetch(asked))
                },
            }
        },
        (Session::Fetching { target, referer }, Event::Fetched { headers }) => {
            let content_type = find_header_text(&headers, "content-type");
            let strategy = strategy_for(as_text(&content_type));
            match strategy {
                Strategy::PassThrough => (Session::Done, Action::Stream(headers)),
                Strategy::RewriteHtml => {
                    let kept = forward_headers(strategy, headers);
                    (Session::Reading { strategy, base: target, headers: kept }, Action::ReadBody)
                },
                Strategy::RewriteCss => {
                    let kept = forward_headers(strategy, headers);
                    let base = choose_css_base(as_text(&referer), target);
                    (Session::Reading { strategy, base, headers: kept }, Action::ReadBody)
                },
            }
        },
        (Session::Fetching { .. }, Event::FetchFailed) => end_with(200, "error when proxying"),
        (Session::Reading { strategy, base, headers }, Event::Body(body)) => {
            match rewrite_body(strategy, &base, body) {
                Ok(rewritten) => (
                    Session::Done,
                    Action::Reply(Reply { status: 200, headers, body: rewritten }),
                ),
                Err(_) => end_with(502, "error when rewriting"),
            }
        },
        _ => end_with(502, "error when rewriting"),
    }
}

/// The proxy path of a URL leads back to that URL: a request for the path has
/// exactly that URL fetched.
pub proof fn lemma_proxy_path_leads_back(
    url: AbsoluteUrl,
    headers: Seq<HeaderText>,
    next: Session,
    action: Action,
)
    requires
        url.wf(),
        on_request(proxy_path(url@), headers, next, action),
    ensures
        action matches Action::Fetch(asked) && asked@ == url@,
        next matches Session::Fetching { target, .. } && target@ == url@,
{
    lemma_proxy_path_parses_back(url);
    assert(proxy_path(url@).len() > 1);
}

/// A request for the root is answered with the placeholder and status 200:
/// nothing is fetched.
pub proof fn lemma_root_gets_placeholder(
    path: Seq<char>,
    headers: Seq<HeaderText>,
    next: Session,
    action: Action,
)
    requires
        is_root(path),
        on_request(path, headers, next, action),
    ensures
        next is Done,
        !(action is Fetch),
        action matches Action::Reply(reply) && reply@ == placeholder_reply(),
        placeholder_reply().status == 200,
{
}

/// A request whose path holds no absolute URL after its first character is
/// answered with status 404 and an empty body: nothing is fetched.
pub proof fn lemma_no_url_gets_not_found(
    path: Seq<char>,
    headers: Seq<HeaderText>,
    next: Session,
    action: Action,
)
    requires
        !is_root(path),
        url_parse(path_suffix(path)) is None,
        on_request(path, headers, next, action),
    ensures
        next is Done,
        !(action is Fetch),
        action matches Action::Reply(reply) && reply@ == not_found_reply(),
        not_found_reply().status == 404,
        not_found_reply().body.len() == 0,
{
    reveal_strlit("");
    assert(encode_utf8(""@) =~= Seq::<u8>::empty()) by {
        assert(""@ =~= Seq::<char>::empty());
        reveal_with_fuel(encode_utf8, 1);
    }
}

/// A response that is neither HTML nor a style sheet is streamed, with the
/// headers it came with, the length of the body among them.
pub proof fn lemma_other_media_are_streamed(
    target: Seq<char>,
    referer: Option<Seq<char>>,
    headers: Seq<HeaderText>,
    next: Session,
    action: Action,
)
    requires
        strategy_of_headers(headers) == Strategy::PassThrough,
        on_fetched(target, referer, headers, next, action),
    ensures
        next is Done,
        action matches Action::Stream(sent) && header_texts(sent@) == headers,
{
}

} // verus!
