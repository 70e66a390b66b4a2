//! The choice of what is done with a fetched response, by its media type, and
//! the rewriting of a body that was read in full.

use crate::css::{css_rewritten, replace_css};
use crate::html::{html_rewrite, proxy_rules, rewrite_html};
use crate::resolve::{url_parse, AbsoluteUrl};
use crate::text::{
    ascii_lower, before, prefix_before, same_text, same_text_ignoring_case, text_of,
    text_of_str,
};
use vstd::prelude::*;
use vstd::string::*;
use vstd::utf8::{decode_utf8, encode_utf8, valid_utf8};

verus! {

/// A header of a response: its name and the bytes of its value.
#[derive(Debug, Clone)]
pub struct Header {
    pub name: String,
    pub value: Vec<u8>,
}

/// The name and the value of a header.
pub struct HeaderText {
    pub name: Seq<char>,
    pub value: Seq<u8>,
}

impl View for Header {
    type V = HeaderText;

    open spec fn view(&self) -> HeaderText {
        HeaderText { name: self.name@, value: self.value@ }
    }
}

/// The names and values of a list of headers.
pub open spec fn header_texts(headers: Seq<Header>) -> Seq<HeaderText> {
    headers.map_values(|h: Header| h@)
}

/// What is done with the body of a fetched response.
#[derive(Debug, Clone, Copy, PartialEq, Eq, Structural)]
pub enum Strategy {
    /// The body is read in full and its HTML is rewritten.
    RewriteHtml,
    /// The body is read in full and its style sheet is rewritten.
    RewriteCss,
    /// The body is handed on as it comes.
    PassThrough,
}

/// The media type that a `Content-Type` value declares: the value up to its
/// first semicolon.
pub open spec fn simple_media_type(content_type: Seq<char>) -> Seq<char> {
    before(content_type, ';')
}

/// The strategy for a media type.
pub open spec fn strategy_of_media(media_type: Seq<char>) -> Strategy {
    if media_type == "text/html"@ {
        Strategy::RewriteHtml
    } else if media_type == "text/css"@ {
        Strategy::RewriteCss
    } else {
        Strategy::PassThrough
    }
}

/// The strategy for a response with the given `Content-Type` value, if it
/// has one.
pub open spec fn strategy_of(content_type: Option<Seq<char>>) -> Strategy {
    match content_type {
        Some(value) => strategy_of_media(simple_media_type(value)),
        None => Strategy::PassThrough,
    }
}

/// Whether a header gives the length of the body.
pub open spec fn is_content_length(name: Seq<char>) -> bool {
    ascii_lower(name) == ascii_lower("content-length"@)
}

/// The headers that go on to the client: all of them where the body is handed
/// on as it comes; all but the length of the body where it is rewritten.
pub open spec fn forwarded(strategy: Strategy, headers: Seq<HeaderText>) -> Seq<HeaderText> {
    match strategy {
        Strategy::PassThrough => headers,
        _ => headers.filter(|h: HeaderText| !is_content_length(h.name)),
    }
}

/// The base against which the references of a style sheet are resolved: the
/// referring document where the request names one that parses, else the
/// target itself.
pub open spec fn css_base(referer: Option<Seq<char>>, target: Seq<char>) -> Seq<char> {
    match referer {
        Some(text) => match url_parse(text) {
            Some(url) => url,
            None => target,
        },
        None => target,
    }
}

/// Whether a byte of a header value is visible ASCII or a tab.
pub open spec fn is_visible(b: u8) -> bool {
    (32 <= b && b < 127) || b == 9
}

/// Whether a header value is made of visible ASCII and tabs alone.
pub open spec fn is_visible_text(value: Seq<u8>) -> bool {
    forall|i: int| 0 <= i < value.len() ==> is_visible(#[trigger] value[i])
}

/// The characters that ASCII bytes stand for, one for each byte.
pub open spec fn ascii_text(bytes: Seq<u8>) -> Seq<char> {
    Seq::new(bytes.len(), |i: int| bytes[i] as char)
}

/// The text of a header value: it has one where it is made of visible ASCII
/// and tabs alone.
pub open spec fn text_value(value: Seq<u8>) -> Option<Seq<char>> {
    if is_visible_text(value) {
        Some(ascii_text(value))
    } else {
        None
    }
}

/// ASCII bytes are UTF-8, and read as UTF-8 each of them is one character.
pub proof fn lemma_ascii_is_utf8(bytes: Seq<u8>)
    requires
        forall|i: int| 0 <= i < bytes.len() ==> #[trigger] bytes[i] <= 0x7f,
    ensures
        valid_utf8(bytes),
        decode_utf8(bytes) == ascii_text(bytes),
    decreases bytes.len(),
{
    if bytes.len() > 0 {
        let first = bytes[0];
        let rest = bytes.subrange(1, bytes.len() as int);
        assert(first <= 0x7f);
        assert(first & 0x7f == first) by (bit_vector)
            requires
                first <= 0x7f,
        ;
        assert(vstd::utf8::valid_first_scalar(bytes));
        assert(vstd::utf8::pop_first_scalar(bytes) == rest);
        assert forall|i: int| 0 <= i < rest.len() implies #[trigger] rest[i] <= 0x7f by {
            assert(rest[i] == bytes[i + 1]);
        }
        lemma_ascii_is_utf8(rest);
        assert(decode_utf8(bytes) =~= ascii_text(bytes));
    } else {
        assert(decode_utf8(bytes) =~= ascii_text(bytes));
    }
}

/// Whether two header names are the same: the case of letters does not count.
pub open spec fn same_name(a: Seq<char>, b: Seq<char>) -> bool {
    ascii_lower(a) == ascii_lower(b)
}

/// The value of the first header of a name.
pub open spec fn header_value(headers: Seq<HeaderText>, name: Seq<char>) -> Option<Seq<u8>>
    decreases headers.len(),
{
    if headers.len() == 0 {
        None
    } else if same_name(headers[0].name, name) {
        Some(headers[0].value)
    } else {
        header_value(headers.skip(1), name)
    }
}

/// The text of the first header of a name, where its value is text.
pub open spec fn header_text(headers: Seq<HeaderText>, name: Seq<char>) -> Option<Seq<char>> {
    match header_value(headers, name) {
        Some(value) => text_value(value),
        None => None,
    }
}

/// The strategy for a response with the given headers.
pub open spec fn strategy_of_headers(headers: Seq<HeaderText>) -> Strategy {
    strategy_of(header_text(headers, "content-type"@))
}

/// The text of a header value, where it is made of visible ASCII and tabs
/// alone.
pub fn value_as_text(value: &Vec<u8>) -> (r: Option<String>)
    ensures
        text_of(r) == text_value(value@),
{
    let mut i: usize = 0;
    while i < value.len()
        invariant
            i <= value.len(),
            forall|j: int| 0 <= j < i ==> is_visible(#[trigger] value@[j]),
        decreases value.len() - i,
    {
        let b = value[i];
        if !((32 <= b && b < 127) || b == 9) {
            return None;
        }
        i += 1;
    }
    proof {
        assert forall|j: int| 0 <= j < value@.len() implies #[trigger] value@[j] <= 0x7f by {
            assert(is_visible(value@[j]));
        }
        lemma_ascii_is_utf8(value@);
    }
    match decode_body(value.clone()) {
        Ok(text) => Some(text),
        Err(_) => None,
    }
}

/// The text of the first header of a name, where its value is text.
pub fn find_header_text(headers: &Vec<Header>, name: &str) -> (r: Option<String>)
    ensures
        text_of(r) == header_text(header_texts(headers@), name@),
{
    let ghost all = header_texts(headers@);
    let mut i: usize = 0;
    assert(all.skip(0) =~= all);
    while i < headers.len()
        invariant
            i <= headers.len(),
            all == header_texts(headers@),
            header_value(all, name@) == header_value(all.skip(i as int), name@),
        decreases headers.len() - i,
    {
        let header = &headers[i];
        assert(all.skip(i as int)[0] == header@);
        assert(all.skip(i as int).skip(1) =~= all.skip(i + 1));
        if same_text_ignoring_case(header.name.as_str(), name) {
            return value_as_text(&header.value);
        }
        i += 1;
    }
    None
}

/// The media type that a `Content-Type` value declares.
pub fn simple_content_type(content_type: &str) -> (r: String)
    ensures
        r@ == simple_media_type(content_type@),
{
    prefix_before(content_type, ';')
}

/// Chooses the strategy for a response by its `Content-Type` value.
pub fn strategy_for(content_type: Option<&str>) -> (r: Strategy)
    ensures
        r == strategy_of(text_of_str(content_type)),
{
    match content_type {
        Some(value) => {
            let media = simple_content_type(value);
            if same_text(media.as_str(), "text/html") {
                Strategy::RewriteHtml
            } else if same_text(media.as_str(), "text/css") {
                Strategy::RewriteCss
            } else {
                Strategy::PassThrough
            }
        },
        None => Strategy::PassThrough,
    }
}

/// Picks the headers that go on to the client.
pub fn forward_headers(strategy: Strategy, headers: Vec<Header>) -> (r: Vec<Header>)
    ensures
        header_texts(r@) == forwarded(strategy, header_texts(headers@)),
{
    match strategy {
        Strategy::PassThrough => headers,
        _ => {
            let ghost all = header_texts(headers@);
            let ghost keep = |h: HeaderText| !is_content_length(h.name);
            let mut out: Vec<Header> = Vec::new();
            let mut i: usize = 0;
            assert(all.take(0).filter(keep) =~= Seq::<HeaderText>::empty()) by {
                reveal(Seq::filter);
            }
            while i < headers.len()
                invariant
                    i <= headers.len(),
                    all == header_texts(headers@),
                    keep == |h: HeaderText| !is_content_length(h.name),
                    header_texts(out@) == all.take(i as int).filter(keep),
                decreases headers.len() - i,
            {
                let header = &headers[i];
                let ghost seen = all.take(i as int);
                let ghost kept = header_texts(out@);
                assert(all.take(i + 1).drop_last() =~= seen);
                assert(all.take(i + 1).last() == header@);
                assert(all.take(i + 1).filter(keep) == if keep(header@) {
                    seen.filter(keep).push(header@)
                } else {
                    seen.filter(keep)
                }) by {
                    reveal(Seq::filter);
                }
                if !same_text_ignoring_case(header.name.as_str(), "content-length") {
                    out.push(Header { name: header.name.clone(), value: header.value.clone() });
                    assert(header_texts(out@) =~= kept.push(header@));
                }
                i += 1;
            }
            assert(all.take(i as int) =~= all);
            out
        },
    }
}

/// Picks the base for the references of a style sheet.
pub fn choose_css_base(referer: Option<&str>, target: AbsoluteUrl) -> (r: AbsoluteUrl)
    ensures
        r@ == css_base(text_of_str(referer), target@),
        target.wf() ==> r.wf(),
{
    match referer {
        Some(text) => match AbsoluteUrl::parse(text) {
            Some(url) => url,
            None => target,
        },
        None => target,
    }
}

/// Why a body that was to be rewritten has no rewritten form.
#[derive(Debug, Clone, Copy, PartialEq, Eq, Structural)]
pub enum BodyError {
    /// The body is not UTF-8.
    InvalidUtf8,
    /// The rewriter gave the document up.
    RewriteFailed,
}

/// The body that goes on to the client. A body that is handed on stays as it
/// is, byte for byte. A body that is rewritten is read as UTF-8, rewritten
/// against `base` as HTML or as a style sheet, and written as UTF-8 again.
pub open spec fn body_rewritten(strategy: Strategy, base: Seq<char>, body: Seq<u8>) -> Result<
    Seq<u8>,
    BodyError,
> {
    match strategy {
        Strategy::PassThrough => Ok(body),
        Strategy::RewriteHtml => if !valid_utf8(body) {
            Err(BodyError::InvalidUtf8)
        } else {
            match html_rewrite(decode_utf8(body), proxy_rules(), base) {
                Some(out) => Ok(encode_utf8(out)),
                None => Err(BodyError::RewriteFailed),
            }
        },
        Strategy::RewriteCss => if !valid_utf8(body) {
            Err(BodyError::InvalidUtf8)
        } else {
            Ok(encode_utf8(css_rewritten(base, decode_utf8(body))))
        },
    }
}

/// The bytes of an optional body.
pub open spec fn bytes_of(r: Result<Vec<u8>, BodyError>) -> Result<Seq<u8>, BodyError> {
    match r {
        Ok(body) => Ok(body@),
        Err(e) => Err(e),
    }
}

/// Calls `String::from_utf8`.
///
/// Trusted: it returns a string exactly where the bytes are UTF-8, and the
/// string then holds those bytes.
#[verifier::external_body]
fn string_from_utf8(bytes: Vec<u8>) -> (r: Option<String>)
    ensures
        r is Some <==> valid_utf8(bytes@),
        r matches Some(text) ==> encode_utf8(text@) == bytes@,
{
    String::from_utf8(bytes).ok()
}

/// Reads a body as UTF-8 text.
pub fn decode_body(body: Vec<u8>) -> (r: Result<String, BodyError>)
    ensures
        match r {
            Ok(text) => valid_utf8(body@) && text@ == decode_utf8(body@),
            Err(e) => !valid_utf8(body@) && e == BodyError::InvalidUtf8,
        },
{
    match string_from_utf8(body) {
        Some(text) => {
            proof {
                vstd::utf8::encode_utf8_decode_utf8(text@);
            }
            Ok(text)
        },
        None => Err(BodyError::InvalidUtf8),
    }
}

/// Makes of the body of a fetched response the body that goes on to the
/// client.
pub fn rewrite_body(strategy: Strategy, base: &AbsoluteUrl, body: Vec<u8>) -> (r: Result<
    Vec<u8>,
    BodyError,
>)
    ensures
        bytes_of(r) == body_rewritten(strategy, base@, body@),
{
    match strategy {
        Strategy::PassThrough => Ok(body),
        Strategy::RewriteHtml => {
            let text = match decode_body(body) {
                Ok(text) => text,
                Err(e) => {
                    return Err(e);
                },
            };
            match rewrite_html(base, text.as_str()) {
                Ok(out) => Ok(out.as_str().as_bytes_vec()),
                Err(_) => Err(BodyError::RewriteFailed),
            }
        },
        Strategy::RewriteCss => {
            let text = match decode_body(body) {
                Ok(text) => text,
                Err(e) => {
                    return Err(e);
                },
            };
            Ok(replace_css(base, text.as_str()).as_str().as_bytes_vec())
        },
    }
}

/// A response whose media type is neither HTML nor a style sheet goes on as
/// it came: with every header, the length of the body among them, and with
/// every byte of the body.
pub proof fn lemma_other_media_pass_unchanged(
    content_type: Option<Seq<char>>,
    headers: Seq<HeaderText>,
    base: Seq<char>,
    body: Seq<u8>,
)
    requires
        content_type matches Some(value) ==> simple_media_type(value) != "text/html"@
            && simple_media_type(value) != "text/css"@,
    ensures
        strategy_of(content_type) == Strategy::PassThrough,
        forwarded(strategy_of(content_type), headers) == headers,
        body_rewritten(strategy_of(content_type), base, body) == Ok::<Seq<u8>, BodyError>(body),
{
}

} // verus!
