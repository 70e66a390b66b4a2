//! Absolute URLs and the resolution of references against a base URL.
//!
//! Parsing and joining are done by the `url` crate, as `reqwest` hands it on.
//! A URL is kept here as its serialization, and what the parser makes of a
//! text is a named function of that text.

use crate::text::starts_with;
use reqwest::Url;
use vstd::prelude::*;
use vstd::string::*;

verus! {

/// What `Url::parse` makes of `input`: the serialization of the URL it
/// returns, or `None` where it returns an error.
pub uninterp spec fn url_parse(input: Seq<char>) -> Option<Seq<char>>;

/// What `Url::join` makes of `reference` on the URL that `Url::parse` returns
/// for `base`: the serialization of the joined URL, or `None` where either of
/// the two returns an error.
pub uninterp spec fn url_join(base: Seq<char>, reference: Seq<char>) -> Option<Seq<char>>;

/// A text is the serialization of a URL when it is not empty and parsing it
/// gives the text back.
pub open spec fn is_url_text(text: Seq<char>) -> bool {
    text.len() > 0 && url_parse(text) == Some(text)
}

/// The scheme prefix of an inline data URI.
pub open spec fn data_scheme() -> Seq<char> {
    seq!['d', 'a', 't', 'a', ':']
}

/// Whether a reference is an inline data URI.
pub open spec fn is_data_uri(reference: Seq<char>) -> bool {
    data_scheme().is_prefix_of(reference)
}

/// The absolute URL that a reference stands for in a document at `base`: the
/// reference itself where it parses as an absolute URL, else the reference
/// joined to the base.
pub open spec fn resolved(base: Seq<char>, reference: Seq<char>) -> Option<Seq<char>> {
    match url_parse(reference) {
        Some(url) => Some(url),
        None => url_join(base, reference),
    }
}

/// The path under which the proxy serves an absolute URL: a path separator,
/// then the URL.
pub open spec fn proxy_path(url: Seq<char>) -> Seq<char> {
    seq!['/'] + url
}

/// The part of a request path that names the target: all but the first
/// character.
pub open spec fn path_suffix(path: Seq<char>) -> Seq<char> {
    path.skip(1)
}

/// The value that replaces a reference found in a document at `base`: the
/// proxy path of the resolved URL. A data URI and a reference that does not
/// resolve have none.
pub open spec fn proxied_reference(base: Seq<char>, reference: Seq<char>) -> Option<Seq<char>> {
    if is_data_uri(reference) {
        None
    } else {
        match resolved(base, reference) {
            Some(url) => Some(proxy_path(url)),
            None => None,
        }
    }
}

/// Calls `Url::parse` and hands back the serialization of its result.
///
/// Trusted: the result is the named `url_parse` of the input. A serialization
/// begins with the scheme, so it is not empty, and it parses to itself: the
/// `url` crate keeps both as invariants of every `Url` (its
/// `check_invariants` asks for a scheme of one letter at least, parses
/// `as_str()` again and compares the serializations).
#[verifier::external_body]
fn parse_serialized(input: &str) -> (r: Option<String>)
    ensures
        r is Some <==> url_parse(input@) is Some,
        r matches Some(text) ==> url_parse(input@) == Some(text@) && is_url_text(text@),
{
    match Url::parse(input) {
        Ok(url) => Some(String::from(url)),
        Err(_) => None,
    }
}

/// Calls `Url::parse` on the base and `Url::join` on its result, and hands
/// back the serialization of the joined URL.
///
/// Trusted: the result is the named `url_join` of the two texts, and a
/// serialization is not empty and parses to itself, as for
/// `parse_serialized`.
#[verifier::external_body]
fn join_serialized(base: &str, reference: &str) -> (r: Option<String>)
    ensures
        r is Some <==> url_join(base@, reference@) is Some,
        r matches Some(text) ==> url_join(base@, reference@) == Some(text@) && is_url_text(text@),
{
    match Url::parse(base) {
        Ok(url) => match url.join(reference) {
            Ok(joined) => Some(String::from(joined)),
            Err(_) => None,
        },
        Err(_) => None,
    }
}

/// An absolute URL, held as its serialization.
#[derive(Debug, Clone)]
pub struct AbsoluteUrl {
    text: String,
}

impl View for AbsoluteUrl {
    type V = Seq<char>;

    closed spec fn view(&self) -> Seq<char> {
        self.text@
    }
}

impl AbsoluteUrl {
    /// The text is the serialization of a URL. Every URL that `parse` or
    /// `join` returns is so.
    pub open spec fn wf(&self) -> bool {
        is_url_text(self@)
    }

    /// Parses an absolute URL.
    pub fn parse(input: &str) -> (r: Option<AbsoluteUrl>)
        ensures
            match r {
                Some(url) => url.wf() && url_parse(input@) == Some(url@),
                None => url_parse(input@) is None,
            },
    {
        match parse_serialized(input) {
            Some(text) => Some(AbsoluteUrl { text }),
            None => None,
        }
    }

    /// Parses a reference with this URL as its base.
    pub fn join(&self, reference: &str) -> (r: Option<AbsoluteUrl>)
        ensures
            match r {
                Some(url) => url.wf() && url_join(self@, reference@) == Some(url@),
                None => url_join(self@, reference@) is None,
            },
    {
        match join_serialized(self.text.as_str(), reference) {
            Some(text) => Some(AbsoluteUrl { text }),
            None => None,
        }
    }

    /// The serialization.
    pub fn as_str(&self) -> (r: &str)
        ensures
            r@ == self@,
    {
        self.text.as_str()
    }

    /// The path under which the proxy serves this URL.
    pub fn proxy_path(&self) -> (r: String)
        ensures
            r@ == proxy_path(self@),
    {
        proof {
            reveal_strlit("/");
        }
        let path = String::from_str("/").concat(self.text.as_str());
        assert(path@ =~= proxy_path(self@));
        path
    }
}

/// Whether a reference is an inline data URI, which is never fetched.
pub fn is_data_reference(reference: &str) -> (r: bool)
    ensures
        r == is_data_uri(reference@),
{
    proof {
        reveal_strlit("data:");
    }
    assert("data:"@ =~= data_scheme());
    starts_with(reference, "data:")
}

/// Resolves a reference found in a document at `base`: an absolute reference
/// stands for itself, any other is joined to the base.
pub fn resolve(base: &AbsoluteUrl, reference: &str) -> (r: Option<AbsoluteUrl>)
    ensures
        match r {
            Some(url) => url.wf() && resolved(base@, reference@) == Some(url@),
            None => resolved(base@, reference@) is None,
        },
{
    match AbsoluteUrl::parse(reference) {
        Some(url) => Some(url),
        None => base.join(reference),
    }
}

/// The value that replaces a reference in a document at `base`, or `None`
/// where the reference is to stay as it is: a data URI, or a reference that
/// does not resolve.
pub fn proxied(base: &AbsoluteUrl, reference: &str) -> (r: Option<String>)
    ensures
        match r {
            Some(path) => proxied_reference(base@, reference@) == Some(path@),
            None => proxied_reference(base@, reference@) is None,
        },
        is_data_uri(reference@) ==> r is None,
        r matches Some(path) ==> url_parse(path_suffix(path@)) == resolved(base@, reference@),
{
    if is_data_reference(reference) {
        return None;
    }
    match resolve(base, reference) {
        Some(url) => {
            let path = url.proxy_path();
            proof {
                lemma_proxy_path_parses_back(url);
            }
            Some(path)
        },
        None => None,
    }
}

/// Stripping the separator from the proxy path of a URL and parsing what is
/// left gives that URL again.
pub proof fn lemma_proxy_path_parses_back(url: AbsoluteUrl)
    requires
        url.wf(),
    ensures
        path_suffix(proxy_path(url@)) == url@,
        url_parse(path_suffix(proxy_path(url@))) == Some(url@),
{
    assert(path_suffix(proxy_path(url@)) =~= url@);
}

} // verus!
