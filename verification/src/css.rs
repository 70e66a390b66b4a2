//! Rewriting of the `url(...)` tokens of a style sheet.
//!
//! The tokens are found by the `regex` crate. What it finds is a named
//! function of the pattern and the text; the choice of the reference inside a
//! token, its resolution and the assembly of the new text are done here.

use crate::resolve::{url_join, AbsoluteUrl};
use crate::text::text_of;
use regex::Regex;
use vstd::prelude::*;
use vstd::string::*;

verus! {

/// The pattern of a `url(...)` token. The reference inside it is captured by
/// group 1 where it stands in double quotes, by group 2 where it stands in
/// single quotes, and by group 3 where it stands bare.
pub const URL_TOKEN_PATTERN: &'static str = "url\\((?:\"(.+?)\"|'(.+?)'|(.+?))\\)";

/// One match of the token pattern: the matched text and what each of the three
/// groups captured.
#[derive(Debug, Clone)]
pub struct TokenCapture {
    pub whole: String,
    pub double_quoted: Option<String>,
    pub single_quoted: Option<String>,
    pub unquoted: Option<String>,
}

/// The texts of a `TokenCapture`.
pub struct TokenText {
    pub whole: Seq<char>,
    pub double_quoted: Option<Seq<char>>,
    pub single_quoted: Option<Seq<char>>,
    pub unquoted: Option<Seq<char>>,
}

impl View for TokenCapture {
    type V = TokenText;

    open spec fn view(&self) -> TokenText {
        TokenText {
            whole: self.whole@,
            double_quoted: text_of(self.double_quoted),
            single_quoted: text_of(self.single_quoted),
            unquoted: text_of(self.unquoted),
        }
    }
}

/// The text of an optional borrowed string.
pub open spec fn text_of_ref(s: Option<&String>) -> Option<Seq<char>> {
    match s {
        Some(s) => Some(s@),
        None => None,
    }
}

/// The texts of a list of strings.
pub open spec fn texts(v: Seq<String>) -> Seq<Seq<char>> {
    v.map_values(|s: String| s@)
}

/// The texts of a list of captures.
pub open spec fn token_texts(v: Seq<TokenCapture>) -> Seq<TokenText> {
    v.map_values(|t: TokenCapture| t@)
}

/// The matched text of each capture.
pub open spec fn wholes(tokens: Seq<TokenText>) -> Seq<Seq<char>> {
    tokens.map_values(|t: TokenText| t.whole)
}

/// What `Regex::captures_iter` yields for the regex that `Regex::new` builds
/// from `pattern`: its successive non-overlapping matches in `haystack`, each
/// with what groups 1 to 3 captured. `None` where `Regex::new` returns an
/// error.
pub uninterp spec fn regex_captures(pattern: Seq<char>, haystack: Seq<char>) -> Option<
    Seq<TokenText>,
>;

/// What `Regex::split` yields for the regex that `Regex::new` builds from
/// `pattern`: the parts of `haystack` that lie between its matches. `None`
/// where `Regex::new` returns an error.
pub uninterp spec fn regex_split(pattern: Seq<char>, haystack: Seq<char>) -> Option<
    Seq<Seq<char>>,
>;

/// The pieces and the fillings laid end to end in turn, beginning with a
/// piece: `pieces[0] + fillings[0] + pieces[1] + ...`, up to the first piece
/// that has no filling after it.
pub open spec fn weave(pieces: Seq<Seq<char>>, fillings: Seq<Seq<char>>) -> Seq<char>
    decreases pieces.len(),
{
    if pieces.len() == 0 {
        Seq::empty()
    } else if fillings.len() == 0 {
        pieces[0]
    } else {
        pieces[0] + fillings[0] + weave(pieces.skip(1), fillings.skip(1))
    }
}

/// The reference inside a token: what the double-quoted form captured, else
/// the single-quoted form, else the bare form.
pub open spec fn token_reference(token: TokenText) -> Option<Seq<char>> {
    match token.double_quoted {
        Some(inner) => Some(inner),
        None => match token.single_quoted {
            Some(inner) => Some(inner),
            None => token.unquoted,
        },
    }
}

/// The URL that the reference of a token resolves to against `root`.
pub open spec fn token_target(root: Seq<char>, token: TokenText) -> Option<Seq<char>> {
    match token_reference(token) {
        Some(inner) => url_join(root, inner),
        None => None,
    }
}

/// A `url(...)` token around a URL, without quotes.
pub open spec fn url_token(url: Seq<char>) -> Seq<char> {
    seq!['u', 'r', 'l', '('] + url + seq![')']
}

/// The text that takes the place of a token: a token around the resolved URL,
/// or the token as it was where its reference does not resolve.
pub open spec fn token_replacement(root: Seq<char>, token: TokenText) -> Seq<char> {
    match token_target(root, token) {
        Some(url) => url_token(url),
        None => token.whole,
    }
}

/// The replacement of each token.
pub open spec fn token_replacements(root: Seq<char>, tokens: Seq<TokenText>) -> Seq<Seq<char>> {
    tokens.map_values(|t: TokenText| token_replacement(root, t))
}

/// A style sheet with each `url(...)` token replaced.
pub open spec fn css_rewritten(root: Seq<char>, css: Seq<char>) -> Seq<char> {
    match (regex_captures(URL_TOKEN_PATTERN@, css), regex_split(URL_TOKEN_PATTERN@, css)) {
        (Some(tokens), Some(pieces)) => weave(pieces, token_replacements(root, tokens)),
        _ => css,
    }
}

/// Calls `Regex::new` on the pattern and `Regex::captures_iter` on the text,
/// and copies the matched text and the three groups out of each `Captures`.
///
/// Trusted: the result is the named `regex_captures` of pattern and text.
#[verifier::external_body]
fn capture_tokens(pattern: &str, text: &str) -> (r: Option<Vec<TokenCapture>>)
    ensures
        r is Some <==> regex_captures(pattern@, text@) is Some,
        r matches Some(tokens) ==> regex_captures(pattern@, text@) == Some(token_texts(tokens@)),
{
    match Regex::new(pattern) {
        Ok(re) => Some(
            re.captures_iter(text).map(
                |c| TokenCapture {
                    whole: c[0].to_owned(),
                    double_quoted: c.get(1).map(|m| m.as_str().to_owned()),
                    single_quoted: c.get(2).map(|m| m.as_str().to_owned()),
                    unquoted: c.get(3).map(|m| m.as_str().to_owned()),
                },
            ).collect(),
        ),
        Err(_) => None,
    }
}

/// Calls `Regex::new` on the pattern and `Regex::split` on the text, and
/// copies the parts out.
///
/// Trusted: the result is the named `regex_split` of pattern and text. The
/// parts are those between the matches that `captures_iter` yields, with the
/// part before the first and the part after the last: one more than there are
/// matches, and woven with the matched texts they give the text again.
#[verifier::external_body]
fn split_around_tokens(pattern: &str, text: &str) -> (r: Option<Vec<String>>)
    ensures
        r is Some <==> regex_split(pattern@, text@) is Some,
        r is Some <==> regex_captures(pattern@, text@) is Some,
        r matches Some(pieces) ==> {
            &&& regex_split(pattern@, text@) == Some(texts(pieces@))
            &&& regex_captures(pattern@, text@) matches Some(tokens)
            &&& pieces@.len() == tokens.len() + 1
            &&& weave(texts(pieces@), wholes(tokens)) == text@
        },
{
    match Regex::new(pattern) {
        Ok(re) => Some(re.split(text).map(|part| part.to_owned()).collect()),
        Err(_) => None,
    }
}

/// The reference inside a token, by the precedence of the three forms.
pub fn reference_of(token: &TokenCapture) -> (r: Option<&String>)
    ensures
        text_of_ref(r) == token_reference(token@),
{
    match &token.double_quoted {
        Some(inner) => Some(inner),
        None => match &token.single_quoted {
            Some(inner) => Some(inner),
            None => match &token.unquoted {
                Some(inner) => Some(inner),
                None => None,
            },
        },
    }
}

/// The text that takes the place of one token.
pub fn replace_token(root: &AbsoluteUrl, token: &TokenCapture) -> (r: String)
    ensures
        r@ == token_replacement(root@, token@),
{
    let target = match reference_of(token) {
        Some(inner) => root.join(inner.as_str()),
        None => None,
    };
    match target {
        Some(url) => {
            proof {
                reveal_strlit("url(");
                reveal_strlit(")");
            }
            let replaced = String::from_str("url(").concat(url.as_str()).concat(")");
            assert(replaced@ =~= url_token(url@));
            replaced
        },
        None => token.whole.clone(),
    }
}

/// Lays pieces and fillings end to end in turn.
pub fn weave_strings(pieces: &Vec<String>, fillings: &Vec<String>) -> (r: String)
    ensures
        r@ == weave(texts(pieces@), texts(fillings@)),
{
    let ghost p = texts(pieces@);
    let ghost f = texts(fillings@);
    let mut out = String::new();
    let mut i: usize = 0;
    assert(p.skip(0) =~= p && f.skip(0) =~= f);
    assert(out@ + weave(p, f) =~= weave(p, f));
    while i < pieces.len() && i < fillings.len()
        invariant
            p == texts(pieces@),
            f == texts(fillings@),
            i <= pieces.len(),
            i <= fillings.len(),
            out@ + weave(p.skip(i as int), f.skip(i as int)) == weave(p, f),
        decreases pieces.len() - i,
    {
        let ghost before = out@;
        let ghost rest_p = p.skip(i as int);
        let ghost rest_f = f.skip(i as int);
        assert(rest_p[0] == pieces@[i as int]@ && rest_f[0] == fillings@[i as int]@);
        assert(rest_p.skip(1) =~= p.skip(i + 1) && rest_f.skip(1) =~= f.skip(i + 1));
        out.append(pieces[i].as_str());
        out.append(fillings[i].as_str());
        assert(out@ + weave(p.skip(i + 1), f.skip(i + 1)) =~= before + weave(rest_p, rest_f));
        i += 1;
    }
    if i < pieces.len() {
        let ghost before = out@;
        assert(p.skip(i as int)[0] == pieces@[i as int]@);
        out.append(pieces[i].as_str());
        assert(out@ =~= before + weave(p.skip(i as int), f.skip(i as int)));
    } else {
        assert(out@ =~= out@ + weave(p.skip(i as int), f.skip(i as int)));
    }
    out
}

/// The replacement of each token, in order.
pub fn replace_tokens(root: &AbsoluteUrl, tokens: &Vec<TokenCapture>) -> (r: Vec<String>)
    ensures
        texts(r@) == token_replacements(root@, token_texts(tokens@)),
{
    let mut out: Vec<String> = Vec::new();
    let mut i: usize = 0;
    while i < tokens.len()
        invariant
            i <= tokens.len(),
            out@.len() == i,
            forall|j: int|
                0 <= j < i ==> (#[trigger] out@[j])@ == token_replacement(root@, tokens@[j]@),
        decreases tokens.len() - i,
    {
        out.push(replace_token(root, &tokens[i]));
        i += 1;
    }
    assert(texts(out@) =~= token_replacements(root@, token_texts(tokens@)));
    out
}

/// Rewrites a style sheet found at `root`: each `url(...)` token whose
/// reference resolves against `root` becomes a token around the resolved URL,
/// and all other text stays as it is. A style sheet in which no token
/// resolves comes back unchanged.
pub fn replace_css(root: &AbsoluteUrl, css_str: &str) -> (r: String)
    ensures
        r@ == css_rewritten(root@, css_str@),
        regex_captures(URL_TOKEN_PATTERN@, css_str@) matches Some(tokens) ==> (forall|i: int|
            0 <= i < tokens.len() ==> token_target(root@, #[trigger] tokens[i]) is None) ==> r@
            == css_str@,
{
    let tokens = match capture_tokens(URL_TOKEN_PATTERN, css_str) {
        Some(tokens) => tokens,
        None => {
            return css_str.to_owned();
        },
    };
    let pieces = match split_around_tokens(URL_TOKEN_PATTERN, css_str) {
        Some(pieces) => pieces,
        None => {
            return css_str.to_owned();
        },
    };
    let fillings = replace_tokens(root, &tokens);
    proof {
        let t = token_texts(tokens@);
        if forall|i: int| 0 <= i < t.len() ==> token_target(root@, #[trigger] t[i]) is None {
            lemma_unresolved_tokens_unchanged(root@, texts(pieces@), t);
        }
    }
    weave_strings(&pieces, &fillings)
}

/// Where the reference of no token resolves, each token is replaced by
/// itself, so that the rewritten text is the pieces woven with the tokens as
/// they were.
pub proof fn lemma_unresolved_tokens_unchanged(
    root: Seq<char>,
    pieces: Seq<Seq<char>>,
    tokens: Seq<TokenText>,
)
    requires
        forall|i: int| 0 <= i < tokens.len() ==> token_target(root, #[trigger] tokens[i]) is None,
    ensures
        token_replacements(root, tokens) == wholes(tokens),
        weave(pieces, token_replacements(root, tokens)) == weave(pieces, wholes(tokens)),
{
    assert(token_replacements(root, tokens) =~= wholes(tokens));
}

} // verus!
