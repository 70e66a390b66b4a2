//! Rewriting of the references that the start tags of an HTML document carry.
//!
//! The document is read and written by `lol_html`, which calls back for each
//! element that matches a rule. What is done to such an element is decided
//! here.

use crate::resolve::{is_data_uri, proxied, proxied_reference, AbsoluteUrl};
use crate::text::ascii_lower;
use lol_html::errors::AttributeNameError;
use lol_html::html_content::Element;
use lol_html::{rewrite_str, ElementContentHandlers, RewriteStrSettings, Selector};
use std::borrow::Cow;
use vstd::prelude::*;
use vstd::string::*;
use vstd::utf8::is_ascii_chars;

verus! {

/// `lol_html`'s element: a start tag whose attributes a handler may read and
/// change.
#[verifier::external_type_specification]
#[verifier::external_body]
pub struct ExElement<'r, 't>(Element<'r, 't>);

/// `lol_html`'s error for an attribute name that cannot be written.
#[verifier::external_type_specification]
#[verifier::external_body]
pub struct ExAttributeNameError(AttributeNameError);

/// The attributes that an element holds, as `Element::attributes` lists them:
/// each name in lower case, with the value of the first attribute of that
/// name.
pub uninterp spec fn element_attributes(el: &Element) -> Map<Seq<char>, Seq<char>>;

/// The value that a map holds for a key, if any.
pub open spec fn lookup(attributes: Map<Seq<char>, Seq<char>>, name: Seq<char>) -> Option<
    Seq<char>,
> {
    if attributes.contains_key(name) {
        Some(attributes[name])
    } else {
        None
    }
}

/// Two maps hold the same keys, and the same value for every key but `name`.
pub open spec fn only_changes(
    before: Map<Seq<char>, Seq<char>>,
    after: Map<Seq<char>, Seq<char>>,
    name: Seq<char>,
) -> bool {
    &&& after.dom() == before.dom()
    &&& forall|other: Seq<char>|
        other != name && before.contains_key(other) ==> #[trigger] after[other] == before[other]
}

/// Calls `Element::get_attribute`.
///
/// Trusted: it returns the value of the first attribute whose name is the
/// given one in lower case, and `None` where the element has none.
#[verifier::external_body]
fn attribute_of(el: &Element, name: &str) -> (r: Option<String>)
    ensures
        r is Some <==> element_attributes(el).contains_key(ascii_lower(name@)),
        r matches Some(value) ==> value@ == element_attributes(el)[ascii_lower(name@)],
{
    el.get_attribute(name)
}

/// Calls `Element::set_attribute`.
///
/// Trusted: an error leaves the attributes as they were. On an element that
/// holds an attribute of that name there is no error, and that attribute is
/// the only one that changes. It then holds the given value as the
/// document's encoding keeps it, which for an ASCII value is the value
/// itself: `lol_html` takes ASCII-compatible encodings only.
#[verifier::external_body]
fn set_attribute_of(el: &mut Element, name: &str, value: &str) -> (r: Result<
    (),
    AttributeNameError,
>)
    ensures
        r is Err ==> element_attributes(final(el)) == element_attributes(old(el)),
        element_attributes(old(el)).contains_key(ascii_lower(name@)) ==> r is Ok && only_changes(
            element_attributes(old(el)),
            element_attributes(final(el)),
            ascii_lower(name@),
        ),
        element_attributes(old(el)).contains_key(ascii_lower(name@)) && is_ascii_chars(value@)
            ==> element_attributes(final(el))[ascii_lower(name@)] == value@,
{
    el.set_attribute(name, value)
}

/// What rewriting the attribute `name` against `base` makes of the attributes
/// of an element. Where the element holds the attribute and its value has a
/// proxied form, that attribute alone changes, and to that form; else nothing
/// changes.
pub open spec fn attribute_rewritten(
    before: Map<Seq<char>, Seq<char>>,
    after: Map<Seq<char>, Seq<char>>,
    name: Seq<char>,
    base: Seq<char>,
) -> bool {
    match lookup(before, name) {
        Some(value) => match proxied_reference(base, value) {
            Some(path) => {
                &&& only_changes(before, after, name)
                &&& is_ascii_chars(path) ==> after[name] == path
            },
            None => after == before,
        },
        None => after == before,
    }
}

/// The value that is to replace the attribute `name` of an element, if any.
pub open spec fn attribute_target(
    attributes: Map<Seq<char>, Seq<char>>,
    name: Seq<char>,
    base: Seq<char>,
) -> Option<Seq<char>> {
    match lookup(attributes, name) {
        Some(value) => proxied_reference(base, value),
        None => None,
    }
}

/// Handles one element that a rule matched: where it carries the attribute,
/// and the value is no data URI and resolves against `base`, the value is
/// replaced by the proxy path of the resolved URL. In every other case the
/// element is left as it is.
pub fn rewrite_attribute(el: &mut Element, attribute: &str, base: &AbsoluteUrl)
    ensures
        attribute_rewritten(
            element_attributes(old(el)),
            element_attributes(final(el)),
            ascii_lower(attribute@),
            base@,
        ),
        attribute_target(element_attributes(old(el)), ascii_lower(attribute@), base@) is None
            ==> *final(el) == *old(el),
        lookup(element_attributes(old(el)), ascii_lower(attribute@)) matches Some(value)
            ==> is_data_uri(value) ==> *final(el) == *old(el),
{
    match attribute_of(el, attribute) {
        Some(value) => {
            match proxied(base, value.as_str()) {
                Some(path) => {
                    let _ = set_attribute_of(el, attribute, path.as_str());
                },
                None => {},
            }
        },
        None => {},
    }
}

/// A rule of the rewriter: on each element that the selector matches, the
/// attribute is rewritten.
#[derive(Debug, Clone)]
pub struct ElementRule {
    pub selector: String,
    pub attribute: String,
}

/// The selector for the elements of a tag that carry an attribute.
pub open spec fn selector_text(tag: Seq<char>, attribute: Seq<char>) -> Seq<char> {
    tag + seq!['['] + attribute + seq![']']
}

impl ElementRule {
    /// The rule for an attribute of the elements of a tag.
    pub fn new(tag: &str, attribute: &str) -> (r: ElementRule)
        ensures
            r.selector@ == selector_text(tag@, attribute@),
            r.attribute@ == attribute@,
    {
        proof {
            reveal_strlit("[");
            reveal_strlit("]");
        }
        let selector = String::from_str(tag).concat("[").concat(attribute).concat("]");
        assert(selector@ =~= selector_text(tag@, attribute@));
        ElementRule { selector, attribute: String::from_str(attribute) }
    }
}

/// The selector and the attribute of each rule.
pub open spec fn rule_texts(rules: Seq<ElementRule>) -> Seq<(Seq<char>, Seq<char>)> {
    rules.map_values(|rule: ElementRule| (rule.selector@, rule.attribute@))
}

/// The rules of the proxy: the source of a script and of an image, the target
/// of a link element and of an anchor.
pub open spec fn proxy_rules() -> Seq<(Seq<char>, Seq<char>)> {
    seq![
        (selector_text("script"@, "src"@), "src"@),
        (selector_text("link"@, "href"@), "href"@),
        (selector_text("img"@, "src"@), "src"@),
        (selector_text("a"@, "href"@), "href"@),
    ]
}

/// What `rewrite_str` returns for a document when, for each rule in turn, the
/// elements that the rule's selector matches are handled by
/// `rewrite_attribute` with the rule's attribute and `base`. `None` where a
/// selector does not parse or `rewrite_str` returns an error.
pub uninterp spec fn html_rewrite(
    html: Seq<char>,
    rules: Seq<(Seq<char>, Seq<char>)>,
    base: Seq<char>,
) -> Option<Seq<char>>;

/// Parses the selector of each rule, gives each a handler that runs
/// `rewrite_attribute`, and calls `rewrite_str` on the document.
///
/// Trusted: the result is the named `html_rewrite` of the document, the rules
/// and the base.
#[verifier::external_body]
fn rewrite_elements(html: &str, rules: &Vec<ElementRule>, base: &AbsoluteUrl) -> (r: Option<String>)
    ensures
        r is Some <==> html_rewrite(html@, rule_texts(rules@), base@) is Some,
        r matches Some(out) ==> html_rewrite(html@, rule_texts(rules@), base@) == Some(out@),
{
    let mut handlers = Vec::new();
    for rule in rules.iter() {
        let selector = match rule.selector.parse::<Selector>() {
            Ok(selector) => selector,
            Err(_) => return None,
        };
        let handler = ElementContentHandlers::default().element(
            move |el: &mut Element| Ok(rewrite_attribute(el, rule.attribute.as_str(), base)),
        );
        handlers.push((Cow::Owned(selector), handler));
    }
    let settings = RewriteStrSettings { element_content_handlers: handlers, ..Default::default() };
    rewrite_str(html, settings).ok()
}

/// The rules of the proxy.
pub fn rewrite_rules() -> (r: Vec<ElementRule>)
    ensures
        rule_texts(r@) == proxy_rules(),
{
    let mut rules: Vec<ElementRule> = Vec::new();
    rules.push(ElementRule::new("script", "src"));
    rules.push(ElementRule::new("link", "href"));
    rules.push(ElementRule::new("img", "src"));
    rules.push(ElementRule::new("a", "href"));
    assert(rule_texts(rules@) =~= proxy_rules());
    rules
}

/// The document could not be rewritten.
#[derive(Debug, Clone, Copy, PartialEq, Eq, Structural)]
pub struct RewriteFailed;

/// Rewrites an HTML document found at `base`: the references that the rules
/// name are replaced by their proxy paths, by `lol_html`.
pub fn rewrite_html(base: &AbsoluteUrl, html: &str) -> (r: Result<String, RewriteFailed>)
    ensures
        match r {
            Ok(out) => html_rewrite(html@, proxy_rules(), base@) == Some(out@),
            Err(_) => html_rewrite(html@, proxy_rules(), base@) is None,
        },
{
    let rules = rewrite_rules();
    match rewrite_elements(html, &rules, base) {
        Some(out) => Ok(out),
        None => Err(RewriteFailed),
    }
}

} // verus!
