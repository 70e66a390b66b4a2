use echo_proxy::resolve::{is_data_reference, proxied, resolve, AbsoluteUrl};
use echo_proxy::session::{route, Route};

fn url(text: &str) -> AbsoluteUrl {
    AbsoluteUrl::parse(text).unwrap()
}

#[test]
fn parse_gives_the_serialization() {
    assert_eq!(url("https://example.net").as_str(), "https://example.net/");
    assert_eq!(url("HTTP://Example.COM/a/../b").as_str(), "http://example.com/b");
    assert_eq!(url("https://example.com/a b").as_str(), "https://example.com/a%20b");
}

#[test]
fn parse_rejects_what_is_no_absolute_url() {
    assert!(AbsoluteUrl::parse("not-a-url").is_none());
    assert!(AbsoluteUrl::parse("").is_none());
    assert!(AbsoluteUrl::parse("/path/only").is_none());
    assert!(AbsoluteUrl::parse("//example.com/x").is_none());
    assert!(AbsoluteUrl::parse("http://[::1").is_none());
}

#[test]
fn join_follows_the_rules_of_relative_references() {
    let base = url("https://example.net/a/b.html");
    assert_eq!(base.join("c.png").unwrap().as_str(), "https://example.net/a/c.png");
    assert_eq!(base.join("../c.png").unwrap().as_str(), "https://example.net/c.png");
    assert_eq!(base.join("/v1/meta").unwrap().as_str(), "https://example.net/v1/meta");
    assert_eq!(base.join("//eve.com/b").unwrap().as_str(), "https://eve.com/b");
    assert_eq!(base.join("http://eve.com/b").unwrap().as_str(), "http://eve.com/b");
    assert_eq!(base.join("?q=1").unwrap().as_str(), "https://example.net/a/b.html?q=1");
    assert_eq!(base.join("#top").unwrap().as_str(), "https://example.net/a/b.html#top");
    assert_eq!(base.join("").unwrap().as_str(), "https://example.net/a/b.html");
}

#[test]
fn join_minds_the_trailing_slash_of_the_base() {
    let base = url("https://example.net/a/b/");
    assert_eq!(base.join("c.png").unwrap().as_str(), "https://example.net/a/b/c.png");
}

#[test]
fn join_fails_on_a_base_that_cannot_be_one() {
    let base = url("data:text/plain,hello");
    assert!(base.join("c.png").is_none());
    assert!(url("mailto:someone@example.com").join("x").is_none());
}

#[test]
fn join_fails_on_a_malformed_reference() {
    let base = url("https://example.net/a/b.html");
    assert!(base.join("http://[::1").is_none());
    assert!(base.join("https://exa mple.com/").is_none());
}

#[test]
fn proxy_path_prefixes_one_separator() {
    assert_eq!(url("https://example.com/img/x.png").proxy_path(), "/https://example.com/img/x.png");
    assert_eq!(url("https://example.net").proxy_path(), "/https://example.net/");
}

#[test]
fn data_references_are_told_by_their_scheme() {
    assert!(is_data_reference("data:image/png;base64,AAAA"));
    assert!(is_data_reference("data:"));
    assert!(!is_data_reference("DATA:image/png;base64,AAAA"));
    assert!(!is_data_reference("dat"));
    assert!(!is_data_reference(" data:x"));
    assert!(!is_data_reference("https://example.com/data:"));
}

#[test]
fn resolve_takes_an_absolute_reference_as_it_is() {
    let base = url("https://example.com/dir/page.html");
    assert_eq!(resolve(&base, "http://other.org/x").unwrap().as_str(), "http://other.org/x");
    assert_eq!(resolve(&base, "mailto:a@b.c").unwrap().as_str(), "mailto:a@b.c");
}

#[test]
fn resolve_joins_a_relative_reference() {
    let base = url("https://example.com/dir/page.html");
    assert_eq!(resolve(&base, "img/x.png").unwrap().as_str(), "https://example.com/dir/img/x.png");
    assert_eq!(resolve(&base, "../x.png").unwrap().as_str(), "https://example.com/x.png");
    assert_eq!(resolve(&base, "/x.png").unwrap().as_str(), "https://example.com/x.png");
}

#[test]
fn resolve_takes_an_absolute_reference_on_a_base_that_cannot_be_one() {
    let base = url("data:text/plain,hello");
    assert_eq!(resolve(&base, "https://example.com/x").unwrap().as_str(), "https://example.com/x");
    assert!(resolve(&base, "x.png").is_none());
}

#[test]
fn proxied_is_the_proxy_path_of_the_resolved_url() {
    let base = url("https://example.com/dir/page.html");
    assert_eq!(proxied(&base, "a.html").unwrap(), "/https://example.com/dir/a.html");
    assert_eq!(proxied(&base, "https://cdn.example.org/s.js").unwrap(), "/https://cdn.example.org/s.js");
}

#[test]
fn proxied_leaves_data_uris_alone() {
    let base = url("https://example.com/dir/page.html");
    assert!(proxied(&base, "data:image/png;base64,AAAA").is_none());
    assert!(proxied(&base, "data:,").is_none());
}

#[test]
fn proxied_leaves_what_does_not_resolve_alone() {
    let base = url("https://example.com/dir/page.html");
    assert!(proxied(&base, "http://[::1").is_none());
    assert!(proxied(&url("mailto:a@b.c"), "x.png").is_none());
}

#[test]
fn a_proxy_path_routes_back_to_the_resolved_url() {
    let base = url("https://example.com/css/main.css");
    let references = [
        "../img/x.png",
        "a b.png",
        "?q=é",
        "#é",
        "//other.org/ü",
        "//[::1]:8080/x",
        "HTTP://UP.example/Path/../x",
        "http://user:pa ss@host.example:8080/p?q#f",
        "https://bücher.example/ä",
        "web+demo:/.//not-a-host/",
        "file:///C:/dir/file.txt",
        "mailto:someone@example.com",
        "javascript:alert(1)",
        "./././x/../..",
        "",
    ];
    for reference in references {
        let resolved = resolve(&base, reference).unwrap();
        let path = proxied(&base, reference).unwrap();
        match route(&path) {
            Route::Fetch(target) => assert_eq!(target.as_str(), resolved.as_str()),
            _ => panic!("the path {} does not route to a target", path),
        }
    }
}
