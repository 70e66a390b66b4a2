use echo_proxy::dispatch::{Header, Strategy};
use echo_proxy::session::{route, step, Action, Event, Reply, Route, Session};

fn header(name: &str, value: &str) -> Header {
    Header { name: name.to_string(), value: value.as_bytes().to_vec() }
}

fn pairs(headers: &[Header]) -> Vec<(String, Vec<u8>)> {
    headers.iter().map(|h| (h.name.clone(), h.value.clone())).collect()
}

fn request(path: &str, headers: Vec<Header>) -> (Session, Action) {
    step(Session::Idle, Event::Request { path: path.to_string(), headers })
}

fn reply_of(action: Action) -> Reply {
    match action {
        Action::Reply(reply) => reply,
        _ => panic!("the action is no reply"),
    }
}

fn assert_bare(step: (Session, Action), status: u16, body: &str) {
    assert!(matches!(step.0, Session::Done));
    let reply = reply_of(step.1);
    assert_eq!(reply.status, status);
    assert!(reply.headers.is_empty());
    assert_eq!(reply.body, body.as_bytes().to_vec());
}

fn fetching(path: &str, headers: Vec<Header>) -> Session {
    let (session, action) = request(path, headers);
    assert!(matches!(action, Action::Fetch(_)));
    session
}

#[test]
fn route_serves_the_placeholder_for_the_root() {
    assert!(matches!(route("/"), Route::Placeholder));
    assert!(matches!(route(""), Route::Placeholder));
}

#[test]
fn route_finds_no_target_in_what_is_no_url() {
    assert!(matches!(route("/not-a-url"), Route::NotFound));
    assert!(matches!(route("//"), Route::NotFound));
    assert!(matches!(route("/example.com/x"), Route::NotFound));
    assert!(matches!(route("x"), Route::NotFound));
}

#[test]
fn route_reads_the_target_after_the_first_character() {
    match route("/https://example.com/a?b=c") {
        Route::Fetch(url) => assert_eq!(url.as_str(), "https://example.com/a?b=c"),
        _ => panic!("no target"),
    }
    match route("/https://example.com") {
        Route::Fetch(url) => assert_eq!(url.as_str(), "https://example.com/"),
        _ => panic!("no target"),
    }
    match route("éhttps://example.com/") {
        Route::Fetch(url) => assert_eq!(url.as_str(), "https://example.com/"),
        _ => panic!("no target"),
    }
}

#[test]
fn the_root_gets_the_placeholder_and_no_fetch() {
    assert_bare(request("/", Vec::new()), 200, "empty");
    assert_bare(request("", vec![header("referer", "https://example.com/")]), 200, "empty");
}

#[test]
fn a_path_without_url_gets_404_and_no_body() {
    assert_bare(request("/not-a-url", Vec::new()), 404, "");
}

#[test]
fn a_path_with_a_url_has_it_fetched() {
    let (session, action) = request(
        "/https://example.com/dir/../page.html",
        vec![header("accept", "*/*"), header("Referer", "https://example.com/index.html")],
    );
    match action {
        Action::Fetch(url) => assert_eq!(url, "https://example.com/page.html"),
        _ => panic!("no fetch"),
    }
    match session {
        Session::Fetching { target, referer } => {
            assert_eq!(target.as_str(), "https://example.com/page.html");
            assert_eq!(referer, Some("https://example.com/index.html".to_string()));
        }
        _ => panic!("not fetching"),
    }
}

#[test]
fn a_referer_that_is_no_text_is_not_kept() {
    let headers = vec![Header { name: "referer".to_string(), value: vec![0xff] }];
    match request("/https://example.com/", headers).0 {
        Session::Fetching { referer, .. } => assert_eq!(referer, None),
        _ => panic!("not fetching"),
    }
}

#[test]
fn a_failed_fetch_gets_the_fixed_text() {
    let session = fetching("/https://example.com/", Vec::new());
    assert_bare(step(session, Event::FetchFailed), 200, "error when proxying");
}

#[test]
fn any_other_media_type_is_streamed_with_all_headers() {
    for content_type in ["image/png", "application/json; charset=utf-8", "text/plain", "TEXT/HTML"] {
        let session = fetching("/https://example.com/x", Vec::new());
        let headers = vec![
            header("content-type", content_type),
            header("content-length", "3"),
            header("etag", "\"abc\""),
        ];
        let expected = pairs(&headers);
        let (next, action) = step(session, Event::Fetched { headers });
        assert!(matches!(next, Session::Done));
        match action {
            Action::Stream(sent) => assert_eq!(pairs(&sent), expected),
            _ => panic!("not streamed"),
        }
    }
}

#[test]
fn a_response_without_media_type_is_streamed() {
    let session = fetching("/https://example.com/x", Vec::new());
    let headers = vec![header("content-length", "3")];
    let (next, action) = step(session, Event::Fetched { headers });
    assert!(matches!(next, Session::Done));
    match action {
        Action::Stream(sent) => assert_eq!(pairs(&sent), vec![("content-length".to_string(), b"3".to_vec())]),
        _ => panic!("not streamed"),
    }
}

#[test]
fn a_media_type_that_is_no_text_is_streamed() {
    let session = fetching("/https://example.com/x", Vec::new());
    let headers = vec![Header { name: "content-type".to_string(), value: b"text/html\xff".to_vec() }];
    let (_, action) = step(session, Event::Fetched { headers });
    assert!(matches!(action, Action::Stream(_)));
}

#[test]
fn html_is_read_in_full_and_rewritten_against_the_target() {
    let session = fetching(
        "/https://example.com/dir/page.html",
        vec![header("referer", "https://elsewhere.org/")],
    );
    let headers = vec![
        header("content-type", "text/html; charset=utf-8"),
        header("content-length", "22"),
        header("x-served-by", "upstream"),
    ];
    let (session, action) = step(session, Event::Fetched { headers });
    assert!(matches!(action, Action::ReadBody));
    match &session {
        Session::Reading { strategy, base, headers } => {
            assert_eq!(*strategy, Strategy::RewriteHtml);
            assert_eq!(base.as_str(), "https://example.com/dir/page.html");
            assert_eq!(headers.len(), 2);
        }
        _ => panic!("not reading"),
    }
    let (next, action) = step(session, Event::Body(b"<a href=\"x.html\">x</a>".to_vec()));
    assert!(matches!(next, Session::Done));
    let reply = reply_of(action);
    assert_eq!(reply.status, 200);
    assert_eq!(
        pairs(&reply.headers),
        vec![
            ("content-type".to_string(), b"text/html; charset=utf-8".to_vec()),
            ("x-served-by".to_string(), b"upstream".to_vec()),
        ]
    );
    assert_eq!(reply.body, b"<a href=\"/https://example.com/dir/x.html\">x</a>".to_vec());
}

#[test]
fn css_is_rewritten_against_the_referer() {
    let session = fetching(
        "/https://cdn.example.org/css/main.css",
        vec![header("referer", "https://example.com/site/index.html")],
    );
    let headers = vec![header("content-type", "text/css"), header("content-length", "20")];
    let (session, action) = step(session, Event::Fetched { headers });
    assert!(matches!(action, Action::ReadBody));
    let (_, action) = step(session, Event::Body(b"a{b:url(img/x.png)}".to_vec()));
    let reply = reply_of(action);
    assert_eq!(reply.status, 200);
    assert_eq!(pairs(&reply.headers), vec![("content-type".to_string(), b"text/css".to_vec())]);
    assert_eq!(reply.body, b"a{b:url(https://example.com/site/img/x.png)}".to_vec());
}

#[test]
fn css_is_rewritten_against_the_target_without_a_usable_referer() {
    for referer in [Vec::new(), vec![header("referer", "nonsense")]] {
        let session = fetching("/https://cdn.example.org/css/main.css", referer);
        let headers = vec![header("content-type", "text/css")];
        let (session, _) = step(session, Event::Fetched { headers });
        let (_, action) = step(session, Event::Body(b"a{b:url(\"../img/x.png\")}".to_vec()));
        assert_eq!(reply_of(action).body, b"a{b:url(https://cdn.example.org/img/x.png)}".to_vec());
    }
}

#[test]
fn a_body_that_cannot_be_rewritten_ends_with_the_failure_reply() {
    let session = fetching("/https://example.com/", Vec::new());
    let (session, _) = step(session, Event::Fetched { headers: vec![header("content-type", "text/html")] });
    assert_bare(step(session, Event::Body(vec![0xff, 0xfe])), 502, "error when rewriting");

    let session = fetching("/https://example.com/", Vec::new());
    let (session, _) = step(session, Event::Fetched { headers: vec![header("content-type", "text/html")] });
    let body = b"<select><xmp><script>\"use strict\";</script></select>".to_vec();
    assert_bare(step(session, Event::Body(body)), 502, "error when rewriting");
}

#[test]
fn a_body_that_cannot_be_read_ends_with_the_failure_reply() {
    let session = fetching("/https://example.com/", Vec::new());
    let (session, _) = step(session, Event::Fetched { headers: vec![header("content-type", "text/css")] });
    assert_bare(step(session, Event::BodyFailed), 502, "error when rewriting");
}

#[test]
fn an_event_out_of_turn_ends_with_the_failure_reply() {
    assert_bare(step(Session::Idle, Event::FetchFailed), 502, "error when rewriting");
    assert_bare(step(Session::Idle, Event::Body(Vec::new())), 502, "error when rewriting");
    assert_bare(step(Session::Done, Event::Request { path: "/".to_string(), headers: Vec::new() }), 502, "error when rewriting");
    let session = fetching("/https://example.com/", Vec::new());
    assert_bare(step(session, Event::Body(Vec::new())), 502, "error when rewriting");
    let session = fetching("/https://example.com/", Vec::new());
    assert_bare(step(session, Event::Request { path: "/".to_string(), headers: Vec::new() }), 502, "error when rewriting");
}
