//! The response pipeline of a reverse proxy that serves any URL under its own
//! origin: the target of a request is read from its path, and the references
//! inside a fetched HTML document or style sheet are rewritten so that they
//! lead back through the proxy.
//!
//! - `resolve`: absolute URLs, the resolution of a reference against a base,
//!   and the proxy path of a URL.
//! - `css`: the rewriting of the `url(...)` tokens of a style sheet.
//! - `html`: the rewriting of the references that start tags carry.
//! - `dispatch`: the strategy for a response by its media type, the headers
//!   that go on, and the rewriting of a body.
//! - `session`: the course of one request as a state machine.
//! - `text`: small operations on text.
//!
//! URLs are parsed by the `url` crate, style sheets are searched by `regex`,
//! and HTML is read and written by `lol_html`. What these return is named in
//! the contracts, not described; each call is in a function whose doc comment
//! says what is taken on trust.

pub mod css;
pub mod dispatch;
pub mod html;
pub mod resolve;
pub mod session;
pub mod text;
