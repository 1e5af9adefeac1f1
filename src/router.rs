//! The routing table: from a request path to the reply sent back.
//!
//! Matching is exact and case-sensitive; the method and the query string
//! play no part.

use vstd::prelude::*;
use crate::config::{config_document, ClientConfig, DEFAULT_PROMETHEUS_URL};
use crate::json::{json_array_items, json_text, needs_no_escape, quoted, EncodeError};
use crate::text::same_text;

verus! {

pub const STATUS_OK: u16 = 200;

pub const STATUS_NOT_FOUND: u16 = 404;

pub const STATUS_INTERNAL_SERVER_ERROR: u16 = 500;

pub const STATUS_NOT_IMPLEMENTED: u16 = 501;

pub const HTML_CONTENT_TYPE: &'static str = "text/html; charset=utf-8";

pub const JS_CONTENT_TYPE: &'static str = "text/javascript; charset=utf-8";

pub const JSON_CONTENT_TYPE: &'static str = "application/json; charset=utf-8";

/// The body of the health and readiness probes.
pub const PROBE_BODY: &'static str = "OK";

/// The paths the server answers, and everything else.
#[derive(PartialEq, Eq, Structural, Clone, Copy, Debug)]
pub enum Route {
    Index,
    Script,
    Config,
    Healthy,
    Ready,
    Reload,
    Quit,
    NotFound,
}

/// The user interface: an HTML page and its script, served unchanged.
pub struct Assets {
    pub html: String,
    pub js: String,
}

/// A reply: status code, optional content type and body text.
pub struct Reply {
    pub status: u16,
    pub content_type: Option<String>,
    pub body: String,
}

impl View for Reply {
    type V = (u16, Option<Seq<char>>, Seq<char>);

    open spec fn view(&self) -> (u16, Option<Seq<char>>, Seq<char>) {
        (
            self.status,
            match self.content_type {
                Some(t) => Some(t@),
                None => None,
            },
            self.body@,
        )
    }
}

/// The route that `path` selects.
pub open spec fn route_of(path: Seq<char>) -> Route {
    if path == "/"@ {
        Route::Index
    } else if path == "/js"@ {
        Route::Script
    } else if path == "/config"@ {
        Route::Config
    } else if path == "/-/healthy"@ {
        Route::Healthy
    } else if path == "/-/ready"@ {
        Route::Ready
    } else if path == "/-/reload"@ {
        Route::Reload
    } else if path == "/-/quit"@ {
        Route::Quit
    } else {
        Route::NotFound
    }
}

/// The reply owed on `route`, with `html` and `js` as the user interface.
pub open spec fn reply_of(route: Route, html: Seq<char>, js: Seq<char>) -> (
    u16,
    Option<Seq<char>>,
    Seq<char>,
) {
    match route {
        Route::Index => (STATUS_OK, Some(HTML_CONTENT_TYPE@), html),
        Route::Script => (STATUS_OK, Some(JS_CONTENT_TYPE@), js),
        Route::Config => (
            STATUS_OK,
            Some(JSON_CONTENT_TYPE@),
            config_document(seq![DEFAULT_PROMETHEUS_URL@]),
        ),
        Route::Healthy => (STATUS_OK, None, PROBE_BODY@),
        Route::Ready => (STATUS_OK, None, PROBE_BODY@),
        Route::Reload => (STATUS_NOT_IMPLEMENTED, None, Seq::empty()),
        Route::Quit => (STATUS_NOT_IMPLEMENTED, None, Seq::empty()),
        Route::NotFound => (STATUS_NOT_FOUND, None, Seq::empty()),
    }
}

/// Picks the route for a request path.
pub fn classify(path: &str) -> (r: Route)
    ensures
        r == route_of(path@),
{
    if same_text(path, "/") {
        Route::Index
    } else if same_text(path, "/js") {
        Route::Script
    } else if same_text(path, "/config") {
        Route::Config
    } else if same_text(path, "/-/healthy") {
        Route::Healthy
    } else if same_text(path, "/-/ready") {
        Route::Ready
    } else if same_text(path, "/-/reload") {
        Route::Reload
    } else if same_text(path, "/-/quit") {
        Route::Quit
    } else {
        Route::NotFound
    }
}

/// A reply with no content type.
fn bare_reply(status: u16, body: &str) -> (r: Reply)
    ensures
        r@ == (status, None::<Seq<char>>, body@),
{
    Reply { status, content_type: None, body: body.to_owned() }
}

/// A successful reply carrying `body` as `content_type`.
fn typed_reply(content_type: &str, body: &str) -> (r: Reply)
    ensures
        r@ == (STATUS_OK, Some(content_type@), body@),
{
    Reply { status: STATUS_OK, content_type: Some(content_type.to_owned()), body: body.to_owned() }
}

/// The reply to `/config` once the document has been encoded: the JSON text,
/// or a server error that carries the encoder's message.
pub fn config_reply(encoded: Result<String, EncodeError>) -> (r: Reply)
    ensures
        encoded matches Ok(j) ==> r@ == (STATUS_OK, Some(JSON_CONTENT_TYPE@), j@),
        encoded matches Err(e) ==> r@ == (STATUS_INTERNAL_SERVER_ERROR, None::<Seq<char>>, e.message@),
{
    match encoded {
        Ok(j) => typed_reply(JSON_CONTENT_TYPE, j.as_str()),
        Err(e) => Reply { status: STATUS_INTERNAL_SERVER_ERROR, content_type: None, body: e.message },
    }
}

/// Answers a request for `path`.
pub fn serve(assets: &Assets, path: &str) -> (r: Reply)
    ensures
        r@ == reply_of(route_of(path@), assets.html@, assets.js@),
{
    proof {
        reveal_strlit("");
    }
    match classify(path) {
        Route::Index => typed_reply(HTML_CONTENT_TYPE, assets.html.as_str()),
        Route::Script => typed_reply(JS_CONTENT_TYPE, assets.js.as_str()),
        Route::Config => {
            let config = ClientConfig::new();
            config_reply(config.to_json())
        },
        Route::Healthy => bare_reply(STATUS_OK, PROBE_BODY),
        Route::Ready => bare_reply(STATUS_OK, PROBE_BODY),
        Route::Reload => bare_reply(STATUS_NOT_IMPLEMENTED, ""),
        Route::Quit => bare_reply(STATUS_NOT_IMPLEMENTED, ""),
        Route::NotFound => bare_reply(STATUS_NOT_FOUND, ""),
    }
}

/// The seven paths the table names are told apart by their lengths, and the
/// two of length seven by their second character.
proof fn reveal_route_paths()
    ensures
        "/"@.len() == 1,
        "/js"@.len() == 3,
        "/config"@.len() == 7,
        "/config"@[1] == 'c',
        "/-/healthy"@.len() == 10,
        "/-/ready"@.len() == 8,
        "/-/reload"@.len() == 9,
        "/-/quit"@.len() == 7,
        "/-/quit"@[1] == '-',
{
    reveal_strlit("/");
    reveal_strlit("/js");
    reveal_strlit("/config");
    reveal_strlit("/-/healthy");
    reveal_strlit("/-/ready");
    reveal_strlit("/-/reload");
    reveal_strlit("/-/quit");
}

/// Each served path (`/`, `/js`, `/config`, `/-/healthy`, `/-/ready`) is
/// answered with status 200 and its own content type: HTML, JavaScript,
/// JSON, and none for the two probes.
pub proof fn lemma_served_paths_succeed(path: Seq<char>, html: Seq<char>, js: Seq<char>)
    requires
        path == "/"@ || path == "/js"@ || path == "/config"@ || path == "/-/healthy"@ || path
            == "/-/ready"@,
    ensures
        reply_of(route_of(path), html, js).0 == STATUS_OK,
        path == "/"@ ==> reply_of(route_of(path), html, js).1 == Some(HTML_CONTENT_TYPE@),
        path == "/js"@ ==> reply_of(route_of(path), html, js).1 == Some(JS_CONTENT_TYPE@),
        path == "/config"@ ==> reply_of(route_of(path), html, js).1 == Some(JSON_CONTENT_TYPE@),
        path == "/-/healthy"@ || path == "/-/ready"@ ==> reply_of(route_of(path), html, js).1
            == None::<Seq<char>>,
{
    reveal_route_paths();
}

/// Any path outside the table, such as one that differs only in case or has
/// an extra segment, is answered with 404 and an empty body.
pub proof fn lemma_unknown_paths_not_found(path: Seq<char>, html: Seq<char>, js: Seq<char>)
    requires
        path != "/"@,
        path != "/js"@,
        path != "/config"@,
        path != "/-/healthy"@,
        path != "/-/ready"@,
        path != "/-/reload"@,
        path != "/-/quit"@,
    ensures
        reply_of(route_of(path), html, js) == (STATUS_NOT_FOUND, None::<Seq<char>>, Seq::<
            char,
        >::empty()),
{
}

/// `/-/reload` and `/-/quit` are answered with 501 and an empty body, whatever
/// assets are being served: the reply depends on the path alone.
pub proof fn lemma_control_paths_not_implemented(path: Seq<char>, html: Seq<char>, js: Seq<char>)
    requires
        path == "/-/reload"@ || path == "/-/quit"@,
    ensures
        reply_of(route_of(path), html, js) == (STATUS_NOT_IMPLEMENTED, None::<Seq<char>>, Seq::<
            char,
        >::empty()),
{
    reveal_route_paths();
}

/// `/config` is answered with the same JSON object every time:
/// `{"prometheus_urls":["http://localhost:9090"]}`.
pub proof fn lemma_config_is_fixed(html: Seq<char>, js: Seq<char>)
    ensures
        reply_of(route_of("/config"@), html, js) == (
            STATUS_OK,
            Some(JSON_CONTENT_TYPE@),
            "{\"prometheus_urls\":[\"http://localhost:9090\"]}"@,
        ),
{
    reveal_route_paths();
    reveal_strlit("http://localhost:9090");
    reveal_strlit("{\"prometheus_urls\":");
    reveal_strlit("}");
    reveal_strlit("{\"prometheus_urls\":[\"http://localhost:9090\"]}");
    let url = DEFAULT_PROMETHEUS_URL@;
    assert(needs_no_escape(url));
    assert(json_text(url) == quoted(url));
    let urls = seq![url];
    assert(json_array_items(urls) == json_text(url));
    assert(config_document(urls) =~= "{\"prometheus_urls\":[\"http://localhost:9090\"]}"@);
}

/// `/` returns the HTML page and `/js` the script, character for character.
pub proof fn lemma_assets_served_unchanged(html: Seq<char>, js: Seq<char>)
    ensures
        reply_of(route_of("/"@), html, js).2 == html,
        reply_of(route_of("/js"@), html, js).2 == js,
{
    reveal_route_paths();
}

} // verus!
