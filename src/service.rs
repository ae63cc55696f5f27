use crate::json::{
    is_plain, lemma_plain_text_unescaped, status_message_json, status_message_text, text_eq,
};
use vstd::prelude::*;

verus! {

/// The request method, as far as routing tells methods apart.
#[derive(Clone, Copy, Debug, PartialEq, Eq, Structural)]
pub enum Method {
    Get,
    Head,
    Other,
}

/// What a request is answered with: an HTTP status code and, for a JSON
/// reply, its body text.
#[derive(Clone, Debug)]
pub struct Response {
    pub status: u16,
    pub body: Option<String>,
}

impl View for Response {
    type V = (u16, Option<Seq<char>>);

    open spec fn view(&self) -> (u16, Option<Seq<char>>) {
        (
            self.status,
            match self.body {
                Some(b) => Some(b@),
                None => None,
            },
        )
    }
}

/// A `GET` route also answers `HEAD`; the transport leaves the body out.
pub open spec fn is_get(m: Method) -> bool {
    m == Method::Get || m == Method::Head
}

pub open spec fn root_body() -> Seq<char> {
    status_message_text("success"@, "Simple API"@)
}

pub open spec fn eavs_body() -> Seq<char> {
    status_message_text("hell yeah"@, "eavs endpoint"@)
}

/// The route table: `/` and `/eavs` answer `GET` with 200 and their object,
/// another method on them gets 405, and any other path 404.
pub open spec fn reply_of(m: Method, path: Seq<char>) -> (u16, Option<Seq<char>>) {
    if path == "/"@ {
        if is_get(m) {
            (200, Some(root_body()))
        } else {
            (405, None)
        }
    } else if path == "/eavs"@ {
        if is_get(m) {
            (200, Some(eavs_body()))
        } else {
            (405, None)
        }
    } else {
        (404, None)
    }
}

/// The handler of `/`.
pub fn root() -> (r: Response)
    ensures
        r@ == (200u16, Some(root_body())),
{
    Response { status: 200, body: Some(status_message_json("success", "Simple API")) }
}

/// The handler of `/eavs`.
pub fn eavs() -> (r: Response)
    ensures
        r@ == (200u16, Some(eavs_body())),
{
    Response { status: 200, body: Some(status_message_json("hell yeah", "eavs endpoint")) }
}

/// Answers a request by its method and path; headers and body play no part.
pub fn respond(method: Method, path: &str) -> (r: Response)
    ensures
        r@ == reply_of(method, path@),
{
    let get = method == Method::Get || method == Method::Head;
    if text_eq(path, "/") {
        if get {
            root()
        } else {
            Response { status: 405, body: None }
        }
    } else if text_eq(path, "/eavs") {
        if get {
            eavs()
        } else {
            Response { status: 405, body: None }
        }
    } else {
        Response { status: 404, body: None }
    }
}

/// `GET /` is answered with 200 and exactly
/// `{"status":"success","message":"Simple API"}`.
pub proof fn lemma_root_reply()
    ensures
        reply_of(Method::Get, "/"@) == (200u16, Some(
            "{\"status\":\"success\",\"message\":\"Simple API\"}"@,
        )),
{
    reveal_strlit("success");
    reveal_strlit("Simple API");
    reveal_strlit("{\"status\":");
    reveal_strlit(",\"message\":");
    reveal_strlit("}");
    reveal_strlit("{\"status\":\"success\",\"message\":\"Simple API\"}");
    let s = "success"@;
    let m = "Simple API"@;
    assert forall|i: int| 0 <= i < s.len() implies is_plain(#[trigger] s[i]) by {}
    assert forall|i: int| 0 <= i < m.len() implies is_plain(#[trigger] m[i]) by {}
    lemma_plain_text_unescaped(s);
    lemma_plain_text_unescaped(m);
    assert(root_body() =~= "{\"status\":\"success\",\"message\":\"Simple API\"}"@);
}

/// `GET /eavs` is answered with 200 and exactly
/// `{"status":"hell yeah","message":"eavs endpoint"}`.
pub proof fn lemma_eavs_reply()
    ensures
        reply_of(Method::Get, "/eavs"@) == (200u16, Some(
            "{\"status\":\"hell yeah\",\"message\":\"eavs endpoint\"}"@,
        )),
{
    reveal_strlit("/");
    reveal_strlit("/eavs");
    reveal_strlit("hell yeah");
    reveal_strlit("eavs endpoint");
    reveal_strlit("{\"status\":");
    reveal_strlit(",\"message\":");
    reveal_strlit("}");
    reveal_strlit("{\"status\":\"hell yeah\",\"message\":\"eavs endpoint\"}");
    assert("/eavs"@ != "/"@) by {
        assert("/eavs"@.len() != "/"@.len());
    }
    let s = "hell yeah"@;
    let m = "eavs endpoint"@;
    assert forall|i: int| 0 <= i < s.len() implies is_plain(#[trigger] s[i]) by {}
    assert forall|i: int| 0 <= i < m.len() implies is_plain(#[trigger] m[i]) by {}
    lemma_plain_text_unescaped(s);
    lemma_plain_text_unescaped(m);
    assert(eavs_body() =~= "{\"status\":\"hell yeah\",\"message\":\"eavs endpoint\"}"@);
}

/// Two answers to the same method and path are the same, body text included.
pub proof fn lemma_same_request_same_reply(m: Method, path: Seq<char>, a: Response, b: Response)
    requires
        a@ == reply_of(m, path),
        b@ == reply_of(m, path),
    ensures
        a.status == b.status,
        a.body.is_some() == b.body.is_some(),
        a.body.is_some() ==> a.body.unwrap()@ == b.body.unwrap()@,
{
}

/// A request that is not `GET` (or `HEAD`) on `/` or `/eavs` gets a status
/// outside 2xx.
pub proof fn lemma_undefined_route_fails(m: Method, path: Seq<char>)
    requires
        !(is_get(m) && (path == "/"@ || path == "/eavs"@)),
    ensures
        !(200 <= reply_of(m, path).0 < 300),
{
}

} // verus!
