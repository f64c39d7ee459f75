//! Requests to the portal and what comes back of them.
use vstd::prelude::*;

use crate::clock;
use crate::crypto;
use crate::json::{Json, JsonModel};

verus! {

/// A header of a request.
#[derive(Debug)]
pub struct Header {
    pub name: &'static str,
    pub value: String,
}

/// The headers as names and values.
pub open spec fn header_models(headers: Seq<Header>) -> Seq<(Seq<char>, Seq<char>)> {
    headers.map_values(|h: Header| (h.name@, h.value@))
}

/// The headers that every request carries, in their order.
pub open spec fn headers_of(
    token_json: Seq<char>,
    uid: Seq<char>,
    token: Seq<char>,
    language: Seq<char>,
    ts: u64,
) -> Seq<(Seq<char>, Seq<char>)> {
    seq![
        ("accept"@, "application/json, text/plain, */*"@),
        ("content-type"@, "application/json"@),
        ("token"@, token_json),
        ("x-signature"@, crypto::signature(uid, token, ts as nat)),
        ("currentlang"@, language),
        ("neutral"@, "0"@),
        ("access-control-allow-origin"@, "*"@),
        ("origin"@, "https://semsplus.goodwe.com"@),
        ("referer"@, "https://semsplus.goodwe.com/"@),
    ]
}

/// The headers of a request made at `ts` milliseconds.
pub fn headers_at(token_json: &str, uid: &str, token: &str, language: &str, ts: u64) -> (headers:
    Vec<Header>)
    ensures
        header_models(headers@) == headers_of(token_json@, uid@, token@, language@, ts),
{
    let sig = crypto::compute_signature(uid, token, ts);
    let mut headers: Vec<Header> = Vec::new();
    headers.push(
        Header { name: "accept", value: "application/json, text/plain, */*".to_owned() },
    );
    headers.push(Header { name: "content-type", value: "application/json".to_owned() });
    headers.push(Header { name: "token", value: token_json.to_owned() });
    headers.push(Header { name: "x-signature", value: sig });
    headers.push(Header { name: "currentlang", value: language.to_owned() });
    headers.push(Header { name: "neutral", value: "0".to_owned() });
    headers.push(Header { name: "access-control-allow-origin", value: "*".to_owned() });
    headers.push(Header { name: "origin", value: "https://semsplus.goodwe.com".to_owned() });
    headers.push(Header { name: "referer", value: "https://semsplus.goodwe.com/".to_owned() });
    assert(header_models(headers@) =~= headers_of(token_json@, uid@, token@, language@, ts));
    headers
}

/// The headers of a request made now.
pub fn common_headers(token_json: &str, uid: &str, token: &str, language: &str) -> (headers: Vec<
    Header,
>)
    ensures
        exists|ts: u64|
            clock::is_clock_timestamp(ts) && header_models(headers@) == #[trigger] headers_of(
                token_json@,
                uid@,
                token@,
                language@,
                ts,
            ),
        carries(header_models(headers@), "token"@, token_json@),
        carries(header_models(headers@), "currentlang"@, language@),
{
    let ts: u64 = clock::now_ms();
    proof {
        headers_carry_what_is_given(token_json@, uid@, token@, language@, ts);
    }
    headers_at(token_json, uid, token, language, ts)
}

/// A request to the portal: a JSON document, posted.
#[derive(Debug)]
pub struct PortalRequest {
    pub url: &'static str,
    pub headers: Vec<Header>,
    pub body: Json,
}

/// What a request to the portal is.
pub struct RequestModel {
    pub url: Seq<char>,
    pub headers: Seq<(Seq<char>, Seq<char>)>,
    pub body: JsonModel,
}

impl View for PortalRequest {
    type V = RequestModel;

    open spec fn view(&self) -> RequestModel {
        RequestModel {
            url: self.url@,
            headers: header_models(self.headers@),
            body: self.body@,
        }
    }
}

/// What came back of a request.
#[derive(Debug)]
pub enum Reply {
    /// The request could not be made, and why.
    SendFailed(String),
    /// An answer came that is no JSON document, and why.
    Unreadable(String),
    /// The document that the portal answered.
    Document(Json),
}

/// What a [`Reply`] holds.
pub enum ReplyModel {
    SendFailed(Seq<char>),
    Unreadable(Seq<char>),
    Document(JsonModel),
}

impl View for Reply {
    type V = ReplyModel;

    open spec fn view(&self) -> ReplyModel {
        match *self {
            Reply::SendFailed(cause) => ReplyModel::SendFailed(cause@),
            Reply::Unreadable(cause) => ReplyModel::Unreadable(cause@),
            Reply::Document(v) => ReplyModel::Document(v@),
        }
    }
}

/// The code with which the portal grants a request.
pub const CODE_OK: &'static str = "00000";

/// Whether a header is among those of a request, and no other of its name.
pub open spec fn carries(
    headers: Seq<(Seq<char>, Seq<char>)>,
    name: Seq<char>,
    value: Seq<char>,
) -> bool {
    &&& headers.contains((name, value))
    &&& forall|i: int, j: int|
        0 <= i < headers.len() && 0 <= j < headers.len() && #[trigger] headers[i].0 == name
            && #[trigger] headers[j].0 == name ==> i == j
}

proof fn lemma_header_names_differ()
    ensures
        "accept"@.len() == 6,
        "content-type"@.len() == 12,
        "token"@.len() == 5,
        "x-signature"@.len() == 11,
        "currentlang"@.len() == 11,
        "x-signature"@ != "currentlang"@,
        "neutral"@.len() == 7,
        "access-control-allow-origin"@.len() == 27,
        "origin"@.len() == 6,
        "accept"@ != "origin"@,
        "referer"@.len() == 7,
        "neutral"@ != "referer"@,
{
    reveal_strlit("accept");
    reveal_strlit("content-type");
    reveal_strlit("token");
    reveal_strlit("x-signature");
    reveal_strlit("currentlang");
    reveal_strlit("neutral");
    reveal_strlit("access-control-allow-origin");
    reveal_strlit("origin");
    reveal_strlit("referer");
    assert("x-signature"@[0] == 'x' && "currentlang"@[0] == 'c');
    assert("accept"@[0] == 'a' && "origin"@[0] == 'o');
    assert("neutral"@[0] == 'n' && "referer"@[0] == 'r');
}

/// Every request carries the token text, the language and the signature of its user,
/// token and time as they were given, each under its name and once.
pub proof fn headers_carry_what_is_given(
    token_json: Seq<char>,
    uid: Seq<char>,
    token: Seq<char>,
    language: Seq<char>,
    ts: u64,
)
    ensures
        ({
            let headers = headers_of(token_json, uid, token, language, ts);
            &&& carries(headers, "token"@, token_json)
            &&& carries(headers, "currentlang"@, language)
            &&& carries(headers, "x-signature"@, crypto::signature(uid, token, ts as nat))
        }),
{
    lemma_header_names_differ();
    let headers = headers_of(token_json, uid, token, language, ts);
    assert(headers[2] == ("token"@, token_json));
    assert(headers[3] == ("x-signature"@, crypto::signature(uid, token, ts as nat)));
    assert(headers[4] == ("currentlang"@, language));
}

/// Every request is a JSON request from the portal's own page, whoever makes it and
/// whenever, and carries no other headers than these and the three that are given.
pub proof fn headers_are_those_of_the_page(
    token_json: Seq<char>,
    uid: Seq<char>,
    token: Seq<char>,
    language: Seq<char>,
    ts: u64,
)
    ensures
        ({
            let headers = headers_of(token_json, uid, token, language, ts);
            &&& headers.len() == 9
            &&& carries(headers, "accept"@, "application/json, text/plain, */*"@)
            &&& carries(headers, "content-type"@, "application/json"@)
            &&& carries(headers, "neutral"@, "0"@)
            &&& carries(headers, "access-control-allow-origin"@, "*"@)
            &&& carries(headers, "origin"@, "https://semsplus.goodwe.com"@)
            &&& carries(headers, "referer"@, "https://semsplus.goodwe.com/"@)
        }),
{
    lemma_header_names_differ();
    let headers = headers_of(token_json, uid, token, language, ts);
    assert(headers[0] == ("accept"@, "application/json, text/plain, */*"@));
    assert(headers[1] == ("content-type"@, "application/json"@));
    assert(headers[5] == ("neutral"@, "0"@));
    assert(headers[6] == ("access-control-allow-origin"@, "*"@));
    assert(headers[7] == ("origin"@, "https://semsplus.goodwe.com"@));
    assert(headers[8] == ("referer"@, "https://semsplus.goodwe.com/"@));
}

/// Headers are seen one by one, each as its name and its value.
pub proof fn headers_are_seen_as_they_are(headers: Seq<Header>, i: int)
    requires
        0 <= i < headers.len(),
    ensures
        header_models(headers).len() == headers.len(),
        header_models(headers)[i].0 == headers[i].name@,
        header_models(headers)[i].1 == headers[i].value@,
{
}

/// A request is seen as what it holds.
pub proof fn requests_are_seen_as_they_are(request: PortalRequest)
    ensures
        request@.url == request.url@,
        request@.headers == header_models(request.headers@),
        request@.body == request.body@,
{
}

/// What came back is seen as what it is, with its cause or its document.
pub proof fn replies_are_seen_as_they_are(cause: String, v: Json)
    ensures
        Reply::SendFailed(cause)@ == ReplyModel::SendFailed(cause@),
        Reply::Unreadable(cause)@ == ReplyModel::Unreadable(cause@),
        Reply::Document(v)@ == ReplyModel::Document(v@),
{
}

} // verus!
