//! Login: the request, the verdict on the reply, and the token that it grants.
use vstd::prelude::*;

use crate::clock;
use crate::crypto;
use crate::goodwe::request;
use crate::goodwe::request::{PortalRequest, Reply, ReplyModel, RequestModel, CODE_OK};
use crate::goodwe::token::TokenData;
use crate::json;
use crate::json::{Json, JsonModel};
use crate::text;

verus! {

/// Where logins go.
pub const LOGIN_URL: &'static str =
    "https://eu-gateway.semsportal.com/web/sems/sems-user/api/v1/auth/cross-login";

/// The token header of a request that has no session yet.
pub const ANONYMOUS_TOKEN_JSON: &'static str =
    "{\"uid\":\"\",\"timestamp\":0,\"token\":\"\",\"client\":\"semsPlusWeb\",\"version\":\"\",\"language\":\"en\"}";

/// The document that a login posts: the account and the encoded password.
pub open spec fn login_body_of(username: Seq<char>, password: Seq<char>) -> JsonModel {
    JsonModel::Object(
        map![
            "account"@ => JsonModel::Text(username),
            "pwd"@ => JsonModel::Text(
                crypto::password_text(crypto::md5_of(vstd::utf8::encode_utf8(password))@),
            ),
        ],
    )
}

/// The request that a login at `ts` milliseconds makes.
pub open spec fn login_request_of(
    username: Seq<char>,
    password: Seq<char>,
    ts: u64,
) -> RequestModel {
    RequestModel {
        url: LOGIN_URL@,
        headers: request::headers_of(ANONYMOUS_TOKEN_JSON@, ""@, ""@, "en"@, ts),
        body: login_body_of(username, password),
    }
}

/// The request that a login at `ts` milliseconds makes.
pub fn login_request_at(username: &str, password: &str, ts: u64) -> (request: PortalRequest)
    ensures
        request@ == login_request_of(username@, password@, ts),
{
    let mut fields: Vec<(String, Json)> = Vec::new();
    json::set_text(&mut fields, "account", username);
    json::set_text(&mut fields, "pwd", crypto::hash_password(password).as_str());
    let body = Json::Object(fields);
    assert(body@ == login_body_of(username@, password@));
    PortalRequest {
        url: LOGIN_URL,
        headers: request::headers_at(ANONYMOUS_TOKEN_JSON, "", "", "en", ts),
        body,
    }
}

/// The request that a login makes now.
pub fn login_request(username: &str, password: &str) -> (request: PortalRequest)
    ensures
        exists|ts: u64|
            clock::is_clock_timestamp(ts) && request@ == #[trigger] login_request_of(
                username@,
                password@,
                ts,
            ),
        request@.url == LOGIN_URL@,
        request@.body == login_body_of(username@, password@),
{
    login_request_at(username, password, clock::now_ms())
}

/// Why a login failed.
#[derive(Debug)]
pub enum LoginError {
    RequestFailed(String),
    UnreadableReply(String),
    Rejected { code: String, description: String },
    MissingData,
    UnreadableToken(String),
}

/// What a [`LoginError`] says.
pub enum LoginFailure {
    RequestFailed(Seq<char>),
    UnreadableReply(Seq<char>),
    Rejected { code: Seq<char>, description: Seq<char> },
    MissingData,
    UnreadableToken(Seq<char>),
}

impl View for LoginError {
    type V = LoginFailure;

    open spec fn view(&self) -> LoginFailure {
        match *self {
            LoginError::RequestFailed(cause) => LoginFailure::RequestFailed(cause@),
            LoginError::UnreadableReply(cause) => LoginFailure::UnreadableReply(cause@),
            LoginError::Rejected { code, description } => LoginFailure::Rejected {
                code: code@,
                description: description@,
            },
            LoginError::MissingData => LoginFailure::MissingData,
            LoginError::UnreadableToken(cause) => LoginFailure::UnreadableToken(cause@),
        }
    }
}

impl LoginFailure {
    /// The message that tells of the failure, with its cause.
    pub open spec fn message(self) -> Seq<char> {
        match self {
            LoginFailure::RequestFailed(cause) => "Login request failed: "@ + cause,
            LoginFailure::UnreadableReply(cause) => "Failed to parse login response: "@ + cause,
            LoginFailure::Rejected { code, description } => "Login failed ("@ + code + "): "@
                + description,
            LoginFailure::MissingData => "Login response missing 'data'"@,
            LoginFailure::UnreadableToken(cause) => "Parse token: "@ + cause,
        }
    }
}

impl LoginError {
    /// The message that tells of the failure, with its cause.
    pub fn message(&self) -> (m: String)
        ensures
            m@ == self@.message(),
    {
        match self {
            LoginError::RequestFailed(cause) => "Login request failed: ".to_owned().concat(
                cause.as_str(),
            ),
            LoginError::UnreadableReply(
                cause,
            ) => "Failed to parse login response: ".to_owned().concat(cause.as_str()),
            LoginError::Rejected { code, description } => "Login failed (".to_owned().concat(
                code.as_str(),
            ).concat("): ").concat(description.as_str()),
            LoginError::MissingData => "Login response missing 'data'".to_owned(),
            LoginError::UnreadableToken(cause) => "Parse token: ".to_owned().concat(
                cause.as_str(),
            ),
        }
    }
}

/// The gateway that a token names when the portal names none.
pub const DEFAULT_API: &'static str = "https://eu-gateway.semsportal.com/web/sems";

/// The token fields with what the portal may leave out: a client, a language, and
/// a gateway that is a text and not empty.
pub open spec fn completed_fields(fields: Map<Seq<char>, JsonModel>) -> Map<
    Seq<char>,
    JsonModel,
> {
    let with_client = if fields.contains_key("client"@) {
        fields
    } else {
        fields.insert("client"@, JsonModel::Text("semsPlusWeb"@))
    };
    let with_language = if with_client.contains_key("language"@) {
        with_client
    } else {
        with_client.insert("language"@, JsonModel::Text("en"@))
    };
    if JsonModel::Object(with_language).field("api"@).text_or(""@).len() == 0 {
        with_language.insert("api"@, JsonModel::Text(DEFAULT_API@))
    } else {
        with_language
    }
}

/// Adds to token fields what the portal may leave out.
pub fn complete_fields(fields: &mut Vec<(String, Json)>)
    ensures
        json::field_models(final(fields)@) == completed_fields(json::field_models(old(fields)@)),
{
    if json::find_field(fields, "client").is_none() {
        json::set_text(fields, "client", "semsPlusWeb");
    }
    if json::find_field(fields, "language").is_none() {
        json::set_text(fields, "language", "en");
    }
    let named = match json::find_field(fields, "api") {
        Some(i) => !fields[i].1.text_or("").is_empty(),
        None => false,
    };
    proof {
        reveal_strlit("");
    }
    if !named {
        json::set_text(fields, "api", DEFAULT_API);
    }
}

/// The token fields that a login reply grants, or why it grants none.
pub open spec fn login_verdict(reply: ReplyModel) -> Result<
    Map<Seq<char>, JsonModel>,
    LoginFailure,
> {
    match reply {
        ReplyModel::SendFailed(cause) => Err(LoginFailure::RequestFailed(cause)),
        ReplyModel::Unreadable(cause) => Err(LoginFailure::UnreadableReply(cause)),
        ReplyModel::Document(v) => {
            let code = v.field("code"@).text_or(""@);
            if code != CODE_OK@ {
                Err(
                    LoginFailure::Rejected {
                        code,
                        description: v.field("description"@).text_or("unknown error"@),
                    },
                )
            } else {
                match v.field("data"@) {
                    JsonModel::Object(fields) => Ok(completed_fields(fields)),
                    _ => Err(LoginFailure::MissingData),
                }
            }
        },
    }
}

/// Takes the value under `key` out of a document, null where there is none.
fn take_field(v: Json, key: &str) -> (f: Json)
    ensures
        f@ == v@.field(key@),
{
    match v {
        Json::Object(mut fields) => {
            match json::find_field(&fields, key) {
                Some(i) => fields.swap_remove(i).1,
                None => Json::Null,
            }
        },
        _ => Json::Null,
    }
}

/// The token text that a login reply grants, or why it grants none.
pub open spec fn granted_text(reply: ReplyModel) -> Result<Seq<char>, LoginFailure> {
    match login_verdict(reply) {
        Ok(fields) => Ok(json::json_text_of(JsonModel::Object(fields))),
        Err(e) => Err(e),
    }
}

/// The token text that a login reply grants: the JSON text of the token fields.
pub fn read_login_reply(reply: Reply) -> (token_json: Result<String, LoginError>)
    ensures
        match login_verdict(reply@) {
            Ok(fields) => token_json is Ok && token_json->Ok_0@ == json::json_text_of(
                JsonModel::Object(fields),
            ),
            Err(e) => token_json is Err && token_json->Err_0@ == e,
        },
        match token_json {
            Ok(t) => granted_text(reply@) == Ok::<_, LoginFailure>(t@),
            Err(e) => granted_text(reply@) == Err::<Seq<char>, _>(e@),
        },
{
    match login_fields(reply) {
        Ok(fields) => {
            let token = Json::Object(fields);
            assert(token@ == JsonModel::Object(json::field_models(fields@)));
            Ok(json::json_text(&token))
        },
        Err(e) => Err(e),
    }
}

/// The token fields that a login reply grants.
pub fn login_fields(reply: Reply) -> (granted: Result<Vec<(String, Json)>, LoginError>)
    ensures
        match login_verdict(reply@) {
            Ok(fields) => granted is Ok && json::field_models(granted->Ok_0@) == fields,
            Err(e) => granted is Err && granted->Err_0@ == e,
        },
        granted is Ok ==> {
            let data = reply@->Document_0.field("data"@)->Object_0;
            &&& reply@ is Document
            &&& reply@->Document_0.field("data"@) is Object
            &&& forall|key: Seq<char>|
                key != "client"@ && key != "language"@ && key != "api"@ ==> {
                    &&& (#[trigger] json::field_models(granted->Ok_0@).contains_key(key)
                        <==> data.contains_key(key))
                    &&& json::field_models(granted->Ok_0@)[key] == data[key]
                }
        },
{
    let v = match reply {
        Reply::SendFailed(cause) => return Err(LoginError::RequestFailed(cause)),
        Reply::Unreadable(cause) => return Err(LoginError::UnreadableReply(cause)),
        Reply::Document(v) => v,
    };
    let code = v.field("code").text_or("");
    if !text::same_text(code, CODE_OK) {
        return Err(
            LoginError::Rejected {
                code: code.to_owned(),
                description: v.field("description").text_or("unknown error").to_owned(),
            },
        );
    }
    match take_field(v, "data") {
        Json::Object(mut fields) => {
            proof {
                lemma_token_keys_differ();
            }
            complete_fields(&mut fields);
            Ok(fields)
        },
        _ => Err(LoginError::MissingData),
    }
}

/// A login that went through: the token, and the text that it was read from.
#[derive(Debug)]
pub struct Login {
    pub token: TokenData,
    pub token_json: String,
}

/// Ends a login whose token text was read as `token`, or could not be, and why.
pub fn finish_login(token_json: String, token: Result<TokenData, String>) -> (login: Result<
    Login,
    LoginError,
>)
    ensures
        match token {
            Ok(t) => login == Ok::<Login, LoginError>(Login { token: t, token_json }),
            Err(cause) => login == Err::<Login, LoginError>(LoginError::UnreadableToken(cause)),
        },
        login is Ok <==> token is Ok,
        login matches Ok(l) ==> token == Ok::<TokenData, String>(l.token) && l.token_json
            == token_json,
{
    match token {
        Ok(token) => Ok(Login { token, token_json }),
        Err(cause) => Err(LoginError::UnreadableToken(cause)),
    }
}

/// Completing token fields leaves every field alone but the three it sees to, and
/// those only where they are missing: a client or language that is there stays, and
/// so does a gateway that is a text and not empty.
pub proof fn completion_keeps_what_is_there(fields: Map<Seq<char>, JsonModel>, key: Seq<char>)
    ensures
        key != "client"@ && key != "language"@ && key != "api"@ ==> {
            &&& completed_fields(fields).contains_key(key) == fields.contains_key(key)
            &&& completed_fields(fields)[key] == fields[key]
        },
        (key == "client"@ || key == "language"@) && fields.contains_key(key) ==> completed_fields(
            fields,
        )[key] == fields[key],
        JsonModel::Object(fields).field("api"@).text_or(""@).len() > 0 ==> completed_fields(
            fields,
        )["api"@] == fields["api"@],
{
    lemma_token_keys_differ();
}

/// Completed token fields have a client, a language and a gateway that is a text
/// and not empty.
pub proof fn completion_fills_gaps(fields: Map<Seq<char>, JsonModel>)
    ensures
        completed_fields(fields).contains_key("client"@),
        completed_fields(fields).contains_key("language"@),
        JsonModel::Object(completed_fields(fields)).field("api"@).text_or(""@).len() > 0,
        !fields.contains_key("client"@) ==> completed_fields(fields)["client"@]
            == JsonModel::Text("semsPlusWeb"@),
        !fields.contains_key("language"@) ==> completed_fields(fields)["language"@]
            == JsonModel::Text("en"@),
{
    lemma_token_keys_differ();
    reveal_strlit("https://eu-gateway.semsportal.com/web/sems");
}

/// Completing token fields twice does no more than completing them once.
pub proof fn completion_is_idempotent(fields: Map<Seq<char>, JsonModel>)
    ensures
        completed_fields(completed_fields(fields)) == completed_fields(fields),
{
    completion_fills_gaps(fields);
}

proof fn lemma_token_keys_differ()
    ensures
        "client"@ != "language"@,
        "client"@ != "api"@,
        "language"@ != "api"@,
        ""@.len() == 0,
{
    reveal_strlit("client");
    reveal_strlit("language");
    reveal_strlit("api");
    reveal_strlit("");
    assert("client"@.len() == 6 && "language"@.len() == 8 && "api"@.len() == 3);
}

/// A reply with the code of success and an object of data grants that data: every key
/// of it other than client, language and gateway has the value that it has there, and
/// no other key is added.
pub proof fn login_grants_what_the_reply_holds(
    v: JsonModel,
    data: Map<Seq<char>, JsonModel>,
    key: Seq<char>,
)
    requires
        v.field("code"@) == JsonModel::Text("00000"@),
        v.field("data"@) == JsonModel::Object(data),
    ensures
        login_verdict(ReplyModel::Document(v)) is Ok,
        key != "client"@ && key != "language"@ && key != "api"@ ==> {
            &&& login_verdict(ReplyModel::Document(v))->Ok_0.contains_key(key)
                <==> data.contains_key(key)
            &&& login_verdict(ReplyModel::Document(v))->Ok_0[key] == data[key]
        },
{
    completion_keeps_what_is_there(data, key);
}

/// A login grants the client and the language that the reply names, whatever they are,
/// and the gateway that it names where that is a text and not empty. What is missing
/// it fills in.
pub proof fn login_fills_in_what_the_reply_lacks(v: JsonModel, data: Map<Seq<char>, JsonModel>)
    requires
        v.field("code"@) == JsonModel::Text("00000"@),
        v.field("data"@) == JsonModel::Object(data),
    ensures
        ({
            let granted = JsonModel::Object(login_verdict(ReplyModel::Document(v))->Ok_0);
            &&& granted.field("client"@) == (if data.contains_key("client"@) {
                data["client"@]
            } else {
                JsonModel::Text("semsPlusWeb"@)
            })
            &&& granted.field("language"@) == (if data.contains_key("language"@) {
                data["language"@]
            } else {
                JsonModel::Text("en"@)
            })
            &&& granted.field("api"@) == (match JsonModel::Object(data).field("api"@) {
                JsonModel::Text(t) => if t.len() > 0 {
                    JsonModel::Text(t)
                } else {
                    JsonModel::Text("https://eu-gateway.semsportal.com/web/sems"@)
                },
                _ => JsonModel::Text("https://eu-gateway.semsportal.com/web/sems"@),
            })
        }),
{
    lemma_token_keys_differ();
}

/// A reply without the code of success grants nothing, and the failure names its code
/// and its description, an unknown error where it has none.
pub proof fn refused_login_tells_why(v: JsonModel, code: Seq<char>, description: Seq<char>)
    requires
        code != "00000"@,
    ensures
        v.field("code"@) == JsonModel::Text(code) && v.field("description"@) == JsonModel::Text(
            description,
        ) ==> login_verdict(ReplyModel::Document(v)) == Err::<Map<Seq<char>, JsonModel>, _>(
            LoginFailure::Rejected { code, description },
        ),
        v.field("code"@) == JsonModel::Text(code) && !(v.field("description"@) is Text)
            ==> login_verdict(ReplyModel::Document(v)) == Err::<Map<Seq<char>, JsonModel>, _>(
            LoginFailure::Rejected { code, description: "unknown error"@ },
        ),
        !(v.field("code"@) is Text) && v.field("description"@) == JsonModel::Text(description)
            ==> login_verdict(ReplyModel::Document(v)) == Err::<Map<Seq<char>, JsonModel>, _>(
            LoginFailure::Rejected { code: Seq::empty(), description },
        ),
        !(v.field("code"@) is Text) && !(v.field("description"@) is Text) ==> login_verdict(
            ReplyModel::Document(v),
        ) == Err::<Map<Seq<char>, JsonModel>, _>(
            LoginFailure::Rejected { code: Seq::empty(), description: "unknown error"@ },
        ),
{
    reveal_strlit("");
    reveal_strlit("00000");
    assert(""@ =~= Seq::<char>::empty());
    assert("00000"@.len() == 5);
}

/// A login that got no answer, or one that is no document, fails with the cause of that,
/// and one that was granted no object of data fails for want of it.
pub proof fn login_without_data_fails(cause: Seq<char>, v: JsonModel)
    ensures
        login_verdict(ReplyModel::SendFailed(cause)) == Err::<Map<Seq<char>, JsonModel>, _>(
            LoginFailure::RequestFailed(cause),
        ),
        login_verdict(ReplyModel::Unreadable(cause)) == Err::<Map<Seq<char>, JsonModel>, _>(
            LoginFailure::UnreadableReply(cause),
        ),
        v.field("code"@) == JsonModel::Text("00000"@) && !(v.field("data"@) is Object)
            ==> login_verdict(ReplyModel::Document(v)) == Err::<Map<Seq<char>, JsonModel>, _>(
            LoginFailure::MissingData,
        ),
{
}

/// The message of a failed login ends with the cause, all of it, behind words that tell
/// what failed; that of a refusal holds the code and the description.
pub proof fn login_messages_tell_the_cause(cause: Seq<char>, code: Seq<char>)
    ensures
        LoginFailure::RequestFailed(cause).message().take(22) == "Login request failed: "@,
        LoginFailure::RequestFailed(cause).message().skip(22) == cause,
        LoginFailure::UnreadableReply(cause).message().take(32)
            == "Failed to parse login response: "@,
        LoginFailure::UnreadableReply(cause).message().skip(32) == cause,
        LoginFailure::UnreadableToken(cause).message().take(13) == "Parse token: "@,
        LoginFailure::UnreadableToken(cause).message().skip(13) == cause,
        ({
            let m = LoginFailure::Rejected { code, description: cause }.message();
            let n = 14 + code.len() as int;
            &&& m.take(14) == "Login failed ("@
            &&& m.subrange(14, n) == code
            &&& m.subrange(n, n + 3) == "): "@
            &&& m.skip(n + 3) == cause
        }),
        LoginFailure::MissingData.message() == "Login response missing 'data'"@,
{
    reveal_strlit("Login request failed: ");
    reveal_strlit("Failed to parse login response: ");
    reveal_strlit("Parse token: ");
    reveal_strlit("Login failed (");
    reveal_strlit("): ");
    assert(LoginFailure::RequestFailed(cause).message().take(22) =~= "Login request failed: "@);
    assert(LoginFailure::RequestFailed(cause).message().skip(22) =~= cause);
    assert(LoginFailure::UnreadableReply(cause).message().take(32)
        =~= "Failed to parse login response: "@);
    assert(LoginFailure::UnreadableReply(cause).message().skip(32) =~= cause);
    assert(LoginFailure::UnreadableToken(cause).message().take(13) =~= "Parse token: "@);
    assert(LoginFailure::UnreadableToken(cause).message().skip(13) =~= cause);
    let m = LoginFailure::Rejected { code, description: cause }.message();
    let n = 14 + code.len() as int;
    assert(m.take(14) =~= "Login failed ("@);
    assert(m.subrange(14, n) =~= code);
    assert(m.subrange(n, n + 3) =~= "): "@);
    assert(m.skip(n + 3) =~= cause);
}

/// A login posts the account as it was given and the password under its encoding, Base64
/// of the hexadecimal text of its MD5 digest, and nothing else.
pub proof fn login_posts_account_and_password(
    username: Seq<char>,
    password: Seq<char>,
    ts: u64,
    key: Seq<char>,
)
    ensures
        ({
            let body = login_request_of(username, password, ts).body;
            let digest = crypto::md5_of(vstd::utf8::encode_utf8(password))@;
            let pwd = body.field("pwd"@);
            let s = vstd::utf8::decode_utf8(crypto::base64_bytes(pwd->Text_0));
            &&& body.field("account"@) == JsonModel::Text(username)
            &&& pwd is Text
            &&& s.len() == 32
            &&& forall|i: int|
                0 <= i < 16 ==> #[trigger] digest[i] == 16 * text::hex_value(s[2 * i])
                    + text::hex_value(s[2 * i + 1])
            &&& forall|j: int|
                0 <= j < 32 ==> text::is_digit(#[trigger] s[j]) || 'a' <= s[j] <= 'f'
            &&& key != "account"@ && key != "pwd"@ ==> body.field(key) == JsonModel::Null
        }),
{
    reveal_strlit("account");
    reveal_strlit("pwd");
    assert("account"@.len() == 7 && "pwd"@.len() == 3);
    crypto::password_encoding_reads_back(crypto::md5_of(vstd::utf8::encode_utf8(password))@);
}

/// Every login goes to one place and is signed for no user and no token, whoever logs in.
pub proof fn logins_are_anonymous(username: Seq<char>, password: Seq<char>, ts: u64)
    ensures
        ({
            let r = login_request_of(username, password, ts);
            &&& r.url
                == "https://eu-gateway.semsportal.com/web/sems/sems-user/api/v1/auth/cross-login"@
            &&& r.headers.len() == 9
            &&& request::carries(
                r.headers,
                "token"@,
                "{\"uid\":\"\",\"timestamp\":0,\"token\":\"\",\"client\":\"semsPlusWeb\",\"version\":\"\",\"language\":\"en\"}"@,
            )
            &&& request::carries(r.headers, "currentlang"@, "en"@)
            &&& request::carries(
                r.headers,
                "x-signature"@,
                crypto::signature(Seq::empty(), Seq::empty(), ts as nat),
            )
            &&& request::carries(r.headers, "content-type"@, "application/json"@)
            &&& request::carries(r.headers, "origin"@, "https://semsplus.goodwe.com"@)
            &&& r.headers == login_request_of(Seq::empty(), Seq::empty(), ts).headers
            &&& r.headers == request::headers_of(ANONYMOUS_TOKEN_JSON@, ""@, ""@, "en"@, ts)
        }),
{
    reveal_strlit("");
    assert(""@ =~= Seq::<char>::empty());
    request::headers_carry_what_is_given(ANONYMOUS_TOKEN_JSON@, ""@, ""@, "en"@, ts);
    request::headers_are_those_of_the_page(ANONYMOUS_TOKEN_JSON@, ""@, ""@, "en"@, ts);
}

/// The token text that a login grants is the text of a document with the data of the
/// reply in it: every key of the data other than client, language and gateway, with
/// its value, and no other.
pub proof fn granted_text_holds_the_data(v: JsonModel, data: Map<Seq<char>, JsonModel>) -> (granted:
    Map<Seq<char>, JsonModel>)
    requires
        v.field("code"@) == JsonModel::Text("00000"@),
        v.field("data"@) == JsonModel::Object(data),
    ensures
        granted_text(ReplyModel::Document(v)) == Ok::<_, LoginFailure>(
            json::json_text_of(JsonModel::Object(granted)),
        ),
        forall|key: Seq<char>|
            key != "client"@ && key != "language"@ && key != "api"@ ==> (
            #[trigger] granted.contains_key(key) <==> data.contains_key(key)) && granted[key]
                == data[key],
        data.contains_key("client"@) ==> granted["client"@] == data["client"@],
        data.contains_key("language"@) ==> granted["language"@] == data["language"@],
{
    lemma_token_keys_differ();
    login_verdict(ReplyModel::Document(v))->Ok_0
}

/// A failed login is seen as what it says, with its cause, its code and its description.
pub proof fn login_errors_are_seen_as_they_are(cause: String, code: String)
    ensures
        LoginError::RequestFailed(cause)@ == LoginFailure::RequestFailed(cause@),
        LoginError::UnreadableReply(cause)@ == LoginFailure::UnreadableReply(cause@),
        (LoginError::Rejected { code, description: cause })@ == (LoginFailure::Rejected {
            code: code@,
            description: cause@,
        }),
        LoginError::MissingData@ == LoginFailure::MissingData,
        LoginError::UnreadableToken(cause)@ == LoginFailure::UnreadableToken(cause@),
{
}

} // verus!
