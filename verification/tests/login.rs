use goodwe_web::crypto::{compute_signature, hash_password};
use goodwe_web::goodwe::login::{
    complete_fields, finish_login, login_fields, login_request, login_request_at,
    read_login_reply, LoginError, ANONYMOUS_TOKEN_JSON, DEFAULT_API, LOGIN_URL,
};
use goodwe_web::goodwe::request::{common_headers, headers_at, Header, Reply};
use goodwe_web::goodwe::token::{de_string_or_i64, TokenData};
use goodwe_web::json::{json_text, Json, JsonNumber};

fn text(t: &str) -> Json {
    Json::Text(t.to_owned())
}

fn entry(k: &str, v: Json) -> (String, Json) {
    (k.to_owned(), v)
}

fn reply(fields: Vec<(String, Json)>) -> Reply {
    Reply::Document(Json::Object(fields))
}

fn pairs(headers: &[Header]) -> Vec<(String, String)> {
    headers.iter().map(|h| (h.name.to_owned(), h.value.clone())).collect()
}

fn pair(name: &str, value: &str) -> (String, String) {
    (name.to_owned(), value.to_owned())
}

#[test]
fn headers_in_their_order() {
    let headers = headers_at("{}", "user-1", "tok", "de", 1778955297376);
    assert_eq!(
        pairs(&headers),
        vec![
            pair("accept", "application/json, text/plain, */*"),
            pair("content-type", "application/json"),
            pair("token", "{}"),
            pair("x-signature", &compute_signature("user-1", "tok", 1778955297376)),
            pair("currentlang", "de"),
            pair("neutral", "0"),
            pair("access-control-allow-origin", "*"),
            pair("origin", "https://semsplus.goodwe.com"),
            pair("referer", "https://semsplus.goodwe.com/"),
        ]
    );
}

#[test]
fn headers_made_now_differ_in_the_signature_alone() {
    let now = pairs(&common_headers("{}", "user-1", "tok", "de"));
    let then = pairs(&headers_at("{}", "user-1", "tok", "de", 0));
    assert_eq!(now.len(), 9);
    for i in 0..9 {
        assert_eq!(now[i].0, then[i].0);
        assert_eq!(now[i].1 == then[i].1, i != 3);
    }
}

#[test]
fn login_requests_post_account_and_encoded_password() {
    let request = login_request_at("ann", "secret", 7);
    assert_eq!(request.url, LOGIN_URL);
    assert_eq!(
        request.url,
        "https://eu-gateway.semsportal.com/web/sems/sems-user/api/v1/auth/cross-login"
    );
    assert_eq!(request.body.field("account").text_or(""), "ann");
    assert_eq!(request.body.field("pwd").text_or(""), hash_password("secret"));
    assert_eq!(
        json_text(&request.body),
        r#"{"account":"ann","pwd":"NWViZTIyOTRlY2QwZTBmMDhlYWI3NjkwZDJhNmVlNjk="}"#
    );
    assert_eq!(
        pairs(&request.headers),
        pairs(&headers_at(ANONYMOUS_TOKEN_JSON, "", "", "en", 7))
    );
    assert_eq!(json_text(&login_request("ann", "secret").body), json_text(&request.body));
}

#[test]
fn the_anonymous_token() {
    assert_eq!(
        ANONYMOUS_TOKEN_JSON,
        r#"{"uid":"","timestamp":0,"token":"","client":"semsPlusWeb","version":"","language":"en"}"#
    );
}

#[test]
fn a_granted_login_completes_the_token() {
    let token_json = read_login_reply(reply(vec![
        entry("code", text("00000")),
        entry(
            "data",
            Json::Object(vec![
                entry("uid", text("u")),
                entry("timestamp", text("1778955297376")),
                entry("api", text("")),
            ]),
        ),
    ]))
    .unwrap();
    assert_eq!(
        token_json,
        r#"{"api":"https://eu-gateway.semsportal.com/web/sems","client":"semsPlusWeb","language":"en","timestamp":"1778955297376","uid":"u"}"#
    );
}

#[test]
fn completion_keeps_given_fields() {
    let mut fields = vec![
        entry("client", Json::Null),
        entry("language", text("de")),
        entry("api", text("https://example.org")),
        entry("uid", text("u")),
    ];
    complete_fields(&mut fields);
    assert_eq!(
        json_text(&Json::Object(fields)),
        r#"{"api":"https://example.org","client":null,"language":"de","uid":"u"}"#
    );
}

#[test]
fn completion_replaces_a_gateway_that_is_no_text() {
    let mut fields = vec![entry("api", Json::Bool(true))];
    complete_fields(&mut fields);
    let once = json_text(&Json::Object(fields));
    let mut again = vec![
        entry("api", text(DEFAULT_API)),
        entry("client", text("semsPlusWeb")),
        entry("language", text("en")),
    ];
    complete_fields(&mut again);
    assert_eq!(json_text(&Json::Object(again)), once);
}

#[test]
fn rejected_logins() {
    let e = login_fields(reply(vec![
        entry("code", text("C0101")),
        entry("description", text("wrong password")),
    ]))
    .unwrap_err();
    assert_eq!(e.message(), "Login failed (C0101): wrong password");
    let e = login_fields(reply(vec![])).unwrap_err();
    assert_eq!(e.message(), "Login failed (): unknown error");
    let e = login_fields(reply(vec![entry("code", Json::Number(JsonNumber::PosInt(0)))]));
    assert!(matches!(e, Err(LoginError::Rejected { .. })));
}

#[test]
fn logins_without_data() {
    let e = read_login_reply(reply(vec![entry("code", text("00000"))])).unwrap_err();
    assert_eq!(e.message(), "Login response missing 'data'");
    let e = read_login_reply(reply(vec![
        entry("code", text("00000")),
        entry("data", Json::Array(vec![])),
    ]));
    assert!(matches!(e, Err(LoginError::MissingData)));
}

#[test]
fn logins_that_reach_no_verdict() {
    let e = read_login_reply(Reply::SendFailed("no route".to_owned())).unwrap_err();
    assert_eq!(e.message(), "Login request failed: no route");
    let e = read_login_reply(Reply::Unreadable("not JSON".to_owned())).unwrap_err();
    assert_eq!(e.message(), "Failed to parse login response: not JSON");
}

#[test]
fn finished_logins() {
    let login = finish_login("{}".to_owned(), Ok(TokenData::default())).unwrap();
    assert_eq!(login.token_json, "{}");
    assert_eq!(login.token.uid, "");
    assert_eq!(login.token.timestamp, 0);
    let e = finish_login("{}".to_owned(), Err("invalid type".to_owned())).unwrap_err();
    assert_eq!(e.message(), "Parse token: invalid type");
}

#[test]
fn timestamps_come_as_text_or_number() {
    assert_eq!(de_string_or_i64(&text("1778955297376")).unwrap(), 1778955297376);
    assert_eq!(
        de_string_or_i64(&Json::Number(JsonNumber::PosInt(1778955297376))).unwrap(),
        1778955297376
    );
    assert_eq!(de_string_or_i64(&text("-9223372036854775808")).unwrap(), i64::MIN);
    assert_eq!(de_string_or_i64(&text("+5")).unwrap(), 5);
    assert_eq!(de_string_or_i64(&Json::Number(JsonNumber::NegInt(-5))).unwrap(), -5);
    assert_eq!(de_string_or_i64(&Json::Number(JsonNumber::PosInt(u64::MAX))).unwrap(), 0);
    assert_eq!(de_string_or_i64(&Json::Number(JsonNumber::Float("1.5".to_owned()))).unwrap(), 0);
    assert_eq!(de_string_or_i64(&Json::Null).unwrap(), 0);
    assert_eq!(de_string_or_i64(&Json::Bool(true)).unwrap(), 0);
}

#[test]
fn timestamps_that_are_no_integer() {
    for t in ["", "-", "+", "1.5", " 5", "5 ", "9223372036854775808", "-9223372036854775809", "x"] {
        let e = de_string_or_i64(&text(t)).unwrap_err();
        assert_eq!(e.cause, t.parse::<i64>().unwrap_err(), "{t}");
    }
    let e = de_string_or_i64(&text("x")).unwrap_err();
    assert_eq!(e.cause.to_string(), "invalid digit found in string");
}
